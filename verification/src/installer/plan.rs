//! What the Linux installer runs at each step, decided from what it found out about the
//! machine, and how a step that could not be carried out is reported.

use vstd::prelude::*;

use crate::installer::{InstallError, InstallErrorView, SystemInfo};
use crate::path::{joined_key, parent_key, parent_of, parent_or_root, path_join, path_key, root_path, PathKey};
use crate::text::{owned, views};

verus! {

/// How a step that could not be carried out is reported: as a failed installation or
/// uninstallation, with a text put before the cause, or as a failed service operation.
#[derive(Debug, Clone, PartialEq, Eq)]
pub enum Failure {
    Installation(String),
    Uninstallation(String),
    Service,
}

/// A failure report with its text as a character sequence.
pub ghost enum FailureView {
    Installation(Seq<char>),
    Uninstallation(Seq<char>),
    Service,
}

impl View for Failure {
    type V = FailureView;

    open spec fn view(&self) -> FailureView {
        match self {
            Failure::Installation(t) => FailureView::Installation(t@),
            Failure::Uninstallation(t) => FailureView::Uninstallation(t@),
            Failure::Service => FailureView::Service,
        }
    }
}

/// The error reported when a step fails because of `cause`.
pub open spec fn failure_error_view(f: FailureView, cause: Seq<char>) -> InstallErrorView {
    match f {
        FailureView::Installation(t) => InstallErrorView::InstallationFailed(t + ": "@ + cause),
        FailureView::Uninstallation(t) => InstallErrorView::UninstallationFailed(t + ": "@ + cause),
        FailureView::Service => InstallErrorView::ServiceOperationFailed(cause),
    }
}

impl Failure {
    /// The error to report when the step fails because of `cause`.
    pub fn error(&self, cause: &str) -> (e: InstallError)
        ensures
            e@ == failure_error_view(self@, cause@),
    {
        match self {
            Failure::Installation(t) => {
                let mut s = owned(t.as_str());
                s.push_str(": ");
                s.push_str(cause);
                InstallError::InstallationFailed(s)
            },
            Failure::Uninstallation(t) => {
                let mut s = owned(t.as_str());
                s.push_str(": ");
                s.push_str(cause);
                InstallError::UninstallationFailed(s)
            },
            Failure::Service => InstallError::ServiceOperationFailed(owned(cause)),
        }
    }
}

/// A program the installer runs, its arguments, and how it is reported when it cannot be
/// run.
#[derive(Debug, Clone)]
pub struct CommandLine {
    pub program: String,
    pub args: Vec<String>,
    pub failure: Failure,
}

impl View for CommandLine {
    type V = (Seq<char>, Seq<Seq<char>>, FailureView);

    open spec fn view(&self) -> (Seq<char>, Seq<Seq<char>>, FailureView) {
        (self.program@, views(self.args@), self.failure@)
    }
}

/// The commands of a list, each by its view.
pub open spec fn command_views(v: Seq<CommandLine>) -> Seq<(Seq<char>, Seq<Seq<char>>, FailureView)> {
    v.map_values(|c: CommandLine| c@)
}

fn command(program: &str, args: Vec<String>, failure: Failure) -> (c: CommandLine)
    ensures
        c@ == (program@, views(args@), failure@),
{
    CommandLine { program: owned(program), args, failure }
}

fn one(a: &str) -> (v: Vec<String>)
    ensures
        views(v@) == seq![a@],
{
    let v = vec![owned(a)];
    assert(views(v@) =~= seq![a@]);
    v
}

fn two(a: &str, b: &str) -> (v: Vec<String>)
    ensures
        views(v@) == seq![a@, b@],
{
    let v = vec![owned(a), owned(b)];
    assert(views(v@) =~= seq![a@, b@]);
    v
}

fn three(a: &str, b: &str, c: &str) -> (v: Vec<String>)
    ensures
        views(v@) == seq![a@, b@, c@],
{
    let v = vec![owned(a), owned(b), owned(c)];
    assert(views(v@) =~= seq![a@, b@, c@]);
    v
}

/// The command that tells whether the service account exists.
pub open spec fn user_check_view(user: Seq<char>) -> (Seq<char>, Seq<Seq<char>>, FailureView) {
    ("id"@, seq!["-u"@, user], FailureView::Installation("Failed to check user"@))
}

/// Setting up the service account needs root; then `id -u` tells whether it exists.
pub fn user_check(info: SystemInfo, user: &str) -> (r: Result<CommandLine, InstallError>)
    ensures
        !info.is_root ==> (r matches Err(e) && e == InstallError::PermissionDenied),
        info.is_root ==> (r matches Ok(c) && c@ == user_check_view(user@)),
{
    if !info.is_root {
        return Err(InstallError::PermissionDenied);
    }
    Ok(command("id", two("-u", user), Failure::Installation(owned("Failed to check user"))))
}

/// The commands that set the service account up: it is created if it does not exist,
/// the `input` group is created if the machine has none, and the account joins it.
pub open spec fn user_setup_view(has_input_group: bool, user: Seq<char>, user_exists: bool) -> Seq<
    (Seq<char>, Seq<Seq<char>>, FailureView),
> {
    (if user_exists {
        Seq::empty()
    } else {
        seq![
            (
                "useradd"@,
                seq![
                    "--system"@,
                    "--no-create-home"@,
                    "--shell"@,
                    "/usr/sbin/nologin"@,
                    user,
                ],
                FailureView::Installation("Failed to create user"@),
            ),
        ]
    }) + (if has_input_group {
        Seq::empty()
    } else {
        seq![("groupadd"@, seq!["input"@], FailureView::Installation("Failed to create group"@))]
    }) + seq![
        (
            "usermod"@,
            seq!["-aG"@, "input"@, user],
            FailureView::Installation("Failed to add user to group"@),
        ),
    ]
}

/// The commands that set the service account up, once `user_check` has told whether it
/// exists.
pub fn user_setup(info: SystemInfo, user: &str, user_exists: bool) -> (cmds: Vec<CommandLine>)
    ensures
        command_views(cmds@) == user_setup_view(info.has_input_group, user@, user_exists),
{
    let mut cmds: Vec<CommandLine> = Vec::new();
    if !user_exists {
        let args = vec![
            owned("--system"),
            owned("--no-create-home"),
            owned("--shell"),
            owned("/usr/sbin/nologin"),
            owned(user),
        ];
        assert(views(args@) =~= seq![
            "--system"@,
            "--no-create-home"@,
            "--shell"@,
            "/usr/sbin/nologin"@,
            user@,
        ]);
        cmds.push(command("useradd", args, Failure::Installation(owned("Failed to create user"))));
    }
    if !info.has_input_group {
        cmds.push(command("groupadd", one("input"), Failure::Installation(owned("Failed to create group"))));
    }
    cmds.push(
        command(
            "usermod",
            three("-aG", "input", user),
            Failure::Installation(owned("Failed to add user to group")),
        ),
    );
    assert(command_views(cmds@) =~= user_setup_view(info.has_input_group, user@, user_exists));
    cmds
}

/// What the installer asks systemd to do with the service.
#[derive(Debug, Clone, Copy, PartialEq, Eq, Structural)]
pub enum ServiceAction {
    Start,
    Stop,
    Enable,
    Disable,
    /// Whether it runs.
    IsActive,
    /// Whether it starts at boot.
    IsEnabled,
}

/// The `systemctl` verb of an action.
pub open spec fn action_verb(a: ServiceAction) -> Seq<char> {
    match a {
        ServiceAction::Start => "start"@,
        ServiceAction::Stop => "stop"@,
        ServiceAction::Enable => "enable"@,
        ServiceAction::Disable => "disable"@,
        ServiceAction::IsActive => "is-active"@,
        ServiceAction::IsEnabled => "is-enabled"@,
    }
}

fn verb(a: ServiceAction) -> (r: &'static str)
    ensures
        r@ == action_verb(a),
{
    match a {
        ServiceAction::Start => "start",
        ServiceAction::Stop => "stop",
        ServiceAction::Enable => "enable",
        ServiceAction::Disable => "disable",
        ServiceAction::IsActive => "is-active",
        ServiceAction::IsEnabled => "is-enabled",
    }
}

/// A service operation needs systemd; it runs `systemctl <verb> aegis-input`.
pub fn service_command(info: SystemInfo, action: ServiceAction) -> (r: Result<CommandLine, InstallError>)
    ensures
        !info.has_systemd ==> (r matches Err(e) && e == InstallError::SystemdNotAvailable),
        info.has_systemd ==> (r matches Ok(c) && c@ == (
            "systemctl"@,
            seq![action_verb(action), "aegis-input"@],
            FailureView::Service,
        )),
{
    if !info.has_systemd {
        return Err(InstallError::SystemdNotAvailable);
    }
    Ok(command("systemctl", two(verb(action), "aegis-input"), Failure::Service))
}

/// The command that deletes the service account when uninstalling.
pub fn user_removal(user: &str) -> (c: CommandLine)
    ensures
        c@ == ("userdel"@, seq![user@], FailureView::Uninstallation("Failed to delete user"@)),
{
    command("userdel", one(user), Failure::Uninstallation(owned("Failed to delete user")))
}

/// A step of the installer that works on files.
#[derive(Debug, Clone, Copy, PartialEq, Eq, Structural)]
pub enum FileStep {
    WriteUnit,
    UnitPermissions,
    CreateInstallDir,
    InstallDirPermissions,
    CreateMetadataDir,
    SerializeMetadata,
    WriteMetadata,
    MetadataPermissions,
    RemoveMetadata,
    RemoveMetadataDir,
    RemoveUnit,
}

/// How a file step that could not be carried out is reported.
pub open spec fn file_failure_view(step: FileStep) -> FailureView {
    match step {
        FileStep::WriteUnit => FailureView::Installation("Failed to write unit file"@),
        FileStep::UnitPermissions => FailureView::Installation("Failed to set permissions"@),
        FileStep::CreateInstallDir => FailureView::Installation("Failed to create install dir"@),
        FileStep::InstallDirPermissions => FailureView::Installation(
            "Failed to set install dir permissions"@,
        ),
        FileStep::CreateMetadataDir => FailureView::Installation("Failed to create metadata dir"@),
        FileStep::SerializeMetadata => FailureView::Installation("Failed to serialize metadata"@),
        FileStep::WriteMetadata => FailureView::Installation("Failed to write metadata"@),
        FileStep::MetadataPermissions => FailureView::Installation(
            "Failed to set metadata permissions"@,
        ),
        FileStep::RemoveMetadata => FailureView::Uninstallation("Failed to remove metadata"@),
        FileStep::RemoveMetadataDir => FailureView::Uninstallation("Failed to remove metadata dir"@),
        FileStep::RemoveUnit => FailureView::Uninstallation("Failed to remove unit file"@),
    }
}

impl FileStep {
    /// How this step is reported when it cannot be carried out.
    pub fn failure(self) -> (f: Failure)
        ensures
            f@ == file_failure_view(self),
    {
        match self {
            FileStep::WriteUnit => Failure::Installation(owned("Failed to write unit file")),
            FileStep::UnitPermissions => Failure::Installation(owned("Failed to set permissions")),
            FileStep::CreateInstallDir => Failure::Installation(owned("Failed to create install dir")),
            FileStep::InstallDirPermissions => Failure::Installation(
                owned("Failed to set install dir permissions"),
            ),
            FileStep::CreateMetadataDir => Failure::Installation(
                owned("Failed to create metadata dir"),
            ),
            FileStep::SerializeMetadata => Failure::Installation(owned("Failed to serialize metadata")),
            FileStep::WriteMetadata => Failure::Installation(owned("Failed to write metadata")),
            FileStep::MetadataPermissions => Failure::Installation(
                owned("Failed to set metadata permissions"),
            ),
            FileStep::RemoveMetadata => Failure::Uninstallation(owned("Failed to remove metadata")),
            FileStep::RemoveMetadataDir => Failure::Uninstallation(
                owned("Failed to remove metadata dir"),
            ),
            FileStep::RemoveUnit => Failure::Uninstallation(owned("Failed to remove unit file")),
        }
    }
}

/// Where `get_metadata` reads the installation metadata.
pub const INSTALLED_METADATA: &'static str = "/var/lib/aegis-input/install.toml";

/// The directory the program is installed into: the parent of its path.
pub fn install_dir_of(install_path: &str) -> (r: Result<String, InstallError>)
    ensures
        match r {
            Ok(d) => parent_key(path_key(install_path@)) == Some(path_key(d@)),
            Err(e) => parent_key(path_key(install_path@)) is None && e@
                == InstallErrorView::InstallationFailed("Invalid install path"@),
        },
{
    match parent_of(install_path) {
        Some(d) => Ok(d),
        None => Err(InstallError::InstallationFailed(owned("Invalid install path"))),
    }
}

/// Where an installation writes its metadata: `var/lib/aegis-input` under the directory
/// of the install path, or under the root when the path has no parent.
pub open spec fn metadata_dir_key(install_path: Seq<char>) -> PathKey {
    joined_key(parent_or_root(path_key(install_path)), path_key("var/lib/aegis-input"@))
}

/// The directory an installation writes its metadata into.
pub fn metadata_dir_of(install_path: &str) -> (r: String)
    ensures
        path_key(r@) == metadata_dir_key(install_path@),
{
    let base = match parent_of(install_path) {
        Some(d) => d,
        None => root_path(),
    };
    proof {
        reveal_strlit("var/lib/aegis-input");
    }
    path_join(base.as_str(), "var/lib/aegis-input")
}

/// The metadata file an installation writes: `install.toml` in its metadata directory.
pub fn metadata_file_of(install_path: &str) -> (r: String)
    ensures
        path_key(r@) == joined_key(metadata_dir_key(install_path@), path_key("install.toml"@)),
{
    let dir = metadata_dir_of(install_path);
    proof {
        reveal_strlit("install.toml");
    }
    path_join(dir.as_str(), "install.toml")
}

/// The systemd unit installed for the service.
pub const UNIT_FILE: &'static str = "[Unit]
Description=Aegis Input - disable built-in keyboard and touchpad while external ones are attached
After=multi-user.target

[Service]
Type=simple
ExecStart=/usr/local/bin/aegis-input run
Restart=on-failure
RestartSec=2
User=aegis-input
Group=input

[Install]
WantedBy=multi-user.target
";

} // verus!
