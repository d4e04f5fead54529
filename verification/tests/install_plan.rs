use aegis_input::installer::plan::{
    install_dir_of, metadata_dir_of, metadata_file_of, service_command, user_check, user_removal,
    user_setup, CommandLine, Failure, FileStep, ServiceAction, INSTALLED_METADATA, UNIT_FILE,
};
use aegis_input::installer::{InstallError, SystemInfo};
use aegis_input::path::paths_equal;

fn argv(c: &CommandLine) -> Vec<&str> {
    let mut v = vec![c.program.as_str()];
    v.extend(c.args.iter().map(|a| a.as_str()));
    v
}

#[test]
fn account_setup_follows_what_exists() {
    let root = SystemInfo { is_root: true, has_systemd: true, has_input_group: false };
    let user = SystemInfo { is_root: false, has_systemd: true, has_input_group: true };
    assert!(matches!(user_check(user, "aegis-input"), Err(InstallError::PermissionDenied)));
    let check = user_check(root, "aegis-input").unwrap();
    assert_eq!(argv(&check), vec!["id", "-u", "aegis-input"]);
    assert_eq!(check.failure, Failure::Installation("Failed to check user".to_string()));

    let fresh = user_setup(root, "aegis-input", false);
    let lines: Vec<Vec<&str>> = fresh.iter().map(argv).collect();
    assert_eq!(
        lines,
        vec![
            vec!["useradd", "--system", "--no-create-home", "--shell", "/usr/sbin/nologin", "aegis-input"],
            vec!["groupadd", "input"],
            vec!["usermod", "-aG", "input", "aegis-input"],
        ]
    );
    let with_group = SystemInfo { has_input_group: true, ..root };
    let existing = user_setup(with_group, "aegis-input", true);
    assert_eq!(existing.len(), 1);
    assert_eq!(argv(&existing[0]), vec!["usermod", "-aG", "input", "aegis-input"]);
    assert_eq!(argv(&user_removal("aegis-input")), vec!["userdel", "aegis-input"]);
}

#[test]
fn service_commands_need_systemd() {
    let without = SystemInfo { is_root: true, has_systemd: false, has_input_group: true };
    let with = SystemInfo { is_root: false, has_systemd: true, has_input_group: true };
    assert!(matches!(service_command(without, ServiceAction::Start), Err(InstallError::SystemdNotAvailable)));
    assert_eq!(argv(&service_command(with, ServiceAction::Start).unwrap()), vec!["systemctl", "start", "aegis-input"]);
    assert_eq!(argv(&service_command(with, ServiceAction::IsEnabled).unwrap()), vec!["systemctl", "is-enabled", "aegis-input"]);
    assert_eq!(service_command(with, ServiceAction::Disable).unwrap().failure, Failure::Service);
}

#[test]
fn failures_name_their_step() {
    assert_eq!(
        Failure::Installation("Failed to create user".to_string()).error("no such file"),
        InstallError::InstallationFailed("Failed to create user: no such file".to_string())
    );
    assert_eq!(
        FileStep::RemoveUnit.failure().error("busy"),
        InstallError::UninstallationFailed("Failed to remove unit file: busy".to_string())
    );
    assert_eq!(Failure::Service.error("gone"), InstallError::ServiceOperationFailed("gone".to_string()));
}

#[test]
fn installation_paths() {
    let install = "/usr/local/bin/aegis-input";
    assert_eq!(install_dir_of(install), Ok("/usr/local/bin".to_string()));
    assert_eq!(
        install_dir_of("/"),
        Err(InstallError::InstallationFailed("Invalid install path".to_string()))
    );
    assert!(paths_equal(&metadata_dir_of(install), "/usr/local/bin/var/lib/aegis-input"));
    assert!(paths_equal(&metadata_file_of(install), "/usr/local/bin/var/lib/aegis-input/install.toml"));
    assert_eq!(metadata_dir_of("/"), "/var/lib/aegis-input");
    assert_eq!(metadata_file_of("aegis-input"), "var/lib/aegis-input/install.toml");
    assert_eq!(INSTALLED_METADATA, "/var/lib/aegis-input/install.toml");
}

#[test]
fn unit_file_declares_the_service() {
    for needed in [
        "[Unit]",
        "[Service]",
        "[Install]",
        "ExecStart=/usr/local/bin/aegis-input run",
        "WantedBy=multi-user.target",
        "User=aegis-input",
        "Group=input",
        "Restart=",
    ] {
        assert!(UNIT_FILE.contains(needed), "missing {}", needed);
    }
}
