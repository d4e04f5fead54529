//! The service configuration: the feature switch and the rules that tell built-in
//! devices from external ones.

use vstd::prelude::*;

use crate::text::{join_path, join_relative, owned, views};

verus! {

/// Which buses count as external (their devices trigger the disabling) and which as
/// internal (their devices are the ones disabled).
#[derive(Debug, Clone, PartialEq, Eq)]
pub struct DeviceRules {
    pub external_buses: Vec<String>,
    pub internal_buses: Vec<String>,
}

/// The bus lists of the default rules.
pub open spec fn default_rules_view(r: DeviceRules) -> bool {
    &&& views(r.external_buses@) == seq!["usb"@, "bluetooth"@]
    &&& views(r.internal_buses@) == seq!["i8042"@, "serio"@, "platform"@, "i2c"@]
}

impl Default for DeviceRules {
    fn default() -> (r: Self)
        ensures
            default_rules_view(r),
    {
        let external_buses = vec![owned("usb"), owned("bluetooth")];
        let internal_buses = vec![owned("i8042"), owned("serio"), owned("platform"), owned("i2c")];
        let r = Self { external_buses, internal_buses };
        assert(views(r.external_buses@) =~= seq!["usb"@, "bluetooth"@]);
        assert(views(r.internal_buses@) =~= seq!["i8042"@, "serio"@, "platform"@, "i2c"@]);
        r
    }
}

/// The feature switch and the device rules.
#[derive(Debug, Clone, PartialEq, Eq)]
pub struct Config {
    pub enabled: bool,
    pub device_rules: DeviceRules,
}

impl Default for Config {
    fn default() -> (c: Self)
        ensures
            !c.enabled,
            default_rules_view(c.device_rules),
    {
        Self { enabled: false, device_rules: DeviceRules::default() }
    }
}

/// Where a file named `file` of the service lives: at `explicit` when that is set,
/// else under `aegis-input/` in the base directory, which is `xdg` when set, else
/// `.config` under `home` when set, else the current directory.
pub open spec fn service_file_path(
    explicit: Option<Seq<char>>,
    xdg: Option<Seq<char>>,
    home: Option<Seq<char>>,
    file: Seq<char>,
) -> Seq<char> {
    match explicit {
        Some(p) => p,
        None => {
            let base = match xdg {
                Some(x) => x,
                None => match home {
                    Some(h) => join_path(h, ".config"@),
                    None => "."@,
                },
            };
            join_path(join_path(base, "aegis-input"@), file)
        },
    }
}

/// The text of an optional string.
pub open spec fn opt_view(o: Option<String>) -> Option<Seq<char>> {
    match o {
        Some(s) => Some(s@),
        None => None,
    }
}

fn service_file(
    explicit: Option<String>,
    xdg: Option<String>,
    home: Option<String>,
    file: &str,
) -> (p: String)
    ensures
        p@ == service_file_path(opt_view(explicit), opt_view(xdg), opt_view(home), file@),
{
    match explicit {
        Some(p) => p,
        None => {
            let base = match xdg {
                Some(x) => x,
                None => match home {
                    Some(h) => join_relative(h.as_str(), ".config"),
                    None => owned("."),
                },
            };
            let dir = join_relative(base.as_str(), "aegis-input");
            join_relative(dir.as_str(), file)
        },
    }
}

/// The configuration file path, given the values of `AEGIS_INPUT_CONFIG`,
/// `XDG_CONFIG_HOME` and `HOME` (each `None` when unset).
pub fn config_path_for(explicit: Option<String>, xdg: Option<String>, home: Option<String>) -> (p:
    String)
    ensures
        p@ == service_file_path(opt_view(explicit), opt_view(xdg), opt_view(home), "config.toml"@),
{
    service_file(explicit, xdg, home, "config.toml")
}

/// The status file path, given the values of `AEGIS_INPUT_STATUS`, `XDG_CONFIG_HOME`
/// and `HOME` (each `None` when unset).
pub fn status_path_for(explicit: Option<String>, xdg: Option<String>, home: Option<String>) -> (p:
    String)
    ensures
        p@ == service_file_path(opt_view(explicit), opt_view(xdg), opt_view(home), "status.toml"@),
{
    service_file(explicit, xdg, home, "status.toml")
}

} // verus!
