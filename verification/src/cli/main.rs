//! The top-level command dispatch and what the commands print.

use vstd::prelude::*;

use crate::service::status::StatusSnapshot;
use crate::text::{decimal, owned, push_decimal, str_eq, views};

verus! {

/// What the program is asked to do.
#[derive(Debug, Clone, Copy, PartialEq, Eq, Structural)]
pub enum Command {
    /// `detect`; `--config-only` skips detection and goes straight to choosing devices.
    Detect { config_only: bool },
    /// `config`; `--reset` (or the word `reset` right after it) resets the configuration.
    Config { reset: bool },
    Enable,
    Disable,
    Status,
    Run,
    /// An unknown or missing command: the usage is shown.
    Usage,
}

/// Whether the option `opt` is among the arguments after the command.
pub open spec fn option_given(args: Seq<Seq<char>>, opt: Seq<char>) -> bool {
    exists|i: int| 2 <= i < args.len() && #[trigger] args[i] == opt
}

/// The command named by the program arguments (the first being the program itself).
pub open spec fn command_of(args: Seq<Seq<char>>) -> Command {
    let cmd = if args.len() > 1 {
        args[1]
    } else {
        ""@
    };
    if cmd == "detect"@ {
        Command::Detect { config_only: option_given(args, "--config-only"@) }
    } else if cmd == "config"@ {
        Command::Config {
            reset: option_given(args, "--reset"@) || (args.len() > 2 && args[2] == "reset"@),
        }
    } else if cmd == "enable"@ {
        Command::Enable
    } else if cmd == "disable"@ {
        Command::Disable
    } else if cmd == "status"@ {
        Command::Status
    } else if cmd == "run"@ {
        Command::Run
    } else {
        Command::Usage
    }
}

/// Whether the option `opt` is among the arguments after the command.
fn has_option(args: &Vec<String>, opt: &str) -> (r: bool)
    ensures
        r == option_given(views(args@), opt@),
{
    let mut i: usize = 2;
    while i < args.len()
        invariant
            2 <= i,
            forall|j: int| 2 <= j < i && j < args.len() ==> args@[j]@ != opt@,
        decreases args.len() - i,
    {
        if str_eq(args[i].as_str(), opt) {
            assert(views(args@)[i as int] == opt@);
            return true;
        }
        i = i + 1;
    }
    proof {
        if option_given(views(args@), opt@) {
            let k = choose|k: int| 2 <= k < views(args@).len() && #[trigger] views(args@)[k] == opt@;
            assert(args@[k]@ == opt@);
        }
    }
    false
}

/// Reads the command from the program arguments.
pub fn parse_command(args: &Vec<String>) -> (c: Command)
    ensures
        c == command_of(views(args@)),
{
    if args.len() <= 1 {
        proof {
            reveal_strlit("");
            reveal_strlit("detect");
            reveal_strlit("config");
            reveal_strlit("enable");
            reveal_strlit("disable");
            reveal_strlit("status");
            reveal_strlit("run");
            assert(views(args@).len() <= 1);
            assert(""@.len() == 0);
            assert(""@ != "detect"@);
        }
        return Command::Usage;
    }
    let cmd = args[1].as_str();
    if str_eq(cmd, "detect") {
        Command::Detect { config_only: has_option(args, "--config-only") }
    } else if str_eq(cmd, "config") {
        let reset = has_option(args, "--reset") || (args.len() > 2 && str_eq(
            args[2].as_str(),
            "reset",
        ));
        Command::Config { reset }
    } else if str_eq(cmd, "enable") {
        Command::Enable
    } else if str_eq(cmd, "disable") {
        Command::Disable
    } else if str_eq(cmd, "status") {
        Command::Status
    } else if str_eq(cmd, "run") {
        Command::Run
    } else {
        Command::Usage
    }
}

/// The usage line shown for an unknown command.
pub fn usage_text() -> (s: String)
    ensures
        s@ == "Usage: aegis-input <enable|disable|status|run|detect|config>"@,
{
    owned("Usage: aegis-input <enable|disable|status|run|detect|config>")
}

/// How a boolean is printed.
pub open spec fn bool_text(b: bool) -> Seq<char> {
    if b {
        "true"@
    } else {
        "false"@
    }
}

/// `prefix` followed by a boolean value.
pub fn bool_line(prefix: &str, value: bool) -> (s: String)
    ensures
        s@ == prefix@ + bool_text(value),
{
    let mut s = owned(prefix);
    if value {
        s.push_str("true");
    } else {
        s.push_str("false");
    }
    s
}

/// `prefix` followed by a count.
pub fn count_line(prefix: &str, value: usize) -> (s: String)
    ensures
        s@ == prefix@ + decimal(value as nat),
{
    let mut s = owned(prefix);
    push_decimal(&mut s, value as u64);
    s
}

/// The lines `status` prints for a snapshot, in order.
pub open spec fn status_lines(s: StatusSnapshot) -> Seq<Seq<char>> {
    seq![
        "enabled="@ + bool_text(s.enabled),
        "keyboard_external_count="@ + decimal(s.keyboard_external_count as nat),
        "pointing_external_count="@ + decimal(s.pointing_external_count as nat),
        "keyboard_disabled="@ + bool_text(s.keyboard_disabled),
        "pointing_disabled="@ + bool_text(s.pointing_disabled),
    ]
}

/// The lines `status` prints.
pub fn status_report(status: &StatusSnapshot) -> (lines: Vec<String>)
    ensures
        views(lines@) == status_lines(*status),
{
    let mut lines: Vec<String> = Vec::new();
    lines.push(bool_line("enabled=", status.enabled));
    lines.push(count_line("keyboard_external_count=", status.keyboard_external_count));
    lines.push(count_line("pointing_external_count=", status.pointing_external_count));
    lines.push(bool_line("keyboard_disabled=", status.keyboard_disabled));
    lines.push(bool_line("pointing_disabled=", status.pointing_disabled));
    assert(views(lines@) =~= status_lines(*status));
    lines
}

} // verus!
