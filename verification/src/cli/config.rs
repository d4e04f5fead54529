//! The `config` command: configuration management.

use vstd::prelude::*;

use crate::text::{lowercase, to_lowercase, trim_chars, trimmed, string_of};

verus! {

/// The arguments of `config`.
#[derive(Debug, Clone, Copy, PartialEq, Eq, Structural)]
pub struct ConfigArgs {
    /// Delete the configuration and the status file.
    pub reset: bool,
}

/// Whether an answer to a yes/no question means yes: once trimmed and lowercased, it
/// starts with `y`.
pub open spec fn confirms(answer: Seq<char>) -> bool {
    let l = lowercase(trimmed(answer));
    l.len() > 0 && l[0] == 'y'
}

/// Whether the answer `input` to a yes/no question means yes.
pub fn is_confirmation(input: &str) -> (r: bool)
    ensures
        r == confirms(input@),
{
    let t = string_of(&trim_chars(input));
    let l = to_lowercase(t.as_str());
    l.unicode_len() > 0 && l.as_str().get_char(0) == 'y'
}

} // verus!
