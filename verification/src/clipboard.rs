//! The clipboard bridge for editors: an `:open <path>:<line>` command put on the
//! clipboard with OSC 52.
use crate::open_command;
use crate::open_command::osc52_sequence;
use crate::chars::{decimal_chars, push_chars, push_str, string_of};
use vstd::prelude::*;

verus! {

/// The editor command for `path` at `line`: `:open <path>:<line>`.
pub fn open_command(path: &str, line: u32) -> (r: String)
    ensures
        r@ == open_command::spec_location(":open "@, path@, line),
{
    let mut v: Vec<char> = Vec::new();
    push_str(&mut v, ":open ");
    push_str(&mut v, path);
    v.push(':');
    let d = decimal_chars(line as u64);
    push_chars(&mut v, &d);
    assert(v@ =~= open_command::spec_location(":open "@, path@, line));
    string_of(&v)
}

/// The OSC 52 sequence that puts the `:open` command for `path` at `line` on
/// the clipboard.
pub fn open_command_sequence(path: &str, line: u32) -> (r: String)
    ensures
        r@ == open_command::spec_osc52(open_command::spec_location(":open "@, path@, line)),
{
    let command = open_command(path, line);
    osc52_sequence(command.as_str())
}

} // verus!
