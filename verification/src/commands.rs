//! The closed set of commands the bot understands, and how message text is
//! read as one of them.

use vstd::prelude::*;
use vstd::string::StrSliceExecFns;

use crate::text::{eq_ignore_ascii_case, str_eq_ignore_ascii_case};

verus! {

/// The commands the bot understands.
#[derive(Debug, Clone, Copy, PartialEq, Eq, Structural)]
pub enum Command {
    Ping,
    Status,
    Wifi,
    Clients,
    Help,
}

/// What text parses as which command: the marker `/`, then one of the known
/// keywords, letter case ignored. Anything else is no command at all.
pub open spec fn spec_parse_command(text: Seq<char>) -> Option<Command> {
    if text.len() == 0 || text[0] != '/' {
        None
    } else {
        let keyword = text.skip(1);
        if eq_ignore_ascii_case(keyword, "ping"@) {
            Some(Command::Ping)
        } else if eq_ignore_ascii_case(keyword, "status"@) {
            Some(Command::Status)
        } else if eq_ignore_ascii_case(keyword, "wifi"@) {
            Some(Command::Wifi)
        } else if eq_ignore_ascii_case(keyword, "clients"@) {
            Some(Command::Clients)
        } else if eq_ignore_ascii_case(keyword, "help"@) {
            Some(Command::Help)
        } else {
            None
        }
    }
}

impl Command {
    /// Reads message text as a command, or as nothing.
    pub fn parse(text: &str) -> (r: Option<Command>)
        ensures
            r == spec_parse_command(text@),
    {
        let len = text.unicode_len();
        if len == 0 {
            return None;
        }
        if text.get_char(0) != '/' {
            return None;
        }
        let keyword = text.substring_char(1, len);
        proof {
            assert(keyword@ =~= text@.skip(1));
        }
        if str_eq_ignore_ascii_case(keyword, "ping") {
            Some(Command::Ping)
        } else if str_eq_ignore_ascii_case(keyword, "status") {
            Some(Command::Status)
        } else if str_eq_ignore_ascii_case(keyword, "wifi") {
            Some(Command::Wifi)
        } else if str_eq_ignore_ascii_case(keyword, "clients") {
            Some(Command::Clients)
        } else if str_eq_ignore_ascii_case(keyword, "help") {
            Some(Command::Help)
        } else {
            None
        }
    }
}

} // verus!
