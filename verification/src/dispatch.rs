//! The per-message dispatch pipeline: log, authorize, parse, route.
//!
//! Every inbound message passes the same ordered filters. Logging always
//! passes and only records. Authorization drops the message silently when
//! the sender is missing or not permitted — no response, no error, by
//! design, so probes learn nothing. Parsing drops non-commands just as
//! silently. Only then is the one matching handler named.

use vstd::prelude::*;
use vstd::string::StringExecFns;

use crate::commands::{spec_parse_command, Command};
use crate::decimal::{dec_rep, u64_to_string};
use crate::messenger::{AuthFilter, UserId};

verus! {

/// Who sent an inbound message.
pub struct MessageSender {
    pub id: UserId,
    pub username: Option<String>,
}

/// One inbound chat message, as the pipeline sees it.
pub struct InboundMessage {
    pub from: Option<MessageSender>,
    pub text: Option<String>,
}

/// Where the pipeline left a message. Terminal for each message: there are
/// no retries.
#[derive(Debug, Clone, Copy, PartialEq, Eq, Structural)]
pub enum DispatchDecision {
    /// Dropped by authorization; nothing is sent back.
    Rejected,
    /// Authorized but not a command; nothing is sent back.
    Ignored,
    /// Authorized and parsed: exactly this command's handler runs.
    Dispatch(Command),
}

/// What the pipeline decides for a message, given who is permitted.
pub open spec fn spec_dispatch(msg: &InboundMessage, allowed: spec_fn(UserId) -> bool)
    -> DispatchDecision {
    match msg.from {
        None => DispatchDecision::Rejected,
        Some(sender) => if !allowed(sender.id) {
            DispatchDecision::Rejected
        } else {
            match msg.text {
                None => DispatchDecision::Ignored,
                Some(text) => match spec_parse_command(text@) {
                    None => DispatchDecision::Ignored,
                    Some(cmd) => DispatchDecision::Dispatch(cmd),
                },
            }
        },
    }
}

/// Runs the authorization and parsing filters over one message, in order,
/// and names the handler to run, if any.
pub fn dispatch<A: AuthFilter>(msg: &InboundMessage, auth: &A) -> (d: DispatchDecision)
    ensures
        d == spec_dispatch(msg, |u: UserId| auth.spec_allowed(u)),
{
    match &msg.from {
        None => DispatchDecision::Rejected,
        Some(sender) => {
            if !auth.is_allowed(sender.id) {
                DispatchDecision::Rejected
            } else {
                match &msg.text {
                    None => DispatchDecision::Ignored,
                    Some(text) => match Command::parse(text.as_str()) {
                        None => DispatchDecision::Ignored,
                        Some(cmd) => DispatchDecision::Dispatch(cmd),
                    },
                }
            }
        },
    }
}

/// What the logging filter records for a message that has a sender: the
/// sender's id, the username or `unknown`, and the raw text or `[no text]`.
/// A message without a sender is not logged.
pub open spec fn spec_log_line(msg: &InboundMessage) -> Option<Seq<char>> {
    match msg.from {
        None => None,
        Some(sender) => Some(
            "user "@ + dec_rep(sender.id.0 as nat) + " ("@ + (match sender.username {
                Some(name) => name@,
                None => "unknown"@,
            }) + ") Command: "@ + (match msg.text {
                Some(text) => text@,
                None => "[no text]"@,
            }),
        ),
    }
}

/// Renders the logging filter's record for one message. The filter always
/// passes; it never drops a message.
pub fn log_line(msg: &InboundMessage) -> (r: Option<String>)
    ensures
        (r is Some) == (spec_log_line(msg) is Some),
        r matches Some(line) ==> spec_log_line(msg) == Some(line@),
{
    match &msg.from {
        None => None,
        Some(sender) => {
            let name: &str = match &sender.username {
                Some(name) => name.as_str(),
                None => "unknown",
            };
            let text: &str = match &msg.text {
                Some(text) => text.as_str(),
                None => "[no text]",
            };
            let line = "user ".to_owned().concat(u64_to_string(sender.id.0).as_str()).concat(
                " (",
            ).concat(name).concat(") Command: ").concat(text);
            Some(line)
        },
    }
}

/// No response for anyone outside the permitted set: a message whose sender
/// is missing, or not permitted, is rejected before parsing, whatever its
/// text, and no handler is named.
pub proof fn lemma_unauthorized_rejected(msg: &InboundMessage, allowed: spec_fn(UserId) -> bool)
    requires
        msg.from matches Some(sender) ==> !allowed(sender.id),
    ensures
        spec_dispatch(msg, allowed) == DispatchDecision::Rejected,
{
}

/// A permitted sender's command text reaches its handler: when the text
/// parses as a command, the pipeline's decision names exactly that command
/// and no other outcome.
pub proof fn lemma_authorized_command_dispatched(
    msg: &InboundMessage,
    allowed: spec_fn(UserId) -> bool,
    cmd: Command,
)
    requires
        msg.from matches Some(sender) && allowed(sender.id),
        msg.text matches Some(text) && spec_parse_command(text@) == Some(cmd),
    ensures
        spec_dispatch(msg, allowed) == DispatchDecision::Dispatch(cmd),
{
}

/// A permitted sender's non-command text is ignored: nothing is dispatched,
/// and nothing is sent back.
pub proof fn lemma_authorized_non_command_ignored(
    msg: &InboundMessage,
    allowed: spec_fn(UserId) -> bool,
)
    requires
        msg.from matches Some(sender) && allowed(sender.id),
        msg.text matches Some(text) ==> spec_parse_command(text@) is None,
    ensures
        spec_dispatch(msg, allowed) == DispatchDecision::Ignored,
{
}

} // verus!
