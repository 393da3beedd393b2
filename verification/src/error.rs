//! Failures of the router collaborator, as typed values.
//!
//! A query to the router can fail to start, end with a non-zero exit code, or
//! return output that does not parse. The process that talks to the router
//! reports which happened as plain strings; handlers render the result for the
//! user instead of raising it.

use vstd::prelude::*;
use vstd::string::StringExecFns;

verus! {

/// Why a router query failed.
#[derive(Debug)]
pub enum RouterError {
    /// The router command could not be started.
    Spawn { cmd: String, message: String },
    /// The router command ran and ended with a non-zero exit code.
    NonZeroExit { cmd: String, code: i32, stderr: String },
    /// The router command's output was not valid JSON of the expected shape.
    Json { cmd: String, message: String },
}

impl RouterError {
    /// The one-line description of this failure.
    pub open spec fn spec_message(&self) -> Seq<char> {
        match self {
            RouterError::Spawn { cmd, message } => "unable to execute command "@ + cmd@ + ": "@
                + message@,
            RouterError::NonZeroExit { cmd, code, stderr } => "the command "@ + cmd@
                + " ended with code "@ + crate::decimal::dec_int_rep(*code as int) + ": "@
                + stderr@,
            RouterError::Json { cmd, message } => "unable to parse JSON from "@ + cmd@ + ": "@
                + message@,
        }
    }

    /// Renders the one-line description of this failure.
    pub fn message(&self) -> (r: String)
        ensures
            r@ == self.spec_message(),
    {
        match self {
            RouterError::Spawn { cmd, message } => "unable to execute command ".to_owned().concat(
                cmd.as_str(),
            ).concat(": ").concat(message.as_str()),
            RouterError::NonZeroExit { cmd, code, stderr } => {
                let code_text = crate::decimal::i64_to_string(*code as i64);
                "the command ".to_owned().concat(cmd.as_str()).concat(" ended with code ").concat(
                    code_text.as_str(),
                ).concat(": ").concat(stderr.as_str())
            },
            RouterError::Json { cmd, message } => "unable to parse JSON from ".to_owned().concat(
                cmd.as_str(),
            ).concat(": ").concat(message.as_str()),
        }
    }
}

} // verus!
