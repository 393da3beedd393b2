//! The router reached over its local RPC command. Running that command and
//! decoding its JSON output are a collaborator's work outside this crate;
//! what stands here is the decision that work does not depend on: reading a
//! finished command's exit into a success or a typed failure.

use vstd::prelude::*;

use crate::error::RouterError;

verus! {

/// The router that answers the status, wireless and client queries.
pub struct OpenWrtRouter;

impl OpenWrtRouter {
    /// A handle on the router; the queries themselves need no state.
    pub fn new() -> OpenWrtRouter {
        OpenWrtRouter
    }

    /// Reads one finished query command's outcome: success passes;
    /// anything else becomes the typed failure carrying the exit code —
    /// `-1` when the process ended without one — and what the command
    /// printed to its error stream.
    pub fn check_success(&self, success: bool, code: Option<i32>, stderr: String) -> (r: Result<
        (),
        RouterError,
    >)
        ensures
            success == (r is Ok),
            r matches Err(e) ==> (e matches RouterError::NonZeroExit {
                cmd,
                code: c,
                stderr: s,
            } && cmd@ == "ubus"@ && c == (match code {
                Some(v) => v as int,
                None => -1,
            }) && s@ == stderr@),
    {
        if success {
            Ok(())
        } else {
            let code_value: i32 = match code {
                Some(v) => v,
                None => -1,
            };
            Err(
                RouterError::NonZeroExit {
                    cmd: "ubus".to_owned(),
                    code: code_value,
                    stderr,
                },
            )
        }
    }
}

} // verus!
