//! The command runner's screening step: the decision, taken before anything
//! else, whether a request is executed at all.
//!
//! The remaining runner steps — asking the lifecycle manager for readiness,
//! building the invocation, classifying what came back — live in
//! `lifecycle`, `backend` and `outcome`; the host strings them together
//! around the actual spawn and wait.

use vstd::prelude::*;

use crate::outcome::CommandOutcome;
use crate::text::{is_blank, str_is_blank};

verus! {

/// Step one of command execution: an empty or whitespace-only command is
/// rejected outright, with no isolation context consulted and no process
/// spawned.  Returns the rejection outcome exactly for such commands.
pub fn screen_command(command: &str) -> (r: Option<CommandOutcome>)
    ensures
        r is Some <==> is_blank(command@),
        r == if is_blank(command@) {
            Some(CommandOutcome::NoCommand)
        } else {
            None::<CommandOutcome>
        },
{
    if str_is_blank(command) {
        Some(CommandOutcome::NoCommand)
    } else {
        None
    }
}

} // verus!
