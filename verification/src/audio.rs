//! Audio playback as the command dispatcher sees it.
//!
//! Playback is delegated to an external collaborator; while none is wired
//! in, handing it a phrase succeeds without doing anything, so a command
//! whose action only answers with a phrase never fails.

use vstd::prelude::*;

use crate::commands::ExecError;

verus! {

/// The playback subsystem needs nothing set up in this build.
pub fn init() -> (r: Result<(), ExecError>)
    ensures
        r is Ok,
{
    Ok(())
}

/// Hands a phrase to the playback collaborator; an unimplemented
/// collaborator swallows the phrase and reports success.
pub fn play(_phrase: &str) -> (r: Result<(), ExecError>)
    ensures
        r is Ok,
{
    Ok(())
}

} // verus!
