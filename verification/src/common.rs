//! Small items that several modules share.

use vstd::prelude::*;
use crate::effect::Command;
use crate::run_context::RunContext;

verus! {

/// The default of a flag that is off unless it is set.
pub fn default_false() -> (r: bool)
    ensures
        !r,
{
    false
}

/// Puts a command under a context: the overlay and the directory of the
/// context, where it has them, become the command's.
pub fn contextualize_command(command: &mut Command, context: &RunContext)
    ensures
        final(command).program == old(command).program,
        final(command).args == old(command).args,
        final(command).shown == old(command).shown,
        final(command).silent == old(command).silent,
        final(command)@.env == (if context@.env is Some {
            context@.env
        } else {
            old(command)@.env
        }),
        final(command)@.dir == (if context@.dir is Some {
            context@.dir
        } else {
            old(command)@.dir
        }),
{
    let copy = context.clone();
    match copy.env {
        None => {},
        Some(envmap) => {
            command.env = Some(envmap);
        },
    }
    match copy.dir {
        None => {},
        Some(dir) => {
            command.dir = Some(dir);
        },
    }
}

} // verus!
