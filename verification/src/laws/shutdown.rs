//! What holds of how the connection of a shard is closed.

use vstd::prelude::*;

use crate::error::Error;
use crate::shutdown::{Shutdown, ShutdownStep};

verus! {

/// Where the closing of a connection comes to when all that is done goes as
/// `outcomes` say. Outcomes after the end are left aside.
pub open spec fn closed(state: Shutdown, outcomes: Seq<Result<(), Error>>) -> ShutdownStep
    decreases outcomes.len(),
{
    if outcomes.len() == 0 {
        ShutdownStep::Continue(state)
    } else {
        match state.after(outcomes[0]) {
            ShutdownStep::Continue(next) => closed(next, outcomes.drop_first()),
            step => step,
        }
    }
}

/// Whatever is being done to close a connection, a failure of it ends the closing
/// with that error; and if it is done, what comes next is next.
pub proof fn law_steps_of_a_shutdown(state: Shutdown, error: Error)
    ensures
        state.after(Err(error)) == ShutdownStep::Finish(Err(error)),
        Shutdown::Closing.after(Ok(())) == ShutdownStep::Continue(Shutdown::Flushing),
        Shutdown::Flushing.after(Ok(())) == ShutdownStep::Continue(Shutdown::Stopping),
        Shutdown::Stopping.after(Ok(())) == ShutdownStep::Finish(Ok(())),
{
}

/// The closing of a connection is good if the message, the writing and the
/// shutdown are, and ends with the first error otherwise.
pub proof fn law_shutdown(outcomes: Seq<Result<(), Error>>)
    requires
        outcomes.len() == 3,
    ensures
        closed(Shutdown::Closing, outcomes) == ShutdownStep::Finish(
            if outcomes[0] is Err {
                outcomes[0]
            } else if outcomes[1] is Err {
                outcomes[1]
            } else {
                outcomes[2]
            },
        ),
{
    let first = outcomes.drop_first();
    let second = first.drop_first();
    assert(first[0] == outcomes[1] && second[0] == outcomes[2]);
    reveal_with_fuel(closed, 4);
    if let Ok(unit) = outcomes[2] {
        assert(unit == ());
    }
}

} // verus!
