use vstd::prelude::*;

verus! {

/// What a worker does after serving (or failing to receive) a request.
#[derive(Clone, Copy, Debug, PartialEq, Eq, Structural)]
pub enum WorkerStep {
    /// Poll the listener again.
    Continue,
    /// Leave the serving loop: no further response is written.
    Exit,
}

/// Decides a worker's next step from the shutdown flag read at the end of an
/// iteration: once the flag is seen lowered, the worker exits.
pub fn after_iteration(keep_going: bool) -> (r: WorkerStep)
    ensures
        r == WorkerStep::Exit <==> !keep_going,
{
    if keep_going {
        WorkerStep::Continue
    } else {
        WorkerStep::Exit
    }
}

} // verus!
