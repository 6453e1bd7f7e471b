//! The execution/blocking bridge, as a value-level model.
//!
//! An executor schedules detached asynchronous work onto a
//! process-wide pool; the spawning itself is outside work the
//! embedding runtime performs. What the library states is the
//! start/await contract: awaiting a started task yields exactly the
//! result the direct call would have produced. The scheduling side —
//! that start returns before the work completes — is a property of the
//! pool, exercised by the test suite, not provable over values.

use vstd::prelude::*;

use crate::error::Error;

verus! {

/// Schedules detached work onto the process-wide pool. Dropping a
/// handle does not cancel the task; the embedding runtime performs the
/// actual spawn.
#[derive(Clone, Copy, Debug, PartialEq, Eq, Structural)]
pub struct TokioExecutor {}

impl TokioExecutor {
    /// The executor; all instances schedule onto the same pool.
    pub fn new() -> (r: TokioExecutor)
        ensures
            r == (TokioExecutor {  }),
    {
        TokioExecutor {  }
    }
}

/// The opaque ownership handle of one started unit of work, carrying
/// the result the work settles to.
pub struct TaskHandle {
    pub outcome: Result<Vec<u8>, Error>,
}

/// The handle that starting a unit of work hands back.
pub open spec fn spec_start(outcome: Result<Vec<u8>, Error>) -> TaskHandle {
    TaskHandle { outcome }
}

/// What awaiting a handle yields.
pub open spec fn spec_await(handle: TaskHandle) -> Result<Vec<u8>, Error> {
    handle.outcome
}

/// Start one unit of work: the caller gets the handle back at once;
/// the settled outcome rides inside it.
pub fn start_task(outcome: Result<Vec<u8>, Error>) -> (r: TaskHandle)
    ensures
        r == spec_start(outcome),
{
    TaskHandle { outcome }
}

/// Await a started task: consumes the handle and yields the very
/// result the direct call would have produced.
pub fn await_task(handle: TaskHandle) -> (r: Result<Vec<u8>, Error>)
    ensures
        r == spec_await(handle),
{
    handle.outcome
}

/// Awaiting a started unit of work yields exactly the result the
/// direct call would have produced: the bridge changes no outcome.
/// That start returns before the work completes is a property of the
/// pool, exercised by the test suite.
pub proof fn lemma_bridge_round_trip(outcome: Result<Vec<u8>, Error>)
    ensures
        spec_await(spec_start(outcome)) == outcome,
{
}


/// The liveness probe of the foreign-function surface.
pub fn opendal_ping() -> (r: i32)
    ensures
        r == 1,
{
    1
}

} // verus!
