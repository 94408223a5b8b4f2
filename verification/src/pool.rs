//! Building the connection pool at startup: how often to try, how long to
//! wait between tries, and when to give up. Building and waiting are left to
//! the caller, which does what each step says and reports how a try went.

use vstd::prelude::*;

verus! {

/// How many tries the pool gets unless told otherwise.
pub const DEFAULT_MAX_RETRIES: u32 = 5;

/// How long to wait after a failed try, in seconds.
pub const RETRY_DELAY_SECONDS: u64 = 5;

/// The most connections the pool holds.
pub const POOL_MAX_SIZE: u32 = 15;

/// The fewest idle connections the pool keeps.
pub const POOL_MIN_IDLE: u32 = 5;

/// How long a caller waits for a connection, in seconds.
pub const POOL_CONNECTION_TIMEOUT_SECONDS: u64 = 30;

/// How long a connection may sit idle, in seconds.
pub const POOL_IDLE_TIMEOUT_SECONDS: u64 = 300;

/// What to do next while the pool is being built.
#[derive(Clone, Copy, Debug, PartialEq, Eq, Structural)]
pub enum PoolStep {
    /// Try to build the pool; this is try number `attempt`, counted from 1.
    Build { attempt: u32 },
    /// Wait `seconds`, then make try number `attempt`.
    Wait { seconds: u64, attempt: u32 },
    /// The pool is built.
    Ready,
    /// No try is left: startup fails.
    GiveUp,
}

/// The first step for a pool that gets `max_retries` tries.
pub open spec fn first_step(max_retries: u32) -> PoolStep {
    if max_retries >= 1 {
        PoolStep::Build { attempt: 1 }
    } else {
        PoolStep::GiveUp
    }
}

/// The step after try number `attempt` of `max_retries`, which built the
/// pool or did not.
pub open spec fn step_after(max_retries: u32, attempt: u32, built: bool) -> PoolStep {
    if built {
        PoolStep::Ready
    } else if attempt < max_retries {
        PoolStep::Wait { seconds: RETRY_DELAY_SECONDS, attempt: (attempt + 1) as u32 }
    } else {
        PoolStep::GiveUp
    }
}

/// The first step for a pool with the default number of tries.
pub fn create_connection_pool() -> (step: PoolStep)
    ensures
        step == first_step(DEFAULT_MAX_RETRIES),
{
    create_connection_pool_with_retries(DEFAULT_MAX_RETRIES)
}

/// The first step for a pool that gets `max_retries` tries in all.
pub fn create_connection_pool_with_retries(max_retries: u32) -> (step: PoolStep)
    ensures
        step == first_step(max_retries),
{
    if max_retries >= 1 {
        PoolStep::Build { attempt: 1 }
    } else {
        PoolStep::GiveUp
    }
}

/// The step after a try. A try that built the pool ends the startup. After
/// one that did not, the next try comes five seconds later, unless it was
/// the last: no try has a number above `max_retries`.
pub fn after_attempt(max_retries: u32, attempt: u32, built: bool) -> (step: PoolStep)
    ensures
        step == step_after(max_retries, attempt, built),
        step matches PoolStep::Wait { attempt: next, .. } ==> next == attempt + 1 && next
            <= max_retries,
{
    if built {
        PoolStep::Ready
    } else if attempt < max_retries {
        PoolStep::Wait { seconds: RETRY_DELAY_SECONDS, attempt: attempt + 1 }
    } else {
        PoolStep::GiveUp
    }
}

} // verus!
