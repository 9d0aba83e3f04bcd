//! The decision rules of the store's execute template.
//!
//! An execute-family call runs in steps: announce `Loading` (optionally
//! seeded with a retained payload), race the computation against a
//! cancellation token or a deadline, normalize the raw outcome, and commit it
//! against the state read at commit time. The waiting, spawning and racing
//! are asynchronous shell work outside this library; every decision those
//! steps take is a function here, verified for every value handed back.

use vstd::prelude::*;

use crate::async_error::AsyncError;
use crate::async_state::Async;
use crate::async_state::option_cloned;
use crate::execution_result::ExecutionResult;

verus! {

/// The `Loading` announcement seeded from the freshly read state: it retains
/// a copy of whatever payload that state still carries.
pub fn loading_with_retain<T: Clone>(current: &Async<T>) -> (r: Async<T>)
    ensures
        r is Loading,
        exists|v: Option<T>| #[trigger] option_cloned(current.value_spec(), v)
            && r == (Async::Loading { value: v }),
{
    Async::loading(current.value_ref_clone())
}

/// The outcome of a cancellation-biased race: no winner means the token fired
/// first (or tied), which discards any computed value; otherwise the winning
/// computation's outcome is normalized.
pub fn race_outcome<T: Clone, R: ExecutionResult<T>>(winner: Option<R>) -> (r: Async<T>)
    ensures
        winner matches Some(res) ==> res.converts_to(r),
        winner is None ==> r == (Async::Fail {
            error: AsyncError::Cancelled,
            value: None::<T>,
        }),
{
    match winner {
        Some(res) => res.into_async(),
        None => Async::fail_with_cancelled(None),
    }
}

/// The outcome of a deadline race: no completion before the timer means a
/// timeout failure with nothing retained; otherwise the completed
/// computation's outcome is normalized.
pub fn timeout_outcome<T: Clone, R: ExecutionResult<T>>(completed: Option<R>) -> (r: Async<T>)
    ensures
        completed matches Some(res) ==> res.converts_to(r),
        completed is None ==> r == (Async::Fail {
            error: AsyncError::Timeout,
            value: None::<T>,
        }),
{
    match completed {
        Some(res) => res.into_async(),
        None => Async::fail_with_timeout(None),
    }
}

/// The outcome of joining the spawned computation: a computation that aborted
/// or panicked is caught at this boundary and becomes a general failure
/// carrying the join error's message; a joined outcome is normalized.
pub fn join_outcome<T: Clone, R: ExecutionResult<T>>(joined: Result<R, String>) -> (r: Async<T>)
    ensures
        joined matches Ok(res) ==> res.converts_to(r),
        joined matches Err(m) ==> r == (Async::Fail {
            error: AsyncError::Error(m),
            value: None::<T>,
        }),
{
    match joined {
        Ok(res) => res.into_async(),
        Err(message) => Async::fail(AsyncError::Error(message), None),
    }
}

/// The commit decision when a retain getter is in play: the freshly read
/// state donates a copy of its payload; a cancelled token overrides the
/// outcome with a cancellation failure that keeps that copy, otherwise the
/// outcome adopts it through the retention rule.
pub fn commit_with_retain<T: Clone>(
    outcome: Async<T>,
    current: &Async<T>,
    token_cancelled: bool,
) -> (r: Async<T>)
    ensures
        exists|v: Option<T>| #[trigger] option_cloned(current.value_spec(), v) && r == (
        if token_cancelled {
            Async::Fail { error: AsyncError::Cancelled, value: v }
        } else {
            outcome.with_retained(v)
        }),
{
    let retained = current.value_ref_clone();
    if token_cancelled {
        Async::fail_with_cancelled(retained)
    } else {
        outcome.set_retain_value(retained)
    }
}

/// The commit decision without a retain getter: a cancelled token overrides
/// the outcome with a bare cancellation failure; otherwise the outcome stands
/// as it is.
pub fn commit_plain<T: Clone>(outcome: Async<T>, token_cancelled: bool) -> (r: Async<T>)
    ensures
        r == if token_cancelled {
            Async::Fail { error: AsyncError::Cancelled, value: None::<T> }
        } else {
            outcome
        },
{
    if token_cancelled {
        Async::fail_with_cancelled(None)
    } else {
        outcome
    }
}

} // verus!
