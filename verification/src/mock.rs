//! A sequential mock of the state store for tests: it applies reducers at
//! once, records every operation, and serves queued outcomes in place of
//! real computations. Races against a cancellation token or a deadline are
//! decided from the queued delay instead of real time.

use vstd::prelude::*;
use vstd::std_specs::cmp::PartialEqSpec;

use core::time::Duration;
use std::collections::VecDeque;
use tokio_util::sync::CancellationToken;

use crate::State;
use crate::async_error::AsyncError;
use crate::async_state::Async;

verus! {

/// One recorded operation on a mock store: a state transition or the commit
/// of an execute outcome.
#[derive(Debug, Clone, PartialEq)]
pub enum StateOperation<S: State + PartialEq, T: Clone + PartialEq + Send + 'static> {
    /// A reducer ran, taking the state from `old_state` to `new_state`.
    StateUpdate { old_state: S, new_state: S },
    /// An execute-family call committed `result`.
    Execute { result: Async<T> },
}

/// A mock store over a state type `S`, recording operations whose execute
/// outcomes carry payloads of type `T`.
///
/// Unlike the live store it serializes nothing: every call takes effect
/// before it returns, in the caller's order.
pub struct MockStateStore<S: State + PartialEq, T: Clone + PartialEq + Send + 'static> {
    state: S,
    operations: Vec<StateOperation<S, T>>,
    // Outcomes are queued as plain values. Queuing an outcome behind a
    // caller-supplied condition would mean storing a boxed closure, which
    // the verifier refuses in any form; a caller that needs one can decide
    // the condition itself and queue the outcome it chose.
    mocked_results: VecDeque<Async<T>>,
    delay: Option<u128>,
}

impl<S: State + PartialEq, T: Clone + PartialEq + Send + 'static> MockStateStore<S, T> {
    /// The current state snapshot.
    pub closed spec fn state_spec(&self) -> S {
        self.state
    }

    /// The recorded operations, oldest first.
    pub closed spec fn operations_spec(&self) -> Seq<StateOperation<S, T>> {
        self.operations@
    }

    /// The queued outcomes, next to be served first.
    pub closed spec fn mocked_results_spec(&self) -> Seq<Async<T>> {
        self.mocked_results@
    }

    /// The mocked latency, in nanoseconds, if one was set.
    pub closed spec fn delay_spec(&self) -> Option<u128> {
        self.delay
    }

    /// Builds a mock store holding the given state, with no history, no
    /// queued outcomes and no mocked latency.
    pub fn new(initial_state: S) -> (r: Self)
        ensures
            r.state_spec() == initial_state,
            r.operations_spec() == Seq::<StateOperation<S, T>>::empty(),
            r.mocked_results_spec() == Seq::<Async<T>>::empty(),
            r.delay_spec() is None,
    {
        MockStateStore {
            state: initial_state,
            operations: Vec::new(),
            mocked_results: VecDeque::new(),
            delay: None,
        }
    }

    /// Hands out a copy of the current state.
    pub fn get_state(&self) -> (r: S)
        ensures
            cloned(self.state_spec(), r),
    {
        self.state.clone()
    }

    /// Applies a reducer to a copy of the current state, stores the outcome,
    /// and records the transition.
    pub fn set_state<F: FnOnce(S) -> S>(&mut self, reducer: F)
        requires
            forall|arg: S| cloned(old(self).state_spec(), arg) ==> call_requires(reducer, (arg,)),
        ensures
            final(self).mocked_results_spec() == old(self).mocked_results_spec(),
            final(self).delay_spec() == old(self).delay_spec(),
            exists|snap: S, arg: S, next: S, stored: S|
                #![trigger call_ensures(reducer, (arg,), next), cloned(old(self).state_spec(), snap), cloned(next, stored)]
                (call_ensures(reducer, (arg,), next)
                && cloned(old(self).state_spec(), snap)
                && cloned(old(self).state_spec(), arg)
                && cloned(next, stored)
                && final(self).state_spec() == stored
                && final(self).operations_spec() == old(self).operations_spec().push(
                    StateOperation::StateUpdate { old_state: snap, new_state: next },
                )),
    {
        let old_snapshot = self.state.clone();
        let arg_state = self.state.clone();
        proof {
            assert(cloned(old(self).state_spec(), old_snapshot));
            assert(cloned(old(self).state_spec(), arg_state));
        }
        let new_state = reducer(arg_state);
        let stored = new_state.clone();
        proof {
            assert(call_ensures(reducer, (arg_state,), new_state));
            assert(cloned(new_state, stored));
        }
        self.state = stored;
        self.operations.push(StateOperation::StateUpdate {
            old_state: old_snapshot,
            new_state,
        });
    }

    /// Queues one outcome for a later execute-family call.
    pub fn mock_result(&mut self, result: Async<T>)
        ensures
            final(self).mocked_results_spec() == old(self).mocked_results_spec().push(result),
            final(self).state_spec() == old(self).state_spec(),
            final(self).operations_spec() == old(self).operations_spec(),
            final(self).delay_spec() == old(self).delay_spec(),
    {
        self.mocked_results.push_back(result);
    }

    /// Queues a sequence of outcomes, served in the given order.
    pub fn mock_sequence_results(&mut self, results: Vec<Async<T>>)
        ensures
            final(self).mocked_results_spec() == old(self).mocked_results_spec() + results@,
            final(self).state_spec() == old(self).state_spec(),
            final(self).operations_spec() == old(self).operations_spec(),
            final(self).delay_spec() == old(self).delay_spec(),
    {
        let ghost all = results@;
        let mut queued: usize = 0;
        let mut remaining = results;
        let total = remaining.len();
        proof {
            assert(old(self).mocked_results_spec() + all.take(0) =~= old(
                self,
            ).mocked_results_spec());
        }
        while remaining.len() > 0
            invariant
                queued + remaining@.len() == total,
                total == all.len(),
                remaining@ == all.skip(queued as int),
                self.mocked_results@ == old(self).mocked_results_spec() + all.take(queued as int),
                self.state == old(self).state_spec(),
                self.operations@ == old(self).operations_spec(),
                self.delay == old(self).delay_spec(),
            decreases remaining@.len(),
        {
            let next = remaining.remove(0);
            proof {
                assert(all.take(queued as int).push(next) =~= all.take(queued as int + 1));
                assert(remaining@ =~= all.skip(queued as int + 1));
            }
            self.mocked_results.push_back(next);
            queued += 1;
        }
        proof {
            assert(all.take(queued as int) =~= all);
        }
    }

    /// Sets the mocked latency consulted by the cancellation and deadline
    /// decisions.
    pub fn set_delay(&mut self, delay: Duration)
        ensures
            final(self).delay_spec() is Some,
            final(self).state_spec() == old(self).state_spec(),
            final(self).operations_spec() == old(self).operations_spec(),
            final(self).mocked_results_spec() == old(self).mocked_results_spec(),
    {
        self.delay = Some(duration_as_nanos(&delay));
    }

    /// Hands out a copy of the recorded operations, oldest first.
    pub fn get_operations(&self) -> (r: Vec<StateOperation<S, T>>)
        ensures
            r@.len() == self.operations_spec().len(),
            forall|i: int| 0 <= i < r@.len() ==> cloned(
                self.operations_spec()[i],
                #[trigger] r@[i],
            ),
    {
        self.operations.clone()
    }

    /// Forgets the recorded operations.
    pub fn clear_operations(&mut self)
        ensures
            final(self).operations_spec() == Seq::<StateOperation<S, T>>::empty(),
            final(self).state_spec() == old(self).state_spec(),
            final(self).mocked_results_spec() == old(self).mocked_results_spec(),
            final(self).delay_spec() == old(self).delay_spec(),
    {
        self.operations.clear();
    }

    /// Whether one recorded operation is the transition from `from` to `to`,
    /// up to the state type's own equality.
    pub open spec fn op_is_transition(op: StateOperation<S, T>, from: S, to: S) -> bool {
        op matches StateOperation::StateUpdate { old_state, new_state } && old_state.eq_spec(&from)
            && new_state.eq_spec(&to)
    }

    /// Whether one recorded operation is a transition ending in `to`, up to
    /// the state type's own equality.
    pub open spec fn op_ends_in(op: StateOperation<S, T>, to: S) -> bool {
        op matches StateOperation::StateUpdate { old_state: _, new_state } && new_state.eq_spec(
            &to,
        )
    }

    /// Whether one recorded operation committed the given outcome.
    pub open spec fn op_committed(op: StateOperation<S, T>, outcome: Async<T>) -> bool {
        op matches StateOperation::Execute { result } && result.same_state(outcome)
    }

    /// Sameness of two recorded operations, up to the state and payload
    /// types' own equality.
    pub open spec fn same_operation(a: StateOperation<S, T>, b: StateOperation<S, T>) -> bool {
        match (a, b) {
            (
                StateOperation::StateUpdate { old_state: ao, new_state: an },
                StateOperation::StateUpdate { old_state: bo, new_state: bn },
            ) => ao.eq_spec(&bo) && an.eq_spec(&bn),
            (
                StateOperation::Execute { result: ar },
                StateOperation::Execute { result: br },
            ) => ar.same_state(br),
            _ => false,
        }
    }

    /// Whether some recorded transition took `from` to `to`, provided the
    /// state type's equality obeys its specification.
    pub fn has_state_transition(&self, from: &S, to: &S) -> (r: bool)
        ensures
            <S as PartialEqSpec>::obeys_eq_spec() ==> r == exists|i: int|
                0 <= i < self.operations_spec().len() && #[trigger] Self::op_is_transition(
                    self.operations_spec()[i],
                    *from,
                    *to,
                ),
    {
        let mut i: usize = 0;
        while i < self.operations.len()
            invariant
                i <= self.operations_spec().len(),
                <S as PartialEqSpec>::obeys_eq_spec() ==> forall|j: int|
                    0 <= j < i ==> !(#[trigger] Self::op_is_transition(
                        self.operations_spec()[j],
                        *from,
                        *to,
                    )),
            decreases self.operations_spec().len() - i,
        {
            match &self.operations[i] {
                StateOperation::StateUpdate { old_state, new_state } => {
                    if old_state == from && new_state == to {
                        proof {
                            assert(<S as PartialEqSpec>::obeys_eq_spec()
                                ==> Self::op_is_transition(self.operations_spec()[i as int], *from, *to));
                        }
                        return true;
                    }
                },
                _ => {},
            }
            proof {
                assert(<S as PartialEqSpec>::obeys_eq_spec() ==> !Self::op_is_transition(
                    self.operations_spec()[i as int],
                    *from,
                    *to,
                ));
            }
            i += 1;
        }
        false
    }

    /// Whether some recorded transition ended in the given state, provided
    /// the state type's equality obeys its specification.
    pub fn history_contains_state(&self, expected: &S) -> (r: bool)
        ensures
            <S as PartialEqSpec>::obeys_eq_spec() ==> r == exists|i: int|
                0 <= i < self.operations_spec().len() && #[trigger] Self::op_ends_in(
                    self.operations_spec()[i],
                    *expected,
                ),
    {
        let mut i: usize = 0;
        while i < self.operations.len()
            invariant
                i <= self.operations_spec().len(),
                <S as PartialEqSpec>::obeys_eq_spec() ==> forall|j: int|
                    0 <= j < i ==> !(#[trigger] Self::op_ends_in(self.operations_spec()[j], *expected)),
            decreases self.operations_spec().len() - i,
        {
            match &self.operations[i] {
                StateOperation::StateUpdate { old_state: _, new_state } => {
                    if new_state == expected {
                        proof {
                            assert(<S as PartialEqSpec>::obeys_eq_spec() ==> Self::op_ends_in(
                                self.operations_spec()[i as int],
                                *expected,
                            ));
                        }
                        return true;
                    }
                },
                _ => {},
            }
            proof {
                assert(<S as PartialEqSpec>::obeys_eq_spec() ==> !Self::op_ends_in(
                    self.operations_spec()[i as int],
                    *expected,
                ));
            }
            i += 1;
        }
        false
    }

    /// Whether some execute commit carried the given outcome, provided the
    /// payload type's equality obeys its specification.
    pub fn history_contains_result(&self, expected: &Async<T>) -> (r: bool)
        ensures
            <T as PartialEqSpec>::obeys_eq_spec() ==> r == exists|i: int|
                0 <= i < self.operations_spec().len() && #[trigger] Self::op_committed(
                    self.operations_spec()[i],
                    *expected,
                ),
    {
        let mut i: usize = 0;
        while i < self.operations.len()
            invariant
                i <= self.operations_spec().len(),
                <T as PartialEqSpec>::obeys_eq_spec() ==> forall|j: int|
                    0 <= j < i ==> !(#[trigger] Self::op_committed(
                        self.operations_spec()[j],
                        *expected,
                    )),
            decreases self.operations_spec().len() - i,
        {
            match &self.operations[i] {
                StateOperation::Execute { result } => {
                    if result.state_equals(expected) {
                        proof {
                            assert(<T as PartialEqSpec>::obeys_eq_spec() ==> Self::op_committed(
                                self.operations_spec()[i as int],
                                *expected,
                            ));
                        }
                        return true;
                    }
                },
                _ => {},
            }
            proof {
                assert(<T as PartialEqSpec>::obeys_eq_spec() ==> !Self::op_committed(
                    self.operations_spec()[i as int],
                    *expected,
                ));
            }
            i += 1;
        }
        false
    }

    /// Whether the history contains the given operation, provided the state
    /// and payload types' equalities obey their specifications.
    pub fn history_contains_operation(&self, expected: &StateOperation<S, T>) -> (r: bool)
        ensures
            <S as PartialEqSpec>::obeys_eq_spec() && <T as PartialEqSpec>::obeys_eq_spec()
                ==> r == exists|i: int|
                0 <= i < self.operations_spec().len() && #[trigger] Self::same_operation(
                    self.operations_spec()[i],
                    *expected,
                ),
    {
        let mut i: usize = 0;
        while i < self.operations.len()
            invariant
                i <= self.operations_spec().len(),
                <S as PartialEqSpec>::obeys_eq_spec() && <T as PartialEqSpec>::obeys_eq_spec()
                    ==> forall|j: int|
                    0 <= j < i ==> !(#[trigger] Self::same_operation(
                        self.operations_spec()[j],
                        *expected,
                    )),
            decreases self.operations_spec().len() - i,
        {
            let here = match (&self.operations[i], expected) {
                (
                    StateOperation::StateUpdate { old_state: ao, new_state: an },
                    StateOperation::StateUpdate { old_state: bo, new_state: bn },
                ) => ao == bo && an == bn,
                (
                    StateOperation::Execute { result: ar },
                    StateOperation::Execute { result: br },
                ) => ar.state_equals(br),
                _ => false,
            };
            if here {
                proof {
                    assert(<S as PartialEqSpec>::obeys_eq_spec()
                        && <T as PartialEqSpec>::obeys_eq_spec() ==> Self::same_operation(
                        self.operations_spec()[i as int],
                        *expected,
                    ));
                }
                return true;
            }
            proof {
                assert(<S as PartialEqSpec>::obeys_eq_spec()
                    && <T as PartialEqSpec>::obeys_eq_spec() ==> !Self::same_operation(
                    self.operations_spec()[i as int],
                    *expected,
                ));
            }
            i += 1;
        }
        false
    }

    /// How a commit reshapes the store: the outcome is recorded, a reducer
    /// built from `updater` and the outcome runs over a copy of the state,
    /// and the transition is recorded; queue and latency stay as they were.
    pub open spec fn commit_shape<U: FnOnce(S, Async<T>) -> S>(
        pre: Self,
        post: Self,
        result: Async<T>,
        updater: U,
    ) -> bool {
        &&& post.mocked_results_spec() == pre.mocked_results_spec()
        &&& post.delay_spec() == pre.delay_spec()
        &&& exists|recorded: Async<T>, snap: S, arg: S, next: S, stored: S|
            #![trigger call_ensures(updater, (arg, result), next), cloned(pre.state_spec(), snap), cloned(next, stored), cloned(result, recorded)]
            (call_ensures(updater, (arg, result), next)
            && cloned(result, recorded)
            && cloned(pre.state_spec(), snap)
            && cloned(pre.state_spec(), arg)
            && cloned(next, stored)
            && post.state_spec() == stored
            && post.operations_spec() == pre.operations_spec().push(
                StateOperation::Execute { result: recorded },
            ).push(StateOperation::StateUpdate { old_state: snap, new_state: next }))
    }

    /// Records the outcome of an execute-family call and applies the state
    /// updater with it.
    fn commit<U: FnOnce(S, Async<T>) -> S>(&mut self, result: Async<T>, state_updater: U)
        requires
            forall|arg: S, res: Async<T>|
                cloned(old(self).state_spec(), arg) && res == result ==> call_requires(
                    state_updater,
                    (arg, res),
                ),
        ensures
            Self::commit_shape(*old(self), *final(self), result, state_updater),
    {
        let recorded = result.clone();
        proof {
            assert(cloned(result, recorded));
        }
        self.operations.push(StateOperation::Execute { result: recorded });
        let old_snapshot = self.state.clone();
        let arg_state = self.state.clone();
        proof {
            assert(cloned(old(self).state_spec(), old_snapshot));
            assert(cloned(old(self).state_spec(), arg_state));
        }
        let next = state_updater(arg_state, result);
        let stored = next.clone();
        proof {
            assert(call_ensures(state_updater, (arg_state, result), next));
            assert(cloned(next, stored));
        }
        self.state = stored;
        self.operations.push(StateOperation::StateUpdate {
            old_state: old_snapshot,
            new_state: next,
        });
    }

    /// Runs a mock execute: serves the next queued outcome, records it, and
    /// commits it through the state updater. The mocked latency plays no
    /// part, since nothing races it.
    pub fn execute<U: FnOnce(S, Async<T>) -> S>(&mut self, state_updater: U)
        requires
            forall|arg: S, res: Async<T>|
                cloned(old(self).state_spec(), arg) ==> call_requires(state_updater, (arg, res)),
        ensures
            exists|mid: Self, served: Async<T>|
                #![trigger Self::commit_shape(mid, *final(self), served, state_updater)]
                (Self::dequeued(*old(self), mid, served)
                && Self::commit_shape(mid, *final(self), served, state_updater)),
    {
        let ghost pre = *self;
        let result = self.next_result();
        let ghost mid = *self;
        self.commit(result, state_updater);
        proof {
            assert(Self::dequeued(pre, mid, result));
        }
    }

    /// How serving one outcome reshapes the store: the queue's head is
    /// served and dropped, or the queue was empty and the no-outcome failure
    /// is served; everything else stays as it was.
    pub open spec fn dequeued(pre: Self, post: Self, served: Async<T>) -> bool {
        &&& post.state_spec() == pre.state_spec()
        &&& post.operations_spec() == pre.operations_spec()
        &&& post.delay_spec() == pre.delay_spec()
        &&& if pre.mocked_results_spec().len() > 0 {
            served == pre.mocked_results_spec()[0] && post.mocked_results_spec()
                == pre.mocked_results_spec().drop_first()
        } else {
            post.mocked_results_spec() == pre.mocked_results_spec() && exists|m: String|
                m@ == "没有预设结果"@ && served == (Async::Fail {
                    error: AsyncError::Error(m),
                    value: None::<T>,
                })
        }
    }

    /// Runs a mock execute that races the mocked latency against the given
    /// cancellation token: with a latency set and the token already
    /// cancelled, the cancellation failure is committed and the queue is
    /// left alone; otherwise it behaves as `execute`.
    pub fn execute_cancellable<U: FnOnce(S, Async<T>) -> S>(
        &mut self,
        cancellation_token: CancellationToken,
        state_updater: U,
    )
        requires
            forall|arg: S, res: Async<T>|
                cloned(old(self).state_spec(), arg) ==> call_requires(state_updater, (arg, res)),
        ensures
            old(self).delay_spec() is Some ==> (Self::commit_shape(
                *old(self),
                *final(self),
                Async::Fail { error: AsyncError::Cancelled, value: None::<T> },
                state_updater,
            ) || exists|mid: Self, served: Async<T>|
                #![trigger Self::commit_shape(mid, *final(self), served, state_updater)]
                (Self::dequeued(*old(self), mid, served)
                && Self::commit_shape(mid, *final(self), served, state_updater))),
            old(self).delay_spec() is None ==> exists|mid: Self, served: Async<T>|
                #![trigger Self::commit_shape(mid, *final(self), served, state_updater)]
                (Self::dequeued(*old(self), mid, served)
                && Self::commit_shape(mid, *final(self), served, state_updater)),
    {
        let cancelled = self.delay.is_some() && token_is_cancelled(&cancellation_token);
        if cancelled {
            self.commit(Async::fail_with_cancelled(None), state_updater);
        } else {
            let ghost pre = *self;
            let result = self.next_result();
            let ghost mid = *self;
            self.commit(result, state_updater);
            proof {
                assert(Self::dequeued(pre, mid, result));
            }
        }
    }

    /// Runs a mock execute under a deadline: with a mocked latency longer
    /// than the deadline, the timeout failure is committed and the queue is
    /// left alone; otherwise it behaves as `execute`.
    pub fn execute_with_timeout<U: FnOnce(S, Async<T>) -> S>(
        &mut self,
        timeout: Duration,
        state_updater: U,
    )
        requires
            forall|arg: S, res: Async<T>|
                cloned(old(self).state_spec(), arg) ==> call_requires(state_updater, (arg, res)),
        ensures
            old(self).delay_spec() is Some ==> (Self::commit_shape(
                *old(self),
                *final(self),
                Async::Fail { error: AsyncError::Timeout, value: None::<T> },
                state_updater,
            ) || exists|mid: Self, served: Async<T>|
                #![trigger Self::commit_shape(mid, *final(self), served, state_updater)]
                (Self::dequeued(*old(self), mid, served)
                && Self::commit_shape(mid, *final(self), served, state_updater))),
            old(self).delay_spec() is None ==> exists|mid: Self, served: Async<T>|
                #![trigger Self::commit_shape(mid, *final(self), served, state_updater)]
                (Self::dequeued(*old(self), mid, served)
                && Self::commit_shape(mid, *final(self), served, state_updater)),
    {
        let deadline = duration_as_nanos(&timeout);
        let timed_out = match self.delay {
            Some(latency) => latency > deadline,
            None => false,
        };
        if timed_out {
            self.commit(Async::fail_with_timeout(None), state_updater);
        } else {
            let ghost pre = *self;
            let result = self.next_result();
            let ghost mid = *self;
            self.commit(result, state_updater);
            proof {
                assert(Self::dequeued(pre, mid, result));
            }
        }
    }

    /// Serves the next queued outcome, or the no-outcome failure when the
    /// queue is empty.
    fn next_result(&mut self) -> (r: Async<T>)
        ensures
            final(self).state_spec() == old(self).state_spec(),
            final(self).operations_spec() == old(self).operations_spec(),
            final(self).delay_spec() == old(self).delay_spec(),
            old(self).mocked_results_spec().len() > 0 ==> r == old(self).mocked_results_spec()[0]
                && final(self).mocked_results_spec() == old(self).mocked_results_spec().drop_first(),
            old(self).mocked_results_spec().len() == 0 ==> final(self).mocked_results_spec()
                == old(self).mocked_results_spec() && exists|m: String|
                m@ == "没有预设结果"@ && r == (Async::Fail {
                    error: AsyncError::Error(m),
                    value: None::<T>,
                }),
    {
        match self.mocked_results.pop_front() {
            Some(result) => result,
            None => {
                let message = "没有预设结果".to_owned();
                Async::Fail { error: AsyncError::Error(message), value: None }
            },
        }
    }
}

/// Relies on `Duration::as_nanos`: the length of the duration in whole
/// nanoseconds.
#[verifier::external_body]
fn duration_as_nanos(d: &Duration) -> u128 {
    d.as_nanos()
}

/// A cancellation token of the asynchronous runtime's companion crate. It is
/// opaque here: the library only ever asks whether it has been cancelled.
#[verifier::external_type_specification]
#[verifier::external_body]
pub struct ExCancellationToken(CancellationToken);

/// Relies on `CancellationToken::is_cancelled`: whether the token has been
/// cancelled. Another actor may cancel it at any moment, so nothing relates
/// two readings.
#[verifier::external_body]
fn token_is_cancelled(token: &CancellationToken) -> bool {
    token.is_cancelled()
}

} // verus!
