//! The finite-state value describing one asynchronous operation: not yet
//! started, in flight, finished with a value, or failed — the latter two
//! optionally carrying a previously successful payload.

use vstd::prelude::*;
use vstd::std_specs::cmp::PartialEqSpec;

use crate::async_error::AsyncError;

verus! {

/// Relates two optional values as original and clone: both absent, or the
/// present one a clone of the other.
pub open spec fn option_cloned<T: Clone>(a: Option<T>, b: Option<T>) -> bool {
    match (a, b) {
        (Some(x), Some(y)) => cloned(x, y),
        (None, None) => true,
        _ => false,
    }
}

/// The lifecycle of one asynchronous operation over a payload type `T`.
///
/// `Loading` and `Fail` may retain a copy of a previously successful payload,
/// so that observers can keep showing the last good value.
#[derive(Debug, Clone, PartialEq, Eq, Hash, Default)]
pub enum Async<T: Clone> {
    /// No operation has been attempted yet.
    #[default]
    Uninitialized,
    /// An operation is in flight; `value` may retain a previous payload.
    Loading { value: Option<T> },
    /// The operation finished; `value` is authoritative.
    Success { value: T },
    /// The operation failed; `value` may retain a previous payload.
    Fail { error: AsyncError, value: Option<T> },
}

impl<T: Clone> Async<T> {
    /// The payload this state carries, from whichever variant holds one.
    pub open spec fn value_spec(self) -> Option<T> {
        match self {
            Async::Uninitialized => None,
            Async::Loading { value } => value,
            Async::Success { value } => Some(value),
            Async::Fail { value, .. } => value,
        }
    }

    /// The error of a failed state, if this is one.
    pub open spec fn error_spec(self) -> Option<AsyncError> {
        match self {
            Async::Fail { error, .. } => Some(error),
            _ => None,
        }
    }

    /// This state with its retained slot replaced, where a retained slot
    /// exists (`Loading` and `Fail`); other states are unchanged.
    pub open spec fn with_retained(self, retained: Option<T>) -> Async<T> {
        match self {
            Async::Loading { .. } => Async::Loading { value: retained },
            Async::Fail { error, .. } => Async::Fail { error, value: retained },
            _ => self,
        }
    }

    /// True when the operation has come to an end, well or badly.
    pub fn is_complete(&self) -> (r: bool)
        ensures
            r == (self is Success || self is Fail),
    {
        matches!(self, Async::Success { .. } | Async::Fail { .. })
    }

    /// True when a (re)load is called for: nothing was ever run, or the last
    /// run failed.
    pub fn should_load(&self) -> (r: bool)
        ensures
            r == (self is Uninitialized || self is Fail),
    {
        matches!(self, Async::Uninitialized | Async::Fail { .. })
    }

    /// True while no operation has finished: never started, or still running.
    pub fn is_incomplete(&self) -> (r: bool)
        ensures
            r == (self is Uninitialized || self is Loading),
    {
        matches!(self, Async::Uninitialized | Async::Loading { .. })
    }

    /// True exactly on the initial state.
    pub fn is_uninitialized(&self) -> (r: bool)
        ensures
            r == (self is Uninitialized),
    {
        matches!(self, Async::Uninitialized)
    }

    /// True exactly while an operation is in flight.
    pub fn is_loading(&self) -> (r: bool)
        ensures
            r == (self is Loading),
    {
        matches!(self, Async::Loading { .. })
    }

    /// True exactly on a successful completion.
    pub fn is_success(&self) -> (r: bool)
        ensures
            r == (self is Success),
    {
        matches!(self, Async::Success { .. })
    }

    /// True exactly on a failed completion.
    pub fn is_fail(&self) -> (r: bool)
        ensures
            r == (self is Fail),
    {
        matches!(self, Async::Fail { .. })
    }

    /// True when the state is a failure carrying a general error.
    pub fn is_fail_with_error(&self) -> (r: bool)
        ensures
            r == (self.error_spec() matches Some(e) && e is Error),
    {
        if let Async::Fail { error, .. } = self {
            error.is_error()
        } else {
            false
        }
    }

    /// True when the state is a failure because no value was produced.
    pub fn is_fail_with_none(&self) -> (r: bool)
        ensures
            r == (self.error_spec() matches Some(e) && e is NoneResult),
    {
        if let Async::Fail { error, .. } = self {
            error.is_none()
        } else {
            false
        }
    }

    /// True when the state is a failure from a lost cancellation race.
    pub fn is_fail_with_canceled(&self) -> (r: bool)
        ensures
            r == (self.error_spec() matches Some(e) && e is Cancelled),
    {
        if let Async::Fail { error, .. } = self {
            error.is_cancelled()
        } else {
            false
        }
    }

    /// True when the state is a failure from a missed deadline.
    pub fn is_fail_with_timeout(&self) -> (r: bool)
        ensures
            r == (self.error_spec() matches Some(e) && e is Timeout),
    {
        if let Async::Fail { error, .. } = self {
            error.is_timeout()
        } else {
            false
        }
    }

    /// Consumes the state and hands out the payload of whichever variant
    /// carries one.
    pub fn value(self) -> (r: Option<T>)
        ensures
            r == self.value_spec(),
    {
        match self {
            Async::Uninitialized => None,
            Async::Loading { value } => value,
            Async::Success { value } => Some(value),
            Async::Fail { value, .. } => value,
        }
    }

    /// Borrows the payload of whichever variant carries one.
    pub fn value_ref(&self) -> (r: Option<&T>)
        ensures
            match r {
                Some(v) => self.value_spec() == Some(*v),
                None => self.value_spec() is None,
            },
    {
        match self {
            Async::Loading { value: Some(value) } => Some(value),
            Async::Success { value } => Some(value),
            Async::Fail { value: Some(value), .. } => Some(value),
            _ => None,
        }
    }

    /// Clones the payload of whichever variant carries one.
    pub fn value_ref_clone(&self) -> (r: Option<T>)
        ensures
            option_cloned(self.value_spec(), r),
    {
        match self {
            Async::Loading { value: Some(value) } => Some(value.clone()),
            Async::Success { value } => Some(value.clone()),
            Async::Fail { value: Some(value), .. } => Some(value.clone()),
            _ => None,
        }
    }

    /// Replaces the retained slot of a `Loading` or `Fail` state; leaves
    /// `Uninitialized` and `Success` untouched.
    pub fn set_retain_value(self, value: Option<T>) -> (r: Self)
        ensures
            r == self.with_retained(value),
    {
        match self {
            Async::Loading { .. } => Async::Loading { value },
            Async::Fail { error, .. } => Async::Fail { error, value },
            _ => self,
        }
    }

    /// Reconciles this just-computed outcome against the state read at commit
    /// time: a fresh success wins unchanged; a failure adopts a copy of
    /// whatever payload the freshly read state still carries; any other
    /// outcome passes through untouched.
    pub fn success_or_fail_with_retain<'a, F: FnOnce() -> &'a Async<T>>(
        self,
        current_getter: F,
    ) -> (r: Self) where T: 'a
        requires
            call_requires(current_getter, ()),
        ensures
            !(self is Fail) ==> r == self,
            self matches Async::Fail { error: e, value: _ } ==> exists|cur: &'a Async<T>, v: Option<T>|
                #![trigger call_ensures(current_getter, (), cur), option_cloned(cur.value_spec(), v)]
                call_ensures(current_getter, (), cur)
                && option_cloned(cur.value_spec(), v)
                && r == (Async::Fail { error: e, value: v }),
    {
        match self {
            Async::Fail { error, .. } => {
                let current = current_getter();
                let retained = current.value_ref_clone();
                Async::Fail { error, value: retained }
            },
            _ => self,
        }
    }

    /// Builds an in-flight state, optionally retaining a previous payload.
    pub fn loading(value: Option<T>) -> (r: Self)
        ensures
            r == (Async::Loading { value }),
    {
        Async::Loading { value }
    }

    /// Builds a successful completion.
    pub fn success(value: T) -> (r: Self)
        ensures
            r == (Async::Success { value }),
    {
        Async::Success { value }
    }

    /// Builds a failed completion with the given error and retained payload.
    pub fn fail(error: AsyncError, value: Option<T>) -> (r: Self)
        ensures
            r == (Async::Fail { error, value }),
    {
        Async::Fail { error, value }
    }

    /// Builds the failure of a lost cancellation race.
    pub fn fail_with_cancelled(value: Option<T>) -> (r: Self)
        ensures
            r == (Async::Fail { error: AsyncError::Cancelled, value }),
    {
        Async::Fail { error: AsyncError::Cancelled, value }
    }

    /// Builds the failure of a missed deadline.
    pub fn fail_with_timeout(value: Option<T>) -> (r: Self)
        ensures
            r == (Async::Fail { error: AsyncError::Timeout, value }),
    {
        Async::Fail { error: AsyncError::Timeout, value }
    }

    /// Builds a general failure from anything that converts to a message;
    /// the carried text is what that conversion produced.
    pub fn fail_with_message(message: impl Into<String>, value: Option<T>) -> (r: Self)
        ensures
            exists|m: String| #[trigger] call_ensures(Into::into, (message,), m)
                && r == (Async::Fail { error: AsyncError::Error(m), value }),
    {
        let error = AsyncError::Error(message.into());
        Async::Fail { error, value }
    }

    /// Builds the failure of a computation that produced no value.
    pub fn fail_with_none(value: Option<T>) -> (r: Self)
        ensures
            r == (Async::Fail { error: AsyncError::NoneResult, value }),
    {
        Async::Fail { error: AsyncError::NoneResult, value }
    }
}

impl<T: Clone + PartialEq> Async<T> {
    /// Sameness of two optional payloads, up to the payload type's own
    /// equality.
    pub open spec fn same_payload(a: Option<T>, b: Option<T>) -> bool {
        match (a, b) {
            (Some(x), Some(y)) => x.eq_spec(&y),
            (None, None) => true,
            _ => false,
        }
    }

    /// Sameness of two states: the same variant, the same error, and the
    /// same payload up to the payload type's own equality.
    pub open spec fn same_state(self, other: Async<T>) -> bool {
        match (self, other) {
            (Async::Uninitialized, Async::Uninitialized) => true,
            (Async::Loading { value: a }, Async::Loading { value: b }) => Self::same_payload(a, b),
            (Async::Success { value: a }, Async::Success { value: b }) => a.eq_spec(&b),
            (
                Async::Fail { error: e1, value: a },
                Async::Fail { error: e2, value: b },
            ) => e1.same_error(e2) && Self::same_payload(a, b),
            _ => false,
        }
    }

    /// Whether this state is the same as another, provided the payload
    /// type's equality obeys its specification.
    pub fn state_equals(&self, other: &Async<T>) -> (r: bool)
        ensures
            <T as PartialEqSpec>::obeys_eq_spec() ==> r == self.same_state(*other),
    {
        match (self, other) {
            (Async::Uninitialized, Async::Uninitialized) => true,
            (Async::Loading { value: a }, Async::Loading { value: b }) => payload_equals(a, b),
            (Async::Success { value: a }, Async::Success { value: b }) => a == b,
            (
                Async::Fail { error: e1, value: a },
                Async::Fail { error: e2, value: b },
            ) => e1.equals(e2) && payload_equals(a, b),
            _ => false,
        }
    }
}

/// Whether two optional payloads hold equal values, provided the payload
/// type's equality obeys its specification.
fn payload_equals<T: Clone + PartialEq>(a: &Option<T>, b: &Option<T>) -> (r: bool)
    ensures
        <T as PartialEqSpec>::obeys_eq_spec() ==> r == Async::<T>::same_payload(*a, *b),
{
    match (a, b) {
        (Some(x), Some(y)) => x == y,
        (None, None) => true,
        _ => false,
    }
}

/// Every constructor that takes a payload lets `value_spec` give that payload
/// back, and the initial state carries none.
pub proof fn lemma_value_of_constructors<T: Clone>(v: T, e: AsyncError)
    ensures
        (Async::Loading { value: Some(v) }).value_spec() == Some(v),
        (Async::Success { value: v }).value_spec() == Some(v),
        (Async::Fail { error: e, value: Some(v) }).value_spec() == Some(v),
        (Async::<T>::Uninitialized).value_spec() is None,
{
}

/// The reconciliation rule over states: a fresh success or any incomplete
/// outcome passes through unchanged, while a failure adopts the retained
/// payload read at commit time.
pub proof fn lemma_reconciliation<T: Clone>(outcome: Async<T>, retained: Option<T>)
    ensures
        outcome is Success ==> outcome.with_retained(retained) == outcome,
        outcome matches Async::Fail { error: e, value: _ } ==> outcome.with_retained(retained)
            == (Async::Fail { error: e, value: retained }),
        outcome is Uninitialized ==> outcome.with_retained(retained) == outcome,
{
}

} // verus!
