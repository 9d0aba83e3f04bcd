//! The single boundary that normalizes heterogeneous computation outcomes —
//! bare values, fallible results, optional values — into the operation state.

use vstd::prelude::*;

use crate::async_error::AsyncError;
use crate::async_state::Async;

verus! {

/// A computation outcome that can be normalized into an operation state.
///
/// `converts_to` pins down, per outcome shape, which states `into_async` may
/// return; callers reason through it.
pub trait ExecutionResult<T: Clone>: Sized {
    /// Which normalized states this outcome admits.
    spec fn converts_to(self, r: Async<T>) -> bool;

    /// Normalizes the outcome into an operation state.
    fn into_async(self) -> (r: Async<T>)
        ensures
            self.converts_to(r),
    ;
}

/// A bare value is a success.
impl<T: Clone> ExecutionResult<T> for T {
    open spec fn converts_to(self, r: Async<T>) -> bool {
        r == (Async::Success { value: self })
    }

    fn into_async(self) -> (r: Async<T>) {
        Async::success(self)
    }
}

/// A fallible result: the value of `Ok` is a success; an `Err` is a general
/// failure carrying the error exactly as `to_string` renders it, with
/// nothing retained.
impl<T: Clone, E: core::fmt::Display> ExecutionResult<T> for Result<T, E> {
    open spec fn converts_to(self, r: Async<T>) -> bool {
        match self {
            Ok(value) => r == (Async::Success { value }),
            Err(e) => exists|m: String|
                #[trigger] vstd::string::to_string_from_display_ensures::<E>(&e, m) && r == (
                Async::Fail { error: AsyncError::Error(m), value: None::<T> }),
        }
    }

    fn into_async(self) -> (r: Async<T>) {
        match self {
            Ok(value) => Async::success(value),
            Err(error) => Async::fail(AsyncError::Error(error.to_string()), None),
        }
    }
}

/// An optional value: present is a success; absent is the no-value failure,
/// with nothing retained.
impl<T: Clone> ExecutionResult<T> for Option<T> {
    open spec fn converts_to(self, r: Async<T>) -> bool {
        match self {
            Some(value) => r == (Async::Success { value }),
            None => r == (Async::Fail { error: AsyncError::NoneResult, value: None::<T> }),
        }
    }

    fn into_async(self) -> (r: Async<T>) {
        match self {
            Some(value) => Async::success(value),
            None => Async::fail(AsyncError::NoneResult, None),
        }
    }
}

/// A fallible result converts into an operation state directly as well,
/// by the same rule as `into_async`.
impl<T: Clone, E: core::fmt::Display> From<Result<T, E>> for Async<T> {
    fn from(res: Result<T, E>) -> (r: Async<T>)
        ensures
            res.converts_to(r),
    {
        res.into_async()
    }
}

/// Which state `From` returns cannot be a function of the result alone — the
/// text of the failure branch depends on how the error renders — so the
/// conversion is specified through `converts_to` on `from` itself.
impl<T: Clone, E: core::fmt::Display> vstd::std_specs::convert::FromSpecImpl<Result<T, E>> for Async<T> {
    open spec fn obeys_from_spec() -> bool {
        false
    }

    open spec fn from_spec(res: Result<T, E>) -> Async<T> {
        Async::Uninitialized
    }
}

/// Borrowing conversion into the optional payload.
impl<T: Clone> From<&Async<T>> for Option<T> {
    fn from(a: &Async<T>) -> (r: Option<T>)
        ensures
            crate::async_state::option_cloned(a.value_spec(), r),
    {
        a.value_ref_clone()
    }
}

/// The payload handed out is a clone, which no function of the state alone
/// can name; the conversion is specified through `option_cloned` on `from`
/// itself.
impl<T: Clone> vstd::std_specs::convert::FromSpecImpl<&Async<T>> for Option<T> {
    open spec fn obeys_from_spec() -> bool {
        false
    }

    open spec fn from_spec(a: &Async<T>) -> Option<T> {
        None
    }
}

/// The conversion round trip for bare values: a value converts only to a
/// success, and extraction gives the value back.
pub proof fn lemma_value_round_trip<T: Clone>(v: T, a: Async<T>)
    ensures
        v.converts_to(a) ==> a.value_spec() == Some(v),
{
}

/// The conversion round trip for fallible results: `Ok` converts only to a
/// success carrying its value; `Err` converts only to a general failure whose
/// extracted payload is absent.
pub proof fn lemma_result_round_trip<T: Clone, E: core::fmt::Display>(res: Result<T, E>, a: Async<T>)
    ensures
        res matches Ok(v) ==> (res.converts_to(a) ==> a.value_spec() == Some(v)),
        res matches Err(e) ==> (res.converts_to(a) ==> a is Fail && a.value_spec() is None
            && exists|m: String|
                #[trigger] vstd::string::to_string_from_display_ensures::<E>(&e, m)
                && a.error_spec() == Some(AsyncError::Error(m))),
{
}

/// The conversion round trip for optional values: `Some` converts only to a
/// success carrying its value; `None` converts only to the no-value failure
/// whose extracted payload is absent.
pub proof fn lemma_option_round_trip<T: Clone>(opt: Option<T>, a: Async<T>)
    ensures
        opt matches Some(v) ==> (opt.converts_to(a) ==> a.value_spec() == Some(v)),
        opt is None && opt.converts_to(a) ==> a == (Async::<T>::Fail {
            error: AsyncError::NoneResult,
            value: None::<T>,
        }) && a.value_spec() is None,
{
}

} // verus!
