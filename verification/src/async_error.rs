//! The closed error taxonomy for background operations.

use vstd::prelude::*;

verus! {

/// The ways a background operation can end without a value: an arbitrary
/// failure carrying a message, a computation that produced no value, a lost
/// cancellation race, and a missed deadline.
#[derive(Debug, Clone, PartialEq, Eq, Hash)]
pub enum AsyncError {
    /// A general error with a message describing what went wrong.
    Error(String),
    /// An operation returned no value where one was expected.
    NoneResult,
    /// The operation was cancelled before completion.
    Cancelled,
    /// The operation ran past its deadline.
    Timeout,
}

impl AsyncError {
    /// Builds the general error variant from anything that converts to a
    /// message; the carried text is what that conversion produced.
    pub fn error(message: impl Into<String>) -> (r: AsyncError)
        ensures
            exists|m: String| #[trigger] call_ensures(Into::into, (message,), m)
                && r == AsyncError::Error(m),
    {
        AsyncError::Error(message.into())
    }

    /// True exactly on the no-value variant.
    pub fn is_none(&self) -> (r: bool)
        ensures
            r == (self is NoneResult),
    {
        matches!(self, AsyncError::NoneResult)
    }

    /// True exactly on the general error variant.
    pub fn is_error(&self) -> (r: bool)
        ensures
            r == (self is Error),
    {
        matches!(self, AsyncError::Error(_))
    }

    /// True exactly on the cancellation variant.
    pub fn is_cancelled(&self) -> (r: bool)
        ensures
            r == (self is Cancelled),
    {
        matches!(self, AsyncError::Cancelled)
    }

    /// True exactly on the deadline variant.
    pub fn is_timeout(&self) -> (r: bool)
        ensures
            r == (self is Timeout),
    {
        matches!(self, AsyncError::Timeout)
    }

    /// Sameness of two errors: the same variant, and for the general variant
    /// the same message text.
    pub open spec fn same_error(self, other: AsyncError) -> bool {
        match (self, other) {
            (AsyncError::Error(a), AsyncError::Error(b)) => a@ == b@,
            (AsyncError::NoneResult, AsyncError::NoneResult) => true,
            (AsyncError::Cancelled, AsyncError::Cancelled) => true,
            (AsyncError::Timeout, AsyncError::Timeout) => true,
            _ => false,
        }
    }

    /// Whether this error is the same as another, by variant and message.
    pub fn equals(&self, other: &AsyncError) -> (r: bool)
        ensures
            r == self.same_error(*other),
    {
        match (self, other) {
            (AsyncError::Error(a), AsyncError::Error(b)) => a.eq(b),
            (AsyncError::NoneResult, AsyncError::NoneResult) => true,
            (AsyncError::Cancelled, AsyncError::Cancelled) => true,
            (AsyncError::Timeout, AsyncError::Timeout) => true,
            _ => false,
        }
    }

    /// The message this error renders to: the carried message for the general
    /// variant, a fixed sentence for each of the others.
    pub open spec fn message_spec(&self) -> Seq<char> {
        match self {
            AsyncError::Error(m) => m@,
            AsyncError::NoneResult => "Operation returned None!"@,
            AsyncError::Cancelled => "Task was cancelled!"@,
            AsyncError::Timeout => "deadline has elapsed!"@,
        }
    }

    /// Renders the error as text.
    pub fn message(&self) -> (r: String)
        ensures
            r@ == self.message_spec(),
    {
        match self {
            AsyncError::Error(m) => m.clone(),
            AsyncError::NoneResult => "Operation returned None!".to_owned(),
            AsyncError::Cancelled => "Task was cancelled!".to_owned(),
            AsyncError::Timeout => "deadline has elapsed!".to_owned(),
        }
    }
}

} // verus!
