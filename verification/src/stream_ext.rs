//! The predicate-bounded view of an observation stream: items pass through
//! unchanged, the first item the predicate accepts still passes, and from
//! then on the filter reports the end. Polling a stream is shell work outside
//! this library; the filter takes each poll's yield and decides what a
//! subscriber sees.

use vstd::prelude::*;

verus! {

/// The state of a `stop_if` filter over a predicate `B`: a single flag
/// saying whether it has tripped, and the predicate that trips it.
pub struct StopIf<B> {
    test: B,
    stopped: bool,
}

impl<B> StopIf<B> {
    /// Whether the filter has tripped.
    pub closed spec fn stopped_spec(&self) -> bool {
        self.stopped
    }

    /// The predicate that trips the filter.
    pub closed spec fn test_spec(&self) -> B {
        self.test
    }

    /// A fresh, untripped filter over the given predicate.
    pub fn new(test: B) -> (r: Self)
        ensures
            !r.stopped_spec(),
            r.test_spec() == test,
    {
        StopIf { test, stopped: false }
    }

    /// Whether the filter has tripped; a tripped filter reports the end of
    /// the stream without consulting the underlying one again.
    pub fn is_stopped(&self) -> (r: bool)
        ensures
            r == self.stopped_spec(),
    {
        self.stopped
    }

    /// Decides one poll: `item` is what the underlying stream yielded (its
    /// end as `None`). An untripped filter forwards the item unchanged —
    /// also the first item the predicate accepts, which trips it; a tripped
    /// filter yields nothing.
    pub fn on_item<T>(&mut self, item: Option<T>) -> (r: Option<T>) where B: Fn(&T) -> bool
        requires
            !old(self).stopped_spec() ==> (forall|v: &T| #[trigger]
                call_requires(old(self).test_spec(), (v,))),
        ensures
            final(self).test_spec() == old(self).test_spec(),
            old(self).stopped_spec() ==> r is None && final(self).stopped_spec(),
            !old(self).stopped_spec() && item is None ==> r is None && final(self).stopped_spec(),
            !old(self).stopped_spec() ==> (item matches Some(v) ==> r == Some(v)
                && exists|hit: bool| #[trigger] call_ensures(old(self).test_spec(), (&v,), hit)
                    && final(self).stopped_spec() == hit),
    {
        if self.stopped {
            return None;
        }
        match item {
            Some(value) => {
                proof {
                    assert(call_requires(old(self).test_spec(), (&value,)));
                }
                let hit = (self.test)(&value);
                self.stopped = hit;
                Some(value)
            },
            None => {
                self.stopped = true;
                None
            },
        }
    }
}

} // verus!
