//! Merging two streams where only one of them keeps the merged stream alive.
//!
//! The strong stream is polled first. It alone ends the merged stream. The
//! weak stream is polled only when the strong one has nothing, and once it
//! has ended it is not polled again.

use vstd::prelude::*;

verus! {

/// What a stream had when it was polled.
#[derive(Debug, PartialEq)]
pub enum Polled<T> {
    /// One item.
    Item(T),
    /// The stream has ended.
    Ended,
    /// Nothing for now.
    NotReady,
}

/// What the merged stream does after its strong stream was polled.
#[derive(Debug, PartialEq)]
pub enum SelectStep<T> {
    /// Poll the weak stream and report with [`SelectWithWeak::weak_polled`].
    PollWeak,
    /// The merged stream yields this.
    Yield(Polled<T>),
}

/// What the merged stream does with what its strong stream had, given whether
/// the weak stream has ended.
pub open spec fn after_strong<T>(weak_done: bool, polled: Polled<T>) -> SelectStep<T> {
    match polled {
        Polled::Item(item) => SelectStep::Yield(Polled::Item(item)),
        Polled::Ended => SelectStep::Yield(Polled::Ended),
        Polled::NotReady => if weak_done {
            SelectStep::Yield(Polled::NotReady)
        } else {
            SelectStep::PollWeak
        },
    }
}

/// What the merged stream yields for what its weak stream had.
pub open spec fn after_weak<T>(polled: Polled<T>) -> Polled<T> {
    match polled {
        Polled::Item(item) => Polled::Item(item),
        _ => Polled::NotReady,
    }
}

/// The state of a merged stream: whether its weak stream has ended.
#[derive(Debug, Clone, Copy, PartialEq, Eq)]
pub struct SelectWithWeak {
    weak_done: bool,
}

impl SelectWithWeak {
    /// Whether the weak stream has ended.
    pub closed spec fn weak_done(&self) -> bool {
        self.weak_done
    }

    /// A merged stream whose weak stream has not ended.
    pub fn new() -> (r: SelectWithWeak)
        ensures
            !r.weak_done(),
    {
        SelectWithWeak { weak_done: false }
    }

    /// Whether the weak stream has ended.
    pub fn is_weak_done(&self) -> (r: bool)
        ensures
            r == self.weak_done(),
    {
        self.weak_done
    }

    /// Takes what the strong stream had. Its item is the item of the merged
    /// stream, and its end is the end of the merged stream. When it has
    /// nothing, the weak stream is polled, unless that has ended.
    pub fn strong_polled<T>(&self, polled: Polled<T>) -> (step: SelectStep<T>)
        ensures
            step == after_strong(self.weak_done(), polled),
    {
        match polled {
            Polled::Item(item) => SelectStep::Yield(Polled::Item(item)),
            Polled::Ended => SelectStep::Yield(Polled::Ended),
            Polled::NotReady => {
                if self.weak_done {
                    SelectStep::Yield(Polled::NotReady)
                } else {
                    SelectStep::PollWeak
                }
            },
        }
    }

    /// Takes what the weak stream had, after the strong one had nothing. Its
    /// item is the item of the merged stream. Its end is remembered and does
    /// not end the merged stream.
    pub fn weak_polled<T>(&mut self, polled: Polled<T>) -> (r: Polled<T>)
        ensures
            final(self).weak_done() == (old(self).weak_done() || polled is Ended),
            r == after_weak(polled),
    {
        match polled {
            Polled::Item(item) => Polled::Item(item),
            Polled::Ended => {
                self.weak_done = true;
                Polled::NotReady
            },
            Polled::NotReady => Polled::NotReady,
        }
    }
}

/// The merged stream ends exactly when its strong stream ends: the end of
/// the strong stream is the end of the merged stream whatever the weak stream
/// did, nothing else that the strong stream has ends the merged stream, and
/// nothing that the weak stream has does.
pub proof fn merge_ends_with_the_strong_stream<T>(weak_done: bool, strong: Polled<T>, weak: Polled<T>)
    ensures
        after_strong(weak_done, strong) == SelectStep::Yield(Polled::<T>::Ended) <==> strong
            is Ended,
        !(after_weak(weak) is Ended),
{
}

/// Once the weak stream has ended it is not polled again.
pub proof fn ended_weak_stream_is_not_polled<T>(strong: Polled<T>)
    ensures
        !(after_strong(true, strong) is PollWeak),
{
}

} // verus!
