//! Request ids.

use vstd::prelude::*;

verus! {

/// Hands out the ids of outgoing calls: 1, 2, 3 and so on, each one once.
#[derive(Debug)]
pub struct IdGenerator {
    issued: u64,
}

impl IdGenerator {
    /// How many ids have been handed out. The ids handed out so far are the
    /// numbers from 1 to this count.
    pub closed spec fn issued(&self) -> nat {
        self.issued as nat
    }

    /// A generator that has handed out nothing.
    pub fn new() -> (r: IdGenerator)
        ensures
            r.issued() == 0,
    {
        IdGenerator { issued: 0 }
    }

    /// The next id, or `None` once every `u64` above zero has been handed out.
    ///
    /// The id is one more than the count of ids handed out before, so it
    /// differs from each of them.
    pub fn next(&mut self) -> (r: Option<u64>)
        ensures
            old(self).issued() < u64::MAX ==> r == Some((old(self).issued() + 1) as u64)
                && final(self).issued() == old(self).issued() + 1,
            old(self).issued() >= u64::MAX ==> r is None && final(self).issued() == old(
                self,
            ).issued(),
    {
        if self.issued < u64::MAX {
            self.issued = self.issued + 1;
            Some(self.issued)
        } else {
            None
        }
    }

    /// The count of ids handed out, as a number.
    pub fn count(&self) -> (r: u64)
        ensures
            r == self.issued(),
    {
        self.issued
    }
}

} // verus!
