//! The ordered queue of pending demand.
//!
//! The queue is front-biased: the entry considered next to serve sits at
//! the front. The insertion policy orders only the frontmost pair: a new
//! entry is compared against the current front alone, and becomes the
//! front exactly when its count is strictly greater. Entries beyond the
//! second position are never re-compared, so the queue is not globally
//! sorted by count.

use vstd::prelude::*;

use crate::ConsumerHandle;
use crate::DemandCount;

verus! {

/// One consumer's currently unconsumed request for items: how many items
/// are still owed (`count`) and which consumer they go to (`target`).
#[derive(Clone, Copy, PartialEq, Eq, Structural, Debug)]
pub struct Demand {
    pub count: DemandCount,
    pub target: ConsumerHandle,
}

/// What inserting `d` into a queue holding `q` yields.
///
/// An empty queue gets `d` as its sole entry. Otherwise the current
/// front is popped and compared against `d`: if `d.count` is strictly
/// greater, `d` goes in front of it; otherwise the popped entry stays
/// frontmost and `d` becomes second. The rest of the queue is untouched.
pub open spec fn insert_model(q: Seq<Demand>, d: Demand) -> Seq<Demand> {
    if q.len() == 0 {
        seq![d]
    } else if d.count > q[0].count {
        seq![d] + q
    } else {
        seq![q[0], d] + q.skip(1)
    }
}

/// The ordered sequence of pending demand entries, front at index 0.
#[derive(Debug)]
pub struct DemandQueue {
    entries: Vec<Demand>,
}

impl View for DemandQueue {
    type V = Seq<Demand>;

    closed spec fn view(&self) -> Seq<Demand> {
        self.entries@
    }
}

impl DemandQueue {
    /// An empty queue.
    pub fn new() -> (q: Self)
        ensures
            q@ == Seq::<Demand>::empty(),
    {
        DemandQueue { entries: Vec::new() }
    }

    /// How many entries are pending.
    pub fn len(&self) -> (n: usize)
        ensures
            n == self@.len(),
    {
        self.entries.len()
    }

    /// The entry next to serve, without removing it.
    pub fn front(&self) -> (d: Option<Demand>)
        ensures
            self@.len() == 0 ==> d is None,
            self@.len() > 0 ==> d == Some(self@[0]),
    {
        if self.entries.len() == 0 {
            None
        } else {
            Some(self.entries[0])
        }
    }

    /// Removes and returns the front entry, or `None` on an empty queue.
    pub fn pop_front(&mut self) -> (d: Option<Demand>)
        ensures
            old(self)@.len() == 0 ==> d is None && final(self)@ == old(self)@,
            old(self)@.len() > 0 ==> d == Some(old(self)@[0]) && final(self)@ == old(self)@.skip(1),
    {
        if self.entries.len() == 0 {
            None
        } else {
            let first = self.entries.remove(0);
            proof {
                assert(self.entries@ =~= old(self)@.skip(1));
            }
            Some(first)
        }
    }

    /// Inserts `d` by the front-pair policy: the resulting queue is
    /// exactly `insert_model` of the old contents and `d`.
    pub fn insert(&mut self, d: Demand)
        ensures
            final(self)@ == insert_model(old(self)@, d),
    {
        let popped = self.pop_front();
        match popped {
            Some(first) => {
                if d.count > first.count {
                    self.entries.insert(0, first);
                    self.entries.insert(0, d);
                    proof {
                        assert(self.entries@ =~= insert_model(old(self)@, d));
                    }
                } else {
                    self.entries.insert(0, d);
                    self.entries.insert(0, first);
                    proof {
                        assert(self.entries@ =~= insert_model(old(self)@, d));
                    }
                }
            },
            None => {
                self.entries.insert(0, d);
                proof {
                    assert(self.entries@ =~= insert_model(old(self)@, d));
                }
            },
        }
    }
}

} // verus!
