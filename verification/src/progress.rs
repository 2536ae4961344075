//! Progress of a compute node's task over the items it works through: which
//! fraction to report after each item.
use vstd::prelude::*;

verus! {

/// A progress report.
#[derive(Debug, Clone, Copy, PartialEq, Eq, Structural)]
pub enum Progress {
    /// Nothing done yet.
    Zero,
    /// `done` of `total` items are done (`total` is not zero).
    Fraction { done: usize, total: usize },
    /// All items are done.
    Complete,
}

/// Counts the items of a task whose number is known in advance (zero when it
/// is not known; no fractions are reported then).
#[derive(Debug)]
pub struct ProgressCounter {
    total: usize,
    count: usize,
}

impl ProgressCounter {
    pub closed spec fn total(&self) -> nat {
        self.total as nat
    }

    /// The items done so far.
    pub closed spec fn count(&self) -> nat {
        self.count as nat
    }

    /// A counter for at most `upper_bound` items (unknown when `None`), with
    /// the first report.
    pub fn new(upper_bound: Option<usize>) -> (r: (ProgressCounter, Progress))
        ensures
            r.0.total() == (match upper_bound {
                Some(n) => n as nat,
                None => 0,
            }),
            r.0.count() == 0,
            r.1 == Progress::Zero,
    {
        let total = match upper_bound {
            Some(n) => n,
            None => 0,
        };
        (ProgressCounter { total, count: 0 }, Progress::Zero)
    }

    /// The items done so far.
    pub fn done(&self) -> (n: usize)
        ensures
            n == self.count(),
    {
        self.count
    }

    /// Notes whether the task produced another item: an item is counted and
    /// reported as a fraction of the total (when the total is known); the end
    /// of the items is reported as completion.
    pub fn advance(&mut self, produced: bool) -> (report: Option<Progress>)
        requires
            produced ==> old(self).count() < usize::MAX,
        ensures
            final(self).total() == old(self).total(),
            final(self).count() == old(self).count() + (if produced {
                1int
            } else {
                0int
            }),
            report == (if !produced {
                Some(Progress::Complete)
            } else if old(self).total() > 0 {
                Some(
                    Progress::Fraction {
                        done: (old(self).count() + 1) as usize,
                        total: old(self).total() as usize,
                    },
                )
            } else {
                None
            }),
    {
        if produced {
            self.count = self.count + 1;
            if self.total > 0 {
                Some(Progress::Fraction { done: self.count, total: self.total })
            } else {
                None
            }
        } else {
            Some(Progress::Complete)
        }
    }
}

} // verus!
