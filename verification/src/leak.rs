//! Leak checks of the memory-error detector: the kinds of check and the
//! counters that a check leaves behind.

use vstd::prelude::*;

verus! {

/// Result of a leak-count query, in bytes or in blocks.
#[derive(Clone, Copy, Debug, PartialEq, Eq, Structural)]
pub struct LeakCount {
    pub leaked: usize,
    pub dubious: usize,
    pub reachable: usize,
    pub suppressed: usize,
}

impl LeakCount {
    /// The counters before a query has filled them, which is also what a
    /// query leaves when no supervisor is attached.
    pub fn new() -> (c: LeakCount)
        ensures
            c == (LeakCount { leaked: 0, dubious: 0, reachable: 0, suppressed: 0 }),
    {
        LeakCount { leaked: 0, dubious: 0, reachable: 0, suppressed: 0 }
    }

    /// The counters from the four words that a query wrote, in the order of
    /// the query's arguments.
    pub fn from_words(leaked: usize, dubious: usize, reachable: usize, suppressed: usize) -> (c:
        LeakCount)
        ensures
            c == (LeakCount { leaked, dubious, reachable, suppressed }),
    {
        LeakCount { leaked, dubious, reachable, suppressed }
    }

    /// No counter has been raised.
    pub open spec fn spec_is_zero(self) -> bool {
        self.leaked == 0 && self.dubious == 0 && self.reachable == 0 && self.suppressed == 0
    }

    /// Whether every counter is zero.
    pub fn is_zero(&self) -> (z: bool)
        ensures
            z == self.spec_is_zero(),
    {
        self.leaked == 0 && self.dubious == 0 && self.reachable == 0 && self.suppressed == 0
    }
}

/// The kinds of leak check. They share one request code and differ in two
/// constant arguments: how thorough the search is, and which blocks it
/// reports.
#[derive(Clone, Copy, Debug, PartialEq, Eq, Structural)]
pub enum LeakCheck {
    /// A thorough check that reports every block.
    Full,
    /// A thorough check that reports what has leaked since the last check.
    Added,
    /// A thorough check that reports what has changed since the last check.
    Changed,
    /// A quick check that gives only a summary.
    Quick,
}

impl LeakCheck {
    /// The first constant argument: zero for a thorough check, one for a
    /// quick one.
    pub open spec fn spec_depth_word(self) -> usize {
        match self {
            LeakCheck::Quick => 1,
            _ => 0,
        }
    }

    /// The second constant argument: zero for all blocks, one for the added
    /// ones, two for the changed ones.
    pub open spec fn spec_scope_word(self) -> usize {
        match self {
            LeakCheck::Added => 1,
            LeakCheck::Changed => 2,
            _ => 0,
        }
    }

    /// The kind that a pair of argument words stands for, if any.
    pub open spec fn spec_from_words(depth: usize, scope: usize) -> Option<LeakCheck> {
        if depth == 0 && scope == 0 {
            Some(LeakCheck::Full)
        } else if depth == 0 && scope == 1 {
            Some(LeakCheck::Added)
        } else if depth == 0 && scope == 2 {
            Some(LeakCheck::Changed)
        } else if depth == 1 && scope == 0 {
            Some(LeakCheck::Quick)
        } else {
            None
        }
    }

    /// Encodes the kind as its two argument words, depth first.
    pub fn to_words(&self) -> (w: (usize, usize))
        ensures
            w.0 == self.spec_depth_word(),
            w.1 == self.spec_scope_word(),
    {
        match self {
            LeakCheck::Full => (0, 0),
            LeakCheck::Added => (0, 1),
            LeakCheck::Changed => (0, 2),
            LeakCheck::Quick => (1, 0),
        }
    }

    /// Decodes two argument words; `None` for a pair that no kind of check
    /// is encoded as.
    pub fn from_words(depth: usize, scope: usize) -> (k: Option<LeakCheck>)
        ensures
            k == LeakCheck::spec_from_words(depth, scope),
            k is Some <==> (depth == 0 && scope <= 2) || (depth == 1 && scope == 0),
    {
        if depth == 0 {
            if scope == 0 {
                Some(LeakCheck::Full)
            } else if scope == 1 {
                Some(LeakCheck::Added)
            } else if scope == 2 {
                Some(LeakCheck::Changed)
            } else {
                None
            }
        } else if depth == 1 && scope == 0 {
            Some(LeakCheck::Quick)
        } else {
            None
        }
    }
}

/// A kind of leak check survives the way through its two argument words.
pub proof fn lemma_leak_check_round_trip(kind: LeakCheck)
    ensures
        LeakCheck::spec_from_words(kind.spec_depth_word(), kind.spec_scope_word()) == Some(kind),
{
}

} // verus!
