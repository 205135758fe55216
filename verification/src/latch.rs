//! The process-wide collector-fix latch.
//!
//! Whether the host runtime has fixed the collector defect that makes
//! rooting necessary is determined once per process, before or at the first
//! handle construction.  The latch is written at most once; every later
//! write loses, so that all handles of the process agree on one
//! determination.  The process-wide cell holding the single instance lives
//! outside the verified library; here the latch is an explicit value with a
//! write-once contract.

use vstd::prelude::*;

verus! {

/// Write-once record of whether the host's collector defect is fixed.
/// `None` means undetermined; handles then assume the defect is present,
/// the conservative choice.
#[derive(Clone, Copy, Debug, PartialEq, Eq, Structural)]
pub struct BugFixLatch {
    /// The determination, once one has been made.
    pub state: Option<bool>,
}

impl BugFixLatch {
    /// The current determination.
    pub open spec fn value(self) -> Option<bool> {
        self.state
    }

    /// A fresh, undetermined latch.
    pub fn new() -> (l: BugFixLatch)
        ensures
            l.state is None,
    {
        BugFixLatch { state: None }
    }

    /// Determines the latch.  Only the first determination wins: once the
    /// latch holds a value, every later write leaves it unchanged, so all
    /// readers of the process agree on a single winning write.
    pub fn determine(&mut self, fixed: bool) -> (won: bool)
        ensures
            old(self).state is None ==> final(self).state == Some(fixed) && won,
            old(self).state is Some ==> final(self).state == old(self).state && !won,
    {
        match self.state {
            Option::None => {
                self.state = Some(fixed);
                true
            },
            Option::Some(_) => false,
        }
    }

    /// Reads the determination, if one has been made.
    pub fn get(&self) -> (r: Option<bool>)
        ensures
            r == self.state,
    {
        self.state
    }
}

} // verus!
