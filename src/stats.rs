use vstd::prelude::*;

use crate::outcome::SyncOutcome;

verus! {

/// One where `b` holds, else zero.
pub open spec fn one_if(b: bool) -> int {
    if b {
        1
    } else {
        0
    }
}

/// The aggregate counts of one run: one counter per outcome, one for the
/// entries that failed, and their total.
#[derive(Clone, Copy, Debug, PartialEq, Eq, Structural)]
pub struct Stats {
    pub total: u64,
    pub up_to_date: u64,
    pub copied: u64,
    pub symlink_created: u64,
    pub symlink_updated: u64,
    pub failed: u64,
}

impl Stats {
    /// The total is the sum of the other counters.
    pub open spec fn balanced(&self) -> bool {
        self.total == self.up_to_date + self.copied + self.symlink_created + self.symlink_updated
            + self.failed
    }

    /// The counter that an outcome increments.
    pub open spec fn counter(&self, outcome: SyncOutcome) -> u64 {
        match outcome {
            SyncOutcome::FileCopied => self.copied,
            SyncOutcome::UpToDate => self.up_to_date,
            SyncOutcome::SymlinkCreated => self.symlink_created,
            SyncOutcome::SymlinkUpdated => self.symlink_updated,
        }
    }

    /// All counters at zero.
    pub open spec fn zero() -> Stats {
        Stats {
            total: 0,
            up_to_date: 0,
            copied: 0,
            symlink_created: 0,
            symlink_updated: 0,
            failed: 0,
        }
    }

    /// Counts of a run that has seen no entry.
    pub fn new() -> (r: Stats)
        ensures
            r == Stats::zero(),
            r.balanced(),
    {
        Stats {
            total: 0,
            up_to_date: 0,
            copied: 0,
            symlink_created: 0,
            symlink_updated: 0,
            failed: 0,
        }
    }

    /// Records one entry that was synced with `outcome`: the total and the
    /// outcome's own counter go up by one, the others stay.
    pub fn add_outcome(&mut self, outcome: &SyncOutcome)
        requires
            old(self).balanced(),
            old(self).total < u64::MAX,
        ensures
            final(self).balanced(),
            final(self).total == old(self).total + 1,
            final(self).failed == old(self).failed,
            final(self).up_to_date == old(self).up_to_date + one_if(*outcome == SyncOutcome::UpToDate),
            final(self).copied == old(self).copied + one_if(*outcome == SyncOutcome::FileCopied),
            final(self).symlink_created == old(self).symlink_created + one_if(
                *outcome == SyncOutcome::SymlinkCreated,
            ),
            final(self).symlink_updated == old(self).symlink_updated + one_if(
                *outcome == SyncOutcome::SymlinkUpdated,
            ),
    {
        self.total = self.total + 1;
        match outcome {
            SyncOutcome::FileCopied => self.copied = self.copied + 1,
            SyncOutcome::UpToDate => self.up_to_date = self.up_to_date + 1,
            SyncOutcome::SymlinkUpdated => self.symlink_updated = self.symlink_updated + 1,
            SyncOutcome::SymlinkCreated => self.symlink_created = self.symlink_created + 1,
        }
    }

    /// Records one entry that could not be synced: the total and the failure
    /// counter go up by one, the others stay.
    pub fn add_failure(&mut self)
        requires
            old(self).balanced(),
            old(self).total < u64::MAX,
        ensures
            final(self).balanced(),
            final(self).total == old(self).total + 1,
            final(self).failed == old(self).failed + 1,
            final(self).up_to_date == old(self).up_to_date,
            final(self).copied == old(self).copied,
            final(self).symlink_created == old(self).symlink_created,
            final(self).symlink_updated == old(self).symlink_updated,
    {
        self.total = self.total + 1;
        self.failed = self.failed + 1;
    }
}

} // verus!
