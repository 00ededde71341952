use vstd::prelude::*;

use crate::outcome::{mirrored, outcome_spec, SourceKind, SyncOutcome};
use crate::stats::{one_if, Stats};

verus! {

/// An event of the pipeline, from the entry syncer to the progress aggregator.
pub enum Progress {
    /// One entry is done, with this outcome.
    DoneSyncing(SyncOutcome),
    /// A copy is under way: `done` of `size` bytes are written.
    Syncing { description: String, size: usize, done: usize },
    /// One entry could not be synced.
    SyncFailed { description: String, reason: String },
}

/// The percentage shown for `done` of `size` bytes, rounded down; a copy of
/// nothing, or one that reports more than its size, shows as complete.
pub open spec fn percent_spec(done: int, size: int) -> int {
    if size <= 0 || done >= size {
        100
    } else {
        done * 100 / size
    }
}

/// Computes the percentage shown for `done` of `size` bytes.
pub fn percent(done: usize, size: usize) -> (r: usize)
    ensures
        r == percent_spec(done as int, size as int),
        r <= 100,
{
    if size == 0 || done >= size {
        100
    } else {
        let wide: u128 = (done as u128) * 100 / (size as u128);
        proof {
            lemma_percent_below_hundred(done as int, size as int);
        }
        wide as usize
    }
}

proof fn lemma_percent_below_hundred(done: int, size: int)
    requires
        0 <= done < size,
    ensures
        0 <= done * 100 / size < 100,
{
    assert(done * 100 < size * 100) by (nonlinear_arith)
        requires
            0 <= done < size,
    ;
    assert(0 <= done * 100 / size < 100) by (nonlinear_arith)
        requires
            0 <= done * 100 < size * 100,
            size > 0,
    ;
}

/// Within one copy the percentage shown never goes down as more bytes are
/// written, and never exceeds 100.
pub proof fn lemma_percent_monotone(done1: int, done2: int, size: int)
    requires
        0 <= done1 <= done2,
    ensures
        percent_spec(done1, size) <= percent_spec(done2, size),
        percent_spec(done2, size) <= 100,
{
    if size > 0 && done2 < size {
        lemma_percent_below_hundred(done2, size);
        assert(done1 * 100 <= done2 * 100) by (nonlinear_arith)
            requires
                0 <= done1 <= done2,
        ;
        vstd::arithmetic::div_mod::lemma_div_is_ordered(done1 * 100, done2 * 100, size);
    } else if size > 0 && done1 < size {
        lemma_percent_below_hundred(done1, size);
    }
}

/// How many events of `events` report that an entry was synced with `o`.
pub open spec fn count_outcome(events: Seq<Progress>, o: SyncOutcome) -> nat
    decreases events.len(),
{
    if events.len() == 0 {
        0
    } else {
        count_outcome(events.drop_last(), o) + if events.last() == Progress::DoneSyncing(o) {
            1nat
        } else {
            0nat
        }
    }
}

/// How many events of `events` report a failed entry.
pub open spec fn count_failed(events: Seq<Progress>) -> nat
    decreases events.len(),
{
    if events.len() == 0 {
        0
    } else {
        count_failed(events.drop_last()) + if events.last() is SyncFailed {
            1nat
        } else {
            0nat
        }
    }
}

/// How many events of `events` end an entry, in success or in failure.
pub open spec fn count_finished(events: Seq<Progress>) -> nat
    decreases events.len(),
{
    if events.len() == 0 {
        0
    } else {
        count_finished(events.drop_last()) + if events.last() is Syncing {
            0nat
        } else {
            1nat
        }
    }
}

/// `stats` holds the counts of the events `events`.
pub open spec fn tallies(stats: Stats, events: Seq<Progress>) -> bool {
    &&& stats.total == count_finished(events)
    &&& stats.failed == count_failed(events)
    &&& forall|o: SyncOutcome| #[trigger] stats.counter(o) == count_outcome(events, o)
}

/// Whatever the events, the entries that ended are those that ended with
/// each outcome plus those that failed.
pub proof fn lemma_finished_is_sum(events: Seq<Progress>)
    ensures
        count_finished(events) == count_outcome(events, SyncOutcome::UpToDate) + count_outcome(
            events,
            SyncOutcome::FileCopied,
        ) + count_outcome(events, SyncOutcome::SymlinkCreated) + count_outcome(
            events,
            SyncOutcome::SymlinkUpdated,
        ) + count_failed(events),
    decreases events.len(),
{
    if events.len() > 0 {
        lemma_finished_is_sum(events.drop_last());
    }
}

/// Counts that hold the events of a run always balance: the total is the
/// sum of the four outcome counters and the failures.
pub proof fn lemma_tallies_balanced(stats: Stats, events: Seq<Progress>)
    requires
        tallies(stats, events),
    ensures
        stats.balanced(),
{
    lemma_finished_is_sum(events);
    assert(stats.counter(SyncOutcome::UpToDate) == count_outcome(events, SyncOutcome::UpToDate));
    assert(stats.counter(SyncOutcome::FileCopied) == count_outcome(events, SyncOutcome::FileCopied));
    assert(stats.counter(SyncOutcome::SymlinkCreated) == count_outcome(
        events,
        SyncOutcome::SymlinkCreated,
    ));
    assert(stats.counter(SyncOutcome::SymlinkUpdated) == count_outcome(
        events,
        SyncOutcome::SymlinkUpdated,
    ));
}

/// The events of a second run over entries that the first run mirrored:
/// one end of entry per source entry, with the outcome that the decision
/// gives against its mirrored destination.
pub open spec fn rerun_events(srcs: Seq<SourceKind>) -> Seq<Progress> {
    Seq::new(
        srcs.len(),
        |i: int| Progress::DoneSyncing(outcome_spec(srcs[i], mirrored(srcs[i]))->Ok_0),
    )
}

proof fn lemma_rerun_counts(srcs: Seq<SourceKind>)
    ensures
        count_finished(rerun_events(srcs)) == srcs.len(),
        count_failed(rerun_events(srcs)) == 0,
        count_outcome(rerun_events(srcs), SyncOutcome::UpToDate) == srcs.len(),
        count_outcome(rerun_events(srcs), SyncOutcome::FileCopied) == 0,
        count_outcome(rerun_events(srcs), SyncOutcome::SymlinkCreated) == 0,
        count_outcome(rerun_events(srcs), SyncOutcome::SymlinkUpdated) == 0,
    decreases srcs.len(),
{
    if srcs.len() > 0 {
        lemma_rerun_counts(srcs.drop_last());
        assert(rerun_events(srcs).drop_last() =~= rerun_events(srcs.drop_last()));
        crate::outcome::lemma_mirrored_is_up_to_date(srcs.last());
    }
}

/// Syncing a second time over a tree that the first run mirrored copies,
/// creates and retargets nothing: every entry is up to date.
pub proof fn lemma_rerun_all_up_to_date(stats: Stats, srcs: Seq<SourceKind>)
    requires
        tallies(stats, rerun_events(srcs)),
    ensures
        stats.total == srcs.len(),
        stats.up_to_date == stats.total,
        stats.copied == 0,
        stats.symlink_created == 0,
        stats.symlink_updated == 0,
        stats.failed == 0,
{
    lemma_rerun_counts(srcs);
    assert(stats.counter(SyncOutcome::UpToDate) == count_outcome(
        rerun_events(srcs),
        SyncOutcome::UpToDate,
    ));
    assert(stats.counter(SyncOutcome::FileCopied) == count_outcome(
        rerun_events(srcs),
        SyncOutcome::FileCopied,
    ));
    assert(stats.counter(SyncOutcome::SymlinkCreated) == count_outcome(
        rerun_events(srcs),
        SyncOutcome::SymlinkCreated,
    ));
    assert(stats.counter(SyncOutcome::SymlinkUpdated) == count_outcome(
        rerun_events(srcs),
        SyncOutcome::SymlinkUpdated,
    ));
}

/// The event that ends an entry: its outcome, or its failure with the reason.
pub fn entry_done(description: String, result: Result<SyncOutcome, String>) -> (r: Progress)
    ensures
        r == match result {
            Ok(o) => Progress::DoneSyncing(o),
            Err(reason) => Progress::SyncFailed { description, reason },
        },
{
    match result {
        Ok(o) => Progress::DoneSyncing(o),
        Err(reason) => Progress::SyncFailed { description, reason },
    }
}

/// The sole owner of a run's counts: it takes the pipeline's events one at
/// a time and keeps the counts of all it has taken.
pub struct ProgressWorker {
    stats: Stats,
    seen: Ghost<Seq<Progress>>,
}

impl ProgressWorker {
    /// The events taken so far, in order.
    pub closed spec fn events(&self) -> Seq<Progress> {
        self.seen@
    }

    /// The counts kept so far.
    pub closed spec fn current(&self) -> Stats {
        self.stats
    }

    /// The counts are those of the events taken.
    pub open spec fn wf(&self) -> bool {
        tallies(self.current(), self.events())
    }

    /// A worker that has taken no event.
    pub fn new() -> (r: ProgressWorker)
        ensures
            r.wf(),
            r.events() == Seq::<Progress>::empty(),
            r.current() == Stats::zero(),
    {
        ProgressWorker { stats: Stats::new(), seen: Ghost(Seq::empty()) }
    }

    /// Takes one event: an entry's end is counted, once, under its outcome or
    /// as a failure; a copy under way is not counted and gives the
    /// percentage to show.
    pub fn handle(&mut self, progress: Progress) -> (r: Option<usize>)
        requires
            old(self).wf(),
            old(self).current().total < u64::MAX,
        ensures
            final(self).wf(),
            final(self).events() == old(self).events().push(progress),
            final(self).current().balanced(),
            final(self).current().total == old(self).current().total + one_if(!(progress is Syncing)),
            final(self).current().failed == old(self).current().failed + one_if(
                progress is SyncFailed,
            ),
            final(self).current().up_to_date == old(self).current().up_to_date + one_if(
                progress == Progress::DoneSyncing(SyncOutcome::UpToDate),
            ),
            final(self).current().copied == old(self).current().copied + one_if(
                progress == Progress::DoneSyncing(SyncOutcome::FileCopied),
            ),
            final(self).current().symlink_created == old(self).current().symlink_created + one_if(
                progress == Progress::DoneSyncing(SyncOutcome::SymlinkCreated),
            ),
            final(self).current().symlink_updated == old(self).current().symlink_updated + one_if(
                progress == Progress::DoneSyncing(SyncOutcome::SymlinkUpdated),
            ),
            r == match progress {
                Progress::Syncing { size, done, .. } => Some(
                    percent_spec(done as int, size as int) as usize,
                ),
                _ => None::<usize>,
            },
    {
        let ghost before = self.seen@;
        let ghost old_stats = self.stats;
        proof {
            lemma_tallies_balanced(self.stats, before);
        }
        let r = match &progress {
            Progress::DoneSyncing(outcome) => {
                self.stats.add_outcome(outcome);
                None
            },
            Progress::SyncFailed { .. } => {
                self.stats.add_failure();
                None
            },
            Progress::Syncing { size, done, .. } => Some(percent(*done, *size)),
        };
        self.seen = Ghost(before.push(progress));
        proof {
            let after = self.seen@;
            assert(after.drop_last() =~= before);
            assert forall|o: SyncOutcome| #[trigger]
                self.stats.counter(o) == count_outcome(after, o) by {
                assert(after.last() == progress);
                assert(old_stats.counter(o) == count_outcome(before, o));
            }
        }
        r
    }

    /// The counts kept so far.
    pub fn stats(&self) -> (r: &Stats)
        ensures
            *r == self.current(),
    {
        &self.stats
    }

    /// Ends the run and hands back its counts.
    pub fn finish(self) -> (r: Stats)
        ensures
            r == self.current(),
    {
        self.stats
    }
}

} // verus!
