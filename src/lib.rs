//! One-directional mirroring of a directory tree: the decisions, counters and
//! path planning of the sync pipeline, with their contracts.

mod outcome;
mod paths;
mod progress;
mod stats;
mod syncer;
mod walk;

pub use outcome::{
    decide_outcome, lemma_mirrored_is_up_to_date, lemma_outcome_by_destination, mirrored, outcome_spec,
    same_bytes, DestState, SourceKind, SyncError, SyncOutcome,
};
pub use paths::{
    describe_entry, extend_path, is_prefix, join_names, joined, names, plan_entry, relative_path, EntryPlan,
};
pub use progress::{
    count_failed, count_finished, count_outcome, entry_done, lemma_finished_is_sum, lemma_percent_monotone,
    lemma_rerun_all_up_to_date, lemma_tallies_balanced, percent, percent_spec, rerun_events, tallies,
    Progress, ProgressWorker,
};
pub use stats::{one_if, Stats};
pub use syncer::{SyncOptions, Syncer};
pub use walk::{reversed, Child, DirWalk, WalkStep};
