use rusync::{
    decide_outcome, describe_entry, entry_done, extend_path, join_names, percent, plan_entry,
    relative_path, same_bytes, DestState, Progress, ProgressWorker, SourceKind, Stats, SyncError,
    SyncOptions, SyncOutcome, Syncer,
};

fn path(parts: &[&str]) -> Vec<String> {
    parts.iter().map(|p| p.to_string()).collect()
}

fn file(bytes: &[u8]) -> SourceKind {
    SourceKind::File { contents: bytes.to_vec() }
}

fn link(target: &str) -> SourceKind {
    SourceKind::Symlink { target: target.to_string() }
}

fn mirror_of(src: &SourceKind) -> DestState {
    match src {
        SourceKind::File { contents } => DestState::File { contents: contents.clone() },
        SourceKind::Symlink { target } => DestState::Symlink { target: target.clone() },
    }
}

fn run(entries: &[(SourceKind, DestState)]) -> Stats {
    let mut worker = ProgressWorker::new();
    for (src, dest) in entries {
        let event = match decide_outcome(src, dest) {
            Ok(o) => Progress::DoneSyncing(o),
            Err(e) => Progress::SyncFailed {
                description: String::new(),
                reason: format!("{:?}", e),
            },
        };
        assert_eq!(worker.handle(event), None);
    }
    worker.finish()
}

fn counts(s: &Stats) -> (u64, u64, u64, u64, u64, u64) {
    (s.total, s.up_to_date, s.copied, s.symlink_created, s.symlink_updated, s.failed)
}

#[test]
fn stats_new_is_zero() {
    assert_eq!(counts(&Stats::new()), (0, 0, 0, 0, 0, 0));
}

#[test]
fn add_outcome_counts_each_kind() {
    let mut s = Stats::new();
    s.add_outcome(&SyncOutcome::FileCopied);
    s.add_outcome(&SyncOutcome::FileCopied);
    s.add_outcome(&SyncOutcome::UpToDate);
    s.add_outcome(&SyncOutcome::SymlinkCreated);
    s.add_outcome(&SyncOutcome::SymlinkUpdated);
    assert_eq!(counts(&s), (5, 1, 2, 1, 1, 0));
    s.add_failure();
    assert_eq!(counts(&s), (6, 1, 2, 1, 1, 1));
    assert_eq!(s.total, s.up_to_date + s.copied + s.symlink_created + s.symlink_updated + s.failed);
}

#[test]
fn percent_exact_values() {
    assert_eq!(percent(50, 200), 25);
    assert_eq!(percent(1, 3), 33);
    assert_eq!(percent(2, 3), 66);
    assert_eq!(percent(0, 10), 0);
    assert_eq!(percent(10, 10), 100);
    assert_eq!(percent(0, 0), 100);
    assert_eq!(percent(11, 10), 100);
    assert_eq!(percent(usize::MAX - 1, usize::MAX), 99);
}

#[test]
fn percent_never_decreases_within_a_copy() {
    let size: usize = 997;
    let mut last = 0;
    let mut done: usize = 0;
    while done <= size {
        let p = percent(done, size);
        assert!(p >= last);
        assert!(p <= 100);
        last = p;
        done += 13;
    }
    assert_eq!(percent(size, size), 100);
}

#[test]
fn same_bytes_compares_contents() {
    assert!(same_bytes(&vec![1, 2, 3], &vec![1, 2, 3]));
    assert!(!same_bytes(&vec![1, 2, 3], &vec![1, 2, 4]));
    assert!(!same_bytes(&vec![1, 2], &vec![1, 2, 3]));
    assert!(same_bytes(&vec![], &vec![]));
}

#[test]
fn identical_file_is_up_to_date() {
    let src = file(b"hello");
    assert_eq!(decide_outcome(&src, &DestState::File { contents: b"hello".to_vec() }), Ok(SyncOutcome::UpToDate));
}

#[test]
fn missing_or_different_file_is_copied() {
    let src = file(b"hello");
    assert_eq!(decide_outcome(&src, &DestState::Missing), Ok(SyncOutcome::FileCopied));
    assert_eq!(decide_outcome(&src, &DestState::File { contents: b"hellO".to_vec() }), Ok(SyncOutcome::FileCopied));
}

#[test]
fn missing_symlink_is_created() {
    assert_eq!(decide_outcome(&link("a.txt"), &DestState::Missing), Ok(SyncOutcome::SymlinkCreated));
}

#[test]
fn symlink_pointing_elsewhere_is_updated() {
    let dest = DestState::Symlink { target: "other.txt".to_string() };
    assert_eq!(decide_outcome(&link("a.txt"), &dest), Ok(SyncOutcome::SymlinkUpdated));
    let same = DestState::Symlink { target: "a.txt".to_string() };
    assert_eq!(decide_outcome(&link("a.txt"), &same), Ok(SyncOutcome::UpToDate));
}

#[test]
fn other_kind_at_destination_is_refused() {
    assert_eq!(decide_outcome(&link("a.txt"), &DestState::File { contents: vec![] }), Err(SyncError::RefuseReplace));
    assert_eq!(decide_outcome(&file(b"x"), &DestState::Other), Err(SyncError::RefuseReplace));
    assert_eq!(decide_outcome(&file(b"x"), &DestState::Symlink { target: "x".to_string() }), Err(SyncError::RefuseReplace));
    assert_eq!(decide_outcome(&link("x"), &DestState::Other), Err(SyncError::RefuseReplace));
}

#[test]
fn relative_path_strips_the_root() {
    let rel = relative_path(&path(&["/", "src", "sub", "b.txt"]), &path(&["/", "src"])).unwrap();
    assert_eq!(rel, path(&["sub", "b.txt"]));
    assert_eq!(relative_path(&path(&["/", "src"]), &path(&["/", "src"])).unwrap(), path(&[]));
    assert_eq!(relative_path(&path(&["/", "other", "a"]), &path(&["/", "src"])), Err(SyncError::NotUnderRoot));
    assert_eq!(relative_path(&path(&["/"]), &path(&["/", "src"])), Err(SyncError::NotUnderRoot));
}

#[test]
fn join_names_puts_slashes_between() {
    assert_eq!(join_names(&path(&["sub", "b.txt"])), "sub/b.txt");
    assert_eq!(join_names(&path(&["a.txt"])), "a.txt");
    assert_eq!(join_names(&path(&[])), "");
}

#[test]
fn extend_path_appends_components() {
    let base = path(&["/", "dst"]);
    let rel = path(&["sub", "b.txt"]);
    assert_eq!(extend_path(&base, &rel, 1), path(&["/", "dst", "sub"]));
    assert_eq!(extend_path(&base, &rel, 2), path(&["/", "dst", "sub", "b.txt"]));
    assert_eq!(extend_path(&base, &rel, 0), base);
}

#[test]
fn describe_entry_gives_relative_text() {
    let src = path(&["/", "src"]);
    assert_eq!(describe_entry(&path(&["/", "src", "sub", "b.txt"]), &src), Ok("sub/b.txt".to_string()));
    assert_eq!(describe_entry(&path(&["/", "src"]), &src), Err(SyncError::NoParent));
    assert_eq!(describe_entry(&path(&["/", "elsewhere", "a"]), &src), Err(SyncError::NotUnderRoot));
}

#[test]
fn plan_entry_maps_to_destination() {
    let src = path(&["/", "src"]);
    let dst = path(&["/", "dst"]);
    let plan = plan_entry(&path(&["/", "src", "sub", "b.txt"]), &src, &dst).unwrap();
    assert_eq!(plan.description, "sub/b.txt");
    assert_eq!(plan.dest_dir, path(&["/", "dst", "sub"]));
    assert_eq!(plan.dest_path, path(&["/", "dst", "sub", "b.txt"]));
    let top = plan_entry(&path(&["/", "src", "a.txt"]), &src, &dst).unwrap();
    assert_eq!(top.dest_dir, dst);
    assert_eq!(top.description, "a.txt");
    assert!(matches!(plan_entry(&src, &src, &dst), Err(SyncError::NoParent)));
    assert!(matches!(plan_entry(&path(&["/", "x"]), &src, &dst), Err(SyncError::NotUnderRoot)));
}

#[test]
fn worker_counts_ends_and_shows_progress() {
    let mut w = ProgressWorker::new();
    let shown = w.handle(Progress::Syncing { description: "a.txt".to_string(), size: 200, done: 50 });
    assert_eq!(shown, Some(25));
    assert_eq!(w.stats().total, 0);
    assert_eq!(w.handle(Progress::DoneSyncing(SyncOutcome::FileCopied)), None);
    let failed = entry_done("b.txt".to_string(), Err("disk full".to_string()));
    assert!(matches!(&failed, Progress::SyncFailed { description, reason } if description == "b.txt" && reason == "disk full"));
    assert_eq!(w.handle(failed), None);
    assert!(matches!(entry_done("c".to_string(), Ok(SyncOutcome::UpToDate)), Progress::DoneSyncing(SyncOutcome::UpToDate)));
    let s = w.finish();
    assert_eq!(counts(&s), (2, 0, 1, 0, 0, 1));
}

#[test]
fn first_run_copies_files_and_creates_link() {
    let src = path(&["/", "src"]);
    let dst = path(&["/", "dst"]);
    let plans: Vec<_> = [&["/", "src", "a.txt"][..], &["/", "src", "sub", "b.txt"][..], &["/", "src", "link"][..]]
        .iter()
        .map(|p| plan_entry(&path(p), &src, &dst).unwrap())
        .collect();
    assert_eq!(plans[1].dest_dir, path(&["/", "dst", "sub"]));
    let stats = run(&[
        (file(b"A"), DestState::Missing),
        (file(b"B"), DestState::Missing),
        (link("a.txt"), DestState::Missing),
    ]);
    assert_eq!(counts(&stats), (3, 0, 2, 1, 0, 0));
}

#[test]
fn second_run_is_all_up_to_date() {
    let pairs: Vec<_> = [file(b"A"), file(b"B"), link("a.txt")]
        .into_iter()
        .map(|e| {
            let dest = mirror_of(&e);
            (e, dest)
        })
        .collect();
    let stats = run(&pairs);
    assert_eq!(counts(&stats), (3, 3, 0, 0, 0, 0));
}

#[test]
fn stale_link_is_retargeted() {
    let stats = run(&[
        (file(b"A"), DestState::File { contents: b"A".to_vec() }),
        (file(b"B"), DestState::File { contents: b"B".to_vec() }),
        (link("a.txt"), DestState::Symlink { target: "other.txt".to_string() }),
    ]);
    assert_eq!(counts(&stats), (3, 2, 0, 0, 1, 0));
    let fixed = mirror_of(&link("a.txt"));
    assert_eq!(decide_outcome(&link("a.txt"), &fixed), Ok(SyncOutcome::UpToDate));
}

#[test]
fn empty_source_gives_zero_stats() {
    let stats = run(&[]);
    assert_eq!(counts(&stats), (0, 0, 0, 0, 0, 0));
}

#[test]
fn syncer_defaults_and_options() {
    assert!(SyncOptions::new().preserve_permissions);
    let mut s = Syncer::new(&path(&["/", "src"]), &path(&["/", "dst"]));
    assert!(s.options.preserve_permissions);
    assert_eq!(s.source, path(&["/", "src"]));
    assert_eq!(s.destination, path(&["/", "dst"]));
    s.preserve_permissions(false);
    assert!(!s.options.preserve_permissions);
    assert_eq!(s.source, path(&["/", "src"]));
}
