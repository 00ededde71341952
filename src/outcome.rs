use vstd::prelude::*;

verus! {

/// What happened to one entry during a sync pass.
#[derive(Clone, Copy, Debug, PartialEq, Eq, Structural)]
pub enum SyncOutcome {
    /// The destination was missing or differed: the bytes were copied.
    FileCopied,
    /// The destination already matched the source: nothing was written.
    UpToDate,
    /// The destination symlink did not exist and was created.
    SymlinkCreated,
    /// The destination symlink pointed elsewhere and was retargeted.
    SymlinkUpdated,
}

/// What a source entry is, as far as mirroring it is concerned.
pub enum SourceKind {
    /// A regular file with these bytes.
    File { contents: Vec<u8> },
    /// A symbolic link with this target.
    Symlink { target: String },
}

/// What stands at the destination path of an entry before it is synced.
pub enum DestState {
    /// Nothing.
    Missing,
    /// A regular file with these bytes.
    File { contents: Vec<u8> },
    /// A symbolic link with this target.
    Symlink { target: String },
    /// A directory, or anything else that is neither a file nor a link.
    Other,
}

/// Why one entry could not be synced.
#[derive(Clone, Copy, Debug, PartialEq, Eq, Structural)]
pub enum SyncError {
    /// The entry's path does not lie under the source root.
    NotUnderRoot,
    /// The entry's path relative to the root has no parent (it is the root itself).
    NoParent,
    /// The destination holds something of another kind, which is never replaced.
    RefuseReplace,
}

/// The outcome of syncing `src` onto `dest`: a file is copied unless the
/// destination already holds the same bytes; a link is created where nothing
/// stands, retargeted where a link points elsewhere; anything of another kind
/// at the destination is left alone and reported.
pub open spec fn outcome_spec(src: SourceKind, dest: DestState) -> Result<SyncOutcome, SyncError> {
    match src {
        SourceKind::File { contents } => match dest {
            DestState::Missing => Ok(SyncOutcome::FileCopied),
            DestState::File { contents: existing } => if existing@ == contents@ {
                Ok(SyncOutcome::UpToDate)
            } else {
                Ok(SyncOutcome::FileCopied)
            },
            _ => Err(SyncError::RefuseReplace),
        },
        SourceKind::Symlink { target } => match dest {
            DestState::Missing => Ok(SyncOutcome::SymlinkCreated),
            DestState::Symlink { target: existing } => if existing@ == target@ {
                Ok(SyncOutcome::UpToDate)
            } else {
                Ok(SyncOutcome::SymlinkUpdated)
            },
            _ => Err(SyncError::RefuseReplace),
        },
    }
}

/// What stands at the destination once `src` has been mirrored there.
pub open spec fn mirrored(src: SourceKind) -> DestState {
    match src {
        SourceKind::File { contents } => DestState::File { contents },
        SourceKind::Symlink { target } => DestState::Symlink { target },
    }
}

/// Whether two byte buffers hold the same bytes.
pub fn same_bytes(a: &Vec<u8>, b: &Vec<u8>) -> (r: bool)
    ensures
        r == (a@ == b@),
{
    if a.len() != b.len() {
        return false;
    }
    let mut i: usize = 0;
    while i < a.len()
        invariant
            a@.len() == b@.len(),
            i <= a@.len(),
            forall|k: int| 0 <= k < i ==> a@[k] == b@[k],
        decreases a@.len() - i,
    {
        if a[i] != b[i] {
            return false;
        }
        i = i + 1;
    }
    assert(a@ =~= b@);
    true
}

/// Decides what syncing `src` onto `dest` does: the outcome tells the caller
/// which operation to perform (copy the bytes, create or retarget the link,
/// or nothing), and is the outcome to report.
pub fn decide_outcome(src: &SourceKind, dest: &DestState) -> (r: Result<SyncOutcome, SyncError>)
    ensures
        r == outcome_spec(*src, *dest),
{
    match src {
        SourceKind::File { contents } => match dest {
            DestState::Missing => Ok(SyncOutcome::FileCopied),
            DestState::File { contents: existing } => if same_bytes(existing, contents) {
                Ok(SyncOutcome::UpToDate)
            } else {
                Ok(SyncOutcome::FileCopied)
            },
            _ => Err(SyncError::RefuseReplace),
        },
        SourceKind::Symlink { target } => match dest {
            DestState::Missing => Ok(SyncOutcome::SymlinkCreated),
            DestState::Symlink { target: existing } => if *existing == *target {
                Ok(SyncOutcome::UpToDate)
            } else {
                Ok(SyncOutcome::SymlinkUpdated)
            },
            _ => Err(SyncError::RefuseReplace),
        },
    }
}

/// Syncing an entry onto a destination that already mirrors it writes
/// nothing: the outcome is `UpToDate`, whatever the entry is.
pub proof fn lemma_mirrored_is_up_to_date(src: SourceKind)
    ensures
        outcome_spec(src, mirrored(src)) == Ok::<SyncOutcome, SyncError>(SyncOutcome::UpToDate),
{
}

/// Each kind of destination gives its own outcome: identical bytes are
/// `UpToDate`, a missing file is `FileCopied`, a missing link is
/// `SymlinkCreated`, and a link pointing elsewhere is `SymlinkUpdated`.
pub proof fn lemma_outcome_by_destination(src: SourceKind, dest: DestState)
    ensures
        (src is File && dest is File && dest->File_contents@ == src->File_contents@)
            ==> outcome_spec(src, dest) == Ok::<SyncOutcome, SyncError>(SyncOutcome::UpToDate),
        (src is File && dest is Missing)
            ==> outcome_spec(src, dest) == Ok::<SyncOutcome, SyncError>(SyncOutcome::FileCopied),
        (src is Symlink && dest is Missing)
            ==> outcome_spec(src, dest) == Ok::<SyncOutcome, SyncError>(SyncOutcome::SymlinkCreated),
        (src is Symlink && dest is Symlink && dest->Symlink_target@ != src->Symlink_target@)
            ==> outcome_spec(src, dest) == Ok::<SyncOutcome, SyncError>(SyncOutcome::SymlinkUpdated),
{
}

} // verus!
