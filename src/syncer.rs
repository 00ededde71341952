use vstd::prelude::*;

use crate::outcome::SourceKind;
use crate::paths::names;

verus! {

/// The configuration of one run, fixed before it starts.
#[derive(Clone, Copy, Debug, PartialEq, Eq, Structural)]
pub struct SyncOptions {
    /// Whether each destination entry gets its source's permissions.
    pub preserve_permissions: bool,
}

impl SyncOptions {
    /// The default configuration: permissions are preserved.
    pub fn new() -> (r: SyncOptions)
        ensures
            r.preserve_permissions,
    {
        SyncOptions { preserve_permissions: true }
    }

    /// Whether a synced entry gets its source's permissions: only where they
    /// are preserved, and only for a regular file, since setting them on a
    /// link would reach whatever it points to.
    pub fn copies_permissions_of(&self, src: &SourceKind) -> (r: bool)
        ensures
            r == (self.preserve_permissions && src is File),
    {
        self.preserve_permissions && match src {
            SourceKind::File { .. } => true,
            SourceKind::Symlink { .. } => false,
        }
    }
}

/// A run that mirrors the tree under `source` into `destination`, each path
/// given by its components.
pub struct Syncer {
    pub source: Vec<String>,
    pub destination: Vec<String>,
    pub options: SyncOptions,
}

/// A copy of the components, one for one.
fn copy_names(v: &Vec<String>) -> (r: Vec<String>)
    ensures
        names(r@) == names(v@),
{
    let mut out: Vec<String> = Vec::new();
    let mut i: usize = 0;
    while i < v.len()
        invariant
            i <= v@.len(),
            names(out@) =~= names(v@).subrange(0, i as int),
        decreases v@.len() - i,
    {
        let ghost before = out@;
        out.push(v[i].clone());
        assert(names(out@) =~= names(before).push(v@[i as int]@));
        i = i + 1;
    }
    assert(names(v@).subrange(0, v@.len() as int) =~= names(v@));
    out
}

impl Syncer {
    /// A run from `source` to `destination`, both kept as given, with the
    /// default configuration. Nothing is checked before the run.
    pub fn new(source: &Vec<String>, destination: &Vec<String>) -> (r: Syncer)
        ensures
            names(r.source@) == names(source@),
            names(r.destination@) == names(destination@),
            r.options.preserve_permissions,
    {
        Syncer {
            source: copy_names(source),
            destination: copy_names(destination),
            options: SyncOptions::new(),
        }
    }

    /// Sets whether the run preserves permissions; nothing else changes.
    pub fn preserve_permissions(&mut self, preserve_permissions: bool)
        ensures
            final(self).options.preserve_permissions == preserve_permissions,
            final(self).source == old(self).source,
            final(self).destination == old(self).destination,
    {
        self.options.preserve_permissions = preserve_permissions;
    }
}

} // verus!
