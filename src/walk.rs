use vstd::prelude::*;

verus! {

/// One item of a directory listing: its path by components, and whether it
/// is a directory to descend into.
pub struct Child {
    pub path: Vec<String>,
    pub is_dir: bool,
}

/// What the walk asks for next.
pub enum WalkStep {
    /// List this directory and hand its items to `listed`.
    ListDir(Vec<String>),
    /// This is a file to publish.
    Found(Vec<String>),
    /// Nothing is left to visit.
    Finished,
}

/// A depth-first walk of a tree whose directories are listed on demand: the
/// items of a directory are visited in the order of its listing, and each
/// subdirectory's contents before the items that follow it.
pub struct DirWalk {
    pending: Vec<Child>,
}

/// The sequence in reverse.
pub open spec fn reversed<T>(s: Seq<T>) -> Seq<T> {
    Seq::new(s.len(), |i: int| s[s.len() - 1 - i])
}

impl DirWalk {
    /// The items still to visit, next first.
    pub closed spec fn to_visit(&self) -> Seq<Child> {
        reversed(self.pending@)
    }

    /// A walk whose only item to visit is the directory `root`.
    pub fn new(root: Vec<String>) -> (r: DirWalk)
        ensures
            r.to_visit().len() == 1,
            r.to_visit()[0].path == root,
            r.to_visit()[0].is_dir,
    {
        let mut pending: Vec<Child> = Vec::new();
        pending.push(Child { path: root, is_dir: true });
        DirWalk { pending }
    }

    /// Takes the next item to visit: a directory is to be listed, a file is
    /// found; with nothing left the walk is finished.
    pub fn next(&mut self) -> (r: WalkStep)
        ensures
            old(self).to_visit().len() == 0 ==> r is Finished && final(self).to_visit()
                == old(self).to_visit(),
            old(self).to_visit().len() > 0 ==> ({
                let c = old(self).to_visit()[0];
                &&& final(self).to_visit() == old(self).to_visit().drop_first()
                &&& c.is_dir ==> r == WalkStep::ListDir(c.path)
                &&& !c.is_dir ==> r == WalkStep::Found(c.path)
            }),
    {
        match self.pending.pop() {
            None => WalkStep::Finished,
            Some(c) => {
                proof {
                    assert(reversed(self.pending@) =~= reversed(old(self).pending@).drop_first());
                }
                if c.is_dir {
                    WalkStep::ListDir(c.path)
                } else {
                    WalkStep::Found(c.path)
                }
            },
        }
    }

    /// Hands over the listing of the directory last asked for: its items
    /// come next, in order, before anything that was left to visit.
    pub fn listed(&mut self, children: Vec<Child>)
        ensures
            final(self).to_visit() == children@ + old(self).to_visit(),
    {
        let mut children = children;
        let ghost all = children@;
        let ghost start = self.pending@;
        while children.len() > 0
            invariant
                all.len() >= children@.len(),
                children@ == all.subrange(0, children@.len() as int),
                self.pending@ == start + reversed(all.subrange(children@.len() as int, all.len() as int)),
            decreases children@.len(),
        {
            let ghost n = children@.len();
            match children.pop() {
                Some(c) => {
                    self.pending.push(c);
                    proof {
                        assert(children@ =~= all.subrange(0, n - 1));
                        assert(reversed(all.subrange(n - 1, all.len() as int)) =~= reversed(
                            all.subrange(n as int, all.len() as int),
                        ).push(all[n - 1]));
                    }
                },
                None => {},
            }
        }
        assert(all.subrange(0, all.len() as int) =~= all);
        assert(reversed(self.pending@) =~= all + reversed(start));
    }
}

} // verus!
