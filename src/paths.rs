use vstd::prelude::*;

use crate::outcome::SyncError;

verus! {

/// The names of a path's components.
pub open spec fn names(v: Seq<String>) -> Seq<Seq<char>> {
    v.map_values(|s: String| s@)
}

/// `root` is a leading part of `path`, component by component.
pub open spec fn is_prefix(root: Seq<Seq<char>>, path: Seq<Seq<char>>) -> bool {
    root.len() <= path.len() && path.subrange(0, root.len() as int) == root
}

/// The components joined with `/` between them.
pub open spec fn joined(parts: Seq<Seq<char>>) -> Seq<char>
    decreases parts.len(),
{
    if parts.len() == 0 {
        Seq::empty()
    } else if parts.len() == 1 {
        parts[0]
    } else {
        joined(parts.drop_last()) + seq!['/'] + parts.last()
    }
}

/// The part of `path` below `root`, or why there is none: `root` must be a
/// leading part of `path`.
pub fn relative_path(path: &Vec<String>, root: &Vec<String>) -> (r: Result<Vec<String>, SyncError>)
    ensures
        r is Ok <==> is_prefix(names(root@), names(path@)),
        r is Err ==> r->Err_0 == SyncError::NotUnderRoot,
        r is Ok ==> names(r->Ok_0@) == names(path@).subrange(root@.len() as int, path@.len() as int),
{
    if root.len() > path.len() {
        return Err(SyncError::NotUnderRoot);
    }
    let mut i: usize = 0;
    while i < root.len()
        invariant
            root@.len() <= path@.len(),
            i <= root@.len(),
            forall|k: int| 0 <= k < i ==> path@[k]@ == root@[k]@,
        decreases root@.len() - i,
    {
        if path[i] != root[i] {
            assert(names(path@).subrange(0, root@.len() as int)[i as int] != names(root@)[i as int]);
            return Err(SyncError::NotUnderRoot);
        }
        i = i + 1;
    }
    assert(names(path@).subrange(0, root@.len() as int) =~= names(root@));
    let mut rel: Vec<String> = Vec::new();
    let mut j: usize = root.len();
    while j < path.len()
        invariant
            root@.len() <= j <= path@.len(),
            names(rel@) =~= names(path@).subrange(root@.len() as int, j as int),
        decreases path@.len() - j,
    {
        let ghost before = rel@;
        rel.push(path[j].clone());
        assert(rel@ =~= before.push(path@[j as int]));
        assert(names(rel@) =~= names(before).push(path@[j as int]@));
        j = j + 1;
    }
    Ok(rel)
}

/// The components of `parts` joined with `/` between them: the text by which
/// an entry is described.
pub fn join_names(parts: &Vec<String>) -> (r: String)
    ensures
        r@ == joined(names(parts@)),
{
    let mut out = String::new();
    let mut i: usize = 0;
    while i < parts.len()
        invariant
            i <= parts@.len(),
            out@ == joined(names(parts@).subrange(0, i as int)),
        decreases parts@.len() - i,
    {
        proof {
            reveal_strlit("/");
            assert(names(parts@).subrange(0, i + 1).drop_last() =~= names(parts@).subrange(0, i as int));
        }
        if i > 0 {
            out.append("/");
        }
        out.append(parts[i].as_str());
        proof {
            if i == 0 {
                assert(out@ =~= joined(names(parts@).subrange(0, 1)));
            }
        }
        i = i + 1;
    }
    assert(names(parts@).subrange(0, parts@.len() as int) =~= names(parts@));
    out
}

/// Where one source entry goes: its description, the directory that must
/// exist at the destination, and its destination path.
pub struct EntryPlan {
    pub description: String,
    pub dest_dir: Vec<String>,
    pub dest_path: Vec<String>,
}

/// The description of the entry at `path`: its path relative to `source`,
/// joined with `/`. The entry must lie strictly below `source`.
pub fn describe_entry(path: &Vec<String>, source: &Vec<String>) -> (r: Result<String, SyncError>)
    ensures
        r is Ok <==> is_prefix(names(source@), names(path@)) && source@.len() < path@.len(),
        !is_prefix(names(source@), names(path@)) ==> r == Err::<String, SyncError>(
            SyncError::NotUnderRoot,
        ),
        is_prefix(names(source@), names(path@)) && source@.len() == path@.len() ==> r == Err::<
            String,
            SyncError,
        >(SyncError::NoParent),
        r is Ok ==> r->Ok_0@ == joined(
            names(path@).subrange(source@.len() as int, path@.len() as int),
        ),
{
    let rel = relative_path(path, source)?;
    assert(names(rel@).len() == rel@.len());
    if rel.len() == 0 {
        return Err(SyncError::NoParent);
    }
    Ok(join_names(&rel))
}

/// `base` followed by the first `n` components of `rel`.
pub fn extend_path(base: &Vec<String>, rel: &Vec<String>, n: usize) -> (r: Vec<String>)
    requires
        n <= rel@.len(),
    ensures
        names(r@) == names(base@) + names(rel@).subrange(0, n as int),
{
    let mut out: Vec<String> = Vec::new();
    let mut i: usize = 0;
    while i < base.len()
        invariant
            i <= base@.len(),
            names(out@) =~= names(base@).subrange(0, i as int),
        decreases base@.len() - i,
    {
        let ghost before = out@;
        out.push(base[i].clone());
        assert(names(out@) =~= names(before).push(base@[i as int]@));
        i = i + 1;
    }
    let mut j: usize = 0;
    while j < n
        invariant
            n <= rel@.len(),
            j <= n,
            names(out@) =~= names(base@) + names(rel@).subrange(0, j as int),
        decreases n - j,
    {
        let ghost before = out@;
        out.push(rel[j].clone());
        assert(names(out@) =~= names(before).push(rel@[j as int]@));
        j = j + 1;
    }
    out
}

/// Plans the sync of the source entry at `path`: relative to `source` it
/// must lie strictly below it; its destination path is that relative path
/// under `destination`, and the directory to create is the destination path
/// without its last component.
pub fn plan_entry(path: &Vec<String>, source: &Vec<String>, destination: &Vec<String>) -> (r: Result<
    EntryPlan,
    SyncError,
>)
    ensures
        r is Ok <==> is_prefix(names(source@), names(path@)) && source@.len() < path@.len(),
        !is_prefix(names(source@), names(path@)) ==> r is Err && r->Err_0 == SyncError::NotUnderRoot,
        is_prefix(names(source@), names(path@)) && source@.len() == path@.len() ==> r is Err
            && r->Err_0 == SyncError::NoParent,
        r is Ok ==> ({
            let rel = names(path@).subrange(source@.len() as int, path@.len() as int);
            let plan = r->Ok_0;
            &&& plan.description@ == joined(rel)
            &&& names(plan.dest_path@) == names(destination@) + rel
            &&& names(plan.dest_dir@) == names(destination@) + rel.drop_last()
        }),
{
    let rel = relative_path(path, source)?;
    assert(names(rel@).len() == rel@.len());
    if rel.len() == 0 {
        return Err(SyncError::NoParent);
    }
    let description = join_names(&rel);
    let dest_dir = extend_path(destination, &rel, rel.len() - 1);
    let dest_path = extend_path(destination, &rel, rel.len());
    assert(names(rel@).subrange(0, rel@.len() as int) =~= names(rel@));
    assert(names(rel@).subrange(0, rel@.len() - 1) =~= names(rel@).drop_last());
    Ok(EntryPlan { description, dest_dir, dest_path })
}

} // verus!
