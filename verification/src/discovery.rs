use vstd::prelude::*;

verus! {

/// One immediate child of the root directory, as enumeration reports it:
/// the child's path and whether a metadata lookup on the entry literally
/// named `.git` directly inside it succeeded. Any entry at that name
/// counts (directory, plain file or symbolic link alike).
pub struct ChildEntry {
    pub path: String,
    pub has_git: bool,
}

/// The paths, in enumeration order, of the children that are working
/// copies: those whose `.git` metadata lookup succeeded.
pub open spec fn working_copy_paths(children: Seq<ChildEntry>) -> Seq<Seq<char>>
    decreases children.len(),
{
    if children.len() == 0 {
        Seq::empty()
    } else {
        working_copy_paths(children.drop_last()) + (if children.last().has_git {
            seq![children.last().path@]
        } else {
            Seq::empty()
        })
    }
}

/// How many children carry a `.git` entry.
pub open spec fn git_child_count(children: Seq<ChildEntry>) -> nat
    decreases children.len(),
{
    if children.len() == 0 {
        0
    } else {
        git_child_count(children.drop_last()) + (if children.last().has_git {
            1nat
        } else {
            0nat
        })
    }
}

/// Filter the enumerated children down to the working copies, keeping
/// enumeration order. Each path kept becomes one update task.
pub fn select_working_copies(children: &Vec<ChildEntry>) -> (r: Vec<String>)
    ensures
        r.deep_view() == working_copy_paths(children@),
{
    let mut r: Vec<String> = Vec::new();
    let mut i: usize = 0;
    while i < children.len()
        invariant
            i <= children.len(),
            r.deep_view() == working_copy_paths(children@.take(i as int)),
        decreases children.len() - i,
    {
        assert(children@.take(i + 1).drop_last() == children@.take(i as int));
        assert(children@.take(i + 1).last() == children@[i as int]);
        if children[i].has_git {
            r.push(children[i].path.clone());
        }
        assert(r.deep_view() =~= working_copy_paths(children@.take(i + 1)));
        i = i + 1;
    }
    assert(children@.take(children@.len() as int) == children@);
    r
}

/// One update task — and so one spawned worker — per working copy: the
/// tasks are exactly as many as the children whose `.git` entry exists at
/// the moment of discovery.
pub proof fn lemma_one_task_per_working_copy(children: Seq<ChildEntry>)
    ensures
        working_copy_paths(children).len() == git_child_count(children),
    decreases children.len(),
{
    if children.len() > 0 {
        lemma_one_task_per_working_copy(children.drop_last());
    }
}

/// A path receives an update task exactly when some enumerated child has
/// that path and a `.git` entry. In particular a child without `.git` is
/// never worked on, and no path outside the enumerated children — no
/// grandchild, no stranger — is ever worked on.
pub proof fn lemma_task_membership(children: Seq<ChildEntry>, p: Seq<char>)
    ensures
        working_copy_paths(children).contains(p) <==> (exists|i: int|
            0 <= i < children.len() && children[i].has_git && children[i].path@ == p),
    decreases children.len(),
{
    if children.len() > 0 {
        lemma_task_membership(children.drop_last(), p);
        let sub = working_copy_paths(children.drop_last());
        if children.last().has_git && children.last().path@ == p {
            assert(working_copy_paths(children)[sub.len() as int] == p);
            assert(working_copy_paths(children).contains(p));
        }
        if working_copy_paths(children).contains(p) {
            let j = choose|j: int|
                0 <= j < working_copy_paths(children).len() && working_copy_paths(children)[j]
                    == p;
            if j < sub.len() {
                assert(sub.contains(p));
            } else {
                assert(children.last().has_git && children.last().path@ == p);
            }
        }
        if exists|i: int| 0 <= i < children.len() && children[i].has_git && children[i].path@ == p {
            let i = choose|i: int|
                0 <= i < children.len() && children[i].has_git && children[i].path@ == p;
            if i < children.len() - 1 {
                assert(children.drop_last()[i] == children[i]);
                assert(sub.contains(p));
                let j = choose|j: int| 0 <= j < sub.len() && sub[j] == p;
                assert(working_copy_paths(children)[j] == p);
            }
        }
    }
}

/// Running discovery twice over the same set of children yields the same
/// set of working-copy paths, whatever order enumeration reported them in.
pub proof fn lemma_discovery_idempotent(a: Seq<ChildEntry>, b: Seq<ChildEntry>)
    requires
        a.to_set() == b.to_set(),
    ensures
        working_copy_paths(a).to_set() == working_copy_paths(b).to_set(),
{
    assert forall|p: Seq<char>|
        working_copy_paths(a).to_set().contains(p)
            == working_copy_paths(b).to_set().contains(p) by {
        lemma_task_membership(a, p);
        lemma_task_membership(b, p);
        assert forall|i: int|
            0 <= i < a.len() && a[i].has_git && a[i].path@ == p implies (exists|j: int|
            0 <= j < b.len() && b[j].has_git && b[j].path@ == p) by {
            assert(a.to_set().contains(a[i]));
            assert(b.to_set().contains(a[i]));
            let j = choose|j: int| 0 <= j < b.len() && b[j] == a[i];
            assert(b[j].has_git && b[j].path@ == p);
        }
        assert forall|j: int|
            0 <= j < b.len() && b[j].has_git && b[j].path@ == p implies (exists|i: int|
            0 <= i < a.len() && a[i].has_git && a[i].path@ == p) by {
            assert(b.to_set().contains(b[j]));
            assert(a.to_set().contains(b[j]));
            let i = choose|i: int| 0 <= i < a.len() && a[i] == b[j];
            assert(a[i].has_git && a[i].path@ == p);
        }
    }
    assert(working_copy_paths(a).to_set() =~= working_copy_paths(b).to_set());
}

} // verus!
