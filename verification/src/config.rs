use vstd::prelude::*;

use crate::discovery::ChildEntry;
use crate::discovery::lemma_discovery_idempotent;
use crate::discovery::select_working_copies;
use crate::discovery::working_copy_paths;
use crate::errors::SyncError;
use crate::update::header_line;

verus! {

/// The run's one input: the root path under which sibling working copies
/// are kept.
#[derive(Debug)]
pub struct Config {
    pub path: String,
}

impl Config {
    /// Decide a whole run from what enumeration of the root reported.
    ///
    /// `children` is `None` when the root could not be enumerated (it does
    /// not exist, is not a directory, or is not readable): that, and only
    /// that, is the fatal invalid-path error, and no update task exists.
    /// Otherwise every child with a `.git` entry becomes one update task,
    /// in enumeration order, and each task is one spawned worker.
    pub fn plan(&self, children: &Option<Vec<ChildEntry>>) -> (r: Result<Vec<String>, SyncError>)
        ensures
            children is None <==> r is Err,
            r matches Err(e) ==> e.spec_path() == self.path@,
            r matches Ok(tasks) ==> tasks.deep_view() == working_copy_paths(
                children.unwrap()@,
            ),
    {
        match children {
            None => Err(SyncError::InvalidPath { path: self.path.clone() }),
            Some(c) => Ok(select_working_copies(c)),
        }
    }
}

/// The header lines a run over these children emits: one per working copy.
pub open spec fn emitted_headers(children: Seq<ChildEntry>) -> Set<Seq<char>> {
    working_copy_paths(children).map_values(|p: Seq<char>| header_line(p)).to_set()
}

/// Running the tool twice on the same root emits the same set of header
/// lines, however enumeration happens to order the children, provided the
/// set of children has not changed between the runs.
pub proof fn lemma_run_idempotent(a: Seq<ChildEntry>, b: Seq<ChildEntry>)
    requires
        a.to_set() == b.to_set(),
    ensures
        emitted_headers(a) == emitted_headers(b),
{
    lemma_discovery_idempotent(a, b);
    let wa = working_copy_paths(a);
    let wb = working_copy_paths(b);
    let f = (|p: Seq<char>| header_line(p));
    assert forall|h: Seq<char>|
        wa.map_values(f).to_set().contains(h) implies wb.map_values(f).to_set().contains(h) by {
        let i = choose|i: int| 0 <= i < wa.map_values(f).len() && wa.map_values(f)[i] == h;
        assert(wa.to_set().contains(wa[i]));
        assert(wb.to_set().contains(wa[i]));
        let j = choose|j: int| 0 <= j < wb.len() && wb[j] == wa[i];
        assert(wb.map_values(f)[j] == h);
        assert(wb.map_values(f).to_set().contains(h));
    }
    assert forall|h: Seq<char>|
        wb.map_values(f).to_set().contains(h) implies wa.map_values(f).to_set().contains(h) by {
        let j = choose|j: int| 0 <= j < wb.map_values(f).len() && wb.map_values(f)[j] == h;
        assert(wb.to_set().contains(wb[j]));
        assert(wa.to_set().contains(wb[j]));
        let i = choose|i: int| 0 <= i < wa.len() && wa[i] == wb[j];
        assert(wa.map_values(f)[i] == h);
        assert(wa.map_values(f).to_set().contains(h));
    }
    assert(emitted_headers(a) =~= emitted_headers(b));
}

} // verus!
