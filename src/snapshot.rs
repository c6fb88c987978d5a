//! Parent lookup in a whole-system process snapshot.
use vstd::prelude::*;

verus! {

/// One entry of a process snapshot.
#[derive(Clone, Copy, Debug, PartialEq, Eq, Structural)]
pub struct SnapshotEntry {
    pub pid: usize,
    pub parent: usize,
}

/// Entry `i` is the first one of `snapshot` that describes `pid`.
pub open spec fn is_first_match(snapshot: Seq<SnapshotEntry>, pid: usize, i: int) -> bool {
    &&& 0 <= i < snapshot.len()
    &&& snapshot[i].pid == pid
    &&& forall|j: int| 0 <= j < i ==> snapshot[j].pid != pid
}

/// Scans `snapshot` in order for the entry of `pid` and returns the parent
/// it records; `None` where no entry describes `pid`.
pub fn get_parent_process_id(snapshot: &Vec<SnapshotEntry>, pid: usize) -> (r: Option<usize>)
    ensures
        r is None <==> forall|i: int| 0 <= i < snapshot@.len() ==> snapshot@[i].pid != pid,
        r is Some ==> exists|i: int|
            is_first_match(snapshot@, pid, i) && r == Some(snapshot@[i].parent),
{
    let mut i: usize = 0;
    while i < snapshot.len()
        invariant
            i <= snapshot.len(),
            forall|j: int| 0 <= j < i ==> snapshot@[j].pid != pid,
        decreases snapshot.len() - i,
    {
        if snapshot[i].pid == pid {
            assert(is_first_match(snapshot@, pid, i as int));
            return Some(snapshot[i].parent);
        }
        i = i + 1;
    }
    None
}

} // verus!
