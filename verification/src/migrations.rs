//! Which schema migrations a database still needs.

use vstd::prelude::*;

verus! {

/// The positions, in `versions`, of the migrations to apply to a database
/// at schema version `current`: every migration whose version is above
/// it, in the order given.
pub fn pending_migrations(current: i64, versions: &Vec<i64>) -> (r: Vec<usize>)
    ensures
        forall|k: int| 0 <= k < r@.len() ==> r@[k] < versions@.len() && versions@[r@[k] as int] > current,
        forall|k: int, l: int| 0 <= k < l < r@.len() ==> r@[k] < r@[l],
        forall|i: int| 0 <= i < versions@.len() && versions@[i] > current ==> r@.contains(i as usize),
{
    let mut out: Vec<usize> = Vec::new();
    let mut i: usize = 0;
    while i < versions.len()
        invariant
            i <= versions@.len(),
            forall|k: int| 0 <= k < out@.len() ==> out@[k] < i && versions@[out@[k] as int] > current,
            forall|k: int, l: int| 0 <= k < l < out@.len() ==> out@[k] < out@[l],
            forall|j: int| 0 <= j < i && versions@[j] > current ==> out@.contains(j as usize),
        decreases versions@.len() - i,
    {
        if versions[i] > current {
            let ghost before = out@;
            out.push(i);
            proof {
                assert(out@[before.len() as int] == i);
                assert forall|j: int| 0 <= j < i + 1 && versions@[j] > current implies out@.contains(
                    j as usize,
                ) by {
                    if j < i {
                        let k = choose|k: int| 0 <= k < before.len() && before[k] == j as usize;
                        assert(out@[k] == before[k]);
                    }
                }
            }
        }
        i = i + 1;
    }
    out
}

} // verus!
