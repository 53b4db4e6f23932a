//! The shells of one vehicle that get a table: shells of a skipped family get
//! none, and of several shells filed under one name the last one counts.

use vstd::prelude::*;
use crate::family::{is_skip_tag, should_skip};
use crate::record::DataProjectile;
use crate::text::same_text;

verus! {

/// The shell at `i` is simulated and no later simulated shell takes its
/// file name.
pub open spec fn is_selected(shells: Seq<DataProjectile>, i: int) -> bool {
    &&& 0 <= i < shells.len()
    &&& !is_skip_tag(shells[i].normalized_type@)
    &&& forall|j: int|
        i < j < shells.len() && !is_skip_tag((#[trigger] shells[j]).normalized_type@)
            ==> shells[j].output_name@ != shells[i].output_name@
}

fn is_last_of_its_name(shells: &Vec<DataProjectile>, i: usize) -> (r: bool)
    requires
        i < shells@.len(),
    ensures
        r == forall|j: int|
            i < j < shells@.len() && !is_skip_tag((#[trigger] shells@[j]).normalized_type@)
                ==> shells@[j].output_name@ != shells@[i as int].output_name@,
{
    let n: usize = shells.len();
    let mut j: usize = i + 1;
    while j < n
        invariant
            n == shells@.len(),
            i < j <= n,
            forall|k: int|
                i < k < j && !is_skip_tag((#[trigger] shells@[k]).normalized_type@)
                    ==> shells@[k].output_name@ != shells@[i as int].output_name@,
        decreases shells@.len() - j,
    {
        if !should_skip(shells[j].normalized_type.as_str()) && same_text(
            shells[j].output_name.as_str(),
            shells[i].output_name.as_str(),
        ) {
            return false;
        }
        j += 1;
    }
    true
}

/// The indices of the shells that get a table, in rising order.
pub fn select_shells(shells: &Vec<DataProjectile>) -> (r: Vec<usize>)
    ensures
        forall|k: int| 0 <= k < r@.len() ==> is_selected(shells@, #[trigger] r@[k] as int),
        forall|k: int, l: int| 0 <= k < l < r@.len() ==> r@[k] < r@[l],
        forall|i: int| is_selected(shells@, i) ==> r@.contains(i as usize),
{
    let mut r: Vec<usize> = Vec::new();
    let mut i: usize = 0;
    while i < shells.len()
        invariant
            i <= shells@.len(),
            forall|k: int| 0 <= k < r@.len() ==> is_selected(shells@, #[trigger] r@[k] as int),
            forall|k: int| 0 <= k < r@.len() ==> (#[trigger] r@[k]) < i,
            forall|k: int, l: int| 0 <= k < l < r@.len() ==> r@[k] < r@[l],
            forall|n: int| 0 <= n < i && is_selected(shells@, n) ==> r@.contains(n as usize),
        decreases shells@.len() - i,
    {
        if !should_skip(shells[i].normalized_type.as_str()) && is_last_of_its_name(shells, i) {
            let ghost before = r@;
            r.push(i);
            assert forall|n: int| 0 <= n < i + 1 && is_selected(shells@, n) implies r@.contains(
                n as usize,
            ) by {
                if n < i {
                    let k = choose|k: int| 0 <= k < before.len() && before[k] == n as usize;
                    assert(r@[k] == n as usize);
                } else {
                    assert(r@[r@.len() - 1] == i);
                }
            }
        }
        i += 1;
    }
    r
}

} // verus!
