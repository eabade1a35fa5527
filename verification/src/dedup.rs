use vstd::prelude::*;

use crate::by_address::ByAddress;
use crate::by_address::same_full_fingerprint;

verus! {

/// Whether `s[i]` is the first element of `s` with its full pointer
/// fingerprint: no earlier element compares equal to it under `ByAddress`.
pub open spec fn first_with_fingerprint<V>(s: Seq<ByAddress<V>>, i: int) -> bool {
    forall|j: int| 0 <= j < i ==> !same_full_fingerprint(s[j], s[i])
}

/// De-duplicate a sequence of callbacks (or any other pointer-like values)
/// by address, as inserting each into a hashed set keyed by `ByAddress`
/// does: the result lists, in ascending order, exactly the indices whose
/// element is the first with its fingerprint.  Invoking the elements at the
/// returned indices visits each distinct address exactly once, in the order
/// of first appearance.
pub fn first_occurrence_indices<V>(items: &Vec<ByAddress<V>>) -> (out: Vec<usize>)
    ensures
        forall|k: int| 0 <= k < out@.len() ==> (#[trigger] out@[k]) < items@.len(),
        forall|k1: int, k2: int| 0 <= k1 < k2 < out@.len() ==> out@[k1] < out@[k2],
        forall|ii: usize|
            ii < items@.len() ==> (#[trigger] out@.contains(ii) <==> first_with_fingerprint(
                items@,
                ii as int,
            )),
{
    let mut out: Vec<usize> = Vec::new();
    let n = items.len();
    let mut i: usize = 0;
    while i < n
        invariant
            n == items@.len(),
            i <= n,
            forall|k: int| 0 <= k < out@.len() ==> (#[trigger] out@[k]) < i,
            forall|k1: int, k2: int| 0 <= k1 < k2 < out@.len() ==> out@[k1] < out@[k2],
            forall|ii: usize|
                ii < i ==> (#[trigger] out@.contains(ii) <==> first_with_fingerprint(
                    items@,
                    ii as int,
                )),
        decreases n - i,
    {
        let mut dup = false;
        let mut j: usize = 0;
        while j < i
            invariant
                n == items@.len(),
                i < n,
                j <= i,
                dup <==> exists|jj: int|
                    0 <= jj < j && same_full_fingerprint(items@[jj], items@[i as int]),
            decreases i - j,
        {
            if items[j].eq(&items[i]) {
                dup = true;
            }
            j += 1;
        }
        proof {
            assert(dup <==> !first_with_fingerprint(items@, i as int));
            assert(!out@.contains(i)) by {
                if out@.contains(i) {
                    let k = choose|k: int| 0 <= k < out@.len() && out@[k] == i;
                    assert(out@[k] < i);
                }
            }
        }
        let ghost pre = out@;
        if !dup {
            out.push(i);
        }
        proof {
            assert forall|ii: usize| ii < i + 1 implies (#[trigger] out@.contains(ii)
                <==> first_with_fingerprint(items@, ii as int)) by {
                if !dup {
                    assert(out@ == pre.push(i));
                    vstd::seq_lib::lemma_seq_contains_after_push(pre, i, ii);
                    assert(out@.contains(ii) <==> ii == i || pre.contains(ii));
                } else {
                    assert(out@ == pre);
                }
            }
        }
        i += 1;
    }
    out
}

} // verus!
