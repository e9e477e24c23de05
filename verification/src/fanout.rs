use vstd::prelude::*;

use crate::imaging::image_wf;
use crate::imaging::matches_normalized;
use crate::imaging::normalize;
use crate::imaging::opt_image_view;
use crate::imaging::lemma_normalize_deterministic;
use crate::imaging::NormalizedImage;
use crate::imaging::MAX_TARGET_SIZE;

verus! {

/// The resolution of one fan-out element: which input position it belongs
/// to, and the raw bytes that came back — or nothing, when the fetch for
/// that one element failed.
pub struct Completion {
    pub index: usize,
    pub payload: Option<Vec<u8>>,
}

/// The bytes a completion carries, if any.
pub open spec fn payload_view(p: Option<Vec<u8>>) -> Option<Seq<u8>> {
    match p {
        None => None,
        Some(v) => Some(v@),
    }
}

/// Every completion names an input position below `n`.
pub open spec fn indices_below(cs: Seq<Completion>, n: int) -> bool {
    forall|k: int| 0 <= k < cs.len() ==> (#[trigger] cs[k]).index < n
}

/// No two completions name the same input position.
pub open spec fn indices_distinct(cs: Seq<Completion>) -> bool {
    forall|a: int, b: int|
        0 <= a < b < cs.len() ==> (#[trigger] cs[a]).index != (#[trigger] cs[b]).index
}

/// Some completion names input position `i`.
pub open spec fn covered(cs: Seq<Completion>, i: int) -> bool {
    exists|k: int| 0 <= k < cs.len() && (#[trigger] cs[k]).index == i
}

/// What one output slot must hold for the payload of the completion that
/// names it: nothing when no bytes came back, the normalized image — or
/// nothing, on a decode failure — when bytes did.
pub open spec fn slot_matches(
    img: Option<NormalizedImage>,
    payload: Option<Seq<u8>>,
    size: u32,
) -> bool {
    match payload {
        None => img is None,
        Some(bytes) => matches_normalized(img, bytes, size),
    }
}

/// Every slot named by a completion holds what that completion requires;
/// every slot named by no completion holds nothing.
pub open spec fn slots_match(
    r: Seq<Option<NormalizedImage>>,
    cs: Seq<Completion>,
    n: int,
    size: u32,
) -> bool {
    &&& r.len() == n
    &&& forall|k: int|
        0 <= k < cs.len() ==> slot_matches(
            r[(#[trigger] cs[k]).index as int],
            payload_view(cs[k].payload),
            size,
        )
    &&& forall|i: int| 0 <= i < n && !covered(cs, i) ==> r[i] is None
}

/// Assembles the fan-out output from the resolved elements: exactly one
/// output per input position, in input order, whatever order the elements
/// completed in. An element whose fetch failed or whose bytes do not decode
/// yields an absent image in its own slot only; no other slot is touched,
/// dropped or reordered.
pub fn images_in_input_order(n: usize, completions: &Vec<Completion>, size: u32) -> (r: Vec<
    Option<NormalizedImage>,
>)
    requires
        completions@.len() == n,
        indices_below(completions@, n as int),
        indices_distinct(completions@),
        1 <= size <= MAX_TARGET_SIZE,
    ensures
        slots_match(r@, completions@, n as int, size),
        forall|i: int| 0 <= i < n ==> ((#[trigger] r@[i]) matches Some(img) ==> image_wf(img)),
{
    let mut r: Vec<Option<NormalizedImage>> = Vec::new();
    let mut i: usize = 0;
    while i < n
        invariant
            i <= n,
            r@.len() == i,
            forall|j: int| 0 <= j < i ==> r@[j] is None,
        decreases n - i,
    {
        r.push(None);
        i += 1;
    }
    let mut k: usize = 0;
    while k < n
        invariant
            completions@.len() == n,
            indices_below(completions@, n as int),
            indices_distinct(completions@),
            1 <= size <= MAX_TARGET_SIZE,
            k <= n,
            r@.len() == n,
            forall|j: int|
                0 <= j < k ==> slot_matches(
                    r@[(#[trigger] completions@[j]).index as int],
                    payload_view(completions@[j].payload),
                    size,
                ),
            forall|i: int|
                0 <= i < n && !covered(completions@.take(k as int), i) ==> r@[i] is None,
            forall|i: int| 0 <= i < n ==> ((#[trigger] r@[i]) matches Some(img) ==> image_wf(img)),
        decreases n - k,
    {
        let ghost r_old: Seq<Option<NormalizedImage>> = r@;
        let c = &completions[k];
        let img: Option<NormalizedImage> = match &c.payload {
            Some(bytes) => normalize(bytes.as_slice(), size),
            None => None,
        };
        let idx = c.index;
        r[idx] = img;
        k += 1;
        proof {
            let cs = completions@;
            assert(cs.take(k as int) =~= cs.take(k - 1).push(cs[k - 1]));
            assert forall|j: int| 0 <= j < k implies slot_matches(
                r@[(#[trigger] cs[j]).index as int],
                payload_view(cs[j].payload),
                size,
            ) by {
                if j < k - 1 {
                    assert(cs[j].index != idx);
                    assert(r@[cs[j].index as int] == r_old[cs[j].index as int]);
                } else {
                    assert(r@[idx as int] == img);
                }
            }
            assert forall|i: int|
                0 <= i < n && !covered(cs.take(k as int), i) implies r@[i] is None by {
                assert(cs.take(k as int)[k - 1] == cs[k - 1]);
                assert(idx != i);
                assert(!covered(cs.take(k - 1), i)) by {
                    if covered(cs.take(k - 1), i) {
                        let w = choose|w: int|
                            0 <= w < k - 1 && (#[trigger] cs.take(k - 1)[w]).index == i;
                        assert(cs.take(k as int)[w].index == i);
                    }
                }
                assert(r@[i] == r_old[i]);
            }
        }
    }
    proof {
        assert(completions@.take(n as int) =~= completions@);
    }
    r
}

/// One element resolved the same way in two runs: it names the same input
/// position and carries the same bytes.
pub open spec fn same_completion(x: Completion, y: Completion) -> bool {
    x.index == y.index && payload_view(x.payload) == payload_view(y.payload)
}

/// Each completion of `a` resolves somewhere in `b` the same way.
pub open spec fn contained_in(a: Seq<Completion>, b: Seq<Completion>) -> bool {
    forall|k: int|
        0 <= k < a.len() ==> exists|j: int|
            0 <= j < b.len() && same_completion(#[trigger] a[k], b[j])
}

/// The assembled output does not depend on completion order: two runs whose
/// elements resolved the same way — the same positions with the same bytes,
/// in whatever order they arrived — assemble to outputs that are slot for
/// slot pixel-identical.
pub proof fn lemma_order_independent(
    a: Seq<Completion>,
    b: Seq<Completion>,
    ra: Seq<Option<NormalizedImage>>,
    rb: Seq<Option<NormalizedImage>>,
    n: int,
    size: u32,
)
    requires
        a.len() == n,
        b.len() == n,
        indices_below(a, n),
        indices_distinct(a),
        indices_below(b, n),
        indices_distinct(b),
        contained_in(a, b),
        contained_in(b, a),
        slots_match(ra, a, n, size),
        slots_match(rb, b, n, size),
    ensures
        ra.len() == rb.len(),
        forall|i: int| 0 <= i < n ==> opt_image_view(#[trigger] ra[i]) == opt_image_view(rb[i]),
{
    assert forall|i: int|
        0 <= i < n implies opt_image_view(#[trigger] ra[i]) == opt_image_view(rb[i]) by {
        if covered(a, i) {
            let k = choose|k: int| 0 <= k < a.len() && (#[trigger] a[k]).index == i;
            let j = choose|j: int| 0 <= j < b.len() && same_completion(a[k], b[j]);
            assert(b[j].index == i);
            assert(slot_matches(ra[i], payload_view(a[k].payload), size));
            assert(slot_matches(rb[i], payload_view(b[j].payload), size));
            match payload_view(a[k].payload) {
                None => {
                    assert(ra[i] is None && rb[i] is None);
                },
                Some(bytes) => {
                    lemma_normalize_deterministic(ra[i], rb[i], bytes, size);
                },
            }
        } else {
            assert(ra[i] is None);
            assert(!covered(b, i)) by {
                if covered(b, i) {
                    let kb = choose|kb: int| 0 <= kb < b.len() && (#[trigger] b[kb]).index == i;
                    let ja = choose|ja: int|
                        0 <= ja < a.len() && same_completion(b[kb], a[ja]);
                    assert(a[ja].index == i);
                }
            }
            assert(rb[i] is None);
        }
    }
}

} // verus!
