//! The nearest hit among the primitives of a scene.
//!
//! Each primitive is tested on its own with the same bounds; entry `i` of the
//! input holds the parameter `t` of primitive `i`'s hit, or nothing when it is
//! missed. The nearest hit wins, whatever order the primitives stand in.
use vstd::prelude::*;
use crate::scalar::{Scalar, is_nan, le, lt, lemma_order_total};

verus! {

/// Every reported hit has a parameter that is a number.
pub open spec fn hits_are_numbers(ts: Seq<Option<Scalar>>) -> bool {
    forall|j: int| 0 <= j < ts.len() && #[trigger] ts[j] is Some ==> !is_nan(ts[j]->0.bits)
}

/// Entry `i` is a hit and no hit is strictly nearer.
pub open spec fn is_nearest(ts: Seq<Option<Scalar>>, i: int) -> bool {
    &&& 0 <= i < ts.len()
    &&& ts[i] is Some
    &&& forall|j: int| 0 <= j < ts.len() && #[trigger] ts[j] is Some ==> !lt(ts[j]->0.bits, ts[i]->0.bits)
}

/// Some entry is a hit.
pub open spec fn any_hit(ts: Seq<Option<Scalar>>) -> bool {
    exists|j: int| 0 <= j < ts.len() && #[trigger] ts[j] is Some
}

/// The index of the nearest hit, the first one among equals; `None` when
/// nothing was hit.
pub fn nearest_hit(ts: &Vec<Option<Scalar>>) -> (r: Option<usize>)
    requires
        hits_are_numbers(ts@),
    ensures
        r is None <==> !any_hit(ts@),
        r matches Some(i) ==> is_nearest(ts@, i as int),
        r matches Some(i) ==> forall|j: int| 0 <= j < i && #[trigger] ts@[j] is Some ==> lt(ts@[i as int]->0.bits, ts@[j]->0.bits),
{
    let mut best: Option<usize> = None;
    let mut k: usize = 0;
    while k < ts.len()
        invariant
            0 <= k <= ts.len(),
            hits_are_numbers(ts@),
            best is None <==> forall|j: int| 0 <= j < k ==> !(#[trigger] ts@[j] is Some),
            best matches Some(i) ==> {
                &&& i < k
                &&& ts@[i as int] is Some
                &&& forall|j: int| 0 <= j < k && #[trigger] ts@[j] is Some ==> !lt(ts@[j]->0.bits, ts@[i as int]->0.bits)
                &&& forall|j: int| 0 <= j < i && #[trigger] ts@[j] is Some ==> lt(ts@[i as int]->0.bits, ts@[j]->0.bits)
            },
        decreases ts.len() - k,
    {
        if let Some(t) = ts[k] {
            match best {
                None => {
                    best = Some(k);
                },
                Some(i) => {
                    let cur = ts[i].unwrap();
                    if t.lt(&cur) {
                        proof {
                            assert forall|j: int| 0 <= j < k && #[trigger] ts@[j] is Some implies lt(t.bits, ts@[j]->0.bits) by {
                                lemma_order_total(t.bits, cur.bits, ts@[j]->0.bits);
                                lemma_order_total(ts@[j]->0.bits, cur.bits, t.bits);
                            }
                        }
                        best = Some(k);
                    }
                },
            }
        }
        k = k + 1;
    }
    proof {
        if best is None {
            assert forall|j: int| 0 <= j < ts@.len() implies !(#[trigger] ts@[j] is Some) by {}
        } else {
            assert(ts@[best->0 as int] is Some);
        }
    }
    best
}

/// Nearest wins regardless of order: when `us` holds the entries of `ts`
/// in another order, one has a hit exactly when the other does, and the
/// nearest hits of the two are equal as values.
pub proof fn lemma_nearest_order_invariant(ts: Seq<Option<Scalar>>, us: Seq<Option<Scalar>>, perm: Seq<int>, i: int, k: int)
    requires
        hits_are_numbers(ts),
        us.len() == ts.len(),
        perm.len() == ts.len(),
        forall|m: int| 0 <= m < us.len() ==> 0 <= #[trigger] perm[m] < ts.len() && us[m] == ts[perm[m]],
        forall|m: int, n: int| 0 <= m < n < perm.len() ==> #[trigger] perm[m] != #[trigger] perm[n],
        is_nearest(ts, i),
        is_nearest(us, k),
    ensures
        le(ts[i]->0.bits, us[k]->0.bits),
        le(us[k]->0.bits, ts[i]->0.bits),
{
    let p = perm[k];
    assert(us[k] == ts[p]);
    lemma_order_total(ts[i]->0.bits, ts[p]->0.bits, ts[p]->0.bits);
    // Entry i of ts stands somewhere in us.
    lemma_permutation_onto(perm, i);
    let m = choose|m: int| 0 <= m < perm.len() && perm[m] == i;
    assert(us[m] == ts[i]);
    lemma_order_total(us[k]->0.bits, us[m]->0.bits, us[m]->0.bits);
}

/// Any two scenes that are reorderings of each other either both have a hit or
/// both have none.
pub proof fn lemma_hit_order_invariant(ts: Seq<Option<Scalar>>, us: Seq<Option<Scalar>>, perm: Seq<int>)
    requires
        us.len() == ts.len(),
        perm.len() == ts.len(),
        forall|m: int| 0 <= m < us.len() ==> 0 <= #[trigger] perm[m] < ts.len() && us[m] == ts[perm[m]],
        forall|m: int, n: int| 0 <= m < n < perm.len() ==> #[trigger] perm[m] != #[trigger] perm[n],
    ensures
        any_hit(ts) <==> any_hit(us),
{
    if any_hit(us) {
        let m = choose|m: int| 0 <= m < us.len() && #[trigger] us[m] is Some;
        assert(ts[perm[m]] is Some);
    }
    if any_hit(ts) {
        let j = choose|j: int| 0 <= j < ts.len() && #[trigger] ts[j] is Some;
        lemma_permutation_onto(perm, j);
        let m = choose|m: int| 0 <= m < perm.len() && perm[m] == j;
        assert(us[m] is Some);
    }
}

/// An injective map of `0..n` into `0..n` reaches every index.
proof fn lemma_permutation_onto(perm: Seq<int>, j: int)
    requires
        0 <= j < perm.len(),
        forall|m: int| 0 <= m < perm.len() ==> 0 <= #[trigger] perm[m] < perm.len(),
        forall|m: int, n: int| 0 <= m < n < perm.len() ==> #[trigger] perm[m] != #[trigger] perm[n],
    ensures
        exists|m: int| 0 <= m < perm.len() && perm[m] == j,
{
    let n = perm.len() as int;
    if !(exists|m: int| 0 <= m < n && perm[m] == j) {
        // Then perm maps 0..n injectively into 0..n without j, a set of n - 1 values.
        let image = Set::new(|v: int| exists|m: int| 0 <= m < n && perm[m] == v);
        let range = Set::new(|v: int| 0 <= v < n && v != j);
        assert(image.subset_of(range));
        lemma_injective_image_len(perm, n);
        vstd::set_lib::lemma_int_range(0, n);
        assert(range =~= vstd::set_lib::set_int_range(0, n).remove(j));
        vstd::set_lib::lemma_len_subset(image, range);
    }
}

/// The image of the first `k` entries of an injective sequence has `k` elements.
proof fn lemma_injective_image_len(perm: Seq<int>, k: int)
    requires
        0 <= k <= perm.len(),
        forall|m: int, n: int| 0 <= m < n < perm.len() ==> #[trigger] perm[m] != #[trigger] perm[n],
    ensures
        Set::new(|v: int| exists|m: int| 0 <= m < k && perm[m] == v).finite(),
        Set::new(|v: int| exists|m: int| 0 <= m < k && perm[m] == v).len() == k,
    decreases k,
{
    let s = Set::new(|v: int| exists|m: int| 0 <= m < k && perm[m] == v);
    if k == 0 {
        assert(s =~= Set::empty());
    } else {
        lemma_injective_image_len(perm, k - 1);
        let t = Set::new(|v: int| exists|m: int| 0 <= m < k - 1 && perm[m] == v);
        assert(s =~= t.insert(perm[k - 1]));
        assert(!t.contains(perm[k - 1]));
    }
}

} // verus!
