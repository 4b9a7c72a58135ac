use vstd::prelude::*;

use crate::hit::{f32_less, lemma_f32_less_order, miss_spec, nearest_of, Hit};

verus! {

/// What the nearest-hit fold guarantees of any sequence of candidates: its
/// distance is a number, and no candidate's distance is less; it is the
/// canonical miss when its distance is positive infinity; and otherwise it is
/// one of the candidates.
pub proof fn lemma_nearest_of(s: Seq<Hit>)
    ensures
        nearest_of(s).wf(),
        forall|i: int| 0 <= i < s.len() ==> !f32_less((#[trigger] s[i]).t, nearest_of(s).t),
        nearest_of(s).is_miss_spec() ==> nearest_of(s) == miss_spec(),
        !nearest_of(s).is_miss_spec() ==> exists|i: int| 0 <= i < s.len() && nearest_of(s) == s[i],
    decreases s.len(),
{
    if s.len() > 0 {
        let p = s.drop_last();
        lemma_nearest_of(p);
        assert forall|i: int| 0 <= i < s.len() implies !f32_less(
            (#[trigger] s[i]).t,
            nearest_of(s).t,
        ) by {
            lemma_f32_less_order(s[i].t, s.last().t, nearest_of(p).t);
            lemma_f32_less_order(s[i].t, nearest_of(p).t, s.last().t);
            if i < s.len() - 1 {
                assert(s[i] == p[i]);
            }
        }
        if !nearest_of(s).is_miss_spec() && nearest_of(s) == nearest_of(p) {
            let i = choose|i: int| 0 <= i < p.len() && nearest_of(p) == p[i];
            assert(s[i] == p[i]);
        }
        if nearest_of(s) != nearest_of(p) {
            assert(nearest_of(s) == s[s.len() - 1]);
        }
    }
}

/// Casts one ray: folds [`Hit::update`] over the ray's hit with every
/// primitive of the scene, in order, and returns the nearest of them, or the
/// miss where none was hit.
pub fn nearest(candidates: &Vec<Hit>) -> (r: Hit)
    ensures
        r == nearest_of(candidates@),
        r.wf(),
        forall|i: int|
            0 <= i < candidates@.len() ==> !f32_less((#[trigger] candidates@[i]).t, r.t),
        r.is_miss_spec() ==> r == miss_spec(),
        !r.is_miss_spec() ==> exists|i: int| 0 <= i < candidates@.len() && r == candidates@[i],
        (forall|i: int| 0 <= i < candidates@.len() ==> (#[trigger] candidates@[i]).wf()) ==> (
        r.is_miss_spec() <==> forall|i: int|
            0 <= i < candidates@.len() ==> (#[trigger] candidates@[i]).is_miss_spec()),
{
    let mut hit = Hit::miss();
    let mut i: usize = 0;
    while i < candidates.len()
        invariant
            i <= candidates@.len(),
            hit == nearest_of(candidates@.subrange(0, i as int)),
        decreases candidates@.len() - i,
    {
        proof {
            assert(candidates@.subrange(0, i as int + 1).drop_last() =~= candidates@.subrange(
                0,
                i as int,
            ));
        }
        hit.update(&candidates[i]);
        i = i + 1;
    }
    proof {
        assert(candidates@.subrange(0, i as int) =~= candidates@);
        lemma_nearest_of(candidates@);
    }
    hit
}

} // verus!

verus! {

/// Traces a batch of rays, given for each ray its hits with the scene's
/// primitives: entry `i` of the result is the nearest hit of ray `i`.
pub fn trace(candidates: &Vec<Vec<Hit>>) -> (r: Vec<Hit>)
    ensures
        r@.len() == candidates@.len(),
        forall|i: int| 0 <= i < candidates@.len() ==> #[trigger] r@[i] == nearest_of(candidates@[i]@),
{
    let mut r: Vec<Hit> = Vec::new();
    let mut i: usize = 0;
    while i < candidates.len()
        invariant
            i <= candidates@.len(),
            r@.len() == i,
            forall|j: int| 0 <= j < i ==> #[trigger] r@[j] == nearest_of(candidates@[j]@),
        decreases candidates@.len() - i,
    {
        r.push(nearest(&candidates[i]));
        i = i + 1;
    }
    r
}

} // verus!
