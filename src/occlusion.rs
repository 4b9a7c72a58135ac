use vstd::prelude::*;

use crate::hit::Hit;

verus! {

/// A non-negative fraction `num / den`.
#[derive(Clone, Copy, Debug, PartialEq, Eq, Structural)]
pub struct Ratio {
    pub num: u128,
    pub den: u128,
}

/// Number of hits in `s` that are not the miss.
pub open spec fn count_hits(s: Seq<Hit>) -> nat
    decreases s.len(),
{
    if s.len() == 0 {
        0
    } else {
        count_hits(s.drop_last()) + if s.last().is_miss_spec() {
            0nat
        } else {
            1nat
        }
    }
}

/// The occlusion fraction of a bundle of `n` rays of which `c` hit something:
/// `min(1, 1.1 * c / n)`, written over the denominator `10 * n`.
pub open spec fn occlusion_spec(c: nat, n: nat) -> (int, int) {
    (if 11 * c <= 10 * n {
        11 * c as int
    } else {
        10 * n as int
    }, 10 * n as int)
}

/// The ratio `r` is the pair `p`.
pub open spec fn ratio_is(r: Ratio, p: (int, int)) -> bool {
    r.num == p.0 && r.den == p.1
}

/// Occlusion of a traced bundle of rays: the share of them that hit
/// something, scaled by 1.1 and clamped to 1.
pub fn occlusion(hits: &Vec<Hit>) -> (r: Ratio)
    requires
        hits@.len() > 0,
    ensures
        ratio_is(r, occlusion_spec(count_hits(hits@), hits@.len())),
        r.den > 0,
        r.num <= r.den,
{
    let n = hits.len();
    let mut c: u128 = 0;
    let mut i: usize = 0;
    while i < n
        invariant
            n == hits@.len(),
            i <= n,
            c == count_hits(hits@.subrange(0, i as int)),
            c <= i,
        decreases n - i,
    {
        proof {
            assert(hits@.subrange(0, i as int + 1).drop_last() =~= hits@.subrange(0, i as int));
        }
        if !hits[i].is_miss() {
            c = c + 1;
        }
        i = i + 1;
    }
    proof {
        assert(hits@.subrange(0, i as int) =~= hits@);
    }
    let scaled: u128 = 11 * c;
    let den: u128 = 10 * (n as u128);
    if scaled <= den {
        Ratio { num: scaled, den }
    } else {
        Ratio { num: den, den }
    }
}

/// A bundle that hits nothing is not occluded at all, and one of which more
/// than ten in eleven rays hit something is occluded exactly fully.
pub proof fn lemma_occlusion_bounds(c: nat, n: nat)
    requires
        c <= n,
        0 < n,
    ensures
        c == 0 ==> occlusion_spec(c, n).0 == 0,
        11 * c >= 10 * n ==> occlusion_spec(c, n).0 == occlusion_spec(c, n).1,
        11 * c < 10 * n ==> occlusion_spec(c, n).0 < occlusion_spec(c, n).1,
        occlusion_spec(c, n).1 > 0,
{
}

/// Ambient-occlusion coefficients, one for each primary hit in order: `0`
/// for a miss, and otherwise the occlusion of the bundle traced from that hit
/// over the hemisphere around its normal.
pub fn ambient_occlusion(hits: &Vec<Hit>, bundles: &Vec<Vec<Hit>>) -> (r: Vec<Ratio>)
    requires
        bundles@.len() == hits@.len(),
        forall|i: int|
            0 <= i < hits@.len() && !(#[trigger] hits@[i]).is_miss_spec() ==> 0 < bundles@[i]@.len(),
    ensures
        r@.len() == hits@.len(),
        forall|i: int|
            0 <= i < hits@.len() ==> ratio_is(
                #[trigger] r@[i],
                if hits@[i].is_miss_spec() {
                    (0, 1)
                } else {
                    occlusion_spec(count_hits(bundles@[i]@), bundles@[i]@.len())
                },
            ),
{
    let mut r: Vec<Ratio> = Vec::new();
    let mut i: usize = 0;
    while i < hits.len()
        invariant
            i <= hits@.len(),
            bundles@.len() == hits@.len(),
            forall|i: int|
                0 <= i < hits@.len() && !(#[trigger] hits@[i]).is_miss_spec() ==> 0
                    < bundles@[i]@.len(),
            r@.len() == i,
            forall|j: int|
                0 <= j < i ==> ratio_is(
                    #[trigger] r@[j],
                    if hits@[j].is_miss_spec() {
                        (0, 1)
                    } else {
                        occlusion_spec(count_hits(bundles@[j]@), bundles@[j]@.len())
                    },
                ),
        decreases hits@.len() - i,
    {
        if hits[i].is_miss() {
            r.push(Ratio { num: 0, den: 1 });
        } else {
            r.push(occlusion(&bundles[i]));
        }
        i = i + 1;
    }
    r
}

} // verus!
