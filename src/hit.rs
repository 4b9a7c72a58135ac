use vstd::prelude::*;

verus! {

/// Bit pattern of positive infinity in IEEE-754 single precision.
pub const INFINITY_BITS: u32 = 0x7f80_0000;

/// The sign bit of an IEEE-754 single-precision bit pattern.
pub const SIGN_BIT: u32 = 0x8000_0000;

/// The bit pattern `b` without its sign bit: the magnitude of the value it
/// encodes, ordered as the magnitudes are.
pub open spec fn magnitude(b: u32) -> int {
    if b >= SIGN_BIT {
        b - SIGN_BIT
    } else {
        b as int
    }
}

/// The bit pattern `b` encodes a NaN.
pub open spec fn is_nan_bits(b: u32) -> bool {
    magnitude(b) > INFINITY_BITS
}

/// `a < b` on the single-precision values whose bit patterns are `a` and
/// `b`: false where either is a NaN; between two non-negative values the
/// order of the patterns; between two negative values the reverse order of
/// the magnitudes; a negative value lies below a non-negative one unless both
/// are zeros.
pub open spec fn f32_less(a: u32, b: u32) -> bool {
    if is_nan_bits(a) || is_nan_bits(b) {
        false
    } else if a < SIGN_BIT && b < SIGN_BIT {
        a < b
    } else if a >= SIGN_BIT && b >= SIGN_BIT {
        magnitude(a) > magnitude(b)
    } else if a >= SIGN_BIT {
        !(magnitude(a) == 0 && magnitude(b) == 0)
    } else {
        false
    }
}

/// `<` on single-precision values, computed on their bit patterns.
pub fn f32_lt(a: u32, b: u32) -> (r: bool)
    ensures
        r == f32_less(a, b),
{
    let ma: u32 = if a >= SIGN_BIT {
        a - SIGN_BIT
    } else {
        a
    };
    let mb: u32 = if b >= SIGN_BIT {
        b - SIGN_BIT
    } else {
        b
    };
    if ma > INFINITY_BITS || mb > INFINITY_BITS {
        false
    } else if a < SIGN_BIT && b < SIGN_BIT {
        a < b
    } else if a >= SIGN_BIT && b >= SIGN_BIT {
        ma > mb
    } else if a >= SIGN_BIT {
        !(ma == 0 && mb == 0)
    } else {
        false
    }
}

/// `<` on single-precision values is irreflexive and transitive.
pub proof fn lemma_f32_less_order(a: u32, b: u32, c: u32)
    ensures
        !f32_less(a, a),
        f32_less(a, b) && f32_less(b, c) ==> f32_less(a, c),
        f32_less(a, b) ==> !f32_less(b, a),
{
}

/// A vector of three single-precision numbers, each held as its bit pattern.
#[derive(Clone, Copy, Debug, PartialEq, Eq, Structural)]
pub struct Vec3Bits {
    pub x: u32,
    pub y: u32,
    pub z: u32,
}

/// Where a ray meets a surface: the ray parameter `t`, the surface normal and
/// the point, each number held as its single-precision bit pattern. Distances
/// are compared in the order of the values they encode ([`f32_less`]).
///
/// The distinguished miss has `t` equal to [`INFINITY_BITS`] and a zero normal
/// and point.
#[derive(Clone, Copy, Debug, PartialEq, Eq, Structural)]
pub struct Hit {
    pub t: u32,
    pub normal: Vec3Bits,
    pub point: Vec3Bits,
}

/// The canonical miss.
pub open spec fn miss_spec() -> Hit {
    Hit { t: INFINITY_BITS, normal: Vec3Bits { x: 0, y: 0, z: 0 }, point: Vec3Bits { x: 0, y: 0, z: 0 } }
}

/// The nearest-hit merge: `other` replaces `current` exactly when it is not a
/// miss and its distance is strictly less.
pub open spec fn merged(current: Hit, other: Hit) -> Hit {
    if other.t != INFINITY_BITS && f32_less(other.t, current.t) {
        other
    } else {
        current
    }
}

/// The nearest of a sequence of candidate hits, folding the merge from the
/// miss over the candidates in order.
pub open spec fn nearest_of(s: Seq<Hit>) -> Hit
    decreases s.len(),
{
    if s.len() == 0 {
        miss_spec()
    } else {
        merged(nearest_of(s.drop_last()), s.last())
    }
}

/// The miss is a miss; merging into the miss any hit that is not a miss and
/// whose distance is not a NaN yields that hit; and merging the miss into any
/// hit leaves it as it was.
pub proof fn lemma_miss_merge(h: Hit)
    ensures
        miss_spec().is_miss_spec(),
        !is_nan_bits(h.t) && !h.is_miss_spec() ==> merged(miss_spec(), h) == h,
        merged(h, miss_spec()) == h,
{
}

impl Hit {
    /// A distance that is a number or an infinity, never a NaN.
    pub open spec fn wf(self) -> bool {
        !is_nan_bits(self.t)
    }

    pub open spec fn is_miss_spec(self) -> bool {
        self.t == INFINITY_BITS
    }

    pub fn new(t: u32, normal: Vec3Bits, point: Vec3Bits) -> (r: Hit)
        ensures
            r == (Hit { t, normal, point }),
    {
        Hit { t, normal, point }
    }

    pub fn miss() -> (r: Hit)
        ensures
            r == miss_spec(),
            r.is_miss_spec(),
            r.wf(),
    {
        Hit { t: INFINITY_BITS, normal: Vec3Bits { x: 0, y: 0, z: 0 }, point: Vec3Bits { x: 0, y: 0, z: 0 } }
    }

    pub fn is_miss(self) -> (r: bool)
        ensures
            r == self.is_miss_spec(),
    {
        self.t == INFINITY_BITS
    }

    /// Keeps the nearer of `self` and `other`; a miss never replaces a hit.
    pub fn update(&mut self, other: &Hit)
        ensures
            *final(self) == merged(*old(self), *other),
    {
        if !other.is_miss() && f32_lt(other.t, self.t) {
            *self = *other;
        }
    }
}

} // verus!
