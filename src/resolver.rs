//! The choice of the factor by which a requested impulse is scaled.
//!
//! A resolver works per entity and per step. With `imp` the impulse (for the
//! linear resolver: re-expressed in the body frame), `upper` and `lower` the
//! two bound vectors of the envelope (`max` and `min`, or `rot` and `-rot`),
//! the caller computes the ratios `upper / imp` and `lower / imp` and the
//! squared length of the impulse, and hands their encodings here. The factor
//! is the least normal value among the absolute ratios and `1.0`, so it lies
//! in `(0, 1]`; the output is the impulse times the factor, or the zero
//! vector where the squared length is not normal.
use vstd::prelude::*;

use crate::binary32::{
    abs, finite, has_normal, is_normal, magnitude, nan, normal, selects, sign_set,
    smallest_normal, value_le, zero, ONE,
};
use crate::components::Vec3Bits;

verus! {

/// The seven candidates of a factor: the absolute ratios to the upper
/// bounds, those to the lower bounds, and `1.0`, the cap that keeps an
/// impulse from being amplified.
pub open spec fn candidates(upper_ratios: Vec3Bits, lower_ratios: Vec3Bits) -> Seq<u32> {
    seq![
        magnitude(upper_ratios.x),
        magnitude(upper_ratios.y),
        magnitude(upper_ratios.z),
        magnitude(lower_ratios.x),
        magnitude(lower_ratios.y),
        magnitude(lower_ratios.z),
        ONE,
    ]
}

/// The factor: the least normal candidate.
pub fn scale_factor(upper_ratios: Vec3Bits, lower_ratios: Vec3Bits) -> (r: u32)
    ensures
        selects(r, candidates(upper_ratios, lower_ratios)),
{
    let c: Vec<u32> = vec![
        abs(upper_ratios.x),
        abs(upper_ratios.y),
        abs(upper_ratios.z),
        abs(lower_ratios.x),
        abs(lower_ratios.y),
        abs(lower_ratios.z),
        ONE,
    ];
    assert(c@ =~= candidates(upper_ratios, lower_ratios));
    smallest_normal(c.as_slice())
}

/// One resolution step: `None` (the output is the zero vector) where the
/// squared length of the impulse is not normal, else the factor by which the
/// impulse is scaled.
pub fn resolve_scale(length_squared: u32, upper_ratios: Vec3Bits, lower_ratios: Vec3Bits) -> (r:
    Option<u32>)
    ensures
        r is None <==> !normal(length_squared),
        r matches Some(f) ==> selects(f, candidates(upper_ratios, lower_ratios)),
{
    if is_normal(length_squared) {
        Some(scale_factor(upper_ratios, lower_ratios))
    } else {
        None
    }
}

/// A zero impulse is never thrust: its squared length is a zero, which is not
/// normal, so `resolve_scale` returns `None` and the output is the zero vector.
pub proof fn lemma_zero_impulse_is_idle(length_squared: u32)
    requires
        zero(length_squared),
    ensures
        !normal(length_squared),
{
}

/// An impulse whose squared length is infinite or NaN is never thrust:
/// `resolve_scale` returns `None` and the output is the zero vector.
pub proof fn lemma_nonfinite_impulse_is_idle(length_squared: u32)
    requires
        !finite(length_squared),
    ensures
        !normal(length_squared),
{
}

/// The factor keeps to the envelope: it is at most every normal absolute
/// ratio of a bound to the impulse, so no axis is scaled past its bound.
pub proof fn lemma_factor_within_envelope(f: u32, upper_ratios: Vec3Bits, lower_ratios: Vec3Bits)
    requires
        selects(f, candidates(upper_ratios, lower_ratios)),
    ensures
        normal(magnitude(upper_ratios.x)) ==> value_le(f, magnitude(upper_ratios.x)),
        normal(magnitude(upper_ratios.y)) ==> value_le(f, magnitude(upper_ratios.y)),
        normal(magnitude(upper_ratios.z)) ==> value_le(f, magnitude(upper_ratios.z)),
        normal(magnitude(lower_ratios.x)) ==> value_le(f, magnitude(lower_ratios.x)),
        normal(magnitude(lower_ratios.y)) ==> value_le(f, magnitude(lower_ratios.y)),
        normal(magnitude(lower_ratios.z)) ==> value_le(f, magnitude(lower_ratios.z)),
{
    let c = candidates(upper_ratios, lower_ratios);
    assert(c[0] == magnitude(upper_ratios.x));
    assert(c[1] == magnitude(upper_ratios.y));
    assert(c[2] == magnitude(upper_ratios.z));
    assert(c[3] == magnitude(lower_ratios.x));
    assert(c[4] == magnitude(lower_ratios.y));
    assert(c[5] == magnitude(lower_ratios.z));
}

/// The impulse is never amplified: the factor is at most one.
pub proof fn lemma_no_amplification(f: u32, upper_ratios: Vec3Bits, lower_ratios: Vec3Bits)
    requires
        selects(f, candidates(upper_ratios, lower_ratios)),
    ensures
        value_le(f, ONE),
{
    let c = candidates(upper_ratios, lower_ratios);
    assert(c[6] == ONE);
}

/// The factor is a positive normal number, hence finite: the output is a
/// positive multiple of the impulse, never turned against it, and never
/// infinite or NaN.
pub proof fn lemma_factor_positive(f: u32, upper_ratios: Vec3Bits, lower_ratios: Vec3Bits)
    requires
        selects(f, candidates(upper_ratios, lower_ratios)),
    ensures
        normal(f),
        !sign_set(f),
        finite(f),
        !nan(f),
{
    let c = candidates(upper_ratios, lower_ratios);
    assert(c[6] == ONE);
    assert(has_normal(c));
    let i = choose|i: int| 0 <= i < c.len() && c[i] == f;
    assert(!sign_set(c[i]));
}

/// Where no axis saturates (every normal absolute ratio is at least one),
/// the factor is exactly one and the output is the impulse itself, whatever
/// the impulse's length.
pub proof fn lemma_unsaturated_impulse_kept(f: u32, upper_ratios: Vec3Bits, lower_ratios: Vec3Bits)
    requires
        selects(f, candidates(upper_ratios, lower_ratios)),
        normal(magnitude(upper_ratios.x)) ==> value_le(ONE, magnitude(upper_ratios.x)),
        normal(magnitude(upper_ratios.y)) ==> value_le(ONE, magnitude(upper_ratios.y)),
        normal(magnitude(upper_ratios.z)) ==> value_le(ONE, magnitude(upper_ratios.z)),
        normal(magnitude(lower_ratios.x)) ==> value_le(ONE, magnitude(lower_ratios.x)),
        normal(magnitude(lower_ratios.y)) ==> value_le(ONE, magnitude(lower_ratios.y)),
        normal(magnitude(lower_ratios.z)) ==> value_le(ONE, magnitude(lower_ratios.z)),
    ensures
        f == ONE,
{
    let c = candidates(upper_ratios, lower_ratios);
    lemma_no_amplification(f, upper_ratios, lower_ratios);
    lemma_factor_positive(f, upper_ratios, lower_ratios);
    let i = choose|i: int| 0 <= i < c.len() && c[i] == f;
    assert(value_le(ONE, f));
    crate::binary32::lemma_value_le_antisymmetric(f, ONE);
}

} // verus!
