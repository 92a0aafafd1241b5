//! Classification, sign handling and ordering of binary32 encodings.
use vstd::prelude::*;

verus! {

/// Encoding of `+1.0`.
pub const ONE: u32 = 0x3f80_0000;

/// Encoding of `+0.0`.
pub const ZERO: u32 = 0;

/// The sign bit is set (the value is negative, `-0.0`, or a negative NaN).
pub open spec fn sign_set(b: u32) -> bool {
    b >= 0x8000_0000
}

/// The encoding with its sign bit cleared.
pub open spec fn magnitude(b: u32) -> u32 {
    (b % 0x8000_0000) as u32
}

/// The encoding with its sign bit inverted.
pub open spec fn negated(b: u32) -> u32 {
    if sign_set(b) {
        (b - 0x8000_0000) as u32
    } else {
        (b + 0x8000_0000) as u32
    }
}

/// The eight-bit biased exponent.
pub open spec fn exponent_field(b: u32) -> int {
    (b / 0x80_0000) as int % 0x100
}

/// The 23-bit fraction.
pub open spec fn fraction_field(b: u32) -> int {
    b as int % 0x80_0000
}

/// Neither zero, subnormal, infinite nor NaN.
pub open spec fn normal(b: u32) -> bool {
    0 < exponent_field(b) < 0xff
}

/// Zero, subnormal or normal: neither infinite nor NaN.
pub open spec fn finite(b: u32) -> bool {
    exponent_field(b) < 0xff
}

/// Not a number.
pub open spec fn nan(b: u32) -> bool {
    exponent_field(b) == 0xff && fraction_field(b) != 0
}

/// `+0.0` or `-0.0`.
pub open spec fn zero(b: u32) -> bool {
    magnitude(b) == 0
}

/// `a <= b` on the values that two non-NaN encodings stand for.
pub open spec fn value_le(a: u32, b: u32) -> bool {
    if zero(a) && zero(b) {
        true
    } else if sign_set(a) {
        sign_set(b) ==> magnitude(b) <= magnitude(a)
    } else {
        !sign_set(b) && magnitude(a) <= magnitude(b)
    }
}

/// Whether `b` encodes a normal number (`f32::is_normal`).
pub fn is_normal(b: u32) -> (r: bool)
    ensures
        r == normal(b),
{
    let e: u32 = (b / 0x80_0000) % 0x100;
    0 < e && e < 0xff
}

/// Whether `b` encodes a NaN (`f32::is_nan`).
pub fn is_nan(b: u32) -> (r: bool)
    ensures
        r == nan(b),
{
    (b / 0x80_0000) % 0x100 == 0xff && b % 0x80_0000 != 0
}

/// The absolute value (`f32::abs`): the sign bit cleared.
pub fn abs(b: u32) -> (r: u32)
    ensures
        r == magnitude(b),
        !sign_set(r),
{
    let r = b & 0x7fff_ffff;
    assert(r == b % 0x8000_0000) by (bit_vector)
        requires
            r == b & 0x7fff_ffff,
    ;
    r
}

/// The negation (`-x` on `f32`): the sign bit inverted.
pub fn neg(b: u32) -> (r: u32)
    ensures
        r == negated(b),
{
    let r = b ^ 0x8000_0000;
    assert(b >= 0x8000_0000 ==> r == b - 0x8000_0000) by (bit_vector)
        requires
            r == b ^ 0x8000_0000,
    ;
    assert(b < 0x8000_0000 ==> r == b + 0x8000_0000) by (bit_vector)
        requires
            r == b ^ 0x8000_0000,
    ;
    r
}

/// `a <= b` on the values that two non-NaN encodings stand for.
pub fn le(a: u32, b: u32) -> (r: bool)
    ensures
        r == value_le(a, b),
{
    let ma = a & 0x7fff_ffff;
    let mb = b & 0x7fff_ffff;
    assert(ma == a % 0x8000_0000 && mb == b % 0x8000_0000) by (bit_vector)
        requires
            ma == a & 0x7fff_ffff,
            mb == b & 0x7fff_ffff,
    ;
    if ma == 0 && mb == 0 {
        true
    } else if a >= 0x8000_0000 {
        b < 0x8000_0000 || mb <= ma
    } else {
        b < 0x8000_0000 && ma <= mb
    }
}

/// Some element of `c` is normal.
pub open spec fn has_normal(c: Seq<u32>) -> bool {
    exists|i: int| 0 <= i < c.len() && normal(#[trigger] c[i])
}

/// `r` is a normal element of `c` whose value is at most that of every
/// normal element of `c`.
pub open spec fn least_normal(r: u32, c: Seq<u32>) -> bool {
    &&& normal(r)
    &&& c.contains(r)
    &&& forall|i: int| 0 <= i < c.len() && normal(#[trigger] c[i]) ==> value_le(r, c[i])
}

/// What the selection of a factor among candidates yields: the least normal
/// candidate, or `+0.0` where no candidate is normal.
pub open spec fn selects(r: u32, c: Seq<u32>) -> bool {
    if has_normal(c) {
        least_normal(r, c)
    } else {
        r == ZERO
    }
}

/// On normal encodings the order of values is antisymmetric over encodings:
/// two normal numbers of equal value have the same encoding.
pub proof fn lemma_value_le_antisymmetric(a: u32, b: u32)
    requires
        normal(a),
        normal(b),
        value_le(a, b),
        value_le(b, a),
    ensures
        a == b,
{
}

/// The selection is a function of the candidates: at most one result meets it.
pub proof fn lemma_selection_unique(r: u32, s: u32, c: Seq<u32>)
    requires
        selects(r, c),
        selects(s, c),
    ensures
        r == s,
{
    if has_normal(c) {
        let i = choose|i: int| 0 <= i < c.len() && c[i] == r;
        let j = choose|j: int| 0 <= j < c.len() && c[j] == s;
        assert(value_le(r, c[j]));
        assert(value_le(s, c[i]));
        lemma_value_le_antisymmetric(r, s);
    }
}

/// The smallest normal value among `c`, or `+0.0` where none is normal: the
/// candidates that are not normal are discarded, and the rest reduced by
/// `f32::min`.
pub fn smallest_normal(c: &[u32]) -> (r: u32)
    ensures
        selects(r, c@),
{
    let mut best: Option<u32> = None;
    let mut i: usize = 0;
    while i < c.len()
        invariant
            i <= c.len(),
            best is None ==> forall|j: int| 0 <= j < i ==> !normal(#[trigger] c@[j]),
            best matches Some(m) ==> {
                &&& normal(m)
                &&& exists|j: int| 0 <= j < i && c@[j] == m
                &&& forall|j: int| 0 <= j < i && normal(#[trigger] c@[j]) ==> value_le(m, c@[j])
            },
        decreases c.len() - i,
    {
        let x = c[i];
        if is_normal(x) {
            best = match best {
                None => Some(x),
                Some(m) => if le(m, x) {
                    Some(m)
                } else {
                    Some(x)
                },
            };
        }
        i = i + 1;
    }
    match best {
        None => ZERO,
        Some(m) => {
            proof {
                let j = choose|j: int| 0 <= j < c@.len() && c@[j] == m;
                assert(c@.contains(m));
                assert(has_normal(c@));
            }
            m
        },
    }
}

} // verus!
