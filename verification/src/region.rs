//! Sampling regions: bounding rectangles in longitude/latitude space.
//!
//! Coordinates are carried as the bit patterns of 64-bit IEEE-754 values.
//! For the patterns of finite values, the key computed by [`sort_key`]
//! orders them exactly as the encoded numbers do (the two encodings of
//! zero are ordered with the negative one first, which never changes
//! which numeric value a minimum or maximum takes).

use vstd::prelude::*;

verus! {

/// Number of cluster regions generated for a clustered run.
pub const CLUSTER_COUNT: usize = 16;

/// Bit pattern of the western longitude bound, -180 degrees.
pub const FULL_MIN_X_BITS: u64 = 0xC066_8000_0000_0000;

/// Bit pattern of the eastern longitude bound, 180 degrees.
pub const FULL_MAX_X_BITS: u64 = 0x4066_8000_0000_0000;

/// Bit pattern of the southern latitude bound, -90 degrees.
pub const FULL_MIN_Y_BITS: u64 = 0xC056_8000_0000_0000;

/// Bit pattern of the northern latitude bound, 90 degrees.
pub const FULL_MAX_Y_BITS: u64 = 0x4056_8000_0000_0000;

/// A bounding rectangle, each bound the bit pattern of a 64-bit value,
/// with `min <= max` on both axes in [`sort_key`] order.
#[derive(Clone, Copy, Debug, PartialEq, Eq, Structural)]
pub struct Region {
    pub min_x: u64,
    pub min_y: u64,
    pub max_x: u64,
    pub max_y: u64,
}

/// Maps the sign-magnitude bit pattern of a 64-bit IEEE-754 value to a
/// key whose unsigned order agrees with the numeric order of finite
/// values: non-negative patterns get their sign bit set, negative
/// patterns are complemented.
pub open spec fn sort_key(bits: u64) -> u64 {
    if bits < 0x8000_0000_0000_0000 {
        bits | 0x8000_0000_0000_0000
    } else {
        !bits
    }
}

/// The smaller of two bit patterns in [`sort_key`] order.
pub open spec fn spec_min_bits(a: u64, b: u64) -> u64 {
    if sort_key(a) <= sort_key(b) {
        a
    } else {
        b
    }
}

/// The larger of two bit patterns in [`sort_key`] order.
pub open spec fn spec_max_bits(a: u64, b: u64) -> u64 {
    if sort_key(a) <= sort_key(b) {
        b
    } else {
        a
    }
}

/// The rectangle spanned by the two corner points `(x0, y0)` and
/// `(x1, y1)`, reordered so that `min <= max` holds on both axes.
pub open spec fn region_of(x0: u64, y0: u64, x1: u64, y1: u64) -> Region {
    Region {
        min_x: spec_min_bits(x0, x1),
        min_y: spec_min_bits(y0, y1),
        max_x: spec_max_bits(x0, x1),
        max_y: spec_max_bits(y0, y1),
    }
}

/// The full longitude/latitude domain.
pub open spec fn spec_full_domain() -> Region {
    Region {
        min_x: FULL_MIN_X_BITS,
        min_y: FULL_MIN_Y_BITS,
        max_x: FULL_MAX_X_BITS,
        max_y: FULL_MAX_Y_BITS,
    }
}

/// The key of `v` lies between the keys of `lo` and `hi`.
pub open spec fn key_within(lo: u64, v: u64, hi: u64) -> bool {
    sort_key(lo) <= sort_key(v) && sort_key(v) <= sort_key(hi)
}

/// The rectangle is well formed and lies within the full domain.
pub open spec fn region_in_domain(r: Region) -> bool {
    &&& key_within(FULL_MIN_X_BITS, r.min_x, FULL_MAX_X_BITS)
    &&& key_within(FULL_MIN_X_BITS, r.max_x, FULL_MAX_X_BITS)
    &&& key_within(FULL_MIN_Y_BITS, r.min_y, FULL_MAX_Y_BITS)
    &&& key_within(FULL_MIN_Y_BITS, r.max_y, FULL_MAX_Y_BITS)
    &&& sort_key(r.min_x) <= sort_key(r.max_x)
    &&& sort_key(r.min_y) <= sort_key(r.max_y)
}

/// Computes [`sort_key`].
pub fn key_of(bits: u64) -> (k: u64)
    ensures
        k == sort_key(bits),
{
    if bits < 0x8000_0000_0000_0000 {
        bits | 0x8000_0000_0000_0000
    } else {
        !bits
    }
}

/// The smaller of two bit patterns in [`sort_key`] order.
pub fn min_bits(a: u64, b: u64) -> (r: u64)
    ensures
        r == spec_min_bits(a, b),
{
    if key_of(a) <= key_of(b) {
        a
    } else {
        b
    }
}

/// The larger of two bit patterns in [`sort_key`] order.
pub fn max_bits(a: u64, b: u64) -> (r: u64)
    ensures
        r == spec_max_bits(a, b),
{
    if key_of(a) <= key_of(b) {
        b
    } else {
        a
    }
}

/// Builds the bounding rectangle of the two corner points `(x0, y0)`
/// and `(x1, y1)`.
pub fn make_region(x0: u64, y0: u64, x1: u64, y1: u64) -> (r: Region)
    ensures
        r == region_of(x0, y0, x1, y1),
{
    Region {
        min_x: min_bits(x0, x1),
        min_y: min_bits(y0, y1),
        max_x: max_bits(x0, x1),
        max_y: max_bits(y0, y1),
    }
}

/// The full longitude/latitude domain.
pub fn full_domain() -> (r: Region)
    ensures
        r == spec_full_domain(),
{
    Region {
        min_x: FULL_MIN_X_BITS,
        min_y: FULL_MIN_Y_BITS,
        max_x: FULL_MAX_X_BITS,
        max_y: FULL_MAX_Y_BITS,
    }
}

/// A rectangle built from corner points inside the full domain is well
/// formed and stays inside the full domain.
pub proof fn lemma_region_of_in_domain(x0: u64, y0: u64, x1: u64, y1: u64)
    requires
        key_within(FULL_MIN_X_BITS, x0, FULL_MAX_X_BITS),
        key_within(FULL_MIN_X_BITS, x1, FULL_MAX_X_BITS),
        key_within(FULL_MIN_Y_BITS, y0, FULL_MAX_Y_BITS),
        key_within(FULL_MIN_Y_BITS, y1, FULL_MAX_Y_BITS),
    ensures
        region_in_domain(region_of(x0, y0, x1, y1)),
{
}

/// The full domain is itself a well-formed rectangle in its own bounds.
pub proof fn lemma_full_domain_in_domain()
    ensures
        region_in_domain(spec_full_domain()),
{
    assert((!0xC066_8000_0000_0000u64) <= (0x4066_8000_0000_0000u64
        | 0x8000_0000_0000_0000)) by (bit_vector);
    assert((!0xC056_8000_0000_0000u64) <= (0x4056_8000_0000_0000u64
        | 0x8000_0000_0000_0000)) by (bit_vector);
}

} // verus!
