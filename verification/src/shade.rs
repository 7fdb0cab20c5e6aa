//! Grayscale shading: from an escape count to a packed RGB pixel.

use vstd::prelude::*;

verus! {

/// The brightest gray level.
pub const WHITE_LEVEL: u32 = 255;

/// A gray level times this constant has that level in its red, green and blue bytes.
pub const GRAY_UNIT: u32 = 0x010101;

/// `level` is the floor of `255 * sqrt(escaped / max_iterations)`, stated
/// without roots or quotients: `level` squared is at most
/// `255 * 255 * escaped / max_iterations`, and the next level squared is above it.
pub open spec fn is_intensity(escaped: nat, max_iterations: nat, level: nat) -> bool {
    &&& level * level * max_iterations <= 65025 * escaped
    &&& 65025 * escaped < (level + 1) * (level + 1) * max_iterations
}

/// The gray level of a point that was outside the escape radius after
/// `escaped` of `max_iterations` steps.
pub open spec fn intensity_spec(escaped: nat, max_iterations: nat) -> nat {
    choose|level: nat| is_intensity(escaped, max_iterations, level)
}

/// The packed pixel of a gray level: the same byte in red, green and blue.
pub open spec fn gray_spec(level: nat) -> nat {
    level * 0x010101
}

/// The packed pixel of a point by its escape count.
pub open spec fn shade_spec(escaped: nat, max_iterations: nat) -> u32 {
    gray_spec(intensity_spec(escaped, max_iterations)) as u32
}

/// At most one level is the intensity of a given escape count.
pub proof fn lemma_intensity_unique(escaped: nat, max_iterations: nat, a: nat, b: nat)
    requires
        is_intensity(escaped, max_iterations, a),
        is_intensity(escaped, max_iterations, b),
    ensures
        a == b,
{
    if a < b {
        assert((a + 1) * (a + 1) * max_iterations <= b * b * max_iterations) by (nonlinear_arith)
            requires
                a + 1 <= b,
        ;
    }
    if b < a {
        assert((b + 1) * (b + 1) * max_iterations <= a * a * max_iterations) by (nonlinear_arith)
            requires
                b + 1 <= a,
        ;
    }
}

/// Whatever level meets `is_intensity` is the intensity.
pub proof fn lemma_intensity_is(escaped: nat, max_iterations: nat, level: nat)
    requires
        is_intensity(escaped, max_iterations, level),
    ensures
        intensity_spec(escaped, max_iterations) == level,
{
    lemma_intensity_unique(
        escaped,
        max_iterations,
        intensity_spec(escaped, max_iterations),
        level,
    );
}

/// Every escape count from 0 to the iteration bound has an intensity, and it
/// lies between black (0) and white (255). Nothing escaped is black; escaped
/// at every step is white.
pub proof fn lemma_intensity_range(escaped: nat, max_iterations: nat)
    requires
        1 <= max_iterations,
        escaped <= max_iterations,
    ensures
        is_intensity(escaped, max_iterations, intensity_spec(escaped, max_iterations)),
        intensity_spec(escaped, max_iterations) <= 255,
        escaped == 0 ==> intensity_spec(escaped, max_iterations) == 0,
        escaped == max_iterations ==> intensity_spec(escaped, max_iterations) == 255,
        gray_spec(intensity_spec(escaped, max_iterations)) <= 0xFFFFFF,
{
    assert(0 * 0 * max_iterations == 0) by (nonlinear_arith);
    assert(256 * 256 * max_iterations == 65536 * max_iterations) by (nonlinear_arith);
    lemma_intensity_exists(escaped, max_iterations, 0, 256);
    let level = intensity_spec(escaped, max_iterations);
    if level >= 256 {
        assert(256 * 256 * max_iterations <= level * level * max_iterations) by (nonlinear_arith)
            requires
                256 <= level,
        ;
    }
    assert(1 * 1 * max_iterations == max_iterations) by (nonlinear_arith);
    assert(255 * 255 * max_iterations == 65025 * max_iterations) by (nonlinear_arith);
    if escaped == 0 {
        assert(is_intensity(escaped, max_iterations, 0));
        lemma_intensity_is(escaped, max_iterations, 0);
    }
    if escaped == max_iterations {
        assert(is_intensity(escaped, max_iterations, 255));
        lemma_intensity_is(escaped, max_iterations, 255);
    }
}

/// Between a level that is not too bright and one that is, some level is the
/// intensity.
proof fn lemma_intensity_exists(escaped: nat, max_iterations: nat, low: nat, high: nat)
    requires
        low < high,
        low * low * max_iterations <= 65025 * escaped,
        65025 * escaped < high * high * max_iterations,
    ensures
        exists|level: nat| is_intensity(escaped, max_iterations, level),
    decreases high - low,
{
    if high == low + 1 {
        assert(is_intensity(escaped, max_iterations, low));
    } else if (low + 1) * (low + 1) * max_iterations <= 65025 * escaped {
        lemma_intensity_exists(escaped, max_iterations, low + 1, high);
    } else {
        assert(is_intensity(escaped, max_iterations, low));
    }
}

/// The gray level of an escape count: the floor of
/// `255 * sqrt(escaped / max_iterations)`, found by bisection over the 256 levels.
pub fn intensity(escaped: usize, max_iterations: usize) -> (level: u32)
    requires
        1 <= max_iterations,
        escaped <= max_iterations,
    ensures
        level == intensity_spec(escaped as nat, max_iterations as nat),
        is_intensity(escaped as nat, max_iterations as nat, level as nat),
        level <= WHITE_LEVEL,
{
    let target: u128 = 65025u128 * (escaped as u128);
    let bound: u128 = max_iterations as u128;
    let mut low: u128 = 0;
    let mut high: u128 = 256;
    assert(low * low * bound == 0) by (nonlinear_arith)
        requires
            low == 0,
    ;
    assert(high * high * bound == 65536 * bound) by (nonlinear_arith)
        requires
            high == 256,
    ;
    while high - low > 1
        invariant
            low < high <= 256,
            1 <= bound <= 0xFFFF_FFFF_FFFF_FFFF,
            low * low * bound <= target,
            target < high * high * bound,
        decreases high - low,
    {
        let mid: u128 = low + (high - low) / 2;
        assert(mid * mid <= 65536 && mid * mid * bound <= 65536 * 0xFFFF_FFFF_FFFF_FFFF)
            by (nonlinear_arith)
            requires
                0 <= mid <= 256,
                0 <= bound <= 0xFFFF_FFFF_FFFF_FFFF,
        ;
        if mid * mid * bound <= target {
            low = mid;
        } else {
            high = mid;
        }
    }
    proof {
        assert(high == low + 1);
        assert(is_intensity(escaped as nat, max_iterations as nat, low as nat));
        lemma_intensity_is(escaped as nat, max_iterations as nat, low as nat);
    }
    low as u32
}

/// Packs a gray level into a pixel with that level in each colour byte.
pub fn pack_gray(level: u32) -> (pixel: u32)
    requires
        level <= WHITE_LEVEL,
    ensures
        pixel == gray_spec(level as nat),
        pixel <= 0xFFFFFF,
        pixel & 0xFF == level,
        (pixel >> 8) & 0xFF == level,
        pixel >> 16 == level,
{
    let pixel = level * GRAY_UNIT;
    assert(pixel & 0xFF == level && (pixel >> 8) & 0xFF == level && pixel >> 16 == level)
        by (bit_vector)
        requires
            level <= 255,
            pixel == level * 0x010101,
    ;
    pixel
}

/// The packed gray pixel of a point by its escape count.
pub fn shade(escaped: usize, max_iterations: usize) -> (pixel: u32)
    requires
        1 <= max_iterations,
        escaped <= max_iterations,
    ensures
        pixel == shade_spec(escaped as nat, max_iterations as nat),
        pixel <= 0xFFFFFF,
{
    pack_gray(intensity(escaped, max_iterations))
}

} // verus!
