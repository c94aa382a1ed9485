//! Solving the grid dimensions for a buffer length.

use crate::error::EncodeError;
use crate::grid::grid_capacity;
use crate::variant::Variant;
use vstd::prelude::*;

verus! {

/// `w` is the least number whose square is at least `n`.
pub open spec fn is_ceil_sqrt(n: nat, w: nat) -> bool {
    &&& w * w >= n
    &&& w > 0 ==> (w - 1) * (w - 1) < n
}

/// The square root of `n`, rounded up. `lemma_ceil_sqrt_unique` names it
/// for a given `n`.
pub open spec fn ceil_sqrt(n: nat) -> nat {
    choose|w: nat| is_ceil_sqrt(n, w)
}

/// The width solved for a root: the root raised to the next multiple of
/// the channel count. A root that is a multiple already is raised by a
/// whole channel count, not by nothing.
pub open spec fn solved_width(root: nat, variant: Variant) -> nat {
    match variant {
        Variant::Rgba => (root + (4 - root % 4)) as nat,
        Variant::Rgb => (root + (3 - root % 3)) as nat,
    }
}

/// The height solved for a root: one less than the width's share per
/// channel.
pub open spec fn solved_height(root: nat, variant: Variant) -> nat {
    match variant {
        Variant::Rgba => (solved_width(root, variant) / 4 - 1) as nat,
        Variant::Rgb => (solved_width(root, variant) / 3 - 1) as nat,
    }
}

/// The bytes that the grid solved for a buffer of `len` bytes holds: width
/// times height times channels.
pub open spec fn solved_capacity(len: nat, variant: Variant) -> nat {
    let root = ceil_sqrt(len);
    match variant {
        Variant::Rgba => solved_width(root, variant) * solved_height(root, variant) * 4,
        Variant::Rgb => solved_width(root, variant) * solved_height(root, variant) * 3,
    }
}

/// The capacity solved for a root, by the whole number of times `q` that
/// the channel count `d` goes into the root: `d * d * q * (q + 1)`.
pub open spec fn capacity_at_root(root: nat, variant: Variant) -> nat {
    match variant {
        Variant::Rgba => 16 * ((root / 4) * (root / 4 + 1)),
        Variant::Rgb => 9 * ((root / 3) * (root / 3 + 1)),
    }
}

/// The greatest buffer length whose solved grid holds no more bytes than
/// 32 bits can count (`lemma_largest_length`).
pub open spec fn largest_length(variant: Variant) -> nat {
    match variant {
        Variant::Rgba => 4_294_836_225,
        Variant::Rgb => 4_294_705_156,
    }
}

/// What the solver answers for a buffer of `len` bytes: the solved width
/// and height; `LengthOutOfRange` for a length beyond 32 bits;
/// `DimensionOverflow` for a length within 32 bits whose grid would hold
/// more bytes than 32 bits can count.
pub open spec fn solved_dimensions(len: nat, variant: Variant) -> Result<(u32, u32), EncodeError> {
    let root = ceil_sqrt(len);
    if len > u32::MAX {
        Err(EncodeError::LengthOutOfRange)
    } else if len > largest_length(variant) {
        Err(EncodeError::DimensionOverflow)
    } else {
        Ok((solved_width(root, variant) as u32, solved_height(root, variant) as u32))
    }
}

/// Whether a buffer of `len` bytes fits the grid solved for it: whether
/// `len` is at most the capacity at its root.
pub open spec fn fits_solved_grid(len: nat, variant: Variant) -> bool {
    len <= capacity_at_root(ceil_sqrt(len), variant)
}

/// Squaring keeps the order of natural numbers.
proof fn lemma_square_monotonic(a: nat, b: nat)
    requires
        a <= b,
    ensures
        a * a <= b * b,
{
    assert(a * a <= b * b) by (nonlinear_arith)
        requires
            a <= b,
    ;
}

/// Every number has a rounded-up square root.
pub proof fn lemma_ceil_sqrt_exists(n: nat)
    ensures
        is_ceil_sqrt(n, ceil_sqrt(n)),
    decreases n,
{
    if n == 0 {
        assert(is_ceil_sqrt(0, 0));
    } else {
        let m = (n - 1) as nat;
        lemma_ceil_sqrt_exists(m);
        let w = ceil_sqrt(m);
        if w * w >= n {
            assert(is_ceil_sqrt(n, w));
        } else {
            assert((w + 1) * (w + 1) >= n) by (nonlinear_arith)
                requires
                    w * w >= n - 1,
            ;
            assert(is_ceil_sqrt(n, w + 1));
        }
    }
}

/// The rounded-up square root is the only number that meets its definition.
pub proof fn lemma_ceil_sqrt_unique(n: nat, w: nat)
    requires
        is_ceil_sqrt(n, w),
    ensures
        ceil_sqrt(n) == w,
{
    let v = ceil_sqrt(n);
    lemma_ceil_sqrt_exists(n);
    if v < w {
        lemma_square_monotonic(v, (w - 1) as nat);
    } else if w < v {
        lemma_square_monotonic(w, (v - 1) as nat);
    }
}

/// The root is at most `bound` exactly when the number is at most the
/// square of `bound`.
pub proof fn lemma_ceil_sqrt_at_most(n: nat, bound: nat)
    ensures
        ceil_sqrt(n) <= bound <==> n <= bound * bound,
{
    lemma_ceil_sqrt_exists(n);
    let w = ceil_sqrt(n);
    if w <= bound {
        lemma_square_monotonic(w, bound);
    } else {
        lemma_square_monotonic(bound, (w - 1) as nat);
    }
}

/// The width and height solved for a root, by the whole number of times
/// that the channel count goes into the root.
proof fn lemma_solved_by_quotient(root: nat, variant: Variant)
    ensures
        variant == Variant::Rgba ==> solved_width(root, variant) == 4 * (root / 4 + 1)
            && solved_height(root, variant) == root / 4,
        variant == Variant::Rgb ==> solved_width(root, variant) == 3 * (root / 3 + 1)
            && solved_height(root, variant) == root / 3,
{
}

/// The capacity solved for a length is the capacity at its root.
pub proof fn lemma_capacity_by_quotient(len: nat, variant: Variant)
    ensures
        solved_capacity(len, variant) == capacity_at_root(ceil_sqrt(len), variant),
{
    let root = ceil_sqrt(len);
    lemma_solved_by_quotient(root, variant);
    let width = solved_width(root, variant);
    let height = solved_height(root, variant);
    match variant {
        Variant::Rgba => {
            let q = root / 4;
            assert(width * height * 4 == 16 * (q * (q + 1))) by (nonlinear_arith)
                requires
                    width == 4 * (q + 1),
                    height == q,
            ;
        },
        Variant::Rgb => {
            let q = root / 3;
            assert(width * height * 3 == 9 * (q * (q + 1))) by (nonlinear_arith)
                requires
                    width == 3 * (q + 1),
                    height == q,
            ;
        },
    }
}

/// Names what is solved for a length whose root is known: the root, and
/// the capacity at that root.
pub proof fn lemma_solved_at_root(len: nat, root: nat, variant: Variant)
    requires
        is_ceil_sqrt(len, root),
    ensures
        ceil_sqrt(len) == root,
        solved_capacity(len, variant) == capacity_at_root(root, variant),
{
    lemma_ceil_sqrt_unique(len, root);
    lemma_capacity_by_quotient(len, variant);
}

/// Among the lengths that fit 32 bits, the solved grid holds more bytes
/// than 32 bits can count exactly for those above `largest_length`.
pub proof fn lemma_largest_length(len: nat, variant: Variant)
    requires
        len <= u32::MAX,
    ensures
        solved_capacity(len, variant) > u32::MAX <==> len > largest_length(variant),
{
    let root = ceil_sqrt(len);
    lemma_capacity_by_quotient(len, variant);
    lemma_ceil_sqrt_at_most(len, 0x1_0000);
    match variant {
        Variant::Rgba => {
            let q = root / 4;
            lemma_ceil_sqrt_at_most(len, 0xffff);
            if len > largest_length(variant) {
                assert(q * (q + 1) == 0x4000 * 0x4001) by (nonlinear_arith)
                    requires
                        q == 0x4000,
                ;
            } else {
                assert(q * (q + 1) <= 0x3fff * 0x4000) by (nonlinear_arith)
                    requires
                        q <= 0x3fff,
                ;
            }
        },
        Variant::Rgb => {
            let q = root / 3;
            lemma_ceil_sqrt_at_most(len, 0xfffe);
            if len > largest_length(variant) {
                assert(q * (q + 1) == 0x5555 * 0x5556) by (nonlinear_arith)
                    requires
                        q == 0x5555,
                ;
            } else {
                assert(q * (q + 1) <= 0x5554 * 0x5555) by (nonlinear_arith)
                    requires
                        q <= 0x5554,
                ;
            }
        },
    }
}

/// The shape of what the solver answers: the width is a positive multiple
/// of the channel count, the height is one less than the width's share per
/// channel, and the grid holds exactly the solved capacity, which fits 32
/// bits.
pub proof fn lemma_solved_shape(len: nat, variant: Variant)
    requires
        solved_dimensions(len, variant) is Ok,
    ensures
        ({
            let (width, height) = solved_dimensions(len, variant)->Ok_0;
            let d = variant.spec_channels();
            &&& width == solved_width(ceil_sqrt(len), variant)
            &&& height == solved_height(ceil_sqrt(len), variant)
            &&& 0 < width <= 0x1_0004
            &&& (width as nat) % d == 0
            &&& height == (width as nat) / d - 1
            &&& height <= 0x5555
            &&& grid_capacity(width as nat, height as nat, variant) == solved_capacity(len, variant)
            &&& solved_capacity(len, variant) <= u32::MAX
        }),
{
    lemma_ceil_sqrt_at_most(len, 0x1_0000);
    lemma_largest_length(len, variant);
    lemma_solved_by_quotient(ceil_sqrt(len), variant);
}

/// The dimension formula. For every length that the solver answers, the
/// width is a multiple of the channel count and the height is one less
/// than the width's share per channel. The grid is large enough for the
/// buffer exactly when `fits_solved_grid` holds, which it does not for
/// every length: a root below the channel count, or two or more above a
/// multiple of it, can leave the grid smaller than the buffer.
pub proof fn lemma_dimension_formula(len: nat, variant: Variant)
    requires
        solved_dimensions(len, variant) is Ok,
    ensures
        ({
            let (width, height) = solved_dimensions(len, variant)->Ok_0;
            let d = variant.spec_channels();
            &&& (width as nat) % d == 0
            &&& height == (width as nat) / d - 1
            &&& fits_solved_grid(len, variant) ==> width * height * d >= len
            &&& !fits_solved_grid(len, variant) ==> width * height * d < len
        }),
{
    lemma_solved_shape(len, variant);
    lemma_capacity_by_quotient(len, variant);
    let (width, height) = solved_dimensions(len, variant)->Ok_0;
    match variant {
        Variant::Rgba => {
            assert(width * height * variant.spec_channels() == width * height * 4);
        },
        Variant::Rgb => {
            assert(width * height * variant.spec_channels() == width * height * 3);
        },
    }
}

/// A buffer fits the grid solved for it whenever the root of its length is
/// at least the channel count and at most one above a multiple of it.
pub proof fn lemma_fits_when_root_is_aligned(len: nat, variant: Variant)
    requires
        ceil_sqrt(len) >= variant.spec_channels(),
        ceil_sqrt(len) % variant.spec_channels() <= 1,
    ensures
        fits_solved_grid(len, variant),
{
    lemma_ceil_sqrt_exists(len);
    lemma_capacity_by_quotient(len, variant);
    let w = ceil_sqrt(len);
    match variant {
        Variant::Rgba => {
            let q = w / 4;
            let r = w % 4;
            assert(w * w <= 16 * (q * (q + 1))) by (nonlinear_arith)
                requires
                    w == 4 * q + r,
                    q >= 1,
                    0 <= r <= 1,
            ;
        },
        Variant::Rgb => {
            let q = w / 3;
            let r = w % 3;
            assert(w * w <= 9 * (q * (q + 1))) by (nonlinear_arith)
                requires
                    w == 3 * q + r,
                    q >= 1,
                    0 <= r <= 1,
            ;
        },
    }
}

/// The square root of `n`, rounded up, by bisection on whole numbers.
pub fn ceil_sqrt_u32(n: u32) -> (w: u32)
    ensures
        w == ceil_sqrt(n as nat),
        w <= 0x1_0000,
{
    let target: u64 = n as u64;
    let mut lo: u64 = 0;
    let mut hi: u64 = 0x1_0000;
    while lo < hi
        invariant
            lo <= hi <= 0x1_0000,
            target == n,
            hi * hi >= target,
            lo > 0 ==> (lo - 1) * (lo - 1) < target,
        decreases hi - lo,
    {
        let mid: u64 = lo + (hi - lo) / 2;
        assert(mid * mid <= 0x1_0000 * 0x1_0000) by (nonlinear_arith)
            requires
                mid <= 0x1_0000,
        ;
        if mid * mid >= target {
            hi = mid;
        } else {
            lo = mid + 1;
        }
    }
    proof {
        lemma_ceil_sqrt_unique(n as nat, lo as nat);
    }
    lo as u32
}

/// Solves the grid for a buffer of `buffer_length` bytes.
///
/// The root of the length, rounded up, is raised to the next multiple of
/// the channel count (by a whole channel count where it is one already);
/// the height is one less than the width's share per channel. The answer is
/// `LengthOutOfRange` exactly when the length does not fit 32 bits, and
/// `DimensionOverflow` exactly when the length fits but the bytes of the
/// solved grid do not.
///
/// The solved grid is not always large enough for the buffer: it is exactly
/// when `fits_solved_grid` holds.
pub fn solve_dimensions(buffer_length: usize, variant: Variant) -> (r: Result<
    (u32, u32),
    EncodeError,
>)
    ensures
        r == solved_dimensions(buffer_length as nat, variant),
        r == Err::<(u32, u32), EncodeError>(EncodeError::LengthOutOfRange) <==> buffer_length
            > u32::MAX,
        r == Err::<(u32, u32), EncodeError>(EncodeError::DimensionOverflow) <==> buffer_length
            <= u32::MAX && solved_capacity(buffer_length as nat, variant) > u32::MAX,
        r matches Ok((width, height)) ==> {
            &&& (width as nat) % variant.spec_channels() == 0
            &&& height == (width as nat) / variant.spec_channels() - 1
            &&& grid_capacity(width as nat, height as nat, variant) == solved_capacity(
                buffer_length as nat,
                variant,
            )
            &&& grid_capacity(width as nat, height as nat, variant) >= buffer_length
                <==> fits_solved_grid(buffer_length as nat, variant)
        },
{
    if buffer_length > u32::MAX as usize {
        return Err(EncodeError::LengthOutOfRange);
    }
    let d: u32 = variant.channels();
    let w: u32 = ceil_sqrt_u32(buffer_length as u32);
    proof {
        lemma_solved_by_quotient(w as nat, variant);
        lemma_largest_length(buffer_length as nat, variant);
        lemma_capacity_by_quotient(buffer_length as nat, variant);
    }
    assert(w % d < d) by {
        if d == 3 {
            assert(w % 3 < 3);
        } else {
            assert(w % 4 < 4);
        }
    }
    let width: u32 = w + (d - w % d);
    assert(width == solved_width(w as nat, variant));
    let height: u32 = width / d - 1;
    assert(height == solved_height(w as nat, variant));
    assert(width * height <= 0x1_0004 * 0x1_0004 && width * height * d <= 0x1_0004 * 0x1_0004 * 4)
        by (nonlinear_arith)
        requires
            width <= 0x1_0004,
            height <= 0x1_0004,
            d <= 4,
    ;
    let capacity: u64 = width as u64 * height as u64 * d as u64;
    if capacity > u32::MAX as u64 {
        return Err(EncodeError::DimensionOverflow);
    }
    Ok((width, height))
}

} // verus!
