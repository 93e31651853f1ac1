//! Screen geometry for popover placement.
//!
//! The tray icon reports its bounding rectangle in logical (device
//! independent) units; the window is positioned in physical pixels. The two
//! are related by the display scale factor, carried here in thousandths so
//! that the conversion is exact integer arithmetic. Fractional results are
//! rounded to the nearest integer, ties away from zero, which matches how
//! the host toolkit rounds when it converts coordinates.

use vstd::prelude::*;

verus! {

use vstd::arithmetic::div_mod::lemma_fundamental_div_mod;
use vstd::arithmetic::div_mod::lemma_mod_bound;

/// Largest magnitude accepted for a logical coordinate or extent.
pub const COORD_LIMIT: i64 = 0x8000_0000;

/// Largest accepted scale factor, in thousandths (a thousandfold zoom).
pub const SCALE_LIMIT: u32 = 1_000_000;

/// Largest magnitude accepted by the rounding division.
pub const ROUND_NUM_LIMIT: i64 = 0x40_0000_0000_0000;

/// The scale factor denominator: a scale of one is a thousand thousandths.
pub const SCALE_ONE: u32 = 1000;

/// The tray icon's bounding rectangle in logical units.
#[derive(Clone, Copy, Debug, PartialEq, Eq, Structural)]
pub struct LogicalRect {
    pub x: i64,
    pub y: i64,
    pub width: i64,
    pub height: i64,
}

impl LogicalRect {
    /// The rectangle lies in the representable range: coordinates bounded in
    /// magnitude, extents bounded and non-negative.
    pub open spec fn wf(self) -> bool {
        &&& -COORD_LIMIT <= self.x <= COORD_LIMIT
        &&& -COORD_LIMIT <= self.y <= COORD_LIMIT
        &&& 0 <= self.width <= COORD_LIMIT
        &&& 0 <= self.height <= COORD_LIMIT
    }
}

/// A point in the window's physical pixel space.
#[derive(Clone, Copy, Debug, PartialEq, Eq, Structural)]
pub struct PhysicalPoint {
    pub x: i64,
    pub y: i64,
}

/// `n / d` rounded to the nearest integer, ties away from zero.
pub open spec fn round_half_away(n: int, d: int) -> int
    recommends
        1 <= d,
{
    if n >= 0 {
        (2 * n + d) / (2 * d)
    } else {
        -((2 * (-n) + d) / (2 * d))
    }
}

/// The rounded quotient never exceeds the dividend in magnitude and keeps
/// its sign.
pub proof fn lemma_round_half_away_bounds(n: int, d: int)
    requires
        1 <= d,
    ensures
        n >= 0 ==> 0 <= round_half_away(n, d) <= n,
        n < 0 ==> n <= round_half_away(n, d) <= 0,
{
    if n >= 0 {
        lemma_round_half_away_bounds_nonneg(n, d);
    } else {
        lemma_round_half_away_bounds_nonneg(-n, d);
    }
}

proof fn lemma_round_half_away_bounds_nonneg(n: int, d: int)
    requires
        1 <= d,
        0 <= n,
    ensures
        0 <= (2 * n + d) / (2 * d) <= n,
{
    let q: int = (2 * n + d) / (2 * d);
    let r: int = (2 * n + d) % (2 * d);
    lemma_fundamental_div_mod(2 * n + d, 2 * d);
    lemma_mod_bound(2 * n + d, 2 * d);
    assert(2 * n + d == 2 * d * q + r);
    assert(0 <= q) by (nonlinear_arith)
        requires
            2 * n + d == 2 * d * q + r,
            0 <= r < 2 * d,
            0 <= n,
            1 <= d,
    ;
    assert(q <= n) by (nonlinear_arith)
        requires
            2 * n + d == 2 * d * q + r,
            0 <= r < 2 * d,
            0 <= n,
            1 <= d,
    ;
}

/// `n / d` rounded to the nearest integer, ties away from zero, computed on
/// machine integers.
pub fn round_div_half_away(n: i64, d: i64) -> (r: i64)
    requires
        1 <= d <= SCALE_LIMIT,
        -ROUND_NUM_LIMIT <= n <= ROUND_NUM_LIMIT,
    ensures
        r == round_half_away(n as int, d as int),
        n >= 0 ==> 0 <= r <= n,
        n < 0 ==> n <= r <= 0,
{
    proof {
        lemma_round_half_away_bounds(n as int, d as int);
    }
    if n >= 0 {
        let num: u64 = 2 * (n as u64) + (d as u64);
        let den: u64 = 2 * (d as u64);
        let q: u64 = num / den;
        assert(q == round_half_away(n as int, d as int));
        q as i64
    } else {
        let m: i64 = -n;
        let num: u64 = 2 * (m as u64) + (d as u64);
        let den: u64 = 2 * (d as u64);
        let q: u64 = num / den;
        assert(-(q as int) == round_half_away(n as int, d as int));
        -(q as i64)
    }
}

/// A logical coordinate carried to physical pixels: multiplied by the scale
/// factor (in thousandths) and rounded to the nearest pixel, ties away from
/// zero.
pub open spec fn scaled_coord(v: int, scale_milli: int) -> int {
    round_half_away(v * scale_milli, SCALE_ONE as int)
}

/// The popover's horizontal position: the window is centered under the tray
/// icon, so the target is the icon's physical midline less half the window
/// width, rounded to the nearest pixel, ties away from zero.
pub open spec fn target_x(rect: LogicalRect, scale_milli: int, window_width: int) -> int {
    round_half_away(
        2 * scaled_coord(rect.x as int, scale_milli) + scaled_coord(rect.width as int, scale_milli)
            - window_width,
        2,
    )
}

/// The popover's vertical position: just below the icon's physical bottom
/// edge, separated by the configured gap. Every term is already an integer,
/// so no rounding is involved.
pub open spec fn target_y(rect: LogicalRect, scale_milli: int, gap: int) -> int {
    scaled_coord(rect.y as int, scale_milli) + scaled_coord(rect.height as int, scale_milli) + gap
}

/// Computes the physical pixel at which the popover is placed: horizontally
/// centered under the tray icon, vertically just below it.
pub fn compute_target_position(
    rect: &LogicalRect,
    scale_milli: u32,
    window_width: i64,
    gap: i64,
) -> (p: PhysicalPoint)
    requires
        rect.wf(),
        1 <= scale_milli <= SCALE_LIMIT,
        0 <= window_width <= COORD_LIMIT,
        0 <= gap <= COORD_LIMIT,
    ensures
        p.x == target_x(*rect, scale_milli as int, window_width as int),
        p.y == target_y(*rect, scale_milli as int, gap as int),
{
    let k: i64 = scale_milli as i64;
    proof {
        assert(-2_147_483_648_000_000 <= rect.x * k <= 2_147_483_648_000_000
            && -2_147_483_648_000_000 <= rect.y * k <= 2_147_483_648_000_000
            && 0 <= rect.width * k <= 2_147_483_648_000_000
            && 0 <= rect.height * k <= 2_147_483_648_000_000) by (nonlinear_arith)
            requires
                -0x8000_0000 <= rect.x <= 0x8000_0000,
                -0x8000_0000 <= rect.y <= 0x8000_0000,
                0 <= rect.width <= 0x8000_0000,
                0 <= rect.height <= 0x8000_0000,
                1 <= k <= 1_000_000,
        ;
    }
    let phys_x: i64 = round_div_half_away(rect.x * k, 1000);
    let phys_y: i64 = round_div_half_away(rect.y * k, 1000);
    let phys_w: i64 = round_div_half_away(rect.width * k, 1000);
    let phys_h: i64 = round_div_half_away(rect.height * k, 1000);
    let tx: i64 = round_div_half_away(2 * phys_x + phys_w - window_width, 2);
    let ty: i64 = phys_y + phys_h + gap;
    PhysicalPoint { x: tx, y: ty }
}

} // verus!
