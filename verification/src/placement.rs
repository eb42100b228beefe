//! Preview window placement: a captured region scaled into a policy window
//! (between the minimum size and a fraction of the available bounds) and
//! centered over its source, clamped into the bounds.

use vstd::prelude::*;

use crate::constraints::spec_clamp;

verus! {

pub const DEFAULT_PREVIEW_X: i32 = 24;

pub const DEFAULT_PREVIEW_Y: i32 = 24;

pub const DEFAULT_PREVIEW_WIDTH: i32 = 840;

pub const DEFAULT_PREVIEW_HEIGHT: i32 = 472;

pub const MIN_PREVIEW_WIDTH: i32 = 360;

pub const MIN_PREVIEW_HEIGHT: i32 = 220;

/// The position and size of a preview window.
#[derive(Clone, Copy, Debug, PartialEq, Eq, Structural)]
pub struct PreviewWindowGeometry {
    pub x: i32,
    pub y: i32,
    pub width: i32,
    pub height: i32,
}

/// The screen region a capture came from.
#[derive(Clone, Copy, Debug, PartialEq, Eq, Structural)]
pub struct PreviewSourceArea {
    pub x: i32,
    pub y: i32,
    pub width: i32,
    pub height: i32,
}

/// The screen bounds the preview must stay inside.
#[derive(Clone, Copy, Debug, PartialEq, Eq, Structural)]
pub struct PreviewBounds {
    pub x: i32,
    pub y: i32,
    pub width: i32,
    pub height: i32,
}

/// The sizing policy: the default and minimum preview window sizes.
#[derive(Clone, Copy, Debug, PartialEq, Eq, Structural)]
pub struct PreviewSizingTokens {
    pub default_width: i32,
    pub default_height: i32,
    pub min_width: i32,
    pub min_height: i32,
}

impl Default for PreviewSizingTokens {
    fn default() -> (r: Self)
        ensures
            r == (PreviewSizingTokens {
                default_width: DEFAULT_PREVIEW_WIDTH,
                default_height: DEFAULT_PREVIEW_HEIGHT,
                min_width: MIN_PREVIEW_WIDTH,
                min_height: MIN_PREVIEW_HEIGHT,
            }),
    {
        PreviewSizingTokens {
            default_width: DEFAULT_PREVIEW_WIDTH,
            default_height: DEFAULT_PREVIEW_HEIGHT,
            min_width: MIN_PREVIEW_WIDTH,
            min_height: MIN_PREVIEW_HEIGHT,
        }
    }
}

/// A computed placement: the window geometry plus the effective size policy.
#[derive(Clone, Copy, Debug, PartialEq, Eq, Structural)]
pub struct PreviewPlacement {
    pub geometry: PreviewWindowGeometry,
    pub min_width: i32,
    pub min_height: i32,
    pub max_width: i32,
    pub max_height: i32,
}

pub open spec fn spec_max(a: int, b: int) -> int {
    if a >= b {
        a
    } else {
        b
    }
}

pub open spec fn spec_min(a: int, b: int) -> int {
    if a <= b {
        a
    } else {
        b
    }
}

/// `base * 72 / 100`, rounded to the nearest integer.
pub open spec fn spec_bound_share(base: int) -> int {
    (144 * base + 100) / 200
}

/// `base * num / den`, rounded to the nearest integer (non-negative values).
pub open spec fn spec_scale_round(base: int, num: int, den: int) -> int {
    (2 * base * num + den) / (2 * den)
}

/// The exact scale chosen for the preview, as the pair `(num, den)`:
/// the source is left at full size when that fits the policy window, and
/// otherwise pushed to the nearest policy edge.
pub open spec fn spec_preview_scale(
    sw: int,
    sh: int,
    min_w: int,
    min_h: int,
    max_w: int,
    max_h: int,
) -> (int, int) {
    let lower = if min_w * sh >= min_h * sw {
        (min_w, sw)
    } else {
        (min_h, sh)
    };
    let upper = if max_w * sh <= max_h * sw {
        (max_w, sw)
    } else {
        (max_h, sh)
    };
    if lower.0 * upper.1 <= upper.0 * lower.1 {
        if lower.0 > lower.1 {
            lower
        } else if upper.0 < upper.1 {
            upper
        } else {
            (1, 1)
        }
    } else {
        if 100 * upper.0 >= upper.1 {
            upper
        } else {
            (1, 100)
        }
    }
}

/// The full placement computation over exact integers.
pub open spec fn spec_preview_placement(
    source: PreviewSourceArea,
    bounds: PreviewBounds,
    sizing: PreviewSizingTokens,
) -> PreviewPlacement {
    let dw = spec_max(sizing.default_width as int, 1);
    let dh = spec_max(sizing.default_height as int, 1);
    let sw = spec_max(source.width as int, 1);
    let sh = spec_max(source.height as int, 1);
    let bw = spec_max(bounds.width as int, 1);
    let bh = spec_max(bounds.height as int, 1);
    let min_w = spec_min(spec_max(sizing.min_width as int, 1), bw);
    let min_h = spec_min(spec_max(sizing.min_height as int, 1), bh);
    let max_w = spec_max(
        spec_min(spec_min(spec_max(spec_bound_share(bw), min_w), spec_max(2 * dw, min_w)), bw),
        min_w,
    );
    let max_h = spec_max(
        spec_min(spec_min(spec_max(spec_bound_share(bh), min_h), spec_max(2 * dh, min_h)), bh),
        min_h,
    );
    let scale = spec_preview_scale(sw, sh, min_w, min_h, max_w, max_h);
    let width = spec_clamp(spec_scale_round(sw, scale.0, scale.1), min_w, max_w);
    let height = spec_clamp(spec_scale_round(sh, scale.0, scale.1), min_h, max_h);
    let desired_x = source.x as int + sw / 2 - width / 2;
    let desired_y = source.y as int + sh / 2 - height / 2;
    let max_x = bounds.x as int + spec_max(bw - width, 0);
    let max_y = bounds.y as int + spec_max(bh - height, 0);
    let x = spec_clamp(desired_x, bounds.x as int, max_x);
    let y = spec_clamp(desired_y, bounds.y as int, max_y);
    PreviewPlacement {
        geometry: PreviewWindowGeometry {
            x: x as i32,
            y: y as i32,
            width: width as i32,
            height: height as i32,
        },
        min_width: min_w as i32,
        min_height: min_h as i32,
        max_width: max_w as i32,
        max_height: max_h as i32,
    }
}

fn max_i64(a: i64, b: i64) -> (r: i64)
    ensures
        r as int == spec_max(a as int, b as int),
{
    if a >= b {
        a
    } else {
        b
    }
}

fn min_i64(a: i64, b: i64) -> (r: i64)
    ensures
        r as int == spec_min(a as int, b as int),
{
    if a <= b {
        a
    } else {
        b
    }
}

/// Place a preview window for a capture: the source scaled into the policy
/// window and centered over its origin, clamped into the bounds.
#[verifier::rlimit(60)]
pub fn compute_preview_placement(
    source: PreviewSourceArea,
    bounds: PreviewBounds,
    sizing: PreviewSizingTokens,
) -> (r: PreviewPlacement)
    ensures
        r == spec_preview_placement(source, bounds, sizing),
        r.min_width <= r.max_width && r.min_height <= r.max_height,
        r.min_width <= r.geometry.width <= r.max_width,
        r.min_height <= r.geometry.height <= r.max_height,
{
    let dw: i64 = max_i64(sizing.default_width as i64, 1);
    let dh: i64 = max_i64(sizing.default_height as i64, 1);
    let sw: i64 = max_i64(source.width as i64, 1);
    let sh: i64 = max_i64(source.height as i64, 1);
    let bw: i64 = max_i64(bounds.width as i64, 1);
    let bh: i64 = max_i64(bounds.height as i64, 1);
    let min_w: i64 = min_i64(max_i64(sizing.min_width as i64, 1), bw);
    let min_h: i64 = min_i64(max_i64(sizing.min_height as i64, 1), bh);
    let max_w: i64 = max_i64(
        min_i64(min_i64(max_i64((144 * bw + 100) / 200, min_w), max_i64(2 * dw, min_w)), bw),
        min_w,
    );
    let max_h: i64 = max_i64(
        min_i64(min_i64(max_i64((144 * bh + 100) / 200, min_h), max_i64(2 * dh, min_h)), bh),
        min_h,
    );
    proof {
        lemma_products_fit(min_w as int, min_h as int, max_w as int, max_h as int, sw as int, sh as int);
    }
    let lower: (i64, i64) = if min_w * sh >= min_h * sw {
        (min_w, sw)
    } else {
        (min_h, sh)
    };
    let upper: (i64, i64) = if max_w * sh <= max_h * sw {
        (max_w, sw)
    } else {
        (max_h, sh)
    };
    let scale: (i64, i64) = if lower.0 * upper.1 <= upper.0 * lower.1 {
        if lower.0 > lower.1 {
            lower
        } else if upper.0 < upper.1 {
            upper
        } else {
            (1, 1)
        }
    } else {
        if 100 * upper.0 >= upper.1 {
            upper
        } else {
            (1, 100)
        }
    };
    proof {
        assert(0 <= 2 * (sw as int) * (scale.0 as int) <= 4 * 2147483647int * 2147483647int)
            by (nonlinear_arith)
            requires 1 <= sw as int <= 2147483647int, 0 <= scale.0 as int <= 2 * 2147483647int;
        assert(0 <= 2 * (sh as int) * (scale.0 as int) <= 4 * 2147483647int * 2147483647int)
            by (nonlinear_arith)
            requires 1 <= sh as int <= 2147483647int, 0 <= scale.0 as int <= 2 * 2147483647int;
    }
    let width_raw: i128 = (2 * (sw as i128) * (scale.0 as i128) + scale.1 as i128) / (2
        * (scale.1 as i128));
    let height_raw: i128 = (2 * (sh as i128) * (scale.0 as i128) + scale.1 as i128) / (2
        * (scale.1 as i128));
    let width: i64 = clamp_i128(width_raw, min_w as i128, max_w as i128) as i64;
    let height: i64 = clamp_i128(height_raw, min_h as i128, max_h as i128) as i64;
    let desired_x: i64 = source.x as i64 + sw / 2 - width / 2;
    let desired_y: i64 = source.y as i64 + sh / 2 - height / 2;
    let max_x: i64 = bounds.x as i64 + max_i64(bw - width, 0);
    let max_y: i64 = bounds.y as i64 + max_i64(bh - height, 0);
    let x: i64 = clamp_i64(desired_x, bounds.x as i64, max_x);
    let y: i64 = clamp_i64(desired_y, bounds.y as i64, max_y);
    PreviewPlacement {
        geometry: PreviewWindowGeometry {
            x: x as i32,
            y: y as i32,
            width: width as i32,
            height: height as i32,
        },
        min_width: min_w as i32,
        min_height: min_h as i32,
        max_width: max_w as i32,
        max_height: max_h as i32,
    }
}

/// All the cross products the scale choice compares stay inside `i64`.
proof fn lemma_products_fit(min_w: int, min_h: int, max_w: int, max_h: int, sw: int, sh: int)
    requires
        1 <= min_w <= 2147483647,
        1 <= min_h <= 2147483647,
        1 <= max_w <= 2 * 2147483647,
        1 <= max_h <= 2 * 2147483647,
        1 <= sw <= 2147483647,
        1 <= sh <= 2147483647,
    ensures
        0 <= min_w * sh <= 2147483647 * 2147483647,
        0 <= min_h * sw <= 2147483647 * 2147483647,
        0 <= max_w * sh <= 2 * 2147483647 * 2147483647,
        0 <= max_h * sw <= 2 * 2147483647 * 2147483647,
        0 <= min_w * sw <= 2147483647 * 2147483647,
        0 <= min_h * sh <= 2147483647 * 2147483647,
        0 <= max_w * sw <= 2 * 2147483647 * 2147483647,
        0 <= max_h * sh <= 2 * 2147483647 * 2147483647,
        0 <= min_w * max_h * 1 <= 2 * 2147483647 * 2147483647,
{
    assert(0 <= min_w * sh <= 2147483647 * 2147483647) by (nonlinear_arith)
        requires 1 <= min_w <= 2147483647, 1 <= sh <= 2147483647;
    assert(0 <= min_h * sw <= 2147483647 * 2147483647) by (nonlinear_arith)
        requires 1 <= min_h <= 2147483647, 1 <= sw <= 2147483647;
    assert(0 <= max_w * sh <= 2 * 2147483647 * 2147483647) by (nonlinear_arith)
        requires 1 <= max_w <= 2 * 2147483647, 1 <= sh <= 2147483647;
    assert(0 <= max_h * sw <= 2 * 2147483647 * 2147483647) by (nonlinear_arith)
        requires 1 <= max_h <= 2 * 2147483647, 1 <= sw <= 2147483647;
    assert(0 <= min_w * sw <= 2147483647 * 2147483647) by (nonlinear_arith)
        requires 1 <= min_w <= 2147483647, 1 <= sw <= 2147483647;
    assert(0 <= min_h * sh <= 2147483647 * 2147483647) by (nonlinear_arith)
        requires 1 <= min_h <= 2147483647, 1 <= sh <= 2147483647;
    assert(0 <= max_w * sw <= 2 * 2147483647 * 2147483647) by (nonlinear_arith)
        requires 1 <= max_w <= 2 * 2147483647, 1 <= sw <= 2147483647;
    assert(0 <= max_h * sh <= 2 * 2147483647 * 2147483647) by (nonlinear_arith)
        requires 1 <= max_h <= 2 * 2147483647, 1 <= sh <= 2147483647;
    assert(0 <= min_w * max_h * 1 <= 2 * 2147483647 * 2147483647) by (nonlinear_arith)
        requires 1 <= min_w <= 2147483647, 1 <= max_h <= 2 * 2147483647;
}

fn clamp_i128(v: i128, lo: i128, hi: i128) -> (r: i128)
    requires
        lo <= hi,
    ensures
        r as int == spec_clamp(v as int, lo as int, hi as int),
        lo <= r <= hi,
{
    if v < lo {
        lo
    } else if v > hi {
        hi
    } else {
        v
    }
}

fn clamp_i64(v: i64, lo: i64, hi: i64) -> (r: i64)
    requires
        lo <= hi,
    ensures
        r as int == spec_clamp(v as int, lo as int, hi as int),
{
    if v < lo {
        lo
    } else if v > hi {
        hi
    } else {
        v
    }
}

} // verus!
