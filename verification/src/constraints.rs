//! Constraint engine: pure functions that normalize a dragged crop box,
//! shrink a box to an aspect ratio, clamp boxes and translation deltas to the
//! image, all in exact integer arithmetic.

use vstd::prelude::*;

use crate::geometry::{ImageBounds, ToolBounds};

verus! {

/// Clamp `v` into `[lo, hi]` (callers keep `lo <= hi`).
pub open spec fn spec_clamp(v: int, lo: int, hi: int) -> int {
    if v < lo {
        lo
    } else if v > hi {
        hi
    } else {
        v
    }
}

/// `i32` addition that saturates at the ends of the `i32` range.
pub open spec fn spec_sat_add_i32(a: int, b: int) -> int {
    spec_clamp(a + b, i32::MIN as int, i32::MAX as int)
}

/// Saturating `i32` addition, computed exactly in `i64`.
pub fn sat_add_i32(a: i32, b: i32) -> (r: i32)
    ensures
        r as int == spec_sat_add_i32(a as int, b as int),
{
    let wide: i64 = a as i64 + b as i64;
    if wide < i32::MIN as i64 {
        i32::MIN
    } else if wide > i32::MAX as i64 {
        i32::MAX
    } else {
        wide as i32
    }
}

/// The translation delta actually applied on one axis: the input delta,
/// clamped so that an extent `[min_coord, max_coord]` stays inside
/// `[0, axis_max]`. When the extent cannot fit at all, the start edge is
/// pinned to the axis origin.
pub open spec fn spec_clamp_translation_delta(
    delta: int,
    min_coord: int,
    max_coord: int,
    axis_max: int,
) -> int {
    let min_delta = spec_clamp(-min_coord, i32::MIN as int, i32::MAX as int);
    let max_delta = spec_clamp(axis_max - max_coord, i32::MIN as int, i32::MAX as int);
    if min_delta <= max_delta {
        spec_clamp(delta, min_delta, max_delta)
    } else {
        min_delta
    }
}

pub fn clamp_translation_delta(delta: i32, min_coord: i32, max_coord: i32, axis_max: i32) -> (r:
    i32)
    ensures
        r as int == spec_clamp_translation_delta(
            delta as int,
            min_coord as int,
            max_coord as int,
            axis_max as int,
        ),
{
    let min_delta_wide: i64 = -(min_coord as i64);
    let max_delta_wide: i64 = axis_max as i64 - max_coord as i64;
    let min_delta: i64 = if min_delta_wide > i32::MAX as i64 {
        i32::MAX as i64
    } else {
        min_delta_wide
    };
    let max_delta: i64 = if max_delta_wide < i32::MIN as i64 {
        i32::MIN as i64
    } else if max_delta_wide > i32::MAX as i64 {
        i32::MAX as i64
    } else {
        max_delta_wide
    };
    let r_wide: i64 = if min_delta <= max_delta {
        if (delta as i64) < min_delta {
            min_delta
        } else if (delta as i64) > max_delta {
            max_delta
        } else {
            delta as i64
        }
    } else {
        min_delta
    };
    r_wide as i32
}

/// When the extent fits on the axis and no `i32` saturation is reached, the
/// clamped delta keeps the whole extent inside `[0, axis_max]`.
pub proof fn lemma_clamp_translation_delta_in_bounds(
    delta: int,
    min_coord: int,
    max_coord: int,
    axis_max: int,
)
    requires
        0 <= axis_max <= i32::MAX,
        min_coord <= max_coord,
        max_coord - min_coord <= axis_max,
        i32::MIN < min_coord,
        max_coord <= i32::MAX,
        axis_max - max_coord <= i32::MAX,
    ensures
        ({
            let d = spec_clamp_translation_delta(delta, min_coord, max_coord, axis_max);
            0 <= min_coord + d && max_coord + d <= axis_max
        }),
{
}

/// New top-left corner of a `width x height` box at `(x, y)` moved by
/// `(delta_x, delta_y)` and clamped into the image.
pub open spec fn spec_move_box_by(
    x: int,
    y: int,
    width: int,
    height: int,
    delta_x: int,
    delta_y: int,
    image_w: int,
    image_h: int,
) -> (int, int) {
    let bw = if width > i32::MAX as int {
        i32::MAX as int
    } else {
        width
    };
    let bh = if height > i32::MAX as int {
        i32::MAX as int
    } else {
        height
    };
    let limit_x = if image_w - bw > 0 {
        image_w - bw
    } else {
        0
    };
    let limit_y = if image_h - bh > 0 {
        image_h - bh
    } else {
        0
    };
    (
        spec_clamp(spec_sat_add_i32(x, delta_x), 0, limit_x),
        spec_clamp(spec_sat_add_i32(y, delta_y), 0, limit_y),
    )
}

pub fn move_box_by(
    x: i32,
    y: i32,
    width: u32,
    height: u32,
    delta_x: i32,
    delta_y: i32,
    image: ImageBounds,
) -> (r: (i32, i32))
    ensures
        (r.0 as int, r.1 as int) == spec_move_box_by(
            x as int,
            y as int,
            width as int,
            height as int,
            delta_x as int,
            delta_y as int,
            image.width as int,
            image.height as int,
        ),
        0 <= r.0 && 0 <= r.1,
        width <= image.width ==> r.0 + width <= image.width,
        height <= image.height ==> r.1 + height <= image.height,
{
    let bw: i64 = if width > i32::MAX as u32 {
        i32::MAX as i64
    } else {
        width as i64
    };
    let bh: i64 = if height > i32::MAX as u32 {
        i32::MAX as i64
    } else {
        height as i64
    };
    let limit_x_wide: i64 = image.width as i64 - bw;
    let limit_y_wide: i64 = image.height as i64 - bh;
    let limit_x: i64 = if limit_x_wide > 0 {
        limit_x_wide
    } else {
        0
    };
    let limit_y: i64 = if limit_y_wide > 0 {
        limit_y_wide
    } else {
        0
    };
    let moved_x: i64 = sat_add_i32(x, delta_x) as i64;
    let moved_y: i64 = sat_add_i32(y, delta_y) as i64;
    let nx: i64 = if moved_x < 0 {
        0
    } else if moved_x > limit_x {
        limit_x
    } else {
        moved_x
    };
    let ny: i64 = if moved_y < 0 {
        0
    } else if moved_y > limit_y {
        limit_y
    } else {
        moved_y
    };
    (nx as i32, ny as i32)
}

/// A box clamped into the image: the corner is pulled inside, then the extent
/// is capped so the box cannot run past the far edge (but never below 1).
pub open spec fn spec_clamp_bounds_to_image(bounds: ToolBounds, image: ImageBounds) -> ToolBounds {
    let max_x = if image.width as int - 1 > 0 {
        image.width as int - 1
    } else {
        0
    };
    let max_y = if image.height as int - 1 > 0 {
        image.height as int - 1
    } else {
        0
    };
    let cx = spec_clamp(bounds.x as int, 0, max_x);
    let cy = spec_clamp(bounds.y as int, 0, max_y);
    let max_w = if image.width as int - cx > 1 {
        image.width as int - cx
    } else {
        1
    };
    let max_h = if image.height as int - cy > 1 {
        image.height as int - cy
    } else {
        1
    };
    let w = if bounds.width as int <= max_w {
        bounds.width as int
    } else {
        max_w
    };
    let h = if bounds.height as int <= max_h {
        bounds.height as int
    } else {
        max_h
    };
    ToolBounds { x: cx as i32, y: cy as i32, width: w as u32, height: h as u32 }
}

pub fn clamp_bounds_to_image(bounds: ToolBounds, image: ImageBounds) -> (r: ToolBounds)
    ensures
        r == spec_clamp_bounds_to_image(bounds, image),
        image.width >= 1 ==> 0 <= r.x < image.width,
        image.height >= 1 ==> 0 <= r.y < image.height,
        image.width >= 1 ==> r.x + r.width <= image.width,
        image.height >= 1 ==> r.y + r.height <= image.height,
        bounds.width >= 1 && bounds.height >= 1 ==> r.width >= 1 && r.height >= 1,
{
    let max_x: i32 = if image.width >= 1 {
        image.width - 1
    } else {
        0
    };
    let max_y: i32 = if image.height >= 1 {
        image.height - 1
    } else {
        0
    };
    let cx: i32 = if bounds.x < 0 {
        0
    } else if bounds.x > max_x {
        max_x
    } else {
        bounds.x
    };
    let cy: i32 = if bounds.y < 0 {
        0
    } else if bounds.y > max_y {
        max_y
    } else {
        bounds.y
    };
    let max_w_wide: i64 = image.width as i64 - cx as i64;
    let max_h_wide: i64 = image.height as i64 - cy as i64;
    let max_w: i64 = if max_w_wide > 1 {
        max_w_wide
    } else {
        1
    };
    let max_h: i64 = if max_h_wide > 1 {
        max_h_wide
    } else {
        1
    };
    let w: u32 = if (bounds.width as i64) <= max_w {
        bounds.width
    } else {
        max_w as u32
    };
    let h: u32 = if (bounds.height as i64) <= max_h {
        bounds.height
    } else {
        max_h as u32
    };
    ToolBounds { x: cx, y: cy, width: w, height: h }
}

/// One dimension scaled by `num / den`, truncated, and capped at `u32::MAX`;
/// a zero denominator yields zero.
pub open spec fn spec_scale_ratio_dimension(base: int, num: int, den: int) -> int {
    if den == 0 {
        0
    } else if (base * num) / den > u32::MAX as int {
        u32::MAX as int
    } else {
        (base * num) / den
    }
}

pub fn scale_ratio_dimension(base: u32, numerator: u32, denominator: u32) -> (r: u32)
    ensures
        r as int == spec_scale_ratio_dimension(base as int, numerator as int, denominator as int),
{
    if denominator == 0 {
        0
    } else {
        proof {
            assert(base as int * numerator as int <= u32::MAX as int * u32::MAX as int)
                by (nonlinear_arith)
                requires base as int <= u32::MAX as int, numerator as int <= u32::MAX as int,
                    0 <= base as int, 0 <= numerator as int;
        }
        let scaled: u64 = (base as u64 * numerator as u64) / denominator as u64;
        if scaled > u32::MAX as u64 {
            u32::MAX
        } else {
            scaled as u32
        }
    }
}

/// A `width x height` box shrunk to the target ratio `ratio_x : ratio_y`:
/// whichever of the width-led and height-led candidates fits inside the
/// original box is taken.
pub open spec fn spec_adjust_ratio_to_fit(w: int, h: int, rx: int, ry: int) -> (int, int) {
    let target_w = spec_scale_ratio_dimension(h, rx, ry);
    let target_h = spec_scale_ratio_dimension(w, ry, rx);
    if target_w <= w {
        (target_w, h)
    } else {
        (w, target_h)
    }
}

pub fn adjust_ratio_to_fit(width: u32, height: u32, ratio_x: u32, ratio_y: u32) -> (r: (u32, u32))
    ensures
        (r.0 as int, r.1 as int) == spec_adjust_ratio_to_fit(
            width as int,
            height as int,
            ratio_x as int,
            ratio_y as int,
        ),
        r.0 <= width && r.1 <= height,
{
    let target_w = scale_ratio_dimension(height, ratio_x, ratio_y);
    let target_h = scale_ratio_dimension(width, ratio_y, ratio_x);
    if target_w <= width {
        (target_w, height)
    } else {
        proof {
            lemma_adjust_ratio_height_led(width as int, height as int, ratio_x as int, ratio_y as int);
        }
        (width, target_h)
    }
}

/// In the height-led branch the scaled height never exceeds the original.
proof fn lemma_adjust_ratio_height_led(w: int, h: int, rx: int, ry: int)
    requires
        0 <= w,
        0 <= h,
        0 <= rx,
        0 <= ry,
        spec_scale_ratio_dimension(h, rx, ry) > w,
    ensures
        spec_scale_ratio_dimension(w, ry, rx) <= h,
{
    assert(ry != 0);
    assert((h * rx) / ry > w || u32::MAX as int > w);
    if rx == 0 {
        assert(spec_scale_ratio_dimension(w, ry, rx) == 0);
    } else {
        assert((h * rx) / ry >= w + 1) by {
            assert(spec_scale_ratio_dimension(h, rx, ry) <= (h * rx) / ry);
        }
        assert(h * rx >= (w + 1) * ry) by {
            assert((h * rx) / ry * ry <= h * rx) by (nonlinear_arith)
                requires ry > 0;
            assert((h * rx) / ry >= w + 1);
            assert((w + 1) * ry <= (h * rx) / ry * ry) by (nonlinear_arith)
                requires ry > 0, (h * rx) / ry >= w + 1;
        }
        assert(w * ry < h * rx) by (nonlinear_arith)
            requires h * rx >= (w + 1) * ry, ry > 0;
        assert((w * ry) / rx <= h) by {
            assert(w * ry <= h * rx - 1);
            assert((w * ry) / rx <= (h * rx - 1) / rx) by (nonlinear_arith)
                requires rx > 0, w * ry <= h * rx - 1;
            assert((h * rx - 1) / rx < h) by (nonlinear_arith)
                requires rx > 0;
        }
    }
}

/// The ratio-adjusted box meets the target ratio up to one unit of integer
/// rounding, as long as neither scaled dimension is capped at `u32::MAX`.
pub proof fn lemma_adjust_ratio_rounding(w: int, h: int, rx: int, ry: int)
    requires
        0 <= w,
        0 <= h,
        0 < rx,
        0 < ry,
        h * rx <= u32::MAX as int * ry,
        w * ry <= u32::MAX as int * rx,
    ensures
        ({
            let (aw, ah) = spec_adjust_ratio_to_fit(w, h, rx, ry);
            (aw * ry <= ah * rx < (aw + 1) * ry) || (ah * rx <= aw * ry < (ah + 1) * rx)
        }),
{
    let tw = spec_scale_ratio_dimension(h, rx, ry);
    let th = spec_scale_ratio_dimension(w, ry, rx);
    assert((h * rx) / ry <= u32::MAX as int) by (nonlinear_arith)
        requires ry > 0, h * rx <= u32::MAX as int * ry, 0 <= h * rx;
    assert((w * ry) / rx <= u32::MAX as int) by (nonlinear_arith)
        requires rx > 0, w * ry <= u32::MAX as int * rx, 0 <= w * ry;
    assert(tw == (h * rx) / ry);
    assert(th == (w * ry) / rx);
    if tw <= w {
        assert(tw * ry <= h * rx < (tw + 1) * ry) by (nonlinear_arith)
            requires ry > 0, 0 <= h * rx, tw == (h * rx) / ry;
    } else {
        assert(th * rx <= w * ry < (th + 1) * rx) by (nonlinear_arith)
            requires rx > 0, 0 <= w * ry, th == (w * ry) / rx;
    }
}

/// A dragged crop box, normalized: corners ordered, clamped into the image
/// (unless the image extent carries the `u32::MAX` "unbounded" sentinel), and
/// rejected when degenerate.
pub open spec fn spec_normalize_crop_box(
    start_x: int,
    start_y: int,
    end_x: int,
    end_y: int,
    image_w: int,
    image_h: int,
) -> Option<(int, int, int, int)> {
    let bounded = image_w != u32::MAX as int && image_h != u32::MAX as int;
    let max_x = if bounded {
        image_w
    } else {
        i64::MAX as int
    };
    let max_y = if bounded {
        image_h
    } else {
        i64::MAX as int
    };
    let left = spec_clamp(if start_x <= end_x { start_x } else { end_x }, 0, max_x);
    let right = spec_clamp(if start_x <= end_x { end_x } else { start_x }, 0, max_x);
    let top = spec_clamp(if start_y <= end_y { start_y } else { end_y }, 0, max_y);
    let bottom = spec_clamp(if start_y <= end_y { end_y } else { start_y }, 0, max_y);
    if right <= left || bottom <= top {
        None
    } else if bounded && (image_w == 0 || image_h == 0) {
        None
    } else {
        Some((left, top, right - left, bottom - top))
    }
}

pub fn normalize_crop_box(
    start_x: i32,
    start_y: i32,
    end_x: i32,
    end_y: i32,
    image_width: u32,
    image_height: u32,
) -> (r: Option<(i32, i32, u32, u32)>)
    ensures
        ({
            let s = spec_normalize_crop_box(
                start_x as int,
                start_y as int,
                end_x as int,
                end_y as int,
                image_width as int,
                image_height as int,
            );
            match r {
                Some(b) => s matches Some(t) && b.0 as int == t.0 && b.1 as int == t.1
                    && b.2 as int == t.2 && b.3 as int == t.3,
                None => s is None,
            }
        }),
{
    let mut left: i64 = if start_x <= end_x {
        start_x as i64
    } else {
        end_x as i64
    };
    let mut right: i64 = if start_x <= end_x {
        end_x as i64
    } else {
        start_x as i64
    };
    let mut top: i64 = if start_y <= end_y {
        start_y as i64
    } else {
        end_y as i64
    };
    let mut bottom: i64 = if start_y <= end_y {
        end_y as i64
    } else {
        start_y as i64
    };

    let bounded = image_width != u32::MAX && image_height != u32::MAX;
    let max_x: i64 = if bounded {
        image_width as i64
    } else {
        i64::MAX
    };
    let max_y: i64 = if bounded {
        image_height as i64
    } else {
        i64::MAX
    };

    left = clamp_i64(left, 0, max_x);
    right = clamp_i64(right, 0, max_x);
    top = clamp_i64(top, 0, max_y);
    bottom = clamp_i64(bottom, 0, max_y);

    if right <= left || bottom <= top {
        return None;
    }
    if bounded && (image_width == 0 || image_height == 0) {
        return None;
    }
    Some((left as i32, top as i32, (right - left) as u32, (bottom - top) as u32))
}

fn clamp_i64(v: i64, lo: i64, hi: i64) -> (r: i64)
    requires
        lo <= hi,
    ensures
        r as int == spec_clamp(v as int, lo as int, hi as int),
{
    if v < lo {
        lo
    } else if v > hi {
        hi
    } else {
        v
    }
}

/// Law: a normalized crop box is non-degenerate, sits at a non-negative
/// corner, and does not depend on the order of the two drag corners.
pub proof fn lemma_normalize_crop_box(
    start_x: int,
    start_y: int,
    end_x: int,
    end_y: int,
    image_w: int,
    image_h: int,
)
    ensures
        spec_normalize_crop_box(start_x, start_y, end_x, end_y, image_w, image_h)
            == spec_normalize_crop_box(end_x, end_y, start_x, start_y, image_w, image_h),
        spec_normalize_crop_box(start_x, start_y, end_x, end_y, image_w, image_h) matches Some(b)
            ==> b.2 > 0 && b.3 > 0 && b.0 >= 0 && b.1 >= 0,
{
}

} // verus!
