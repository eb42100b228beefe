//! The viewport transform engine: a logarithmic zoom slider computed in
//! fixed-point integer arithmetic, fit-to-window zoom, per-axis scroll
//! layout with overscroll margins, and anchor-preserving zoom changes.

use vstd::prelude::*;

use crate::constraints::spec_clamp;

verus! {

/// The smallest zoom the editor supports, in percent.
pub const MIN_ZOOM_PERCENT: u16 = 10;

/// The largest zoom the editor supports, in percent.
pub const MAX_ZOOM_PERCENT: u16 = 1600;

/// The number of discrete slider positions.
pub const ZOOM_SLIDER_STEPS: u32 = 1000;

/// One unit in 32.32 fixed point.
pub const ZOOM_FIXED_ONE: u128 = 4294967296;

/// The per-step zoom growth factor in 32.32 fixed point: the thousandth
/// root of the full zoom span (1600 / 10), so that the whole slider covers
/// the span logarithmically.
pub const ZOOM_GROWTH: u128 = 4316820409;

/// A ceiling above the largest reachable fixed-point zoom value.
pub const ZOOM_FIXED_CAP: u128 = 1601 * 4294967296;

/// The fixed-point zoom value at slider position `s`: the minimum zoom
/// grown by `ZOOM_GROWTH` for each step, never above the cap.
pub open spec fn spec_zoom_fixed(s: int) -> int
    decreases s,
{
    if s <= 0 {
        MIN_ZOOM_PERCENT as int * ZOOM_FIXED_ONE as int
    } else if (spec_zoom_fixed(s - 1) * ZOOM_GROWTH as int) / ZOOM_FIXED_ONE as int
        > ZOOM_FIXED_CAP as int {
        ZOOM_FIXED_CAP as int
    } else {
        (spec_zoom_fixed(s - 1) * ZOOM_GROWTH as int) / ZOOM_FIXED_ONE as int
    }
}

/// The fixed-point zoom values grow with the slider and stay in range.
pub proof fn lemma_zoom_fixed_bounds(s: int)
    requires
        s >= 0,
    ensures
        MIN_ZOOM_PERCENT as int * ZOOM_FIXED_ONE as int <= spec_zoom_fixed(s) <= ZOOM_FIXED_CAP as int,
        s > 0 ==> spec_zoom_fixed(s - 1) <= spec_zoom_fixed(s),
    decreases s,
{
    if s > 0 {
        lemma_zoom_fixed_bounds(s - 1);
        let prev = spec_zoom_fixed(s - 1);
        assert(prev * ZOOM_GROWTH as int >= prev * ZOOM_FIXED_ONE as int) by (nonlinear_arith)
            requires prev >= 0;
        assert((prev * ZOOM_GROWTH as int) / ZOOM_FIXED_ONE as int >= prev) by (nonlinear_arith)
            requires prev * ZOOM_GROWTH as int >= prev * ZOOM_FIXED_ONE as int, prev >= 0;
    }
}

/// The zoom percent shown for slider position `s`: the fixed-point value
/// rounded to the nearest percent and clamped into the zoom range.
pub open spec fn spec_zoom_percent_at(s: int) -> int {
    spec_clamp(
        (spec_zoom_fixed(s) + ZOOM_FIXED_ONE as int / 2) / ZOOM_FIXED_ONE as int,
        MIN_ZOOM_PERCENT as int,
        MAX_ZOOM_PERCENT as int,
    )
}

/// The fixed-point zoom value at slider position `s`.
fn zoom_fixed(s: u32) -> (r: u128)
    requires
        s <= ZOOM_SLIDER_STEPS,
    ensures
        r as int == spec_zoom_fixed(s as int),
{
    let mut v: u128 = MIN_ZOOM_PERCENT as u128 * ZOOM_FIXED_ONE;
    let mut i: u32 = 0;
    while i < s
        invariant
            i <= s <= ZOOM_SLIDER_STEPS,
            v as int == spec_zoom_fixed(i as int),
            v <= ZOOM_FIXED_CAP,
        decreases s - i,
    {
        proof {
            assert(v as int * ZOOM_GROWTH as int <= ZOOM_FIXED_CAP as int * ZOOM_GROWTH as int)
                by (nonlinear_arith)
                requires 0 <= v as int <= ZOOM_FIXED_CAP as int;
        }
        let grown: u128 = (v * ZOOM_GROWTH) / ZOOM_FIXED_ONE;
        v = if grown > ZOOM_FIXED_CAP {
            ZOOM_FIXED_CAP
        } else {
            grown
        };
        i += 1;
    }
    v
}

/// The zoom percent for a raw slider value, clamped into the slider range.
pub open spec fn spec_zoom_percent_from_slider(value: int) -> int {
    spec_zoom_percent_at(
        if value > ZOOM_SLIDER_STEPS as int {
            ZOOM_SLIDER_STEPS as int
        } else {
            value
        },
    )
}

/// Map a slider position back to the zoom percent it stands for.
pub fn zoom_percent_from_slider(value: u32) -> (r: u16)
    ensures
        r as int == spec_zoom_percent_from_slider(value as int),
        MIN_ZOOM_PERCENT <= r <= MAX_ZOOM_PERCENT,
{
    let s = if value > ZOOM_SLIDER_STEPS {
        ZOOM_SLIDER_STEPS
    } else {
        value
    };
    let v = zoom_fixed(s);
    proof {
        lemma_zoom_fixed_bounds(s as int);
    }
    let rounded: u128 = (v + ZOOM_FIXED_ONE / 2) / ZOOM_FIXED_ONE;
    if rounded < MIN_ZOOM_PERCENT as u128 {
        MIN_ZOOM_PERCENT
    } else if rounded > MAX_ZOOM_PERCENT as u128 {
        MAX_ZOOM_PERCENT
    } else {
        rounded as u16
    }
}

/// The distance between two percents.
pub open spec fn spec_dist(a: int, b: int) -> int {
    if a >= b {
        a - b
    } else {
        b - a
    }
}

/// The slider position in `[0, n]` whose zoom percent lies nearest to `z`,
/// earliest position winning ties.
pub open spec fn spec_best_slider(z: int, n: int) -> int
    decreases n,
{
    if n <= 0 {
        0
    } else {
        let b = spec_best_slider(z, n - 1);
        if spec_dist(spec_zoom_percent_at(n), z) < spec_dist(spec_zoom_percent_at(b), z) {
            n
        } else {
            b
        }
    }
}

/// The chosen slider position is in range and no other position is nearer.
pub proof fn lemma_best_slider(z: int, n: int)
    requires
        n >= 0,
    ensures
        0 <= spec_best_slider(z, n) <= n,
        forall|s: int|
            0 <= s <= n ==> spec_dist(spec_zoom_percent_at(spec_best_slider(z, n)), z) <= spec_dist(
                #[trigger] spec_zoom_percent_at(s),
                z,
            ),
    decreases n,
{
    if n > 0 {
        lemma_best_slider(z, n - 1);
    }
}

/// The slider value that stands for a zoom percent: the clamped percent's
/// nearest representable slider position.
pub open spec fn spec_zoom_slider_value_for_percent(zoom_percent: int) -> int {
    spec_best_slider(
        spec_clamp(zoom_percent, MIN_ZOOM_PERCENT as int, MAX_ZOOM_PERCENT as int),
        ZOOM_SLIDER_STEPS as int,
    )
}

/// Map a zoom percent to its slider position.
pub fn zoom_slider_value_for_percent(zoom_percent: u16) -> (r: u32)
    ensures
        r as int == spec_zoom_slider_value_for_percent(zoom_percent as int),
        r <= ZOOM_SLIDER_STEPS,
{
    let z: u16 = if zoom_percent < MIN_ZOOM_PERCENT {
        MIN_ZOOM_PERCENT
    } else if zoom_percent > MAX_ZOOM_PERCENT {
        MAX_ZOOM_PERCENT
    } else {
        zoom_percent
    };
    let mut best: u32 = 0;
    let mut best_pct: u16 = zoom_percent_from_slider(0);
    let mut s: u32 = 1;
    while s <= ZOOM_SLIDER_STEPS
        invariant
            1 <= s <= ZOOM_SLIDER_STEPS + 1,
            MIN_ZOOM_PERCENT <= z <= MAX_ZOOM_PERCENT,
            z as int == spec_clamp(
                zoom_percent as int,
                MIN_ZOOM_PERCENT as int,
                MAX_ZOOM_PERCENT as int,
            ),
            best as int == spec_best_slider(z as int, s as int - 1),
            best_pct as int == spec_zoom_percent_at(best as int),
            best < s,
        decreases ZOOM_SLIDER_STEPS + 1 - s,
    {
        let pct = zoom_percent_from_slider(s);
        let dist_here: u16 = if pct >= z {
            pct - z
        } else {
            z - pct
        };
        let dist_best: u16 = if best_pct >= z {
            best_pct - z
        } else {
            z - best_pct
        };
        if dist_here < dist_best {
            best = s;
            best_pct = pct;
        }
        s += 1;
    }
    best
}

/// Law: mapping a zoom percent to the slider and back yields the nearest
/// representable zoom percent — and the percent itself whenever some slider
/// position stands for it exactly.
pub proof fn lemma_zoom_slider_round_trip(z: int)
    requires
        MIN_ZOOM_PERCENT as int <= z <= MAX_ZOOM_PERCENT as int,
    ensures
        forall|s: int|
            0 <= s <= ZOOM_SLIDER_STEPS as int ==> spec_dist(
                spec_zoom_percent_at(spec_zoom_slider_value_for_percent(z)),
                z,
            ) <= spec_dist(#[trigger] spec_zoom_percent_at(s), z),
        (exists|s: int| 0 <= s <= ZOOM_SLIDER_STEPS as int && spec_zoom_percent_at(s) == z)
            ==> spec_zoom_percent_at(spec_zoom_slider_value_for_percent(z)) == z,
{
    lemma_best_slider(z, ZOOM_SLIDER_STEPS as int);
    if exists|s: int| 0 <= s <= ZOOM_SLIDER_STEPS as int && spec_zoom_percent_at(s) == z {
        let w = choose|s: int| 0 <= s <= ZOOM_SLIDER_STEPS as int && spec_zoom_percent_at(s) == z;
        assert(spec_dist(spec_zoom_percent_at(spec_zoom_slider_value_for_percent(z)), z)
            <= spec_dist(spec_zoom_percent_at(w), z));
    }
}

/// The zoom percent that fits `base` content into a viewport: the smaller
/// of the two axis ratios, rounded to the nearest percent and clamped.
pub open spec fn spec_fit_zoom_percent(vw: int, vh: int, bw: int, bh: int) -> int {
    let vw1 = if vw >= 1 {
        vw
    } else {
        1
    };
    let vh1 = if vh >= 1 {
        vh
    } else {
        1
    };
    let bw1 = if bw >= 1 {
        bw
    } else {
        1
    };
    let bh1 = if bh >= 1 {
        bh
    } else {
        1
    };
    let num = if vw1 * bh1 <= vh1 * bw1 {
        vw1
    } else {
        vh1
    };
    let den = if vw1 * bh1 <= vh1 * bw1 {
        bw1
    } else {
        bh1
    };
    spec_clamp((200 * num + den) / (2 * den), MIN_ZOOM_PERCENT as int, MAX_ZOOM_PERCENT as int)
}

pub fn fit_zoom_percent_for_extent(
    viewport_width: i32,
    viewport_height: i32,
    base_width: i32,
    base_height: i32,
) -> (r: u16)
    ensures
        r as int == spec_fit_zoom_percent(
            viewport_width as int,
            viewport_height as int,
            base_width as int,
            base_height as int,
        ),
        MIN_ZOOM_PERCENT <= r <= MAX_ZOOM_PERCENT,
{
    let vw: i64 = if viewport_width >= 1 {
        viewport_width as i64
    } else {
        1
    };
    let vh: i64 = if viewport_height >= 1 {
        viewport_height as i64
    } else {
        1
    };
    let bw: i64 = if base_width >= 1 {
        base_width as i64
    } else {
        1
    };
    let bh: i64 = if base_height >= 1 {
        base_height as i64
    } else {
        1
    };
    proof {
        assert(vw * bh <= i32::MAX as int * i32::MAX as int && vh * bw <= i32::MAX as int
            * i32::MAX as int && 0 <= vw * bh && 0 <= vh * bw) by (nonlinear_arith)
            requires 1 <= vw <= i32::MAX as int, 1 <= vh <= i32::MAX as int,
                1 <= bw <= i32::MAX as int, 1 <= bh <= i32::MAX as int;
    }
    let width_led = vw * bh <= vh * bw;
    let num: i64 = if width_led {
        vw
    } else {
        vh
    };
    let den: i64 = if width_led {
        bw
    } else {
        bh
    };
    let p: i64 = (200 * num + den) / (2 * den);
    if p < MIN_ZOOM_PERCENT as i64 {
        MIN_ZOOM_PERCENT
    } else if p > MAX_ZOOM_PERCENT as i64 {
        MAX_ZOOM_PERCENT
    } else {
        p as u16
    }
}

/// Content extent at a zoom level: the base extent scaled by the percent,
/// rounded to the nearest pixel, at least one pixel.
pub open spec fn spec_content_extent(base: int, zoom_percent: int) -> int {
    let b = if base >= 1 {
        base
    } else {
        1
    };
    let scaled = (2 * b * zoom_percent + 100) / 200;
    if scaled < 1 {
        1
    } else if scaled > i32::MAX as int {
        i32::MAX as int
    } else {
        scaled
    }
}

pub fn content_extent_for_zoom(base: i32, zoom_percent: u16) -> (r: i32)
    requires
        zoom_percent <= MAX_ZOOM_PERCENT,
    ensures
        r as int == spec_content_extent(base as int, zoom_percent as int),
        r >= 1,
{
    let b: i64 = if base >= 1 {
        base as i64
    } else {
        1
    };
    proof {
        assert(0 <= 2 * (b as int) * (zoom_percent as int) <= 2 * (i32::MAX as int) * 1600)
            by (nonlinear_arith)
            requires 1 <= b as int <= i32::MAX as int, 0 <= zoom_percent as int <= 1600;
    }
    let scaled: i64 = (2 * b * zoom_percent as i64 + 100) / 200;
    let r: i64 = if scaled < 1 {
        1
    } else if scaled > i32::MAX as i64 {
        i32::MAX as i64
    } else {
        scaled
    };
    r as i32
}

/// The scroll geometry of one axis: centering margins widened by a manual
/// overscroll of half the viewport, and the resulting scroll range. The
/// centered scroll position is `scroll_range / 2`, carried in doubled units
/// so the half stays exact.
pub struct AxisTrack {
    pub margin_start: i32,
    pub margin_end: i32,
    pub scroll_range: i32,
    pub centered_scroll_twice: i64,
}

/// Saturating `i32` value of an exact integer.
pub open spec fn spec_sat_i32(v: int) -> int {
    spec_clamp(v, i32::MIN as int, i32::MAX as int)
}

pub open spec fn spec_axis_track(viewport_extent: int, content_extent: int) -> (int, int, int) {
    let ve = if viewport_extent >= 1 {
        viewport_extent
    } else {
        1
    };
    let ce = if content_extent >= 1 {
        content_extent
    } else {
        1
    };
    let slack = if ve - ce >= 0 {
        ve - ce
    } else {
        0
    };
    let over = if ve / 2 >= 1 {
        ve / 2
    } else {
        1
    };
    let ms = spec_sat_i32(slack / 2 + over);
    let me = spec_sat_i32(slack - slack / 2 + over);
    let total = spec_sat_i32(spec_sat_i32(ce + ms) + me);
    let range = spec_sat_i32(total - ve);
    (ms, me, range)
}

pub fn axis_track(viewport_extent: i32, content_extent: i32) -> (r: AxisTrack)
    ensures
        ({
            let t = spec_axis_track(viewport_extent as int, content_extent as int);
            r.margin_start as int == t.0 && r.margin_end as int == t.1 && r.scroll_range as int
                == t.2 && r.centered_scroll_twice as int == t.2 && r.scroll_range >= 0
        }),
{
    let ve: i64 = if viewport_extent >= 1 {
        viewport_extent as i64
    } else {
        1
    };
    let ce: i64 = if content_extent >= 1 {
        content_extent as i64
    } else {
        1
    };
    let slack: i64 = if ve - ce >= 0 {
        ve - ce
    } else {
        0
    };
    let over: i64 = if ve / 2 >= 1 {
        ve / 2
    } else {
        1
    };
    let ms: i64 = sat_i32_i64(slack / 2 + over);
    let me: i64 = sat_i32_i64(slack - slack / 2 + over);
    let total: i64 = sat_i32_i64(sat_i32_i64(ce + ms) + me);
    let range: i64 = sat_i32_i64(total - ve);
    AxisTrack {
        margin_start: ms as i32,
        margin_end: me as i32,
        scroll_range: range as i32,
        centered_scroll_twice: range,
    }
}

fn sat_i32_i64(v: i64) -> (r: i64)
    ensures
        r as int == spec_sat_i32(v as int),
{
    if v < i32::MIN as i64 {
        i32::MIN as i64
    } else if v > i32::MAX as i64 {
        i32::MAX as i64
    } else {
        v
    }
}

/// One axis laid out for a requested pan: the scroll target (in doubled
/// units) clamped into the scroll range, and the effective pan derived back
/// from the clamped position so state never diverges from what is shown.
pub struct AxisLayout {
    pub margin_start: i32,
    pub margin_end: i32,
    pub scroll_range: i32,
    pub scroll_target_twice: i64,
    pub pan: i32,
}

/// Half of a doubled quantity, rounded half away from zero.
pub open spec fn spec_half_round(v: int) -> int {
    if v >= 0 {
        (v + 1) / 2
    } else {
        -((-v + 1) / 2)
    }
}

pub open spec fn spec_axis_layout_target(range: int, pan: int) -> int {
    spec_clamp(range + 2 * pan, 0, 2 * range)
}

pub fn axis_layout(viewport_extent: i32, content_extent: i32, pan: i32) -> (r: AxisLayout)
    ensures
        ({
            let t = spec_axis_track(viewport_extent as int, content_extent as int);
            let target = spec_axis_layout_target(t.2, pan as int);
            &&& r.margin_start as int == t.0
            &&& r.margin_end as int == t.1
            &&& r.scroll_range as int == t.2
            &&& r.scroll_target_twice as int == target
            &&& r.pan as int == spec_half_round(target - t.2)
            &&& 0 <= r.scroll_target_twice as int <= 2 * t.2
            &&& -t.2 <= 2 * pan as int <= t.2 ==> r.pan == pan
        }),
{
    let track = axis_track(viewport_extent, content_extent);
    let range: i64 = track.scroll_range as i64;
    let raw: i64 = range + 2 * pan as i64;
    let target: i64 = if raw < 0 {
        0
    } else if raw > 2 * range {
        2 * range
    } else {
        raw
    };
    let diff: i64 = target - range;
    let pan_out: i64 = if diff >= 0 {
        (diff + 1) / 2
    } else {
        -((-diff + 1) / 2)
    };
    AxisLayout {
        margin_start: track.margin_start,
        margin_end: track.margin_end,
        scroll_range: track.scroll_range,
        scroll_target_twice: target,
        pan: pan_out as i32,
    }
}

/// Where the screen anchor sits inside the content, as an exact fraction
/// `numerator / denominator` clamped into `[0, 1]`.
pub struct AnchorRatio {
    pub numerator: i64,
    pub denominator: i64,
}

impl AnchorRatio {
    pub open spec fn wf(self) -> bool {
        0 < self.denominator && 0 <= self.numerator <= self.denominator
    }
}

pub open spec fn spec_anchor_ratio_num(
    scroll_value_twice: int,
    anchor_in_viewport: int,
    margin_start: int,
    content_extent: int,
) -> int {
    let ce = if content_extent >= 1 {
        content_extent
    } else {
        1
    };
    let m = if margin_start >= 0 {
        margin_start
    } else {
        0
    };
    spec_clamp(scroll_value_twice + 2 * anchor_in_viewport - 2 * m, 0, 2 * ce)
}

/// The anchor's fractional position within the content before a zoom
/// change, from the current scroll position (in doubled units).
pub fn anchor_ratio_for_axis(
    scroll_value_twice: i64,
    anchor_in_viewport: i32,
    margin_start: i32,
    content_extent: i32,
) -> (r: AnchorRatio)
    requires
        -9223372036854775807int / 4 <= scroll_value_twice as int <= 9223372036854775807int / 4,
    ensures
        r.wf(),
        ({
            let ce = if content_extent as int >= 1 {
                content_extent as int
            } else {
                1
            };
            r.denominator == 2 * ce && r.numerator as int == spec_anchor_ratio_num(
                scroll_value_twice as int,
                anchor_in_viewport as int,
                margin_start as int,
                content_extent as int,
            )
        }),
{
    let ce: i64 = if content_extent >= 1 {
        content_extent as i64
    } else {
        1
    };
    let m: i64 = if margin_start >= 0 {
        margin_start as i64
    } else {
        0
    };
    let raw: i64 = scroll_value_twice + 2 * anchor_in_viewport as i64 - 2 * m;
    let num: i64 = if raw < 0 {
        0
    } else if raw > 2 * ce {
        2 * ce
    } else {
        raw
    };
    AnchorRatio { numerator: num, denominator: 2 * ce }
}

/// The pan that puts the anchored content fraction back under the same
/// screen anchor after the content extent changed.
pub open spec fn spec_pan_for_anchor(
    viewport_extent: int,
    content_extent: int,
    anchor_in_viewport: int,
    num: int,
    den: int,
) -> int {
    let ve = if viewport_extent >= 1 {
        viewport_extent
    } else {
        1
    };
    let ce = if content_extent >= 1 {
        content_extent
    } else {
        1
    };
    let a = spec_clamp(anchor_in_viewport, 0, ve);
    let t = spec_axis_track(viewport_extent, content_extent);
    let scaled = 2 * den;
    let desired = scaled * t.0 + 2 * num * ce - scaled * a;
    let clamped = spec_clamp(desired, 0, scaled * t.2);
    let diff = clamped - den * t.2;
    spec_sat_i32(
        if diff >= 0 {
            (2 * diff + scaled) / (2 * scaled)
        } else {
            -((-2 * diff + scaled) / (2 * scaled))
        },
    )
}

pub fn pan_for_anchor_axis(
    viewport_extent: i32,
    content_extent: i32,
    anchor_in_viewport: i32,
    ratio: AnchorRatio,
) -> (r: i32)
    requires
        ratio.wf(),
        ratio.denominator as int <= 9223372036854775807int / 8,
    ensures
        r as int == spec_pan_for_anchor(
            viewport_extent as int,
            content_extent as int,
            anchor_in_viewport as int,
            ratio.numerator as int,
            ratio.denominator as int,
        ),
{
    let num: i64 = ratio.numerator;
    let den: i64 = ratio.denominator;
    let ve: i64 = if viewport_extent >= 1 {
        viewport_extent as i64
    } else {
        1
    };
    let ce: i64 = if content_extent >= 1 {
        content_extent as i64
    } else {
        1
    };
    let a: i64 = if (anchor_in_viewport as i64) < 0 {
        0
    } else if anchor_in_viewport as i64 > ve {
        ve
    } else {
        anchor_in_viewport as i64
    };
    let track = axis_track(viewport_extent, content_extent);
    let range: i64 = track.scroll_range as i64;
    let ms: i64 = track.margin_start as i64;
    let scaled: i128 = 2 * den as i128;
    proof {
        let d = den as int;
        assert(0 <= 2 * d * (ms as int) <= 4 * 1152921504606846975int * 2147483647int)
            by (nonlinear_arith)
            requires 0 < d <= 1152921504606846975int, 0 <= ms as int <= 2147483647int;
        assert(0 <= 2 * (num as int) * (ce as int) <= 2 * 1152921504606846975int
            * 2147483647int) by (nonlinear_arith)
            requires 0 <= num as int <= 1152921504606846975int, 1 <= ce as int <= 2147483647int;
        assert(0 <= 2 * d * (a as int) <= 4 * 1152921504606846975int * 2147483647int)
            by (nonlinear_arith)
            requires 0 < d <= 1152921504606846975int, 0 <= a as int <= 2147483647int;
        assert(0 <= 2 * d * (range as int) <= 4 * 1152921504606846975int * 2147483647int)
            by (nonlinear_arith)
            requires 0 < d <= 1152921504606846975int, 0 <= range as int <= 2147483647int;
        assert(0 <= d * (range as int) <= 2 * 1152921504606846975int * 2147483647int)
            by (nonlinear_arith)
            requires 0 < d <= 1152921504606846975int, 0 <= range as int <= 2147483647int;
    }
    let desired: i128 = scaled * ms as i128 + 2 * (num as i128) * (ce as i128) - scaled
        * a as i128;
    let hi: i128 = scaled * range as i128;
    let clamped: i128 = if desired < 0 {
        0
    } else if desired > hi {
        hi
    } else {
        desired
    };
    let diff: i128 = clamped - (den as i128) * (range as i128);
    proof {
        assert(hi as int == 2 * ((den as int) * (range as int))) by (nonlinear_arith)
            requires scaled as int == 2 * (den as int), hi as int == (scaled as int) * (
                range as int);
        assert(-(2 * 1152921504606846975int * 2147483647int) <= diff as int <= 4
            * 1152921504606846975int * 2147483647int);
    }
    let pan: i128 = if diff >= 0 {
        (2 * diff + scaled) / (2 * scaled)
    } else {
        -((-2 * diff + scaled) / (2 * scaled))
    };
    let bounded: i128 = if pan < i32::MIN as i128 {
        i32::MIN as i128
    } else if pan > i32::MAX as i128 {
        i32::MAX as i128
    } else {
        pan
    };
    bounded as i32
}

/// The current zoom and pan of the editor viewport.
#[derive(Clone, Copy, Debug, PartialEq, Eq, Structural)]
pub struct EditorViewport {
    pub zoom_percent: u16,
    pub pan_x: i32,
    pub pan_y: i32,
}

impl EditorViewport {
    /// The zoom stays within the supported range.
    pub open spec fn wf(self) -> bool {
        MIN_ZOOM_PERCENT <= self.zoom_percent <= MAX_ZOOM_PERCENT
    }

    pub fn new() -> (r: Self)
        ensures
            r.zoom_percent == 100 && r.pan_x == 0 && r.pan_y == 0,
            r.wf(),
    {
        EditorViewport { zoom_percent: 100, pan_x: 0, pan_y: 0 }
    }

    pub fn min_zoom_percent() -> (r: u16)
        ensures
            r == MIN_ZOOM_PERCENT,
    {
        MIN_ZOOM_PERCENT
    }

    pub fn max_zoom_percent() -> (r: u16)
        ensures
            r == MAX_ZOOM_PERCENT,
    {
        MAX_ZOOM_PERCENT
    }

    pub fn zoom_percent(&self) -> (r: u16)
        ensures
            r == self.zoom_percent,
    {
        self.zoom_percent
    }

    pub fn pan_x(&self) -> (r: i32)
        ensures
            r == self.pan_x,
    {
        self.pan_x
    }

    pub fn pan_y(&self) -> (r: i32)
        ensures
            r == self.pan_y,
    {
        self.pan_y
    }

    pub fn set_pan(&mut self, pan_x: i32, pan_y: i32)
        ensures
            *final(self) == (EditorViewport { pan_x, pan_y, ..*old(self) }),
    {
        self.pan_x = pan_x;
        self.pan_y = pan_y;
    }

    pub fn set_zoom_percent(&mut self, zoom_percent: u16)
        ensures
            *final(self) == (EditorViewport {
                zoom_percent: spec_clamp(
                    zoom_percent as int,
                    MIN_ZOOM_PERCENT as int,
                    MAX_ZOOM_PERCENT as int,
                ) as u16,
                ..*old(self)
            }),
            final(self).wf(),
    {
        self.zoom_percent = if zoom_percent < MIN_ZOOM_PERCENT {
            MIN_ZOOM_PERCENT
        } else if zoom_percent > MAX_ZOOM_PERCENT {
            MAX_ZOOM_PERCENT
        } else {
            zoom_percent
        };
    }

    /// One zoom step in: a quarter more, at least one percent, capped.
    pub fn zoom_in(&mut self)
        requires
            old(self).wf(),
        ensures
            final(self).wf(),
            *final(self) == (EditorViewport {
                zoom_percent: final(self).zoom_percent,
                ..*old(self)
            }),
            final(self).zoom_percent as int == ({
                let grown = (old(self).zoom_percent as int * 5) / 4;
                let stepped = if grown >= old(self).zoom_percent as int + 1 {
                    grown
                } else {
                    old(self).zoom_percent as int + 1
                };
                if stepped > MAX_ZOOM_PERCENT as int {
                    MAX_ZOOM_PERCENT as int
                } else {
                    stepped
                }
            }),
    {
        let grown: u32 = (self.zoom_percent as u32 * 5) / 4;
        let stepped: u32 = if grown >= self.zoom_percent as u32 + 1 {
            grown
        } else {
            self.zoom_percent as u32 + 1
        };
        self.zoom_percent = if stepped > MAX_ZOOM_PERCENT as u32 {
            MAX_ZOOM_PERCENT
        } else {
            stepped as u16
        };
    }

    /// One zoom step out: a fifth less, at least one percent, floored.
    pub fn zoom_out(&mut self)
        requires
            old(self).wf(),
        ensures
            final(self).wf(),
            *final(self) == (EditorViewport {
                zoom_percent: final(self).zoom_percent,
                ..*old(self)
            }),
            final(self).zoom_percent as int == ({
                let shrunk = (old(self).zoom_percent as int * 4) / 5;
                let stepped = if shrunk <= old(self).zoom_percent as int - 1 {
                    shrunk
                } else {
                    old(self).zoom_percent as int - 1
                };
                if stepped < MIN_ZOOM_PERCENT as int {
                    MIN_ZOOM_PERCENT as int
                } else {
                    stepped
                }
            }),
    {
        let shrunk: u32 = (self.zoom_percent as u32 * 4) / 5;
        let stepped: u32 = if shrunk + 1 <= self.zoom_percent as u32 {
            shrunk
        } else {
            self.zoom_percent as u32 - 1
        };
        self.zoom_percent = if stepped < MIN_ZOOM_PERCENT as u32 {
            MIN_ZOOM_PERCENT
        } else {
            stepped as u16
        };
    }

    /// Back to one-to-one pixels.
    pub fn set_actual_size(&mut self)
        ensures
            *final(self) == (EditorViewport { zoom_percent: 100u16, ..*old(self) }),
            final(self).wf(),
    {
        self.zoom_percent = 100;
    }
}

/// What the anchor-preserving zoom helper reads from the user interface:
/// the viewport extent, the content extent and scroll state before the
/// change, and the screen anchor point (scroll positions in doubled units).
pub struct AnchorContext {
    pub viewport_width: i32,
    pub viewport_height: i32,
    pub base_width: i32,
    pub base_height: i32,
    pub content_width: i32,
    pub content_height: i32,
    pub hscroll_twice: i64,
    pub vscroll_twice: i64,
    pub margin_left: i32,
    pub margin_top: i32,
    pub anchor_x: i32,
    pub anchor_y: i32,
}

impl AnchorContext {
    pub open spec fn wf(self) -> bool {
        &&& -9223372036854775807int / 4 <= self.hscroll_twice as int <= 9223372036854775807int / 4
        &&& -9223372036854775807int / 4 <= self.vscroll_twice as int <= 9223372036854775807int / 4
    }
}

/// Change the zoom while keeping the chosen screen anchor over the same
/// content point: the anchor's content fraction is computed before the zoom
/// changes, and the pan that restores it is solved afterwards, as one unit.
pub fn apply_zoom_with_anchor(viewport: &mut EditorViewport, zoom_percent: u16, ctx: AnchorContext)
    requires
        old(viewport).wf(),
        ctx.wf(),
    ensures
        final(viewport).wf(),
        final(viewport).zoom_percent as int == spec_clamp(
            zoom_percent as int,
            MIN_ZOOM_PERCENT as int,
            MAX_ZOOM_PERCENT as int,
        ),
        ({
            let rx = spec_anchor_ratio_num(
                ctx.hscroll_twice as int,
                ctx.anchor_x as int,
                ctx.margin_left as int,
                ctx.content_width as int,
            );
            let ry = spec_anchor_ratio_num(
                ctx.vscroll_twice as int,
                ctx.anchor_y as int,
                ctx.margin_top as int,
                ctx.content_height as int,
            );
            let cwx = if ctx.content_width as int >= 1 {
                ctx.content_width as int
            } else {
                1
            };
            let chy = if ctx.content_height as int >= 1 {
                ctx.content_height as int
            } else {
                1
            };
            let next_w = spec_content_extent(
                ctx.base_width as int,
                final(viewport).zoom_percent as int,
            );
            let next_h = spec_content_extent(
                ctx.base_height as int,
                final(viewport).zoom_percent as int,
            );
            &&& final(viewport).pan_x as int == spec_pan_for_anchor(
                ctx.viewport_width as int,
                next_w,
                ctx.anchor_x as int,
                rx,
                2 * cwx,
            )
            &&& final(viewport).pan_y as int == spec_pan_for_anchor(
                ctx.viewport_height as int,
                next_h,
                ctx.anchor_y as int,
                ry,
                2 * chy,
            )
        }),
{
    let ratio_x = anchor_ratio_for_axis(
        ctx.hscroll_twice,
        ctx.anchor_x,
        ctx.margin_left,
        ctx.content_width,
    );
    let ratio_y = anchor_ratio_for_axis(
        ctx.vscroll_twice,
        ctx.anchor_y,
        ctx.margin_top,
        ctx.content_height,
    );
    viewport.set_zoom_percent(zoom_percent);
    let next_width = content_extent_for_zoom(ctx.base_width, viewport.zoom_percent());
    let next_height = content_extent_for_zoom(ctx.base_height, viewport.zoom_percent());
    let pan_x = pan_for_anchor_axis(ctx.viewport_width, next_width, ctx.anchor_x, ratio_x);
    let pan_y = pan_for_anchor_axis(ctx.viewport_height, next_height, ctx.anchor_y, ratio_y);
    viewport.set_pan(pan_x, pan_y);
}

} // verus!
