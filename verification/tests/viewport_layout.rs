use chalkak::placement::{
    compute_preview_placement, PreviewBounds, PreviewSizingTokens, PreviewSourceArea,
    PreviewWindowGeometry,
};
use chalkak::viewport::{
    apply_zoom_with_anchor, axis_layout, fit_zoom_percent_for_extent, pan_for_anchor_axis,
    zoom_percent_from_slider, zoom_slider_value_for_percent, AnchorContext, AnchorRatio,
    EditorViewport, MAX_ZOOM_PERCENT, MIN_ZOOM_PERCENT, ZOOM_SLIDER_STEPS,
};

#[test]
fn fit_zoom_percent_for_extent_uses_smallest_axis_ratio() {
    assert_eq!(fit_zoom_percent_for_extent(800, 600, 1600, 1200), 50);
    assert_eq!(fit_zoom_percent_for_extent(400, 1200, 1600, 900), 25);
}

#[test]
fn fit_zoom_percent_matches_the_full_hd_scenario() {
    // A 1920x1080 image in an 800x600 viewport: min(800/1920, 600/1080)
    // is 800/1920, and 100 * 800 / 1920 rounds to 42.
    assert_eq!(fit_zoom_percent_for_extent(800, 600, 1920, 1080), 42);
}

#[test]
fn axis_layout_for_scrollable_content_allows_manual_overscroll() {
    let centered = axis_layout(100, 200, 0);
    assert_eq!(centered.margin_start, 50);
    assert_eq!(centered.margin_end, 50);
    assert_eq!(centered.scroll_target_twice, 200);
    assert_eq!(centered.scroll_range, 200);
    assert_eq!(centered.pan, 0);

    let right = axis_layout(100, 200, 40);
    assert_eq!(right.scroll_target_twice, 280);
    assert_eq!(right.pan, 40);

    let clamped = axis_layout(100, 200, 10_000);
    assert_eq!(clamped.scroll_target_twice, 400);
    assert_eq!(clamped.pan, 100);
}

#[test]
fn axis_layout_for_non_scrollable_content_uses_scroll_track() {
    let layout = axis_layout(200, 100, 24);
    assert_eq!(layout.margin_start, 150);
    assert_eq!(layout.margin_end, 150);
    assert_eq!(layout.pan, 24);
    assert_eq!(layout.scroll_target_twice, 248);
}

#[test]
fn pan_for_anchor_axis_keeps_anchor_for_scrollable_content() {
    let centered = AnchorRatio { numerator: 1, denominator: 2 };
    assert_eq!(pan_for_anchor_axis(100, 200, 50, centered), 0);
    let lower = AnchorRatio { numerator: 3, denominator: 4 };
    assert_eq!(pan_for_anchor_axis(100, 200, 50, lower), 50);
}

#[test]
fn pan_for_anchor_axis_keeps_anchor_for_non_scrollable_content() {
    let centered = AnchorRatio { numerator: 1, denominator: 2 };
    assert_eq!(pan_for_anchor_axis(200, 100, 100, centered), 0);
    let centered_again = AnchorRatio { numerator: 1, denominator: 2 };
    assert_eq!(pan_for_anchor_axis(200, 100, 150, centered_again), -50);
}

#[test]
fn zoom_slider_round_trips_representable_percents() {
    for slider in [0u32, 100, 250, 500, 750, 999, 1000] {
        let percent = zoom_percent_from_slider(slider);
        let back = zoom_slider_value_for_percent(percent);
        assert_eq!(zoom_percent_from_slider(back), percent);
    }
    assert_eq!(zoom_percent_from_slider(0), MIN_ZOOM_PERCENT);
    assert_eq!(zoom_percent_from_slider(ZOOM_SLIDER_STEPS), MAX_ZOOM_PERCENT);
    assert_eq!(zoom_percent_from_slider(ZOOM_SLIDER_STEPS + 50), MAX_ZOOM_PERCENT);
}

#[test]
fn zoom_slider_maps_sample_percents_to_nearby_zooms() {
    for z in [10u16, 11, 20, 42, 100, 250, 400, 800, 1600] {
        let slider = zoom_slider_value_for_percent(z);
        assert!(slider <= ZOOM_SLIDER_STEPS);
        let back = zoom_percent_from_slider(slider);
        let err = if back >= z { back - z } else { z - back };
        // The slider is logarithmic, so the nearest representable zoom sits
        // within about half a percent of the requested value.
        assert!(u32::from(err) * 150 <= u32::from(z) * 2 + 300);
    }
    assert_eq!(zoom_percent_from_slider(zoom_slider_value_for_percent(10)), 10);
    assert_eq!(zoom_percent_from_slider(zoom_slider_value_for_percent(1600)), 1600);
}

#[test]
fn viewport_zoom_steps_stay_in_range() {
    let mut vp = EditorViewport::new();
    assert_eq!(vp.zoom_percent(), 100);
    vp.zoom_in();
    assert_eq!(vp.zoom_percent(), 125);
    vp.zoom_out();
    assert_eq!(vp.zoom_percent(), 100);

    vp.set_zoom_percent(5);
    assert_eq!(vp.zoom_percent(), MIN_ZOOM_PERCENT);
    vp.zoom_out();
    assert_eq!(vp.zoom_percent(), MIN_ZOOM_PERCENT);

    vp.set_zoom_percent(60000);
    assert_eq!(vp.zoom_percent(), MAX_ZOOM_PERCENT);
    vp.zoom_in();
    assert_eq!(vp.zoom_percent(), MAX_ZOOM_PERCENT);

    vp.set_pan(7, -3);
    assert_eq!(vp.pan_x(), 7);
    assert_eq!(vp.pan_y(), -3);
    vp.set_actual_size();
    assert_eq!(vp.zoom_percent(), 100);
    assert_eq!(EditorViewport::min_zoom_percent(), MIN_ZOOM_PERCENT);
    assert_eq!(EditorViewport::max_zoom_percent(), MAX_ZOOM_PERCENT);
}

#[test]
fn anchor_preserving_zoom_keeps_a_centered_anchor_centered() {
    let mut vp = EditorViewport::new();
    // Content fills a centered 1000-pixel viewport; the anchor sits at its
    // middle, so doubling the zoom should keep the pan centered.
    let ctx = AnchorContext {
        viewport_width: 1000,
        viewport_height: 800,
        base_width: 1000,
        base_height: 800,
        content_width: 1000,
        content_height: 800,
        hscroll_twice: 1000,
        vscroll_twice: 800,
        margin_left: 500,
        margin_top: 400,
        anchor_x: 500,
        anchor_y: 400,
    };
    apply_zoom_with_anchor(&mut vp, 200, ctx);
    assert_eq!(vp.zoom_percent(), 200);
    assert_eq!(vp.pan_x(), 0);
    assert_eq!(vp.pan_y(), 0);
}

#[test]
fn compute_preview_placement_downscales_large_capture_with_center_anchor() {
    let placement = compute_preview_placement(
        PreviewSourceArea {
            x: 0,
            y: 0,
            width: 3840,
            height: 2160,
        },
        PreviewBounds {
            x: 0,
            y: 0,
            width: 3840,
            height: 2160,
        },
        PreviewSizingTokens::default(),
    );

    assert_eq!(placement.geometry.width, 1678);
    assert_eq!(placement.geometry.height, 944);
    assert_eq!(placement.geometry.x, 1081);
    assert_eq!(placement.geometry.y, 608);
    assert_eq!(placement.min_width, 360);
    assert_eq!(placement.min_height, 220);
}

#[test]
fn compute_preview_placement_upscales_tiny_capture_to_minimum_policy() {
    let placement = compute_preview_placement(
        PreviewSourceArea {
            x: 100,
            y: 120,
            width: 80,
            height: 40,
        },
        PreviewBounds {
            x: 0,
            y: 0,
            width: 1920,
            height: 1080,
        },
        PreviewSizingTokens::default(),
    );

    assert_eq!(placement.geometry.width, 440);
    assert_eq!(placement.geometry.height, 220);
    assert_eq!(placement.geometry.x, 0);
    assert_eq!(placement.geometry.y, 30);
    assert_eq!(placement.min_width, 360);
    assert_eq!(placement.min_height, 220);
}

#[test]
fn compute_preview_placement_preserves_source_size_when_already_reasonable() {
    let placement = compute_preview_placement(
        PreviewSourceArea {
            x: 200,
            y: 100,
            width: 640,
            height: 360,
        },
        PreviewBounds {
            x: 0,
            y: 0,
            width: 1920,
            height: 1080,
        },
        PreviewSizingTokens::default(),
    );

    assert_eq!(
        placement.geometry,
        PreviewWindowGeometry {
            x: 200,
            y: 100,
            width: 640,
            height: 360,
        }
    );
}

#[test]
fn compute_preview_placement_clamps_position_to_bounds_when_near_edges() {
    let placement = compute_preview_placement(
        PreviewSourceArea {
            x: 1700,
            y: 900,
            width: 500,
            height: 300,
        },
        PreviewBounds {
            x: 0,
            y: 0,
            width: 1920,
            height: 1080,
        },
        PreviewSizingTokens::default(),
    );

    assert_eq!(placement.geometry.width, 500);
    assert_eq!(placement.geometry.height, 300);
    assert_eq!(placement.geometry.x, 1420);
    assert_eq!(placement.geometry.y, 780);
}

#[test]
fn compute_preview_placement_relaxes_minimum_on_very_small_bounds() {
    let placement = compute_preview_placement(
        PreviewSourceArea {
            x: 10,
            y: 10,
            width: 80,
            height: 40,
        },
        PreviewBounds {
            x: 0,
            y: 0,
            width: 300,
            height: 180,
        },
        PreviewSizingTokens::default(),
    );

    assert_eq!(placement.min_width, 300);
    assert_eq!(placement.min_height, 180);
    assert_eq!(placement.geometry.width, 300);
    assert_eq!(placement.geometry.height, 180);
    assert_eq!(placement.geometry.x, 0);
    assert_eq!(placement.geometry.y, 0);
}
