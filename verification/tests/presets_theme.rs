use chalkak::adaptive::{
    adaptive_stroke_size_for_image_with_presets, adaptive_text_size_for_image_with_presets,
    stroke_color_palette_for_theme, EditorToolOptionPresets, StrokeColorPreset,
};
use chalkak::style::{default_color_tokens, tokens_for};
use chalkak::theme::{
    editor_theme_overrides_from, parse_hex_rgb, resolve_color_tokens, ColorOverrides,
    EditorDefaults, ThemeColors, ThemeMode,
};

#[test]
fn stroke_color_palette_differs_between_light_and_dark_modes() {
    let light = stroke_color_palette_for_theme(ThemeMode::Light);
    let dark = stroke_color_palette_for_theme(ThemeMode::Dark);

    assert_ne!(light.default_color(), dark.default_color());
    let light_rgbs: Vec<_> = light.presets().iter().map(|p| p.rgb()).collect();
    let dark_rgbs: Vec<_> = dark.presets().iter().map(|p| p.rgb()).collect();
    assert_ne!(light_rgbs, dark_rgbs);
}

#[test]
fn stroke_color_palette_round_trips_index_and_color() {
    let palette = stroke_color_palette_for_theme(ThemeMode::Dark);
    for (index, preset) in palette.presets().iter().enumerate() {
        assert_eq!(palette.color_for_index(index), Some(preset.rgb()));
        assert_eq!(
            palette
                .presets()
                .iter()
                .position(|candidate| candidate.rgb() == preset.rgb()),
            Some(index)
        );
    }
}

#[test]
fn stroke_color_palette_maps_system_to_dark_palette() {
    let system = stroke_color_palette_for_theme(ThemeMode::System);
    let dark = stroke_color_palette_for_theme(ThemeMode::Dark);

    assert_eq!(system.default_color(), dark.default_color());
    let system_rgbs: Vec<_> = system.presets().iter().map(|p| p.rgb()).collect();
    let dark_rgbs: Vec<_> = dark.presets().iter().map(|p| p.rgb()).collect();
    assert_eq!(system_rgbs, dark_rgbs);
}

#[test]
fn editor_tool_option_presets_apply_overrides() {
    let presets = EditorToolOptionPresets::with_overrides(
        ThemeMode::Light,
        Some(vec![
            StrokeColorPreset::new("#111111", 0x11, 0x11, 0x11),
            StrokeColorPreset::new("#223344", 0x22, 0x33, 0x44),
        ]),
        Some(vec![2, 6, 10]),
        Some(vec![14, 18, 28]),
    );

    assert_eq!(presets.stroke_color_palette().presets().len(), 2);
    assert_eq!(
        presets.stroke_color_palette().default_color(),
        (0x11, 0x11, 0x11)
    );
    assert_eq!(*presets.stroke_width_presets(), [2, 6, 10]);
    assert_eq!(*presets.adaptive_stroke_width_presets(), [2, 6, 10]);
    assert_eq!(*presets.text_size_presets(), [14, 18, 28]);
}

#[test]
fn default_stroke_adaptive_presets_keep_legacy_scale_ladder() {
    let presets = EditorToolOptionPresets::defaults_for_theme(ThemeMode::Dark);
    assert_eq!(*presets.stroke_width_presets(), [4, 8, 12]);
    assert_eq!(*presets.adaptive_stroke_width_presets(), [2, 3, 4, 6, 8, 12]);
    assert_eq!(
        adaptive_stroke_size_for_image_with_presets(
            1920,
            1080,
            presets.adaptive_stroke_width_presets()
        ),
        3
    );
}

#[test]
fn adaptive_text_size_grows_with_the_image() {
    let presets = EditorToolOptionPresets::defaults_for_theme(ThemeMode::Dark);
    assert_eq!(
        adaptive_text_size_for_image_with_presets(1920, 1080, presets.text_size_presets()),
        16
    );
    assert_eq!(
        adaptive_text_size_for_image_with_presets(3840, 2160, presets.text_size_presets()),
        32
    );
}

#[test]
fn parse_hex_rgb_accepts_hash_or_plain_six_digit_hex() {
    assert_eq!(parse_hex_rgb("#12ab34"), Some((0x12, 0xab, 0x34)));
    assert_eq!(parse_hex_rgb("12AB34"), Some((0x12, 0xab, 0x34)));
}

#[test]
fn parse_hex_rgb_rejects_invalid_values() {
    assert_eq!(parse_hex_rgb("#fff"), None);
    assert_eq!(parse_hex_rgb("#zzzzzz"), None);
    assert_eq!(parse_hex_rgb(""), None);
}

#[test]
fn editor_theme_overrides_parse_default_tool_color() {
    let defaults = EditorDefaults {
        default_tool_color: Some("#101112".to_string()),
        ..Default::default()
    };

    let overrides = editor_theme_overrides_from(&defaults);

    assert_eq!(overrides.default_tool_color, Some((0x10, 0x11, 0x12)));
}

#[test]
fn resolve_color_tokens_applies_overrides() {
    let overrides = ThemeColors {
        dark: ColorOverrides {
            canvas_background: Some("#000000".into()),
            ..Default::default()
        },
        light: ColorOverrides {
            text_color: Some("#FFFFFF".into()),
            ..Default::default()
        },
    };

    let dark = resolve_color_tokens(ThemeMode::Dark, Some(&overrides));
    assert_eq!(dark.canvas_background, "#000000");
    assert_eq!(dark.text_color, "#E4E4E7");
    assert_eq!(dark.accent_text_color, "#09090B");

    let light = resolve_color_tokens(ThemeMode::Light, Some(&overrides));
    assert_eq!(light.text_color, "#FFFFFF");
    assert_eq!(light.canvas_background, "#FAFAFA");
    assert_eq!(light.accent_text_color, "#FFFFFF");
}

#[test]
fn resolve_color_tokens_without_overrides_returns_defaults() {
    let dark = resolve_color_tokens(ThemeMode::Dark, None);
    assert_eq!(dark.canvas_background, "#09090B");

    let light = resolve_color_tokens(ThemeMode::Light, None);
    assert_eq!(light.canvas_background, "#FAFAFA");
}

#[test]
fn resolve_color_tokens_applies_all_override_fields() {
    let overrides = ThemeColors {
        dark: ColorOverrides {
            focus_ring_color: Some("#AAAAAA".into()),
            focus_ring_glow: Some("rgba(1, 2, 3, 0.4)".into()),
            border_color: Some("rgba(4, 5, 6, 0.5)".into()),
            panel_background: Some("rgba(7, 8, 9, 0.6)".into()),
            canvas_background: Some("#101112".into()),
            text_color: Some("#131415".into()),
            accent_gradient: Some("linear-gradient(135deg, #161718 0%, #191A1B 100%)".into()),
            accent_text_color: Some("#1C1D1E".into()),
        },
        light: ColorOverrides::default(),
    };

    let resolved = resolve_color_tokens(ThemeMode::Dark, Some(&overrides));
    assert_eq!(resolved.focus_ring_color, "#AAAAAA");
    assert_eq!(resolved.focus_ring_glow, "rgba(1, 2, 3, 0.4)");
    assert_eq!(resolved.border_color, "rgba(4, 5, 6, 0.5)");
    assert_eq!(resolved.panel_background, "rgba(7, 8, 9, 0.6)");
    assert_eq!(resolved.canvas_background, "#101112");
    assert_eq!(resolved.text_color, "#131415");
    assert_eq!(
        resolved.accent_gradient,
        "linear-gradient(135deg, #161718 0%, #191A1B 100%)"
    );
    assert_eq!(resolved.accent_text_color, "#1C1D1E");
}

#[test]
fn color_tokens_have_accent_gradient() {
    assert!(default_color_tokens(ThemeMode::Light)
        .accent_gradient
        .contains("linear-gradient"));
    assert!(default_color_tokens(ThemeMode::Dark)
        .accent_gradient
        .contains("linear-gradient"));
}

#[test]
fn layout_tokens_keep_required_control_size() {
    assert_eq!(tokens_for(ThemeMode::Light, None).0.control_size, 40);
    assert_eq!(tokens_for(ThemeMode::Dark, None).0.control_size, 40);
    assert_eq!(tokens_for(ThemeMode::System, None).0.control_size, 40);
}

#[test]
fn layout_tokens_match_component_spec_dimensions() {
    let tokens = tokens_for(ThemeMode::Light, None).0;
    assert_eq!(tokens.preview_min_width, 360);
    assert_eq!(tokens.preview_min_height, 220);
    assert_eq!(tokens.preview_default_width, 840);
    assert_eq!(tokens.preview_default_height, 472);
    assert_eq!(tokens.editor_initial_width, 1280);
    assert_eq!(tokens.editor_initial_height, 800);
    assert_eq!(tokens.editor_min_width, 750);
    assert_eq!(tokens.editor_min_height, 422);
    assert_eq!(tokens.editor_toolbar_width, 68);
}

#[test]
fn layout_tokens_match_component_spec_motion_tokens() {
    let tokens = tokens_for(ThemeMode::Dark, None).0;
    assert_eq!(tokens.motion_standard_ms, 220);
    assert_eq!(tokens.motion_hover_ms, 160);
    assert_eq!(tokens.toast_duration_ms, 2_000);
}

#[test]
fn mumyeong_dark_uses_oma_palette() {
    let colors = default_color_tokens(ThemeMode::Dark);
    assert_eq!(colors.canvas_background, "#09090B");
    assert_eq!(colors.text_color, "#E4E4E7");
    assert_eq!(colors.focus_ring_color, "#F4F4F5");
    assert_eq!(colors.accent_text_color, "#09090B");
}

#[test]
fn mumyeong_light_uses_bright_mist_palette() {
    let colors = default_color_tokens(ThemeMode::Light);
    assert_eq!(colors.canvas_background, "#FAFAFA");
    assert_eq!(colors.text_color, "#09090B");
    assert_eq!(colors.focus_ring_color, "#18181B");
    assert_eq!(colors.accent_text_color, "#FFFFFF");
}
