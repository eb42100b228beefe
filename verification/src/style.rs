//! User-interface style tokens: fixed layout metrics and per-theme color
//! values, overridable from the theme configuration.

use vstd::prelude::*;
use vstd::string::StrSliceExecFns;

verus! {

/// Runtime color tokens, as CSS-style value strings.
#[derive(Debug, Clone)]
pub struct ColorTokens {
    pub focus_ring_color: String,
    pub focus_ring_glow: String,
    pub border_color: String,
    pub panel_background: String,
    pub canvas_background: String,
    pub text_color: String,
    pub accent_gradient: String,
    pub accent_text_color: String,
}

/// Fixed layout tokens.
#[derive(Clone, Copy, Debug, PartialEq, Eq, Structural)]
pub struct StyleTokens {
    pub spacing_4: i32,
    pub spacing_8: i32,
    pub spacing_12: i32,
    pub spacing_16: i32,
    pub spacing_20: i32,
    pub spacing_24: i32,
    pub card_radius: u16,
    pub panel_radius: u16,
    pub control_radius: u16,
    pub control_size: u16,
    pub icon_size: u16,
    pub border_width: u16,
    pub preview_default_width: i32,
    pub preview_default_height: i32,
    pub preview_min_width: i32,
    pub preview_min_height: i32,
    pub editor_initial_width: i32,
    pub editor_initial_height: i32,
    pub editor_min_width: i32,
    pub editor_min_height: i32,
    pub editor_toolbar_width: i32,
    pub motion_standard_ms: u32,
    pub motion_hover_ms: u32,
    pub toast_duration_ms: u32,
}

/// The one fixed layout-token set of the user interface.
pub open spec fn spec_layout_tokens() -> StyleTokens {
    StyleTokens {
        spacing_4: 4,
        spacing_8: 8,
        spacing_12: 12,
        spacing_16: 16,
        spacing_20: 20,
        spacing_24: 24,
        card_radius: 14,
        panel_radius: 18,
        control_radius: 12,
        control_size: 40,
        icon_size: 18,
        border_width: 1,
        preview_default_width: 840,
        preview_default_height: 472,
        preview_min_width: 360,
        preview_min_height: 220,
        editor_initial_width: 1280,
        editor_initial_height: 800,
        editor_min_width: 750,
        editor_min_height: 422,
        editor_toolbar_width: 68,
        motion_standard_ms: 220,
        motion_hover_ms: 160,
        toast_duration_ms: 2000,
    }
}

pub fn layout_tokens() -> (r: StyleTokens)
    ensures
        r == spec_layout_tokens(),
{
    StyleTokens {
        spacing_4: 4,
        spacing_8: 8,
        spacing_12: 12,
        spacing_16: 16,
        spacing_20: 20,
        spacing_24: 24,
        card_radius: 14,
        panel_radius: 18,
        control_radius: 12,
        control_size: 40,
        icon_size: 18,
        border_width: 1,
        preview_default_width: 840,
        preview_default_height: 472,
        preview_min_width: 360,
        preview_min_height: 220,
        editor_initial_width: 1280,
        editor_initial_height: 800,
        editor_min_width: 750,
        editor_min_height: 422,
        editor_toolbar_width: 68,
        motion_standard_ms: 220,
        motion_hover_ms: 160,
        toast_duration_ms: 2000,
    }
}

/// Whether `r` holds the light ("bright mist") palette.
pub open spec fn spec_is_light_colors(r: ColorTokens) -> bool {
    &&& r.canvas_background@ == "#FAFAFA"@
    &&& r.panel_background@ == "rgba(255, 255, 255, 0.88)"@
    &&& r.border_color@ == "rgba(9, 9, 11, 0.08)"@
    &&& r.text_color@ == "#09090B"@
    &&& r.focus_ring_color@ == "#18181B"@
    &&& r.focus_ring_glow@ == "rgba(24, 24, 27, 0.15)"@
    &&& r.accent_gradient@ == "linear-gradient(135deg, #71717A 0%, #27272A 100%)"@
    &&& r.accent_text_color@ == "#FFFFFF"@
}

/// Whether `r` holds the dark palette.
pub open spec fn spec_is_dark_colors(r: ColorTokens) -> bool {
    &&& r.canvas_background@ == "#09090B"@
    &&& r.panel_background@ == "rgba(24, 24, 27, 0.88)"@
    &&& r.border_color@ == "rgba(113, 113, 122, 0.25)"@
    &&& r.text_color@ == "#E4E4E7"@
    &&& r.focus_ring_color@ == "#F4F4F5"@
    &&& r.focus_ring_glow@ == "rgba(244, 244, 245, 0.20)"@
    &&& r.accent_gradient@ == "linear-gradient(135deg, #A1A1AA 0%, #F4F4F5 100%)"@
    &&& r.accent_text_color@ == "#09090B"@
}

fn default_light_colors() -> (r: ColorTokens)
    ensures
        spec_is_light_colors(r),
{
    ColorTokens {
        canvas_background: "#FAFAFA".to_owned(),
        panel_background: "rgba(255, 255, 255, 0.88)".to_owned(),
        border_color: "rgba(9, 9, 11, 0.08)".to_owned(),
        text_color: "#09090B".to_owned(),
        focus_ring_color: "#18181B".to_owned(),
        focus_ring_glow: "rgba(24, 24, 27, 0.15)".to_owned(),
        accent_gradient: "linear-gradient(135deg, #71717A 0%, #27272A 100%)".to_owned(),
        accent_text_color: "#FFFFFF".to_owned(),
    }
}

fn default_dark_colors() -> (r: ColorTokens)
    ensures
        spec_is_dark_colors(r),
{
    ColorTokens {
        canvas_background: "#09090B".to_owned(),
        panel_background: "rgba(24, 24, 27, 0.88)".to_owned(),
        border_color: "rgba(113, 113, 122, 0.25)".to_owned(),
        text_color: "#E4E4E7".to_owned(),
        focus_ring_color: "#F4F4F5".to_owned(),
        focus_ring_glow: "rgba(244, 244, 245, 0.20)".to_owned(),
        accent_gradient: "linear-gradient(135deg, #A1A1AA 0%, #F4F4F5 100%)".to_owned(),
        accent_text_color: "#09090B".to_owned(),
    }
}

/// The default palette of a theme mode: light for light, dark for dark and
/// system.
pub fn default_color_tokens(mode: crate::theme::ThemeMode) -> (r: ColorTokens)
    ensures
        mode is Light ==> spec_is_light_colors(r),
        !(mode is Light) ==> spec_is_dark_colors(r),
{
    match mode {
        crate::theme::ThemeMode::Light => default_light_colors(),
        crate::theme::ThemeMode::Dark | crate::theme::ThemeMode::System => default_dark_colors(),
    }
}

/// The layout tokens and the resolved colors for a mode.
pub fn tokens_for(mode: crate::theme::ThemeMode, overrides: Option<&crate::theme::ThemeColors>) -> (r: (
    StyleTokens,
    ColorTokens,
))
    ensures
        r.0 == spec_layout_tokens(),
        crate::theme::spec_resolved_colors(
            mode,
            match overrides {
                Some(o) => Some(*o),
                None => None,
            },
            r.1,
        ),
{
    (layout_tokens(), crate::theme::resolve_color_tokens(mode, overrides))
}

} // verus!
