//! Theme model: the mode, per-mode color overrides, editor defaults carried
//! by the configuration, and the resolution of color tokens.

use vstd::prelude::*;
use vstd::string::StrSliceExecFns;

use crate::strings::{spec_trimmed, trimmed};
use crate::style::{default_color_tokens, spec_is_dark_colors, spec_is_light_colors, ColorTokens};

verus! {

#[derive(Clone, Copy, Debug, PartialEq, Eq, Structural)]
pub enum ThemeMode {
    System,
    Light,
    Dark,
}

impl Default for ThemeMode {
    fn default() -> (r: Self)
        ensures
            r is System,
    {
        ThemeMode::System
    }
}

/// Per-mode color overrides; every field is optional.
#[derive(Debug, Clone)]
pub struct ColorOverrides {
    pub focus_ring_color: Option<String>,
    pub focus_ring_glow: Option<String>,
    pub border_color: Option<String>,
    pub panel_background: Option<String>,
    pub canvas_background: Option<String>,
    pub text_color: Option<String>,
    pub accent_gradient: Option<String>,
    pub accent_text_color: Option<String>,
}

impl Default for ColorOverrides {
    fn default() -> (r: Self)
        ensures
            r.focus_ring_color is None && r.focus_ring_glow is None && r.border_color is None
                && r.panel_background is None && r.canvas_background is None && r.text_color
                is None && r.accent_gradient is None && r.accent_text_color is None,
    {
        ColorOverrides {
            focus_ring_color: None,
            focus_ring_glow: None,
            border_color: None,
            panel_background: None,
            canvas_background: None,
            text_color: None,
            accent_gradient: None,
            accent_text_color: None,
        }
    }
}

/// Color overrides keyed by mode.
#[derive(Debug, Clone)]
pub struct ThemeColors {
    pub dark: ColorOverrides,
    pub light: ColorOverrides,
}

/// Editor option defaults carried by the theme configuration.
#[derive(Debug, Clone)]
pub struct EditorDefaults {
    pub rectangle_border_radius: Option<u16>,
    pub default_tool_color: Option<String>,
    pub default_text_size: Option<u8>,
    pub default_stroke_width: Option<u8>,
    pub tool_color_palette: Option<Vec<String>>,
    pub stroke_width_presets: Option<Vec<i64>>,
    pub text_size_presets: Option<Vec<i64>>,
}

impl Default for EditorDefaults {
    fn default() -> (r: Self)
        ensures
            r.rectangle_border_radius is None && r.default_tool_color is None
                && r.default_text_size is None && r.default_stroke_width is None
                && r.tool_color_palette is None && r.stroke_width_presets is None
                && r.text_size_presets is None,
    {
        EditorDefaults {
            rectangle_border_radius: None,
            default_tool_color: None,
            default_text_size: None,
            default_stroke_width: None,
            tool_color_palette: None,
            stroke_width_presets: None,
            text_size_presets: None,
        }
    }
}

/// The whole theme configuration.
#[derive(Debug)]
pub struct ThemeConfig {
    pub mode: ThemeMode,
    pub colors: Option<ThemeColors>,
    pub editor: EditorDefaults,
}

/// The requested mode is the active mode; `System` is resolved by the
/// runtime user-interface layer, not here.
pub fn apply_theme(mode: ThemeMode) -> (r: ThemeMode)
    ensures
        r == mode,
{
    mode
}

/// An overridable value: the override when present, the base otherwise.
pub open spec fn spec_pick(base: Seq<char>, ov: Option<String>) -> Seq<char> {
    match ov {
        Some(v) => v@,
        None => base,
    }
}

/// Whether `r` is the palette of `mode` with `colors` applied on top.
pub open spec fn spec_resolved_colors(
    mode: ThemeMode,
    colors: Option<ThemeColors>,
    r: ColorTokens,
) -> bool {
    let light = mode is Light;
    match colors {
        None => if light {
            spec_is_light_colors(r)
        } else {
            spec_is_dark_colors(r)
        },
        Some(c) => {
            let o = if light {
                c.light
            } else {
                c.dark
            };
            &&& r.canvas_background@ == spec_pick(
                if light { "#FAFAFA"@ } else { "#09090B"@ },
                o.canvas_background,
            )
            &&& r.panel_background@ == spec_pick(
                if light { "rgba(255, 255, 255, 0.88)"@ } else { "rgba(24, 24, 27, 0.88)"@ },
                o.panel_background,
            )
            &&& r.border_color@ == spec_pick(
                if light { "rgba(9, 9, 11, 0.08)"@ } else { "rgba(113, 113, 122, 0.25)"@ },
                o.border_color,
            )
            &&& r.text_color@ == spec_pick(
                if light { "#09090B"@ } else { "#E4E4E7"@ },
                o.text_color,
            )
            &&& r.focus_ring_color@ == spec_pick(
                if light { "#18181B"@ } else { "#F4F4F5"@ },
                o.focus_ring_color,
            )
            &&& r.focus_ring_glow@ == spec_pick(
                if light { "rgba(24, 24, 27, 0.15)"@ } else { "rgba(244, 244, 245, 0.20)"@ },
                o.focus_ring_glow,
            )
            &&& r.accent_gradient@ == spec_pick(
                if light {
                    "linear-gradient(135deg, #71717A 0%, #27272A 100%)"@
                } else {
                    "linear-gradient(135deg, #A1A1AA 0%, #F4F4F5 100%)"@
                },
                o.accent_gradient,
            )
            &&& r.accent_text_color@ == spec_pick(
                if light { "#FFFFFF"@ } else { "#09090B"@ },
                o.accent_text_color,
            )
        },
    }
}

/// Overwrite each token for which an override is present.
fn apply_overrides(tokens: &mut ColorTokens, overrides: &ColorOverrides)
    ensures
        final(tokens).canvas_background@ == spec_pick(
            old(tokens).canvas_background@,
            overrides.canvas_background,
        ),
        final(tokens).panel_background@ == spec_pick(
            old(tokens).panel_background@,
            overrides.panel_background,
        ),
        final(tokens).border_color@ == spec_pick(old(tokens).border_color@, overrides.border_color),
        final(tokens).text_color@ == spec_pick(old(tokens).text_color@, overrides.text_color),
        final(tokens).focus_ring_color@ == spec_pick(
            old(tokens).focus_ring_color@,
            overrides.focus_ring_color,
        ),
        final(tokens).focus_ring_glow@ == spec_pick(
            old(tokens).focus_ring_glow@,
            overrides.focus_ring_glow,
        ),
        final(tokens).accent_gradient@ == spec_pick(
            old(tokens).accent_gradient@,
            overrides.accent_gradient,
        ),
        final(tokens).accent_text_color@ == spec_pick(
            old(tokens).accent_text_color@,
            overrides.accent_text_color,
        ),
{
    match &overrides.focus_ring_color {
        Some(v) => {
            tokens.focus_ring_color = v.clone();
        },
        None => {},
    }
    match &overrides.focus_ring_glow {
        Some(v) => {
            tokens.focus_ring_glow = v.clone();
        },
        None => {},
    }
    match &overrides.border_color {
        Some(v) => {
            tokens.border_color = v.clone();
        },
        None => {},
    }
    match &overrides.panel_background {
        Some(v) => {
            tokens.panel_background = v.clone();
        },
        None => {},
    }
    match &overrides.canvas_background {
        Some(v) => {
            tokens.canvas_background = v.clone();
        },
        None => {},
    }
    match &overrides.text_color {
        Some(v) => {
            tokens.text_color = v.clone();
        },
        None => {},
    }
    match &overrides.accent_gradient {
        Some(v) => {
            tokens.accent_gradient = v.clone();
        },
        None => {},
    }
    match &overrides.accent_text_color {
        Some(v) => {
            tokens.accent_text_color = v.clone();
        },
        None => {},
    }
}

/// The color tokens for a mode: the mode's defaults with the user's
/// overrides for that mode applied on top.
pub fn resolve_color_tokens(mode: ThemeMode, overrides: Option<&ThemeColors>) -> (r: ColorTokens)
    ensures
        spec_resolved_colors(
            mode,
            match overrides {
                Some(o) => Some(*o),
                None => None,
            },
            r,
        ),
{
    let mut tokens = default_color_tokens(mode);
    match overrides {
        Some(colors) => {
            let mode_overrides = match mode {
                ThemeMode::Dark | ThemeMode::System => &colors.dark,
                ThemeMode::Light => &colors.light,
            };
            apply_overrides(&mut tokens, mode_overrides);
        },
        None => {},
    }
    tokens
}

/// The value of one hexadecimal digit, or -1 for any other character.
pub open spec fn spec_hex_val(c: char) -> int {
    if '0' <= c && c <= '9' {
        c as int - '0' as int
    } else if 'a' <= c && c <= 'f' {
        10 + c as int - 'a' as int
    } else if 'A' <= c && c <= 'F' {
        10 + c as int - 'A' as int
    } else {
        -1
    }
}

fn hex_val(c: char) -> (r: i16)
    ensures
        r as int == spec_hex_val(c),
{
    if '0' <= c && c <= '9' {
        (c as u32 - '0' as u32) as i16
    } else if 'a' <= c && c <= 'f' {
        (10 + c as u32 - 'a' as u32) as i16
    } else if 'A' <= c && c <= 'F' {
        (10 + c as u32 - 'A' as u32) as i16
    } else {
        -1
    }
}

/// A `#RRGGBB` or `RRGGBB` color parsed from a string, whitespace trimmed.
pub open spec fn spec_parse_hex_rgb(s: Seq<char>) -> Option<(int, int, int)> {
    let t = spec_trimmed(s);
    let h = if t.len() > 0 && t[0] == '#' {
        t.subrange(1, t.len() as int)
    } else {
        t
    };
    if h.len() != 6 {
        None
    } else if spec_hex_val(h[0]) < 0 || spec_hex_val(h[1]) < 0 || spec_hex_val(h[2]) < 0
        || spec_hex_val(h[3]) < 0 || spec_hex_val(h[4]) < 0 || spec_hex_val(h[5]) < 0 {
        None
    } else {
        Some(
            (
                spec_hex_val(h[0]) * 16 + spec_hex_val(h[1]),
                spec_hex_val(h[2]) * 16 + spec_hex_val(h[3]),
                spec_hex_val(h[4]) * 16 + spec_hex_val(h[5]),
            ),
        )
    }
}

pub fn parse_hex_rgb(value: &str) -> (r: Option<(u8, u8, u8)>)
    ensures
        ({
            match spec_parse_hex_rgb(value@) {
                Some(t) => r matches Some(v) && v.0 as int == t.0 && v.1 as int == t.1 && v.2 as int
                    == t.2,
                None => r is None,
            }
        }),
{
    let t = trimmed(value);
    let ts = t.as_str();
    let n = ts.unicode_len();
    let start: usize = if n > 0 && ts.get_char(0) == '#' {
        1
    } else {
        0
    };
    if n - start != 6 {
        return None;
    }
    let d0 = hex_val(ts.get_char(start));
    let d1 = hex_val(ts.get_char(start + 1));
    let d2 = hex_val(ts.get_char(start + 2));
    let d3 = hex_val(ts.get_char(start + 3));
    let d4 = hex_val(ts.get_char(start + 4));
    let d5 = hex_val(ts.get_char(start + 5));
    if d0 < 0 || d1 < 0 || d2 < 0 || d3 < 0 || d4 < 0 || d5 < 0 {
        return None;
    }
    proof {
        let h = if t@.len() > 0 && t@[0] == '#' {
            t@.subrange(1, t@.len() as int)
        } else {
            t@
        };
        assert(h =~= t@.subrange(start as int, t@.len() as int));
    }
    Some(((d0 * 16 + d1) as u8, (d2 * 16 + d3) as u8, (d4 * 16 + d5) as u8))
}

/// The editor option overrides derived from the theme configuration; an
/// unparsable tool color is dropped.
#[derive(Clone, Copy, Debug)]
pub struct EditorThemeOverrides {
    pub rectangle_border_radius: Option<u16>,
    pub default_tool_color: Option<(u8, u8, u8)>,
    pub default_text_size: Option<u8>,
    pub default_stroke_width: Option<u8>,
}

pub fn editor_theme_overrides_from(defaults: &EditorDefaults) -> (r: EditorThemeOverrides)
    ensures
        r.rectangle_border_radius == defaults.rectangle_border_radius,
        r.default_text_size == defaults.default_text_size,
        r.default_stroke_width == defaults.default_stroke_width,
        ({
            match defaults.default_tool_color {
                Some(raw) => {
                    match spec_parse_hex_rgb(raw@) {
                        Some(t) => r.default_tool_color matches Some(v) && v.0 as int == t.0
                            && v.1 as int == t.1 && v.2 as int == t.2,
                        None => r.default_tool_color is None,
                    }
                },
                None => r.default_tool_color is None,
            }
        }),
{
    let default_tool_color = match &defaults.default_tool_color {
        Some(raw) => parse_hex_rgb(raw.as_str()),
        None => None,
    };
    EditorThemeOverrides {
        rectangle_border_radius: defaults.rectangle_border_radius,
        default_tool_color,
        default_text_size: defaults.default_text_size,
        default_stroke_width: defaults.default_stroke_width,
    }
}

} // verus!
