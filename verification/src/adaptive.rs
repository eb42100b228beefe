//! Adaptive tool-option presets: stroke color palettes per theme, and text /
//! stroke sizes picked from preset ladders to match the image scale.

use vstd::prelude::*;

use crate::theme::ThemeMode;

verus! {

/// The long edge (in pixels) at which the preset ladders are calibrated.
pub const BASELINE_PRESET_LONG_EDGE: i64 = 1920;

/// The largest supported long edge multiple of the baseline, in halves
/// (seven halves is three and a half times the baseline).
pub const MAX_PRESET_SCALE_HALVES: i64 = 7;

/// One named stroke color.
#[derive(Debug, Clone)]
pub struct StrokeColorPreset {
    pub label: String,
    pub color_r: u8,
    pub color_g: u8,
    pub color_b: u8,
}

impl StrokeColorPreset {
    pub fn new(label: &str, color_r: u8, color_g: u8, color_b: u8) -> (r: Self)
        ensures
            r.label@ == label@ && r.color_r == color_r && r.color_g == color_g && r.color_b
                == color_b,
    {
        StrokeColorPreset { label: label.to_owned(), color_r, color_g, color_b }
    }

    pub fn rgb(&self) -> (r: (u8, u8, u8))
        ensures
            r == (self.color_r, self.color_g, self.color_b),
    {
        (self.color_r, self.color_g, self.color_b)
    }
}

/// A palette of stroke colors with a default pick.
#[derive(Debug, Clone)]
pub struct StrokeColorPalette {
    pub presets: Vec<StrokeColorPreset>,
    pub default_index: usize,
}

impl StrokeColorPalette {
    /// An empty palette falls back to a single near-black entry.
    pub fn new(presets: Vec<StrokeColorPreset>, default_index: usize) -> (r: Self)
        ensures
            presets@.len() > 0 ==> r.presets@ == presets@ && r.default_index == default_index,
            presets@.len() == 0 ==> r.presets@.len() == 1 && r.default_index == default_index,
            r.presets@.len() > 0,
    {
        let mut presets = presets;
        if presets.is_empty() {
            presets.push(StrokeColorPreset::new("Black", 18, 18, 18));
        }
        StrokeColorPalette { presets, default_index }
    }

    pub fn presets(&self) -> (r: &Vec<StrokeColorPreset>)
        ensures
            r@ == self.presets@,
    {
        &self.presets
    }

    /// The default index, pulled back into the palette if out of range.
    pub fn default_index(&self) -> (r: usize)
        ensures
            r as int == if self.default_index < self.presets@.len() {
                self.default_index as int
            } else if self.presets@.len() > 0 {
                self.presets@.len() - 1
            } else {
                0int
            },
    {
        let cap = if self.presets.len() >= 1 {
            self.presets.len() - 1
        } else {
            0
        };
        if self.default_index < cap {
            self.default_index
        } else {
            cap
        }
    }

    pub fn color_for_index(&self, index: usize) -> (r: Option<(u8, u8, u8)>)
        ensures
            index < self.presets@.len() ==> r == Some(
                (
                    self.presets@[index as int].color_r,
                    self.presets@[index as int].color_g,
                    self.presets@[index as int].color_b,
                ),
            ),
            index >= self.presets@.len() ==> r is None,
    {
        if index < self.presets.len() {
            Some(self.presets[index].rgb())
        } else {
            None
        }
    }

    pub fn default_color(&self) -> (r: (u8, u8, u8))
        ensures
            self.presets@.len() > 0 ==> ({
                let i = if self.default_index < self.presets@.len() {
                    self.default_index as int
                } else {
                    self.presets@.len() - 1
                };
                r == (
                    self.presets@[i].color_r,
                    self.presets@[i].color_g,
                    self.presets@[i].color_b,
                )
            }),
    {
        match self.color_for_index(self.default_index()) {
            Some(c) => c,
            None => (18, 18, 18),
        }
    }
}

fn light_stroke_color_presets() -> (r: Vec<StrokeColorPreset>)
    ensures
        r@.len() == 6,
        r@[0].color_r == 18 && r@[0].color_g == 18 && r@[0].color_b == 18,
{
    let mut v: Vec<StrokeColorPreset> = Vec::new();
    v.push(StrokeColorPreset::new("Black", 18, 18, 18));
    v.push(StrokeColorPreset::new("Red", 225, 64, 56));
    v.push(StrokeColorPreset::new("Orange", 255, 149, 0));
    v.push(StrokeColorPreset::new("Yellow", 255, 211, 51));
    v.push(StrokeColorPreset::new("Blue", 38, 125, 255));
    v.push(StrokeColorPreset::new("Green", 58, 179, 88));
    v
}

fn dark_stroke_color_presets() -> (r: Vec<StrokeColorPreset>)
    ensures
        r@.len() == 6,
        r@[0].color_r == 240 && r@[0].color_g == 242 && r@[0].color_b == 248,
{
    let mut v: Vec<StrokeColorPreset> = Vec::new();
    v.push(StrokeColorPreset::new("White", 240, 242, 248));
    v.push(StrokeColorPreset::new("Red", 255, 110, 104));
    v.push(StrokeColorPreset::new("Orange", 255, 180, 76));
    v.push(StrokeColorPreset::new("Yellow", 255, 223, 120));
    v.push(StrokeColorPreset::new("Blue", 118, 170, 255));
    v.push(StrokeColorPreset::new("Green", 108, 214, 146));
    v
}

/// The stroke palette for a theme: a light palette for light mode, a dark
/// palette for dark and system modes, default at the first entry.
pub fn stroke_color_palette_for_theme(mode: ThemeMode) -> (r: StrokeColorPalette)
    ensures
        r.presets@.len() == 6,
        r.default_index == 0,
        mode is Light ==> r.presets@[0].color_r == 18,
        !(mode is Light) ==> r.presets@[0].color_r == 240,
{
    let presets = match mode {
        ThemeMode::Light => light_stroke_color_presets(),
        ThemeMode::Dark | ThemeMode::System => dark_stroke_color_presets(),
    };
    StrokeColorPalette::new(presets, 0)
}

fn stroke_size_presets_default() -> (r: Vec<u8>)
    ensures
        r@ == seq![2u8, 3u8, 4u8, 6u8, 8u8, 12u8],
{
    let mut v: Vec<u8> = Vec::new();
    v.push(2);
    v.push(3);
    v.push(4);
    v.push(6);
    v.push(8);
    v.push(12);
    proof {
        assert(v@ =~= seq![2u8, 3u8, 4u8, 6u8, 8u8, 12u8]);
    }
    v
}

fn stroke_size_button_presets_default() -> (r: Vec<u8>)
    ensures
        r@ == seq![4u8, 8u8, 12u8],
{
    let mut v: Vec<u8> = Vec::new();
    v.push(4);
    v.push(8);
    v.push(12);
    proof {
        assert(v@ =~= seq![4u8, 8u8, 12u8]);
    }
    v
}

fn text_size_presets_default() -> (r: Vec<u8>)
    ensures
        r@ == seq![16u8, 20u8, 24u8, 32u8, 40u8, 56u8],
{
    let mut v: Vec<u8> = Vec::new();
    v.push(16);
    v.push(20);
    v.push(24);
    v.push(32);
    v.push(40);
    v.push(56);
    proof {
        assert(v@ =~= seq![16u8, 20u8, 24u8, 32u8, 40u8, 56u8]);
    }
    v
}

/// The sticky option presets the editor offers: a color palette and the
/// stroke-width and text-size ladders.
#[derive(Debug, Clone)]
pub struct EditorToolOptionPresets {
    pub stroke_color_palette: StrokeColorPalette,
    pub stroke_width_presets: Vec<u8>,
    pub adaptive_stroke_width_presets: Vec<u8>,
    pub text_size_presets: Vec<u8>,
}

impl EditorToolOptionPresets {
    pub fn defaults_for_theme(mode: ThemeMode) -> (r: Self)
        ensures
            r.stroke_width_presets@ == seq![4u8, 8u8, 12u8],
            r.adaptive_stroke_width_presets@ == seq![2u8, 3u8, 4u8, 6u8, 8u8, 12u8],
            r.text_size_presets@ == seq![16u8, 20u8, 24u8, 32u8, 40u8, 56u8],
            r.stroke_color_palette.presets@.len() == 6,
            r.stroke_color_palette.default_index == 0,
    {
        EditorToolOptionPresets {
            stroke_color_palette: stroke_color_palette_for_theme(mode),
            stroke_width_presets: stroke_size_button_presets_default(),
            adaptive_stroke_width_presets: stroke_size_presets_default(),
            text_size_presets: text_size_presets_default(),
        }
    }

    /// Theme defaults with optional user overrides; empty override lists are
    /// ignored.
    pub fn with_overrides(
        mode: ThemeMode,
        stroke_color_palette_override: Option<Vec<StrokeColorPreset>>,
        stroke_width_presets_override: Option<Vec<u8>>,
        text_size_presets_override: Option<Vec<u8>>,
    ) -> (r: Self)
        ensures
            ({
                match stroke_color_palette_override {
                    Some(colors) => colors@.len() > 0 ==> r.stroke_color_palette.presets@
                        == colors@ && r.stroke_color_palette.default_index == 0,
                    None => r.stroke_color_palette.presets@.len() == 6,
                }
            }),
            ({
                match stroke_width_presets_override {
                    Some(widths) => widths@.len() > 0 ==> r.stroke_width_presets@ == widths@
                        && r.adaptive_stroke_width_presets@ == widths@,
                    None => r.stroke_width_presets@ == seq![4u8, 8u8, 12u8]
                        && r.adaptive_stroke_width_presets@ == seq![
                        2u8,
                        3u8,
                        4u8,
                        6u8,
                        8u8,
                        12u8,
                    ],
                }
            }),
            ({
                match text_size_presets_override {
                    Some(sizes) => sizes@.len() > 0 ==> r.text_size_presets@ == sizes@,
                    None => r.text_size_presets@ == seq![16u8, 20u8, 24u8, 32u8, 40u8, 56u8],
                }
            }),
    {
        let mut presets = Self::defaults_for_theme(mode);
        match stroke_color_palette_override {
            Some(color_presets) => {
                if !color_presets.is_empty() {
                    presets.stroke_color_palette = StrokeColorPalette::new(color_presets, 0);
                }
            },
            None => {},
        }
        match stroke_width_presets_override {
            Some(stroke_widths) => {
                if !stroke_widths.is_empty() {
                    presets.adaptive_stroke_width_presets = stroke_widths.clone();
                    presets.stroke_width_presets = stroke_widths;
                    proof {
                        assert(presets.adaptive_stroke_width_presets@
                            =~= presets.stroke_width_presets@);
                    }
                }
            },
            None => {},
        }
        match text_size_presets_override {
            Some(text_sizes) => {
                if !text_sizes.is_empty() {
                    presets.text_size_presets = text_sizes;
                }
            },
            None => {},
        }
        presets
    }

    pub fn stroke_color_palette(&self) -> (r: &StrokeColorPalette)
        ensures
            r.presets@ == self.stroke_color_palette.presets@,
            r.default_index == self.stroke_color_palette.default_index,
    {
        &self.stroke_color_palette
    }

    pub fn stroke_width_presets(&self) -> (r: &Vec<u8>)
        ensures
            r@ == self.stroke_width_presets@,
    {
        &self.stroke_width_presets
    }

    pub fn adaptive_stroke_width_presets(&self) -> (r: &Vec<u8>)
        ensures
            r@ == self.adaptive_stroke_width_presets@,
    {
        &self.adaptive_stroke_width_presets
    }

    pub fn text_size_presets(&self) -> (r: &Vec<u8>)
        ensures
            r@ == self.text_size_presets@,
    {
        &self.text_size_presets
    }
}

/// The distance of preset `p` from the exact target `num / den`, scaled by
/// the denominator.
pub open spec fn spec_preset_dist(p: int, num: int, den: int) -> int {
    if p * den >= num {
        p * den - num
    } else {
        num - p * den
    }
}

/// The preset nearest to `num / den`, earliest entry winning ties; 1 when
/// the ladder is empty.
pub open spec fn spec_nearest_preset(s: Seq<u8>, num: int, den: int) -> int
    decreases s.len(),
{
    if s.len() == 0 {
        1
    } else if s.len() == 1 {
        s[0] as int
    } else {
        let b = spec_nearest_preset(s.drop_last(), num, den);
        if spec_preset_dist(s.last() as int, num, den) < spec_preset_dist(b, num, den) {
            s.last() as int
        } else {
            b
        }
    }
}

/// The ladder entry nearest to the exact target `num / den`.
fn nearest_preset(presets: &Vec<u8>, num: i64, den: i64) -> (r: u8)
    requires
        0 <= num,
        0 < den,
        num <= 4294967296,
        den <= 4294967296,
    ensures
        r as int == spec_nearest_preset(presets@, num as int, den as int),
{
    if presets.len() == 0 {
        return 1;
    }
    let mut best: u8 = presets[0];
    let mut i: usize = 1;
    while i < presets.len()
        invariant
            1 <= i <= presets@.len(),
            best as int == spec_nearest_preset(presets@.subrange(0, i as int), num as int, den as int),
            0 <= num <= 4294967296,
            0 < den <= 4294967296,
        decreases presets@.len() - i,
    {
        let p = presets[i];
        proof {
            assert(0 <= p as int * den as int <= 255 * 4294967296 && 0 <= best as int * den as int
                <= 255 * 4294967296) by (nonlinear_arith)
                requires 0 <= p as int <= 255, 0 <= best as int <= 255,
                    0 < den as int <= 4294967296;
        }
        let dist_p: i64 = abs_i64(p as i64 * den - num);
        let dist_best: i64 = abs_i64(best as i64 * den - num);
        if dist_p < dist_best {
            best = p;
        }
        i += 1;
        proof {
            assert(presets@.subrange(0, i as int).drop_last() =~= presets@.subrange(
                0,
                i as int - 1,
            ));
            assert(presets@.subrange(0, i as int).last() == presets@[i - 1]);
        }
    }
    proof {
        assert(presets@.subrange(0, presets@.len() as int) =~= presets@);
    }
    best
}

fn abs_i64(v: i64) -> (r: i64)
    requires
        i64::MIN < v,
    ensures
        r as int == if v as int >= 0 {
            v as int
        } else {
            -(v as int)
        },
{
    if v >= 0 {
        v
    } else {
        -v
    }
}

/// The image's long edge clamped into the supported scale window
/// `[baseline, 3.5 x baseline]`.
pub open spec fn spec_clamped_long_edge(image_width: int, image_height: int) -> int {
    let le0 = if image_width >= image_height {
        image_width
    } else {
        image_height
    };
    let le = if le0 >= 1 {
        le0
    } else {
        1
    };
    if le < BASELINE_PRESET_LONG_EDGE as int {
        BASELINE_PRESET_LONG_EDGE as int
    } else if le > BASELINE_PRESET_LONG_EDGE as int * MAX_PRESET_SCALE_HALVES as int / 2 {
        BASELINE_PRESET_LONG_EDGE as int * MAX_PRESET_SCALE_HALVES as int / 2
    } else {
        le
    }
}

fn clamped_long_edge(image_width: i32, image_height: i32) -> (r: i64)
    ensures
        r as int == spec_clamped_long_edge(image_width as int, image_height as int),
        BASELINE_PRESET_LONG_EDGE <= r <= BASELINE_PRESET_LONG_EDGE * MAX_PRESET_SCALE_HALVES / 2,
{
    let le0: i64 = if image_width >= image_height {
        image_width as i64
    } else {
        image_height as i64
    };
    let le: i64 = if le0 >= 1 {
        le0
    } else {
        1
    };
    let hi: i64 = BASELINE_PRESET_LONG_EDGE * MAX_PRESET_SCALE_HALVES / 2;
    if le < BASELINE_PRESET_LONG_EDGE {
        BASELINE_PRESET_LONG_EDGE
    } else if le > hi {
        hi
    } else {
        le
    }
}

/// The text size preset matching the image scale: sixteen points at the
/// baseline long edge, scaled up with the image.
pub fn adaptive_text_size_for_image_with_presets(
    image_width: i32,
    image_height: i32,
    presets: &Vec<u8>,
) -> (r: u8)
    ensures
        r as int == spec_nearest_preset(
            presets@,
            16 * spec_clamped_long_edge(image_width as int, image_height as int),
            BASELINE_PRESET_LONG_EDGE as int,
        ),
{
    let le = clamped_long_edge(image_width, image_height);
    nearest_preset(presets, 16 * le, BASELINE_PRESET_LONG_EDGE)
}

/// The stroke width preset matching the image scale: three pixels at the
/// baseline long edge, scaled up with the image.
pub fn adaptive_stroke_size_for_image_with_presets(
    image_width: i32,
    image_height: i32,
    presets: &Vec<u8>,
) -> (r: u8)
    ensures
        r as int == spec_nearest_preset(
            presets@,
            3 * spec_clamped_long_edge(image_width as int, image_height as int),
            BASELINE_PRESET_LONG_EDGE as int,
        ),
{
    let le = clamped_long_edge(image_width, image_height);
    nearest_preset(presets, 3 * le, BASELINE_PRESET_LONG_EDGE)
}

} // verus!
