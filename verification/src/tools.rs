//! The tool object store: the live set of annotation objects, sticky per-tool
//! style options, id allocation, and the add/move/resize/remove operations.

pub mod arrow;
pub mod blur;
pub mod crop;
pub mod pen;
pub mod rectangle;
pub mod text;

pub use arrow::{ArrowElement, ArrowOptions};
pub use blur::{BlurElement, BlurOptions, BlurRegion};
pub use crop::{CropElement, CropOptions, CropPreset, CROP_MIN_SIZE};
pub use pen::{PenOptions, PenPoint, PenStroke};
pub use rectangle::{RectangleElement, RectangleOptions};
pub use text::{TextElement, TextFontFamily, TextOptions};

use vstd::prelude::*;

use crate::geometry::{Color, ImageBounds, ToolBounds, ToolPoint};
use crate::text_input::{resolve_text_input, spec_resolve_text_input, TextInputAction, TextInputEvent};

verus! {

/// The tool currently selected in the toolbar.
#[derive(Clone, Copy, Debug, PartialEq, Eq, Structural)]
pub enum ToolKind {
    Select,
    Pan,
    Blur,
    Pen,
    Arrow,
    Rectangle,
    Crop,
    Text,
    Ocr,
}

/// One placed annotation element, tagged by its tool.
#[derive(Clone, Debug)]
pub enum ToolObject {
    Blur(BlurElement),
    Pen(PenStroke),
    Arrow(ArrowElement),
    Rectangle(RectangleElement),
    Crop(CropElement),
    Text(TextElement),
}

#[derive(Clone, Copy, Debug, PartialEq, Eq, Structural)]
pub enum ToolError {
    InvalidBlurRegion,
    InvalidArrowGeometry,
    InvalidRectangleGeometry,
    InvalidCropGeometry,
    EmptyPenStroke,
    PenStrokeNotFound,
    ObjectNotFound,
    ToolNotSelected,
}

impl ToolObject {
    pub open spec fn spec_id(self) -> u64 {
        match self {
            ToolObject::Blur(e) => e.id,
            ToolObject::Pen(e) => e.id,
            ToolObject::Arrow(e) => e.id,
            ToolObject::Rectangle(e) => e.id,
            ToolObject::Crop(e) => e.id,
            ToolObject::Text(e) => e.id,
        }
    }

    pub fn id(&self) -> (r: u64)
        ensures
            r == self.spec_id(),
    {
        match self {
            ToolObject::Blur(e) => e.id,
            ToolObject::Pen(e) => e.id,
            ToolObject::Arrow(e) => e.id,
            ToolObject::Rectangle(e) => e.id,
            ToolObject::Crop(e) => e.id,
            ToolObject::Text(e) => e.id,
        }
    }

    /// The geometric invariant of one object: boxes are non-degenerate, a
    /// crop keeps the minimum side, a pen stroke holds at least one point,
    /// and a text cursor sits inside its content.
    pub open spec fn wf(self) -> bool {
        match self {
            ToolObject::Blur(e) => e.region.width > 0 && e.region.height > 0,
            ToolObject::Pen(e) => e.points@.len() > 0,
            ToolObject::Arrow(_) => true,
            ToolObject::Rectangle(e) => e.width > 0 && e.height > 0,
            ToolObject::Crop(e) => e.width >= CROP_MIN_SIZE && e.height >= CROP_MIN_SIZE,
            ToolObject::Text(e) => e.wf(),
        }
    }
}

/// The first index in `s` whose object carries `id`, or `s.len()` if none.
pub open spec fn spec_find_id(s: Seq<ToolObject>, id: u64) -> int
    decreases s.len(),
{
    if s.len() == 0 {
        0
    } else if s[0].spec_id() == id {
        0
    } else {
        1 + spec_find_id(s.drop_first(), id)
    }
}

pub proof fn lemma_find_id(s: Seq<ToolObject>, id: u64)
    ensures
        0 <= spec_find_id(s, id) <= s.len(),
        spec_find_id(s, id) < s.len() ==> s[spec_find_id(s, id)].spec_id() == id,
        forall|j: int| 0 <= j < spec_find_id(s, id) ==> (#[trigger] s[j].spec_id()) != id,
    decreases s.len(),
{
    if s.len() > 0 && s[0].spec_id() != id {
        let t = s.drop_first();
        lemma_find_id(t, id);
        let f = spec_find_id(s, id);
        assert(f == 1 + spec_find_id(t, id));
        if f < s.len() {
            assert(t[f - 1] == s[f]);
        }
        assert forall|j: int| 0 <= j < f implies (#[trigger] s[j].spec_id()) != id by {
            if j > 0 {
                assert(t[j - 1] == s[j]);
            }
        }
    }
}

/// Whether some object in `s` carries `id`.
pub open spec fn spec_has_id(s: Seq<ToolObject>, id: u64) -> bool {
    exists|i: int| 0 <= i < s.len() && (#[trigger] s[i].spec_id()) == id
}

pub proof fn lemma_find_has_id(s: Seq<ToolObject>, id: u64)
    ensures
        spec_has_id(s, id) <==> spec_find_id(s, id) < s.len(),
{
    lemma_find_id(s, id);
    if spec_has_id(s, id) {
        let w = choose|i: int| 0 <= i < s.len() && (#[trigger] s[i].spec_id()) == id;
        assert(spec_find_id(s, id) <= w);
    }
}

/// The store that owns the live annotation objects, the sticky per-tool
/// options, the id counter, and the weak references to the active pen stroke
/// and the focused text box.
#[derive(Debug)]
pub struct EditorTools {
    pub active_tool: ToolKind,
    pub blur_options: BlurOptions,
    pub pen_options: PenOptions,
    pub arrow_options: ArrowOptions,
    pub rectangle_options: RectangleOptions,
    pub crop_options: CropOptions,
    pub text_options: TextOptions,
    pub objects: Vec<ToolObject>,
    pub next_id: u64,
    pub active_pen_stroke: Option<u64>,
    pub active_text_box: Option<u64>,
}

/// Whether `s` holds a pen stroke with the given id.
pub open spec fn spec_has_pen(s: Seq<ToolObject>, id: u64) -> bool {
    exists|i: int|
        0 <= i < s.len() && ((#[trigger] s[i]) matches ToolObject::Pen(p) && p.id == id)
}

/// Whether `s` holds a text element with the given id.
pub open spec fn spec_has_text(s: Seq<ToolObject>, id: u64) -> bool {
    exists|i: int|
        0 <= i < s.len() && ((#[trigger] s[i]) matches ToolObject::Text(t) && t.id == id)
}

impl EditorTools {
    /// The store invariant: ids are unique, non-zero, and below the
    /// allocation counter; every object meets its geometric invariant; the
    /// active pen / text references resolve to live objects of the matching
    /// kind.
    pub open spec fn wf(self) -> bool {
        &&& forall|i: int| 0 <= i < self.objects@.len() ==> (#[trigger] self.objects@[i]).wf()
        &&& forall|i: int|
            0 <= i < self.objects@.len() ==> 0 < (#[trigger] self.objects@[i]).spec_id()
                < self.next_id
        &&& forall|i: int, j: int|
            0 <= i < j < self.objects@.len() ==> (#[trigger] self.objects@[i]).spec_id() != (
            #[trigger] self.objects@[j]).spec_id()
        &&& self.active_pen_stroke matches Some(id) ==> spec_has_pen(self.objects@, id)
        &&& self.active_text_box matches Some(id) ==> spec_has_text(self.objects@, id)
        &&& self.next_id >= 1
    }

    pub fn new() -> (r: Self)
        ensures
            r == (EditorTools {
                active_tool: ToolKind::Select,
                blur_options: BlurOptions { intensity: 55 },
                pen_options: PenOptions {
                    color: Color { r: 0, g: 0, b: 0 },
                    thickness: 3,
                    opacity: 100,
                },
                arrow_options: ArrowOptions {
                    color: Color { r: 0, g: 0, b: 0 },
                    thickness: 3,
                    head_size: 8,
                },
                rectangle_options: RectangleOptions {
                    color: Color { r: 0, g: 0, b: 0 },
                    thickness: 3,
                    fill_enabled: false,
                    border_radius: 8,
                },
                crop_options: CropOptions { preset: CropPreset::Free },
                text_options: TextOptions {
                    color: Color { r: 0, g: 0, b: 0 },
                    size: 16,
                    weight: 400,
                    family: TextFontFamily::SansSerif,
                },
                objects: r.objects,
                next_id: 1,
                active_pen_stroke: None,
                active_text_box: None,
            }),
            r.objects@ == Seq::<ToolObject>::empty(),
            r.wf(),
    {
        EditorTools {
            active_tool: ToolKind::Select,
            blur_options: BlurOptions::default(),
            pen_options: PenOptions::default(),
            arrow_options: ArrowOptions::default(),
            rectangle_options: RectangleOptions::default(),
            crop_options: CropOptions::default(),
            text_options: TextOptions::default(),
            objects: Vec::new(),
            next_id: 1,
            active_pen_stroke: None,
            active_text_box: None,
        }
    }

    /// The index of the object with `id`, or the object count if absent.
    fn find_index(&self, id: u64) -> (r: usize)
        ensures
            r as int == spec_find_id(self.objects@, id),
            r <= self.objects@.len(),
            r < self.objects@.len() ==> self.objects@[r as int].spec_id() == id,
            r == self.objects@.len() ==> !spec_has_id(self.objects@, id),
    {
        proof {
            lemma_find_id(self.objects@, id);
            lemma_find_has_id(self.objects@, id);
        }
        let n = self.objects.len();
        let mut i: usize = 0;
        while i < n
            invariant
                n == self.objects@.len(),
                i <= n,
                forall|j: int| 0 <= j < i ==> (#[trigger] self.objects@[j].spec_id()) != id,
            decreases n - i,
        {
            if self.objects[i].id() == id {
                proof {
                    lemma_find_id(self.objects@, id);
                }
                return i;
            }
            i += 1;
        }
        proof {
            lemma_find_id(self.objects@, id);
        }
        n
    }

    fn allocate_id(&mut self) -> (id: u64)
        requires
            old(self).next_id < u64::MAX,
        ensures
            id == old(self).next_id,
            *final(self) == (EditorTools { next_id: (old(self).next_id + 1) as u64, ..*old(self) }),
    {
        let id = self.next_id;
        self.next_id = self.next_id + 1;
        id
    }

    pub fn select_tool(&mut self, tool: ToolKind)
        ensures
            *final(self) == (EditorTools { active_tool: tool, ..*old(self) }),
    {
        self.active_tool = tool;
    }

    pub fn active_tool(&self) -> (r: ToolKind)
        ensures
            r == self.active_tool,
    {
        self.active_tool
    }

    pub fn arrow_options(&self) -> (r: ArrowOptions)
        ensures
            r == self.arrow_options,
    {
        self.arrow_options
    }

    pub fn rectangle_options(&self) -> (r: RectangleOptions)
        ensures
            r == self.rectangle_options,
    {
        self.rectangle_options
    }

    pub fn crop_options(&self) -> (r: CropOptions)
        ensures
            r == self.crop_options,
    {
        self.crop_options
    }

    pub fn text_options(&self) -> (r: TextOptions)
        ensures
            r == self.text_options,
    {
        self.text_options
    }

    pub fn pen_options(&self) -> (r: PenOptions)
        ensures
            r == self.pen_options,
    {
        self.pen_options
    }

    pub fn blur_intensity(&self) -> (r: u8)
        ensures
            r == self.blur_options.intensity,
    {
        self.blur_options.intensity
    }

    pub fn set_pen_color(&mut self, color: Color)
        ensures
            *final(self) == (EditorTools { pen_options: final(self).pen_options, ..*old(self) }),
            final(self).pen_options == (PenOptions { color, ..old(self).pen_options }),
    {
        self.pen_options.set_color(color);
    }

    pub fn set_pen_thickness(&mut self, thickness: u8)
        ensures
            *final(self) == (EditorTools { pen_options: final(self).pen_options, ..*old(self) }),
            final(self).pen_options == (PenOptions {
                thickness: if thickness < 1 { 1u8 } else { thickness },
                ..old(self).pen_options
            }),
    {
        self.pen_options.set_thickness(thickness);
    }

    pub fn set_pen_opacity(&mut self, opacity: u8)
        ensures
            *final(self) == (EditorTools { pen_options: final(self).pen_options, ..*old(self) }),
            final(self).pen_options == (PenOptions {
                opacity: if opacity > 100 { 100u8 } else { opacity },
                ..old(self).pen_options
            }),
    {
        self.pen_options.set_opacity(opacity);
    }

    pub fn set_blur_intensity(&mut self, intensity: u8)
        ensures
            *final(self) == (EditorTools { blur_options: final(self).blur_options, ..*old(self) }),
            final(self).blur_options.intensity as int == blur::spec_clamp_intensity(
                intensity as int,
            ),
    {
        self.blur_options.set_intensity(intensity);
    }

    pub fn set_arrow_color(&mut self, color: Color)
        ensures
            *final(self) == (EditorTools { arrow_options: final(self).arrow_options, ..*old(self) }),
            final(self).arrow_options == (ArrowOptions { color, ..old(self).arrow_options }),
    {
        self.arrow_options.set_color(color);
    }

    pub fn set_arrow_thickness(&mut self, thickness: u8)
        ensures
            *final(self) == (EditorTools { arrow_options: final(self).arrow_options, ..*old(self) }),
            final(self).arrow_options == (ArrowOptions {
                thickness: if thickness < 1 { 1u8 } else { thickness },
                ..old(self).arrow_options
            }),
    {
        self.arrow_options.set_thickness(thickness);
    }

    pub fn set_arrow_head_size(&mut self, head_size: u8)
        ensures
            *final(self) == (EditorTools { arrow_options: final(self).arrow_options, ..*old(self) }),
            final(self).arrow_options == (ArrowOptions {
                head_size: if head_size < 1 { 1u8 } else { head_size },
                ..old(self).arrow_options
            }),
    {
        self.arrow_options.set_head_size(head_size);
    }

    pub fn set_rectangle_color(&mut self, color: Color)
        ensures
            *final(self) == (EditorTools {
                rectangle_options: final(self).rectangle_options,
                ..*old(self)
            }),
            final(self).rectangle_options == (RectangleOptions {
                color,
                ..old(self).rectangle_options
            }),
    {
        self.rectangle_options.set_border_color(color);
    }

    pub fn set_rectangle_thickness(&mut self, thickness: u8)
        ensures
            *final(self) == (EditorTools {
                rectangle_options: final(self).rectangle_options,
                ..*old(self)
            }),
            final(self).rectangle_options == (RectangleOptions {
                thickness: if thickness < 1 { 1u8 } else { thickness },
                ..old(self).rectangle_options
            }),
    {
        self.rectangle_options.set_thickness(thickness);
    }

    pub fn set_rectangle_fill(&mut self, fill_enabled: bool)
        ensures
            *final(self) == (EditorTools {
                rectangle_options: final(self).rectangle_options,
                ..*old(self)
            }),
            final(self).rectangle_options == (RectangleOptions {
                fill_enabled,
                ..old(self).rectangle_options
            }),
    {
        self.rectangle_options.set_fill_enabled(fill_enabled);
    }

    pub fn set_rectangle_border_radius(&mut self, border_radius: u16)
        ensures
            *final(self) == (EditorTools {
                rectangle_options: final(self).rectangle_options,
                ..*old(self)
            }),
            final(self).rectangle_options == (RectangleOptions {
                border_radius,
                ..old(self).rectangle_options
            }),
    {
        self.rectangle_options.set_border_radius(border_radius);
    }

    pub fn set_crop_preset(&mut self, preset: CropPreset)
        ensures
            *final(self) == (EditorTools { crop_options: final(self).crop_options, ..*old(self) }),
            final(self).crop_options == (CropOptions { preset }),
    {
        self.crop_options.set_preset(preset);
    }

    pub fn set_text_color(&mut self, color: Color)
        ensures
            *final(self) == (EditorTools { text_options: final(self).text_options, ..*old(self) }),
            final(self).text_options == (TextOptions { color, ..old(self).text_options }),
    {
        self.text_options.set_color(color);
    }

    pub fn set_text_size(&mut self, size: u8)
        ensures
            *final(self) == (EditorTools { text_options: final(self).text_options, ..*old(self) }),
            final(self).text_options == (TextOptions { size, ..old(self).text_options }),
    {
        self.text_options.set_size(size);
    }

    pub fn set_text_weight(&mut self, weight: u16)
        ensures
            *final(self) == (EditorTools { text_options: final(self).text_options, ..*old(self) }),
            final(self).text_options == (TextOptions { weight, ..old(self).text_options }),
    {
        self.text_options.set_weight(weight);
    }

    pub fn set_text_family(&mut self, family: TextFontFamily)
        ensures
            *final(self) == (EditorTools { text_options: final(self).text_options, ..*old(self) }),
            final(self).text_options == (TextOptions { family, ..old(self).text_options }),
    {
        self.text_options.set_family(family);
    }

    /// One shared drawing color fanned out to pen, arrow, rectangle and text.
    pub fn set_shared_stroke_color(&mut self, color: Color)
        ensures
            *final(self) == (EditorTools {
                pen_options: PenOptions { color, ..old(self).pen_options },
                arrow_options: ArrowOptions { color, ..old(self).arrow_options },
                rectangle_options: RectangleOptions { color, ..old(self).rectangle_options },
                text_options: TextOptions { color, ..old(self).text_options },
                ..*old(self)
            }),
    {
        self.set_pen_color(color);
        self.set_arrow_color(color);
        self.set_rectangle_color(color);
        self.set_text_color(color);
    }

    /// One shared stroke thickness fanned out to pen, arrow and rectangle.
    pub fn set_shared_stroke_thickness(&mut self, thickness: u8)
        ensures
            ({
                let t = if thickness < 1 { 1u8 } else { thickness };
                *final(self) == (EditorTools {
                    pen_options: PenOptions { thickness: t, ..old(self).pen_options },
                    arrow_options: ArrowOptions { thickness: t, ..old(self).arrow_options },
                    rectangle_options: RectangleOptions {
                        thickness: t,
                        ..old(self).rectangle_options
                    },
                    ..*old(self)
                })
            }),
    {
        self.set_pen_thickness(thickness);
        self.set_arrow_thickness(thickness);
        self.set_rectangle_thickness(thickness);
    }

    /// Validate a blur region and add it with the current sticky options.
    pub fn add_blur(&mut self, region: BlurRegion) -> (r: Result<u64, ToolError>)
        requires
            old(self).wf(),
            old(self).next_id < u64::MAX,
        ensures
            final(self).wf(),
            !region.spec_is_valid() ==> r == Err::<u64, ToolError>(ToolError::InvalidBlurRegion)
                && *final(self) == *old(self),
            region.spec_is_valid() ==> {
                &&& r == Ok::<u64, ToolError>(old(self).next_id)
                &&& *final(self) == (EditorTools {
                    objects: final(self).objects,
                    next_id: (old(self).next_id + 1) as u64,
                    ..*old(self)
                })
                &&& final(self).objects@ == old(self).objects@.push(
                    ToolObject::Blur(BlurElement {
                        id: old(self).next_id,
                        region,
                        options: old(self).blur_options,
                        anchor: ToolPoint { x: region.x, y: region.y },
                    }),
                )
            },
    {
        if !region.is_valid() {
            return Err(ToolError::InvalidBlurRegion);
        }
        let id = self.allocate_id();
        let element = BlurElement::new(id, region, self.blur_options);
        self.objects.push(ToolObject::Blur(element));
        proof {
            lemma_push_preserves_wf(old(self), self, ToolObject::Blur(BlurElement {
                id: old(self).next_id,
                region,
                options: old(self).blur_options,
                anchor: ToolPoint { x: region.x, y: region.y },
            }));
        }
        Ok(id)
    }

    /// Reject a zero-length arrow, otherwise add it.
    pub fn add_arrow(&mut self, start: ToolPoint, end: ToolPoint) -> (r: Result<u64, ToolError>)
        requires
            old(self).wf(),
            old(self).next_id < u64::MAX,
        ensures
            final(self).wf(),
            start == end ==> r == Err::<u64, ToolError>(ToolError::InvalidArrowGeometry)
                && *final(self) == *old(self),
            start != end ==> {
                &&& r == Ok::<u64, ToolError>(old(self).next_id)
                &&& *final(self) == (EditorTools {
                    objects: final(self).objects,
                    next_id: (old(self).next_id + 1) as u64,
                    ..*old(self)
                })
                &&& final(self).objects@ == old(self).objects@.push(
                    ToolObject::Arrow(ArrowElement {
                        id: old(self).next_id,
                        start,
                        end,
                        options: old(self).arrow_options,
                    }),
                )
            },
    {
        if start.x == end.x && start.y == end.y {
            return Err(ToolError::InvalidArrowGeometry);
        }
        let id = self.allocate_id();
        let element = ArrowElement::new(id, start, end, self.arrow_options);
        self.objects.push(ToolObject::Arrow(element));
        proof {
            lemma_push_preserves_wf(old(self), self, ToolObject::Arrow(ArrowElement {
                id: old(self).next_id,
                start,
                end,
                options: old(self).arrow_options,
            }));
        }
        Ok(id)
    }

    /// Normalize a dragged rectangle, rejecting a flat one.
    pub fn add_rectangle(&mut self, start: ToolPoint, end: ToolPoint) -> (r: Result<
        u64,
        ToolError,
    >)
        requires
            old(self).wf(),
            old(self).next_id < u64::MAX,
        ensures
            final(self).wf(),
            start.x == end.x || start.y == end.y ==> r == Err::<u64, ToolError>(
                ToolError::InvalidRectangleGeometry,
            ) && *final(self) == *old(self),
            start.x != end.x && start.y != end.y ==> {
                &&& r == Ok::<u64, ToolError>(old(self).next_id)
                &&& *final(self) == (EditorTools {
                    objects: final(self).objects,
                    next_id: (old(self).next_id + 1) as u64,
                    ..*old(self)
                })
                &&& final(self).objects@ == old(self).objects@.push(
                    ToolObject::Rectangle(RectangleElement {
                        id: old(self).next_id,
                        x: if start.x <= end.x { start.x } else { end.x },
                        y: if start.y <= end.y { start.y } else { end.y },
                        width: (if end.x as int - start.x as int >= 0 {
                            end.x as int - start.x as int
                        } else {
                            start.x as int - end.x as int
                        }) as u32,
                        height: (if end.y as int - start.y as int >= 0 {
                            end.y as int - start.y as int
                        } else {
                            start.y as int - end.y as int
                        }) as u32,
                        options: old(self).rectangle_options,
                    }),
                )
            },
    {
        let dx: i64 = end.x as i64 - start.x as i64;
        let dy: i64 = end.y as i64 - start.y as i64;
        let width: i64 = if dx >= 0 {
            dx
        } else {
            -dx
        };
        let height: i64 = if dy >= 0 {
            dy
        } else {
            -dy
        };
        if width == 0 || height == 0 {
            return Err(ToolError::InvalidRectangleGeometry);
        }
        let id = self.allocate_id();
        let x = if start.x <= end.x {
            start.x
        } else {
            end.x
        };
        let y = if start.y <= end.y {
            start.y
        } else {
            end.y
        };
        let element = RectangleElement::new(id, x, y, width as u32, height as u32, self.rectangle_options);
        self.objects.push(ToolObject::Rectangle(element));
        proof {
            lemma_push_preserves_wf(old(self), self, final(self).objects@.last());
        }
        Ok(id)
    }
}

/// The tool that owns an object.
pub open spec fn spec_kind(o: ToolObject) -> ToolKind {
    match o {
        ToolObject::Blur(_) => ToolKind::Blur,
        ToolObject::Pen(_) => ToolKind::Pen,
        ToolObject::Arrow(_) => ToolKind::Arrow,
        ToolObject::Rectangle(_) => ToolKind::Rectangle,
        ToolObject::Crop(_) => ToolKind::Crop,
        ToolObject::Text(_) => ToolKind::Text,
    }
}

/// How many objects of `s` belong to tool `k`.
pub open spec fn spec_count_kind(s: Seq<ToolObject>, k: ToolKind) -> int
    decreases s.len(),
{
    if s.len() == 0 {
        0
    } else {
        spec_count_kind(s.drop_last(), k) + if spec_kind(s.last()) == k {
            1int
        } else {
            0int
        }
    }
}

/// The crop elements of `s`, in order.
pub open spec fn spec_crops_of(s: Seq<ToolObject>) -> Seq<CropElement>
    decreases s.len(),
{
    if s.len() == 0 {
        Seq::empty()
    } else {
        spec_crops_of(s.drop_last()) + match s.last() {
            ToolObject::Crop(c) => seq![c],
            _ => Seq::empty(),
        }
    }
}

/// The ratio a crop preset locks a box to, with `Original` substituting the
/// image's own ratio; `None` for the free preset.
pub open spec fn spec_effective_ratio(preset: CropPreset, iw: int, ih: int) -> Option<(int, int)> {
    match preset.spec_ratio() {
        Some(r) => Some((r.0 as int, r.1 as int)),
        None => if preset is Original {
            Some((iw, ih))
        } else {
            None
        },
    }
}

/// The crop box that `add_crop_in_bounds` stores for a drag, or `None` when
/// the drag is rejected: the normalized box, ratio-adjusted under a locked
/// preset, and held to the minimum crop size.
pub open spec fn spec_crop_box_for(
    preset: CropPreset,
    sx: int,
    sy: int,
    ex: int,
    ey: int,
    iw: int,
    ih: int,
) -> Option<(int, int, int, int)> {
    match crate::constraints::spec_normalize_crop_box(sx, sy, ex, ey, iw, ih) {
        None => None,
        Some(b) => {
            if preset is Original && (iw == u32::MAX as int || ih == u32::MAX as int) {
                None
            } else {
                match spec_effective_ratio(preset, iw, ih) {
                    Some((rx, ry)) => {
                        let adjusted = crate::constraints::spec_adjust_ratio_to_fit(
                            b.2,
                            b.3,
                            rx,
                            ry,
                        );
                        if adjusted.0 == 0 || adjusted.1 == 0 {
                            None
                        } else if adjusted.0 < CROP_MIN_SIZE as int || adjusted.1 < CROP_MIN_SIZE as int {
                            None
                        } else {
                            Some((b.0, b.1, adjusted.0, adjusted.1))
                        }
                    },
                    None => {
                        if b.2 < CROP_MIN_SIZE as int || b.3 < CROP_MIN_SIZE as int {
                            None
                        } else {
                            Some((b.0, b.1, b.2, b.3))
                        }
                    },
                }
            }
        },
    }
}

/// Law: a stored crop box is never below the minimum crop size, and under a
/// ratio-locked preset it meets the ratio up to one unit of integer rounding
/// (as long as neither scaled dimension overflows the `u32` range).
pub proof fn lemma_crop_box_ratio(
    preset: CropPreset,
    sx: int,
    sy: int,
    ex: int,
    ey: int,
    iw: int,
    ih: int,
)
    requires
        spec_crop_box_for(preset, sx, sy, ex, ey, iw, ih) is Some,
        ({
            let nb = crate::constraints::spec_normalize_crop_box(sx, sy, ex, ey, iw, ih);
            match spec_effective_ratio(preset, iw, ih) {
                Some((rx, ry)) => nb matches Some(b) && b.3 * rx <= u32::MAX as int * ry && b.2 * ry
                    <= u32::MAX as int * rx,
                None => true,
            }
        }),
    ensures
        ({
            let b = spec_crop_box_for(preset, sx, sy, ex, ey, iw, ih).unwrap();
            &&& b.2 >= CROP_MIN_SIZE as int && b.3 >= CROP_MIN_SIZE as int
            &&& match spec_effective_ratio(preset, iw, ih) {
                Some((rx, ry)) => rx > 0 && ry > 0 ==> ((b.2 * ry <= b.3 * rx < (b.2 + 1) * ry) || (
                b.3 * rx <= b.2 * ry < (b.3 + 1) * rx)),
                None => true,
            }
        }),
{
    let nb = crate::constraints::spec_normalize_crop_box(sx, sy, ex, ey, iw, ih);
    match spec_effective_ratio(preset, iw, ih) {
        Some((rx, ry)) => {
            let b = nb.unwrap();
            crate::constraints::lemma_normalize_crop_box(sx, sy, ex, ey, iw, ih);
            if rx > 0 && ry > 0 {
                crate::constraints::lemma_adjust_ratio_rounding(b.2, b.3, rx, ry);
            }
        },
        None => {},
    }
}

impl ToolObject {
    pub fn kind(&self) -> (r: ToolKind)
        ensures
            r == spec_kind(*self),
    {
        match self {
            ToolObject::Blur(_) => ToolKind::Blur,
            ToolObject::Pen(_) => ToolKind::Pen,
            ToolObject::Arrow(_) => ToolKind::Arrow,
            ToolObject::Rectangle(_) => ToolKind::Rectangle,
            ToolObject::Crop(_) => ToolKind::Crop,
            ToolObject::Text(_) => ToolKind::Text,
        }
    }
}

impl EditorTools {
    /// Normalize a crop drag, apply the active aspect preset, and add the
    /// crop; rejected drags leave the store untouched.
    pub fn add_crop_in_bounds(
        &mut self,
        start: ToolPoint,
        end: ToolPoint,
        image_width: u32,
        image_height: u32,
    ) -> (r: Result<u64, ToolError>)
        requires
            old(self).wf(),
            old(self).next_id < u64::MAX,
        ensures
            final(self).wf(),
            ({
                let outcome = spec_crop_box_for(
                    old(self).crop_options.preset,
                    start.x as int,
                    start.y as int,
                    end.x as int,
                    end.y as int,
                    image_width as int,
                    image_height as int,
                );
                match outcome {
                    None => r == Err::<u64, ToolError>(ToolError::InvalidCropGeometry) && *final(self)
                        == *old(self),
                    Some(b) => {
                        &&& r == Ok::<u64, ToolError>(old(self).next_id)
                        &&& *final(self) == (EditorTools {
                            objects: final(self).objects,
                            next_id: (old(self).next_id + 1) as u64,
                            ..*old(self)
                        })
                        &&& final(self).objects@ == old(self).objects@.push(
                            ToolObject::Crop(CropElement {
                                id: old(self).next_id,
                                x: b.0 as i32,
                                y: b.1 as i32,
                                width: b.2 as u32,
                                height: b.3 as u32,
                                options: old(self).crop_options,
                            }),
                        )
                    },
                }
            }),
    {
        let preset = self.crop_options.preset;
        let norm = crate::constraints::normalize_crop_box(
            start.x,
            start.y,
            end.x,
            end.y,
            image_width,
            image_height,
        );
        let (x, y, mut width, mut height) = match norm {
            Some(t) => t,
            None => {
                return Err(ToolError::InvalidCropGeometry);
            },
        };
        if matches!(preset, CropPreset::Original) && (image_width == u32::MAX || image_height
            == u32::MAX) {
            return Err(ToolError::InvalidCropGeometry);
        }
        let ratio_opt: Option<(u32, u32)> = match preset.ratio() {
            Some(rp) => Some(rp),
            None => {
                if matches!(preset, CropPreset::Original) {
                    Some((image_width, image_height))
                } else {
                    None
                }
            },
        };
        match ratio_opt {
            Some((rx, ry)) => {
                let adjusted = crate::constraints::adjust_ratio_to_fit(width, height, rx, ry);
                width = adjusted.0;
                height = adjusted.1;
                if width == 0 || height == 0 {
                    return Err(ToolError::InvalidCropGeometry);
                }
            },
            None => {},
        }
        if width < CROP_MIN_SIZE || height < CROP_MIN_SIZE {
            return Err(ToolError::InvalidCropGeometry);
        }
        let id = self.allocate_id();
        let crop = CropElement::new(id, x, y, width, height, self.crop_options);
        self.objects.push(ToolObject::Crop(crop));
        proof {
            lemma_push_preserves_wf(old(self), self, final(self).objects@.last());
        }
        Ok(id)
    }

    /// Start a pen stroke at `start`; the stroke stays active for appending.
    pub fn begin_pen_stroke(&mut self, start: ToolPoint) -> (id: u64)
        requires
            old(self).wf(),
            old(self).next_id < u64::MAX,
        ensures
            final(self).wf(),
            id == old(self).next_id,
            *final(self) == (EditorTools {
                objects: final(self).objects,
                next_id: (old(self).next_id + 1) as u64,
                active_pen_stroke: Some(id),
                ..*old(self)
            }),
            final(self).objects@ == old(self).objects@.push(
                ToolObject::Pen(PenStroke {
                    id,
                    points: final(self).objects@.last()->Pen_0.points,
                    options: old(self).pen_options,
                    finalized: false,
                }),
            ),
            final(self).objects@.last() matches ToolObject::Pen(p) && p.points@ == seq![
                PenPoint { x: start.x, y: start.y },
            ],
    {
        let id = self.allocate_id();
        let stroke = PenStroke::new(id, PenPoint::new(start.x, start.y), self.pen_options);
        self.objects.push(ToolObject::Pen(stroke));
        self.active_pen_stroke = Some(id);
        proof {
            let pre_push = EditorTools { active_pen_stroke: old(self).active_pen_stroke, ..*self };
            lemma_push_preserves_wf(old(self), &pre_push, final(self).objects@.last());
            assert(final(self).objects@[final(self).objects@.len() - 1] matches ToolObject::Pen(p)
                && p.id == id);
            assert(spec_has_pen(final(self).objects@, id));
        }
        id
    }

    /// Append a point to the active pen stroke.
    pub fn append_pen_point(&mut self, stroke_id: u64, point: ToolPoint) -> (r: Result<
        (),
        ToolError,
    >)
        requires
            old(self).wf(),
        ensures
            final(self).wf(),
            old(self).active_pen_stroke is None ==> r == Err::<(), ToolError>(
                ToolError::ToolNotSelected,
            ) && *final(self) == *old(self),
            ({
                let f = spec_find_id(old(self).objects@, stroke_id);
                old(self).active_pen_stroke is Some ==> {
                    if f < old(self).objects@.len() && old(self).objects@[f] matches ToolObject::Pen(_) {
                        &&& r == Ok::<(), ToolError>(())
                        &&& *final(self) == (EditorTools {
                            objects: final(self).objects,
                            ..*old(self)
                        })
                        &&& final(self).objects@ == old(self).objects@.update(
                            f,
                            ToolObject::Pen(PenStroke {
                                points: final(self).objects@[f]->Pen_0.points,
                                ..old(self).objects@[f]->Pen_0
                            }),
                        )
                        &&& final(self).objects@[f]->Pen_0.points@ == old(
                            self,
                        ).objects@[f]->Pen_0.points@.push(PenPoint { x: point.x, y: point.y })
                    } else {
                        r == Err::<(), ToolError>(ToolError::PenStrokeNotFound) && *final(self)
                            == *old(self)
                    }
                }
            }),
    {
        if self.active_pen_stroke.is_none() {
            return Err(ToolError::ToolNotSelected);
        }
        let idx = self.find_index(stroke_id);
        if idx == self.objects.len() {
            return Err(ToolError::PenStrokeNotFound);
        }
        if !matches!(&self.objects[idx], ToolObject::Pen(_)) {
            return Err(ToolError::PenStrokeNotFound);
        }
        let obj = &mut self.objects[idx];
        match obj {
            ToolObject::Pen(stroke) => {
                stroke.append_point(PenPoint::new(point.x, point.y));
            },
            _ => {
                proof {
                    assert(false);
                }
            },
        }
        proof {
            lemma_update_keeps_wf(old(self), self, idx as int);
        }
        Ok(())
    }

    /// Finalize a pen stroke. Finishing clears the active-stroke reference
    /// regardless of success.
    pub fn finish_pen_stroke(&mut self, stroke_id: u64) -> (r: Result<(), ToolError>)
        requires
            old(self).wf(),
        ensures
            final(self).wf(),
            final(self).active_pen_stroke is None,
            ({
                let f = spec_find_id(old(self).objects@, stroke_id);
                if f < old(self).objects@.len() && old(self).objects@[f] matches ToolObject::Pen(_) {
                    &&& r == Ok::<(), ToolError>(())
                    &&& *final(self) == (EditorTools {
                        objects: final(self).objects,
                        active_pen_stroke: None,
                        ..*old(self)
                    })
                    &&& final(self).objects@ == old(self).objects@.update(
                        f,
                        ToolObject::Pen(PenStroke {
                            finalized: true,
                            ..old(self).objects@[f]->Pen_0
                        }),
                    )
                } else {
                    r == Err::<(), ToolError>(ToolError::PenStrokeNotFound) && *final(self) == (
                    EditorTools { active_pen_stroke: None, ..*old(self) })
                }
            }),
    {
        self.active_pen_stroke = None;
        let idx = self.find_index(stroke_id);
        if idx == self.objects.len() {
            return Err(ToolError::PenStrokeNotFound);
        }
        if !matches!(&self.objects[idx], ToolObject::Pen(_)) {
            return Err(ToolError::PenStrokeNotFound);
        }
        let obj = &mut self.objects[idx];
        match obj {
            ToolObject::Pen(stroke) => {
                stroke.finalize();
            },
            _ => {
                proof {
                    assert(false);
                }
            },
        }
        proof {
            let pre = EditorTools { active_pen_stroke: old(self).active_pen_stroke, ..*self };
            lemma_update_keeps_wf(old(self), &pre, idx as int);
        }
        Ok(())
    }

    /// Add an empty text box at `at` and give it focus.
    pub fn add_text_box(&mut self, at: ToolPoint) -> (id: u64)
        requires
            old(self).wf(),
            old(self).next_id < u64::MAX,
        ensures
            final(self).wf(),
            id == old(self).next_id,
            *final(self) == (EditorTools {
                objects: final(self).objects,
                next_id: (old(self).next_id + 1) as u64,
                active_text_box: Some(id),
                active_tool: ToolKind::Text,
                ..*old(self)
            }),
            final(self).objects@ == old(self).objects@.push(
                ToolObject::Text(final(self).objects@.last()->Text_0),
            ),
            final(self).objects@.last() matches ToolObject::Text(t) && t == (TextElement {
                id,
                x: at.x,
                y: at.y,
                content: t.content,
                cursor: 0,
                options: old(self).text_options,
            }) && t.content@ == Seq::<char>::empty(),
    {
        let id = self.allocate_id();
        let element = TextElement::new(id, at, self.text_options);
        self.objects.push(ToolObject::Text(element));
        self.active_text_box = Some(id);
        self.active_tool = ToolKind::Text;
        proof {
            let pre_push = EditorTools {
                active_text_box: old(self).active_text_box,
                active_tool: old(self).active_tool,
                ..*self
            };
            lemma_push_preserves_wf(old(self), &pre_push, final(self).objects@.last());
            assert(final(self).objects@[final(self).objects@.len() - 1] matches ToolObject::Text(t)
                && t.id == id);
            assert(spec_has_text(final(self).objects@, id));
        }
        id
    }

    /// Add a text box seeded with `text`, cursor at the end, and focus it.
    pub fn add_text_box_with_text(&mut self, at: ToolPoint, text: &str) -> (id: u64)
        requires
            old(self).wf(),
            old(self).next_id < u64::MAX,
        ensures
            final(self).wf(),
            id == old(self).next_id,
            *final(self) == (EditorTools {
                objects: final(self).objects,
                next_id: (old(self).next_id + 1) as u64,
                active_text_box: Some(id),
                active_tool: ToolKind::Text,
                ..*old(self)
            }),
            final(self).objects@ == old(self).objects@.push(
                ToolObject::Text(final(self).objects@.last()->Text_0),
            ),
            final(self).objects@.last() matches ToolObject::Text(t) && t == (TextElement {
                id,
                x: at.x,
                y: at.y,
                content: t.content,
                cursor: t.cursor,
                options: old(self).text_options,
            }) && t.content@ == text@ && t.cursor == text@.len(),
    {
        let id = self.allocate_id();
        let element = TextElement::with_text(id, at, text, self.text_options);
        self.objects.push(ToolObject::Text(element));
        self.active_text_box = Some(id);
        self.active_tool = ToolKind::Text;
        proof {
            let pre_push = EditorTools {
                active_text_box: old(self).active_text_box,
                active_tool: old(self).active_tool,
                ..*self
            };
            lemma_push_preserves_wf(old(self), &pre_push, final(self).objects@.last());
            assert(final(self).objects@[final(self).objects@.len() - 1] matches ToolObject::Text(t)
                && t.id == id);
            assert(spec_has_text(final(self).objects@, id));
        }
        id
    }

    /// Drop text focus; true when a text box was focused.
    pub fn finish_text_box(&mut self) -> (r: bool)
        ensures
            r == (old(self).active_text_box is Some),
            *final(self) == (EditorTools { active_text_box: None, ..*old(self) }),
    {
        let had = self.active_text_box.is_some();
        self.active_text_box = None;
        had
    }

    /// Focus the text box with `id`, moving its cursor to the end.
    pub fn focus_text_box(&mut self, id: u64) -> (r: bool)
        requires
            old(self).wf(),
        ensures
            final(self).wf(),
            ({
                let f = spec_find_id(old(self).objects@, id);
                if f < old(self).objects@.len() && old(self).objects@[f] matches ToolObject::Text(_) {
                    &&& r
                    &&& *final(self) == (EditorTools {
                        objects: final(self).objects,
                        active_text_box: Some(id),
                        ..*old(self)
                    })
                    &&& final(self).objects@ == old(self).objects@.update(
                        f,
                        ToolObject::Text(TextElement {
                            cursor: old(self).objects@[f]->Text_0.content@.len() as usize,
                            ..old(self).objects@[f]->Text_0
                        }),
                    )
                } else {
                    !r && *final(self) == *old(self)
                }
            }),
    {
        let idx = self.find_index(id);
        if idx == self.objects.len() {
            return false;
        }
        if !matches!(&self.objects[idx], ToolObject::Text(_)) {
            return false;
        }
        let obj = &mut self.objects[idx];
        match obj {
            ToolObject::Text(text) => {
                text.move_cursor_to_end();
            },
            _ => {
                proof {
                    assert(false);
                }
            },
        }
        self.active_text_box = Some(id);
        proof {
            let pre = EditorTools { active_text_box: old(self).active_text_box, ..*self };
            lemma_update_keeps_wf(old(self), &pre, idx as int);
            assert(self.objects@[idx as int] matches ToolObject::Text(t) && t.id == id);
            assert(spec_has_text(self.objects@, id));
        }
        true
    }
}

impl EditorTools {
    /// The live objects, in z-order.
    pub fn objects(&self) -> (r: &Vec<ToolObject>)
        ensures
            r@ == self.objects@,
    {
        &self.objects
    }

    pub fn active_text_id(&self) -> (r: Option<u64>)
        ensures
            r == self.active_text_box,
    {
        self.active_text_box
    }

    pub fn object(&self, id: u64) -> (r: Option<&ToolObject>)
        ensures
            ({
                let f = spec_find_id(self.objects@, id);
                match r {
                    Some(o) => f < self.objects@.len() && *o == self.objects@[f],
                    None => !spec_has_id(self.objects@, id),
                }
            }),
    {
        let idx = self.find_index(id);
        if idx < self.objects.len() {
            Some(&self.objects[idx])
        } else {
            None
        }
    }

    pub fn get_crop(&self, id: u64) -> (r: Option<&CropElement>)
        ensures
            ({
                let f = spec_find_id(self.objects@, id);
                match r {
                    Some(c) => f < self.objects@.len() && self.objects@[f] == ToolObject::Crop(*c),
                    None => !(f < self.objects@.len() && self.objects@[f] matches ToolObject::Crop(
                        _,
                    )),
                }
            }),
    {
        let idx = self.find_index(id);
        if idx < self.objects.len() {
            match &self.objects[idx] {
                ToolObject::Crop(c) => Some(c),
                _ => None,
            }
        } else {
            None
        }
    }

    pub fn get_blur(&self, id: u64) -> (r: Option<&BlurElement>)
        ensures
            ({
                let f = spec_find_id(self.objects@, id);
                match r {
                    Some(e) => f < self.objects@.len() && self.objects@[f] == ToolObject::Blur(*e),
                    None => !(f < self.objects@.len() && self.objects@[f] matches ToolObject::Blur(
                        _,
                    )),
                }
            }),
    {
        let idx = self.find_index(id);
        if idx < self.objects.len() {
            match &self.objects[idx] {
                ToolObject::Blur(e) => Some(e),
                _ => None,
            }
        } else {
            None
        }
    }

    pub fn get_pen_stroke(&self, id: u64) -> (r: Option<&PenStroke>)
        ensures
            ({
                let f = spec_find_id(self.objects@, id);
                match r {
                    Some(e) => f < self.objects@.len() && self.objects@[f] == ToolObject::Pen(*e),
                    None => !(f < self.objects@.len() && self.objects@[f] matches ToolObject::Pen(
                        _,
                    )),
                }
            }),
    {
        let idx = self.find_index(id);
        if idx < self.objects.len() {
            match &self.objects[idx] {
                ToolObject::Pen(e) => Some(e),
                _ => None,
            }
        } else {
            None
        }
    }

    pub fn get_arrow(&self, id: u64) -> (r: Option<&ArrowElement>)
        ensures
            ({
                let f = spec_find_id(self.objects@, id);
                match r {
                    Some(e) => f < self.objects@.len() && self.objects@[f] == ToolObject::Arrow(*e),
                    None => !(f < self.objects@.len() && self.objects@[f] matches ToolObject::Arrow(
                        _,
                    )),
                }
            }),
    {
        let idx = self.find_index(id);
        if idx < self.objects.len() {
            match &self.objects[idx] {
                ToolObject::Arrow(e) => Some(e),
                _ => None,
            }
        } else {
            None
        }
    }

    pub fn get_rectangle(&self, id: u64) -> (r: Option<&RectangleElement>)
        ensures
            ({
                let f = spec_find_id(self.objects@, id);
                match r {
                    Some(e) => f < self.objects@.len() && self.objects@[f] == ToolObject::Rectangle(
                        *e,
                    ),
                    None => !(f < self.objects@.len() && self.objects@[f] matches
                    ToolObject::Rectangle(_)),
                }
            }),
    {
        let idx = self.find_index(id);
        if idx < self.objects.len() {
            match &self.objects[idx] {
                ToolObject::Rectangle(e) => Some(e),
                _ => None,
            }
        } else {
            None
        }
    }

    pub fn get_text(&self, id: u64) -> (r: Option<&TextElement>)
        ensures
            ({
                let f = spec_find_id(self.objects@, id);
                match r {
                    Some(t) => f < self.objects@.len() && self.objects@[f] == ToolObject::Text(*t),
                    None => !(f < self.objects@.len() && self.objects@[f] matches ToolObject::Text(
                        _,
                    )),
                }
            }),
    {
        let idx = self.find_index(id);
        if idx < self.objects.len() {
            match &self.objects[idx] {
                ToolObject::Text(t) => Some(t),
                _ => None,
            }
        } else {
            None
        }
    }

    /// A mutable borrow of the text element with `id`; what the caller
    /// writes through it lands back at the same slot.
    pub fn get_text_mut(&mut self, id: u64) -> (r: Option<&mut TextElement>)
        ensures
            ({
                let f = spec_find_id(old(self).objects@, id);
                match r {
                    Some(t) => {
                        &&& f < old(self).objects@.len()
                        &&& old(self).objects@[f] == ToolObject::Text(*t)
                        &&& final(self).objects@ == old(self).objects@.update(
                            f,
                            ToolObject::Text(*final(t)),
                        )
                        &&& *final(self) == (EditorTools {
                            objects: final(self).objects,
                            ..*old(self)
                        })
                    },
                    None => !(f < old(self).objects@.len() && old(self).objects@[f] matches
                        ToolObject::Text(_)) && *final(self) == *old(self),
                }
            }),
    {
        let idx = self.find_index(id);
        if idx == self.objects.len() {
            return None;
        }
        if !matches!(&self.objects[idx], ToolObject::Text(_)) {
            return None;
        }
        let obj = &mut self.objects[idx];
        match obj {
            ToolObject::Text(t) => Some(t),
            _ => {
                proof {
                    assert(false);
                }
                None
            },
        }
    }

    pub fn active_text(&self) -> (r: Option<&TextElement>)
        ensures
            ({
                match self.active_text_box {
                    None => r is None,
                    Some(id) => {
                        let f = spec_find_id(self.objects@, id);
                        match r {
                            Some(t) => f < self.objects@.len() && self.objects@[f]
                                == ToolObject::Text(*t),
                            None => !(f < self.objects@.len() && self.objects@[f] matches
                                ToolObject::Text(_)),
                        }
                    },
                }
            }),
    {
        match self.active_text_box {
            Some(id) => self.get_text(id),
            None => None,
        }
    }

    /// The focused text box's content, if one is focused.
    pub fn active_text_focus_content(&self) -> (r: Option<&str>)
        ensures
            ({
                match self.active_text_box {
                    None => r is None,
                    Some(id) => {
                        let f = spec_find_id(self.objects@, id);
                        match r {
                            Some(s) => f < self.objects@.len() && (self.objects@[f] matches
                                ToolObject::Text(t) && s@ == t.content@),
                            None => !(f < self.objects@.len() && self.objects@[f] matches
                                ToolObject::Text(_)),
                        }
                    },
                }
            }),
    {
        match self.active_text() {
            Some(t) => Some(t.content.as_str()),
            None => None,
        }
    }

    fn count_kind(&self, kind: ToolKind) -> (r: usize)
        ensures
            r as int == spec_count_kind(self.objects@, kind),
    {
        let n = self.objects.len();
        let mut count: usize = 0;
        let mut i: usize = 0;
        while i < n
            invariant
                n == self.objects@.len(),
                i <= n,
                count <= i,
                count as int == spec_count_kind(self.objects@.subrange(0, i as int), kind),
            decreases n - i,
        {
            if self.objects[i].kind() == kind {
                count += 1;
            }
            i += 1;
            proof {
                assert(self.objects@.subrange(0, i as int).drop_last() =~= self.objects@.subrange(
                    0,
                    i as int - 1,
                ));
            }
        }
        proof {
            assert(self.objects@.subrange(0, n as int) =~= self.objects@);
        }
        count
    }

    pub fn blur_count(&self) -> (r: usize)
        ensures
            r as int == spec_count_kind(self.objects@, ToolKind::Blur),
    {
        self.count_kind(ToolKind::Blur)
    }

    pub fn pen_stroke_count(&self) -> (r: usize)
        ensures
            r as int == spec_count_kind(self.objects@, ToolKind::Pen),
    {
        self.count_kind(ToolKind::Pen)
    }

    pub fn arrow_count(&self) -> (r: usize)
        ensures
            r as int == spec_count_kind(self.objects@, ToolKind::Arrow),
    {
        self.count_kind(ToolKind::Arrow)
    }

    pub fn rectangle_count(&self) -> (r: usize)
        ensures
            r as int == spec_count_kind(self.objects@, ToolKind::Rectangle),
    {
        self.count_kind(ToolKind::Rectangle)
    }

    pub fn crop_count(&self) -> (r: usize)
        ensures
            r as int == spec_count_kind(self.objects@, ToolKind::Crop),
    {
        self.count_kind(ToolKind::Crop)
    }

    pub fn text_count(&self) -> (r: usize)
        ensures
            r as int == spec_count_kind(self.objects@, ToolKind::Text),
    {
        self.count_kind(ToolKind::Text)
    }

    /// The crop elements, in z-order.
    pub fn crops(&self) -> (r: Vec<CropElement>)
        ensures
            r@ == spec_crops_of(self.objects@),
    {
        let n = self.objects.len();
        let mut out: Vec<CropElement> = Vec::new();
        let mut i: usize = 0;
        while i < n
            invariant
                n == self.objects@.len(),
                i <= n,
                out@ == spec_crops_of(self.objects@.subrange(0, i as int)),
            decreases n - i,
        {
            match &self.objects[i] {
                ToolObject::Crop(c) => {
                    out.push(*c);
                },
                _ => {},
            }
            i += 1;
            proof {
                assert(self.objects@.subrange(0, i as int).drop_last() =~= self.objects@.subrange(
                    0,
                    i as int - 1,
                ));
            }
        }
        proof {
            assert(self.objects@.subrange(0, n as int) =~= self.objects@);
        }
        out
    }

    /// Clear the active pen / text reference when it points at `object`.
    fn clear_active_state_for_object(&mut self, object: &ToolObject)
        ensures
            *final(self) == (EditorTools {
                active_pen_stroke: final(self).active_pen_stroke,
                active_text_box: final(self).active_text_box,
                ..*old(self)
            }),
            final(self).active_pen_stroke == if object matches ToolObject::Pen(p) && old(
                self,
            ).active_pen_stroke == Some(p.id) {
                None
            } else {
                old(self).active_pen_stroke
            },
            final(self).active_text_box == if object matches ToolObject::Text(t) && old(
                self,
            ).active_text_box == Some(t.id) {
                None
            } else {
                old(self).active_text_box
            },
    {
        match object {
            ToolObject::Pen(stroke) => {
                let clear = match self.active_pen_stroke {
                    Some(active) => active == stroke.id,
                    None => false,
                };
                if clear {
                    self.active_pen_stroke = None;
                }
            },
            ToolObject::Text(text) => {
                let clear = match self.active_text_box {
                    Some(active) => active == text.id,
                    None => false,
                };
                if clear {
                    self.active_text_box = None;
                }
            },
            _ => {},
        }
    }

    /// Remove and return the most recently added object, clearing an active
    /// reference that pointed at it.
    pub fn pop_last_object(&mut self) -> (r: Option<ToolObject>)
        requires
            old(self).wf(),
        ensures
            final(self).wf(),
            old(self).objects@.len() == 0 ==> r is None && *final(self) == *old(self),
            old(self).objects@.len() > 0 ==> {
                &&& r == Some(old(self).objects@.last())
                &&& final(self).objects@ == old(self).objects@.drop_last()
                &&& *final(self) == (EditorTools {
                    objects: final(self).objects,
                    active_pen_stroke: final(self).active_pen_stroke,
                    active_text_box: final(self).active_text_box,
                    ..*old(self)
                })
                &&& final(self).active_pen_stroke == if old(self).objects@.last() matches
                    ToolObject::Pen(p) && old(self).active_pen_stroke == Some(p.id) {
                    None
                } else {
                    old(self).active_pen_stroke
                }
                &&& final(self).active_text_box == if old(self).objects@.last() matches
                    ToolObject::Text(t) && old(self).active_text_box == Some(t.id) {
                    None
                } else {
                    old(self).active_text_box
                }
            },
    {
        if self.objects.is_empty() {
            return None;
        }
        let popped = self.objects.pop();
        match popped {
            Some(object) => {
                self.clear_active_state_for_object(&object);
                proof {
                    lemma_shrink_keeps_refs(old(self), self, old(self).objects@.len() - 1);
                }
                Some(object)
            },
            None => {
                proof {
                    assert(false);
                }
                None
            },
        }
    }

    /// Restore an object (for example from an undo snapshot), advancing the
    /// id counter past its id.
    pub fn push_object(&mut self, object: ToolObject)
        requires
            old(self).wf(),
            object.wf(),
            object.spec_id() > 0,
            object.spec_id() < u64::MAX,
            !spec_has_id(old(self).objects@, object.spec_id()),
        ensures
            final(self).wf(),
            final(self).objects@ == old(self).objects@.push(object),
            *final(self) == (EditorTools {
                objects: final(self).objects,
                next_id: if old(self).next_id >= object.spec_id() + 1 {
                    old(self).next_id
                } else {
                    (object.spec_id() + 1) as u64
                },
                ..*old(self)
            }),
    {
        let object_id = object.id();
        if object_id + 1 > self.next_id {
            self.next_id = object_id + 1;
        }
        self.objects.push(object);
        proof {
            let s = self.objects@;
            let n = old(self).objects@.len() as int;
            assert forall|i: int| 0 <= i < s.len() implies (#[trigger] s[i]).wf() by {
                if i < n {
                    assert(s[i] == old(self).objects@[i]);
                }
            }
            assert forall|i: int| 0 <= i < s.len() implies 0 < (#[trigger] s[i]).spec_id()
                < self.next_id by {
                if i < n {
                    assert(s[i] == old(self).objects@[i]);
                }
            }
            assert forall|i: int, j: int| 0 <= i < j < s.len() implies (
            #[trigger] s[i]).spec_id() != (#[trigger] s[j]).spec_id() by {
                if j < n {
                    assert(s[i] == old(self).objects@[i]);
                    assert(s[j] == old(self).objects@[j]);
                } else {
                    assert(s[i] == old(self).objects@[i]);
                    assert(s[j] == object);
                }
            }
            match self.active_pen_stroke {
                Some(id) => {
                    let w = choose|i: int|
                        0 <= i < old(self).objects@.len() && ((#[trigger] old(self).objects@[i])
                            matches ToolObject::Pen(p) && p.id == id);
                    assert(s[w] == old(self).objects@[w]);
                    assert(spec_has_pen(s, id));
                },
                None => {},
            }
            match self.active_text_box {
                Some(id) => {
                    let w = choose|i: int|
                        0 <= i < old(self).objects@.len() && ((#[trigger] old(self).objects@[i])
                            matches ToolObject::Text(t) && t.id == id);
                    assert(s[w] == old(self).objects@[w]);
                    assert(spec_has_text(s, id));
                },
                None => {},
            }
        }
    }

    /// Build a finished pen stroke from a list of points.
    pub fn add_pen_stroke(&mut self, points: &[ToolPoint]) -> (r: Result<u64, ToolError>)
        requires
            old(self).wf(),
            old(self).next_id < u64::MAX,
        ensures
            final(self).wf(),
            points@.len() == 0 ==> r == Err::<u64, ToolError>(ToolError::EmptyPenStroke)
                && *final(self) == *old(self),
            points@.len() > 0 ==> {
                &&& r == Ok::<u64, ToolError>(old(self).next_id)
                &&& *final(self) == (EditorTools {
                    objects: final(self).objects,
                    next_id: (old(self).next_id + 1) as u64,
                    ..*old(self)
                })
                &&& final(self).objects@ == old(self).objects@.push(
                    ToolObject::Pen(PenStroke {
                        id: old(self).next_id,
                        points: final(self).objects@.last()->Pen_0.points,
                        options: old(self).pen_options,
                        finalized: true,
                    }),
                )
                &&& final(self).objects@.last()->Pen_0.points@ == points@.map_values(
                    |p: ToolPoint| PenPoint { x: p.x, y: p.y },
                )
            },
    {
        if points.len() == 0 {
            return Err(ToolError::EmptyPenStroke);
        }
        let id = self.allocate_id();
        let mut stroke = PenStroke::new(id, PenPoint::new(points[0].x, points[0].y), self.pen_options);
        let mut i: usize = 1;
        while i < points.len()
            invariant
                1 <= i <= points@.len(),
                stroke.id == id,
                stroke.options == old(self).pen_options,
                !stroke.finalized,
                stroke.points@ == points@.subrange(0, i as int).map_values(
                    |p: ToolPoint| PenPoint { x: p.x, y: p.y },
                ),
            decreases points@.len() - i,
        {
            stroke.append_point(PenPoint::new(points[i].x, points[i].y));
            i += 1;
            proof {
                assert(points@.subrange(0, i as int).drop_last() =~= points@.subrange(
                    0,
                    i as int - 1,
                ));
                assert(points@.subrange(0, i as int).map_values(
                    |p: ToolPoint| PenPoint { x: p.x, y: p.y },
                ) =~= points@.subrange(0, i as int - 1).map_values(
                    |p: ToolPoint| PenPoint { x: p.x, y: p.y },
                ).push(PenPoint { x: points@[i - 1].x, y: points@[i - 1].y }));
            }
        }
        stroke.finalize();
        proof {
            assert(points@.subrange(0, points@.len() as int) =~= points@);
        }
        self.objects.push(ToolObject::Pen(stroke));
        proof {
            lemma_push_preserves_wf(old(self), self, final(self).objects@.last());
        }
        Ok(id)
    }
}

/// A clamped axis maximum: the last valid coordinate of an image extent.
pub open spec fn spec_axis_max(extent: int) -> int {
    if extent - 1 > 0 {
        extent - 1
    } else {
        0
    }
}

/// A blur element moved by a clamped delta; the anchor follows the corner.
pub open spec fn spec_moved_blur(e: BlurElement, dx: int, dy: int, iw: int, ih: int) -> BlurElement {
    let p = crate::constraints::spec_move_box_by(
        e.region.x as int,
        e.region.y as int,
        e.region.width as int,
        e.region.height as int,
        dx,
        dy,
        iw,
        ih,
    );
    BlurElement {
        region: BlurRegion { x: p.0 as i32, y: p.1 as i32, ..e.region },
        anchor: ToolPoint { x: p.0 as i32, y: p.1 as i32 },
        ..e
    }
}

pub open spec fn spec_moved_rectangle(
    e: RectangleElement,
    dx: int,
    dy: int,
    iw: int,
    ih: int,
) -> RectangleElement {
    let p = crate::constraints::spec_move_box_by(
        e.x as int,
        e.y as int,
        e.width as int,
        e.height as int,
        dx,
        dy,
        iw,
        ih,
    );
    RectangleElement { x: p.0 as i32, y: p.1 as i32, ..e }
}

pub open spec fn spec_moved_crop(e: CropElement, dx: int, dy: int, iw: int, ih: int) -> CropElement {
    let p = crate::constraints::spec_move_box_by(
        e.x as int,
        e.y as int,
        e.width as int,
        e.height as int,
        dx,
        dy,
        iw,
        ih,
    );
    CropElement { x: p.0 as i32, y: p.1 as i32, ..e }
}

/// The per-axis deltas actually applied to an arrow: clamped so its bounding
/// extent stays on the image.
pub open spec fn spec_arrow_deltas(e: ArrowElement, dx: int, dy: int, iw: int, ih: int) -> (
    int,
    int,
) {
    let min_x = if e.start.x <= e.end.x {
        e.start.x as int
    } else {
        e.end.x as int
    };
    let max_x = if e.start.x <= e.end.x {
        e.end.x as int
    } else {
        e.start.x as int
    };
    let min_y = if e.start.y <= e.end.y {
        e.start.y as int
    } else {
        e.end.y as int
    };
    let max_y = if e.start.y <= e.end.y {
        e.end.y as int
    } else {
        e.start.y as int
    };
    (
        crate::constraints::spec_clamp_translation_delta(dx, min_x, max_x, spec_axis_max(iw)),
        crate::constraints::spec_clamp_translation_delta(dy, min_y, max_y, spec_axis_max(ih)),
    )
}

pub open spec fn spec_moved_arrow(e: ArrowElement, dx: int, dy: int, iw: int, ih: int) -> ArrowElement {
    let d = spec_arrow_deltas(e, dx, dy, iw, ih);
    ArrowElement {
        start: ToolPoint {
            x: crate::constraints::spec_sat_add_i32(e.start.x as int, d.0) as i32,
            y: crate::constraints::spec_sat_add_i32(e.start.y as int, d.1) as i32,
        },
        end: ToolPoint {
            x: crate::constraints::spec_sat_add_i32(e.end.x as int, d.0) as i32,
            y: crate::constraints::spec_sat_add_i32(e.end.y as int, d.1) as i32,
        },
        ..e
    }
}

/// The per-axis deltas actually applied to a pen stroke.
pub open spec fn spec_pen_deltas(points: Seq<PenPoint>, dx: int, dy: int, iw: int, ih: int) -> (
    int,
    int,
) {
    (
        crate::constraints::spec_clamp_translation_delta(
            dx,
            pen::spec_pen_min_x(points),
            pen::spec_pen_max_x(points),
            spec_axis_max(iw),
        ),
        crate::constraints::spec_clamp_translation_delta(
            dy,
            pen::spec_pen_min_y(points),
            pen::spec_pen_max_y(points),
            spec_axis_max(ih),
        ),
    )
}

/// Every point shifted by one clamped delta (saturating at the `i32` range).
pub open spec fn spec_moved_pen_points(points: Seq<PenPoint>, bdx: int, bdy: int) -> Seq<PenPoint> {
    points.map_values(
        |p: PenPoint| PenPoint {
            x: crate::constraints::spec_sat_add_i32(p.x as int, bdx) as i32,
            y: crate::constraints::spec_sat_add_i32(p.y as int, bdy) as i32,
        },
    )
}

pub open spec fn spec_moved_text(e: TextElement, dx: int, dy: int, iw: int, ih: int) -> TextElement {
    TextElement {
        x: crate::constraints::spec_clamp(
            crate::constraints::spec_sat_add_i32(e.x as int, dx),
            0,
            spec_axis_max(iw),
        ) as i32,
        y: crate::constraints::spec_clamp(
            crate::constraints::spec_sat_add_i32(e.y as int, dy),
            0,
            spec_axis_max(ih),
        ) as i32,
        ..e
    }
}

/// Whether an object lies entirely inside a `iw x ih` image.
pub open spec fn spec_object_in_bounds(obj: ToolObject, iw: int, ih: int) -> bool {
    match obj {
        ToolObject::Blur(e) => 0 <= e.region.x && e.region.x + e.region.width <= iw && 0
            <= e.region.y && e.region.y + e.region.height <= ih,
        ToolObject::Pen(e) => forall|i: int|
            0 <= i < e.points@.len() ==> 0 <= (#[trigger] e.points@[i]).x <= iw - 1 && 0
                <= e.points@[i].y <= ih - 1,
        ToolObject::Arrow(e) => 0 <= e.start.x <= iw - 1 && 0 <= e.start.y <= ih - 1 && 0 <= e.end.x
            <= iw - 1 && 0 <= e.end.y <= ih - 1,
        ToolObject::Rectangle(e) => 0 <= e.x && e.x + e.width <= iw && 0 <= e.y && e.y + e.height
            <= ih,
        ToolObject::Crop(e) => 0 <= e.x && e.x + e.width <= iw && 0 <= e.y && e.y + e.height <= ih,
        ToolObject::Text(e) => 0 <= e.x <= iw - 1 && 0 <= e.y <= ih - 1,
    }
}

/// Law: moving an object that lies inside the image keeps it inside the
/// image, translates it rigidly, and never changes its width, height or
/// point spread.
pub proof fn lemma_move_preserves_shape_and_bounds(
    obj: ToolObject,
    dx: int,
    dy: int,
    iw: int,
    ih: int,
)
    requires
        obj.wf(),
        1 <= iw <= i32::MAX as int,
        1 <= ih <= i32::MAX as int,
        spec_object_in_bounds(obj, iw, ih),
    ensures
        match obj {
            ToolObject::Blur(e) => {
                let m = spec_moved_blur(e, dx, dy, iw, ih);
                &&& spec_object_in_bounds(ToolObject::Blur(m), iw, ih)
                &&& m.region.width == e.region.width
                &&& m.region.height == e.region.height
                &&& m.anchor == (ToolPoint { x: m.region.x, y: m.region.y })
            },
            ToolObject::Rectangle(e) => {
                let m = spec_moved_rectangle(e, dx, dy, iw, ih);
                &&& spec_object_in_bounds(ToolObject::Rectangle(m), iw, ih)
                &&& m.width == e.width
                &&& m.height == e.height
            },
            ToolObject::Crop(e) => {
                let m = spec_moved_crop(e, dx, dy, iw, ih);
                &&& spec_object_in_bounds(ToolObject::Crop(m), iw, ih)
                &&& m.width == e.width
                &&& m.height == e.height
            },
            ToolObject::Arrow(e) => {
                let m = spec_moved_arrow(e, dx, dy, iw, ih);
                let d = spec_arrow_deltas(e, dx, dy, iw, ih);
                &&& spec_object_in_bounds(ToolObject::Arrow(m), iw, ih)
                &&& m.start.x == e.start.x + d.0 && m.end.x == e.end.x + d.0
                &&& m.start.y == e.start.y + d.1 && m.end.y == e.end.y + d.1
            },
            ToolObject::Pen(e) => {
                let d = spec_pen_deltas(e.points@, dx, dy, iw, ih);
                let mp = spec_moved_pen_points(e.points@, d.0, d.1);
                &&& mp.len() == e.points@.len()
                &&& forall|i: int|
                    0 <= i < e.points@.len() ==> (#[trigger] mp[i]).x == e.points@[i].x + d.0
                        && mp[i].y == e.points@[i].y + d.1 && 0 <= mp[i].x <= iw - 1 && 0 <= mp[i].y
                        <= ih - 1
            },
            ToolObject::Text(e) => {
                let m = spec_moved_text(e, dx, dy, iw, ih);
                &&& 0 <= m.x <= iw - 1 && 0 <= m.y <= ih - 1
                &&& m.content == e.content && m.cursor == e.cursor
            },
        },
{
    match obj {
        ToolObject::Blur(_) | ToolObject::Rectangle(_) | ToolObject::Crop(_) => {},
        ToolObject::Arrow(e) => {
            let min_x = if e.start.x <= e.end.x {
                e.start.x as int
            } else {
                e.end.x as int
            };
            let max_x = if e.start.x <= e.end.x {
                e.end.x as int
            } else {
                e.start.x as int
            };
            let min_y = if e.start.y <= e.end.y {
                e.start.y as int
            } else {
                e.end.y as int
            };
            let max_y = if e.start.y <= e.end.y {
                e.end.y as int
            } else {
                e.start.y as int
            };
            crate::constraints::lemma_clamp_translation_delta_in_bounds(dx, min_x, max_x, iw - 1);
            crate::constraints::lemma_clamp_translation_delta_in_bounds(dy, min_y, max_y, ih - 1);
        },
        ToolObject::Pen(e) => {
            let s = e.points@;
            pen::lemma_pen_bounds(s);
            pen::lemma_pen_bounds_within(s, 0, iw - 1, 0, ih - 1);
            let min_x = pen::spec_pen_min_x(s);
            let max_x = pen::spec_pen_max_x(s);
            let min_y = pen::spec_pen_min_y(s);
            let max_y = pen::spec_pen_max_y(s);
            crate::constraints::lemma_clamp_translation_delta_in_bounds(dx, min_x, max_x, iw - 1);
            crate::constraints::lemma_clamp_translation_delta_in_bounds(dy, min_y, max_y, ih - 1);
            let d = spec_pen_deltas(s, dx, dy, iw, ih);
            let mp = spec_moved_pen_points(s, d.0, d.1);
            assert forall|i: int|
                0 <= i < s.len() implies (#[trigger] mp[i]).x == s[i].x + d.0 && mp[i].y == s[i].y
                + d.1 && 0 <= mp[i].x <= iw - 1 && 0 <= mp[i].y <= ih - 1 by {
                assert(min_x <= s[i].x <= max_x);
                assert(min_y <= s[i].y <= max_y);
                assert(0 <= s[i].x + d.0 <= iw - 1);
                assert(0 <= s[i].y + d.1 <= ih - 1);
            }
        },
        ToolObject::Text(_) => {},
    }
}

/// Dropping the last object keeps every reference that does not point at it
/// resolvable.
proof fn lemma_shrink_keeps_refs(pre: &EditorTools, post: &EditorTools, keep: int)
    requires
        pre.wf(),
        pre.objects@.len() > 0,
        keep == pre.objects@.len() - 1,
        post.objects@ == pre.objects@.drop_last(),
        post.next_id == pre.next_id,
        post.active_pen_stroke == if pre.objects@.last() matches ToolObject::Pen(p)
            && pre.active_pen_stroke == Some(p.id) {
            None
        } else {
            pre.active_pen_stroke
        },
        post.active_text_box == if pre.objects@.last() matches ToolObject::Text(t)
            && pre.active_text_box == Some(t.id) {
            None
        } else {
            pre.active_text_box
        },
    ensures
        post.wf(),
{
    let s = post.objects@;
    assert forall|i: int| 0 <= i < s.len() implies (#[trigger] s[i]).wf() by {
        assert(s[i] == pre.objects@[i]);
    }
    assert forall|i: int| 0 <= i < s.len() implies 0 < (#[trigger] s[i]).spec_id() < post.next_id by {
        assert(s[i] == pre.objects@[i]);
    }
    assert forall|i: int, j: int| 0 <= i < j < s.len() implies (#[trigger] s[i]).spec_id() != (
    #[trigger] s[j]).spec_id() by {
        assert(s[i] == pre.objects@[i]);
        assert(s[j] == pre.objects@[j]);
    }
    match post.active_pen_stroke {
        Some(id) => {
            let w = choose|i: int|
                0 <= i < pre.objects@.len() && ((#[trigger] pre.objects@[i]) matches
                    ToolObject::Pen(p) && p.id == id);
            assert(w != keep);
            assert(s[w] == pre.objects@[w]);
            assert(spec_has_pen(s, id));
        },
        None => {},
    }
    match post.active_text_box {
        Some(id) => {
            let w = choose|i: int|
                0 <= i < pre.objects@.len() && ((#[trigger] pre.objects@[i]) matches
                    ToolObject::Text(t) && t.id == id);
            assert(w != keep);
            assert(s[w] == pre.objects@[w]);
            assert(spec_has_text(s, id));
        },
        None => {},
    }
}

impl EditorTools {
    /// Move the object with `id` by a delta, clamped per axis so the object
    /// stays inside the image without changing its shape.
    pub fn move_object_by(
        &mut self,
        id: u64,
        delta_x: i32,
        delta_y: i32,
        image_width: i32,
        image_height: i32,
    ) -> (r: Result<(), ToolError>)
        requires
            old(self).wf(),
        ensures
            final(self).wf(),
            ({
                let f = spec_find_id(old(self).objects@, id);
                let dx = delta_x as int;
                let dy = delta_y as int;
                let iw = image_width as int;
                let ih = image_height as int;
                if f < old(self).objects@.len() {
                    &&& r == Ok::<(), ToolError>(())
                    &&& *final(self) == (EditorTools { objects: final(self).objects, ..*old(self) })
                    &&& match old(self).objects@[f] {
                        ToolObject::Blur(e) => final(self).objects@ == old(self).objects@.update(
                            f,
                            ToolObject::Blur(spec_moved_blur(e, dx, dy, iw, ih)),
                        ),
                        ToolObject::Arrow(e) => final(self).objects@ == old(self).objects@.update(
                            f,
                            ToolObject::Arrow(spec_moved_arrow(e, dx, dy, iw, ih)),
                        ),
                        ToolObject::Rectangle(e) => final(self).objects@ == old(
                            self,
                        ).objects@.update(
                            f,
                            ToolObject::Rectangle(spec_moved_rectangle(e, dx, dy, iw, ih)),
                        ),
                        ToolObject::Crop(e) => final(self).objects@ == old(self).objects@.update(
                            f,
                            ToolObject::Crop(spec_moved_crop(e, dx, dy, iw, ih)),
                        ),
                        ToolObject::Text(e) => final(self).objects@ == old(self).objects@.update(
                            f,
                            ToolObject::Text(spec_moved_text(e, dx, dy, iw, ih)),
                        ),
                        ToolObject::Pen(e) => final(self).objects@ == old(self).objects@.update(
                            f,
                            ToolObject::Pen(
                                PenStroke { points: final(self).objects@[f]->Pen_0.points, ..e },
                            ),
                        ) && final(self).objects@[f]->Pen_0.points@ == spec_moved_pen_points(
                            e.points@,
                            spec_pen_deltas(e.points@, dx, dy, iw, ih).0,
                            spec_pen_deltas(e.points@, dx, dy, iw, ih).1,
                        ),
                    }
                } else {
                    r == Err::<(), ToolError>(ToolError::ObjectNotFound) && *final(self) == *old(
                        self,
                    )
                }
            }),
    {
        let image_bounds = crate::geometry::ImageBounds::new(image_width, image_height);
        let max_x: i32 = if image_width >= 1 {
            image_width - 1
        } else {
            0
        };
        let max_y: i32 = if image_height >= 1 {
            image_height - 1
        } else {
            0
        };
        let idx = self.find_index(id);
        if idx == self.objects.len() {
            return Err(ToolError::ObjectNotFound);
        }
        let obj = &mut self.objects[idx];
        match obj {
            ToolObject::Blur(e) => {
                let p = crate::constraints::move_box_by(
                    e.region.x,
                    e.region.y,
                    e.region.width,
                    e.region.height,
                    delta_x,
                    delta_y,
                    image_bounds,
                );
                e.region.x = p.0;
                e.region.y = p.1;
                e.anchor = ToolPoint::new(p.0, p.1);
            },
            ToolObject::Pen(e) => {
                let b = pen::pen_point_bounds(&e.points);
                match b {
                    Some((min_x, max_px, min_y, max_py)) => {
                        let bdx = crate::constraints::clamp_translation_delta(
                            delta_x,
                            min_x,
                            max_px,
                            max_x,
                        );
                        let bdy = crate::constraints::clamp_translation_delta(
                            delta_y,
                            min_y,
                            max_py,
                            max_y,
                        );
                        pen::translate_pen_points(&mut e.points, bdx, bdy);
                        proof {
                            assert(e.points@ =~= spec_moved_pen_points(
                                old(self).objects@[idx as int]->Pen_0.points@,
                                spec_pen_deltas(
                                    old(self).objects@[idx as int]->Pen_0.points@,
                                    delta_x as int,
                                    delta_y as int,
                                    image_width as int,
                                    image_height as int,
                                ).0,
                                spec_pen_deltas(
                                    old(self).objects@[idx as int]->Pen_0.points@,
                                    delta_x as int,
                                    delta_y as int,
                                    image_width as int,
                                    image_height as int,
                                ).1,
                            ));
                        }
                    },
                    None => {
                        proof {
                            assert(false);
                        }
                    },
                }
            },
            ToolObject::Arrow(e) => {
                let min_arrow_x = if e.start.x <= e.end.x {
                    e.start.x
                } else {
                    e.end.x
                };
                let max_arrow_x = if e.start.x <= e.end.x {
                    e.end.x
                } else {
                    e.start.x
                };
                let min_arrow_y = if e.start.y <= e.end.y {
                    e.start.y
                } else {
                    e.end.y
                };
                let max_arrow_y = if e.start.y <= e.end.y {
                    e.end.y
                } else {
                    e.start.y
                };
                let bdx = crate::constraints::clamp_translation_delta(
                    delta_x,
                    min_arrow_x,
                    max_arrow_x,
                    max_x,
                );
                let bdy = crate::constraints::clamp_translation_delta(
                    delta_y,
                    min_arrow_y,
                    max_arrow_y,
                    max_y,
                );
                e.start.x = crate::constraints::sat_add_i32(e.start.x, bdx);
                e.start.y = crate::constraints::sat_add_i32(e.start.y, bdy);
                e.end.x = crate::constraints::sat_add_i32(e.end.x, bdx);
                e.end.y = crate::constraints::sat_add_i32(e.end.y, bdy);
            },
            ToolObject::Rectangle(e) => {
                let p = crate::constraints::move_box_by(
                    e.x,
                    e.y,
                    e.width,
                    e.height,
                    delta_x,
                    delta_y,
                    image_bounds,
                );
                e.x = p.0;
                e.y = p.1;
            },
            ToolObject::Crop(e) => {
                let p = crate::constraints::move_box_by(
                    e.x,
                    e.y,
                    e.width,
                    e.height,
                    delta_x,
                    delta_y,
                    image_bounds,
                );
                e.x = p.0;
                e.y = p.1;
            },
            ToolObject::Text(e) => {
                let moved_x = crate::constraints::sat_add_i32(e.x, delta_x);
                let moved_y = crate::constraints::sat_add_i32(e.y, delta_y);
                e.x = if moved_x < 0 {
                    0
                } else if moved_x > max_x {
                    max_x
                } else {
                    moved_x
                };
                e.y = if moved_y < 0 {
                    0
                } else if moved_y > max_y {
                    max_y
                } else {
                    moved_y
                };
            },
        }
        proof {
            lemma_update_keeps_wf(old(self), self, idx as int);
        }
        Ok(())
    }

    /// Resize a rectangle to new bounds, clamped into the image.
    pub fn resize_rectangle(&mut self, id: u64, bounds: ToolBounds, image_bounds: ImageBounds) -> (r:
        Result<(), ToolError>)
        requires
            old(self).wf(),
        ensures
            final(self).wf(),
            bounds.width == 0 || bounds.height == 0 ==> r == Err::<(), ToolError>(
                ToolError::InvalidRectangleGeometry,
            ) && *final(self) == *old(self),
            bounds.width > 0 && bounds.height > 0 ==> ({
                let f = spec_find_id(old(self).objects@, id);
                if f < old(self).objects@.len() && old(self).objects@[f] matches
                    ToolObject::Rectangle(_) {
                    let b = crate::constraints::spec_clamp_bounds_to_image(bounds, image_bounds);
                    &&& r == Ok::<(), ToolError>(())
                    &&& *final(self) == (EditorTools { objects: final(self).objects, ..*old(self) })
                    &&& final(self).objects@ == old(self).objects@.update(
                        f,
                        ToolObject::Rectangle(
                            RectangleElement {
                                x: b.x,
                                y: b.y,
                                width: b.width,
                                height: b.height,
                                ..old(self).objects@[f]->Rectangle_0
                            },
                        ),
                    )
                } else {
                    r == Err::<(), ToolError>(ToolError::ObjectNotFound) && *final(self) == *old(
                        self,
                    )
                }
            }),
    {
        if bounds.width == 0 || bounds.height == 0 {
            return Err(ToolError::InvalidRectangleGeometry);
        }
        let idx = self.find_index(id);
        if idx == self.objects.len() {
            return Err(ToolError::ObjectNotFound);
        }
        if !matches!(&self.objects[idx], ToolObject::Rectangle(_)) {
            return Err(ToolError::ObjectNotFound);
        }
        let bounded = crate::constraints::clamp_bounds_to_image(bounds, image_bounds);
        let obj = &mut self.objects[idx];
        match obj {
            ToolObject::Rectangle(e) => {
                e.x = bounded.x;
                e.y = bounded.y;
                e.width = bounded.width;
                e.height = bounded.height;
            },
            _ => {
                proof {
                    assert(false);
                }
            },
        }
        proof {
            lemma_update_keeps_wf(old(self), self, idx as int);
        }
        Ok(())
    }

    /// Resize a blur region to new bounds, clamped into the image; the
    /// anchor follows the region corner.
    pub fn resize_blur(&mut self, id: u64, bounds: ToolBounds, image_bounds: ImageBounds) -> (r:
        Result<(), ToolError>)
        requires
            old(self).wf(),
        ensures
            final(self).wf(),
            bounds.width == 0 || bounds.height == 0 ==> r == Err::<(), ToolError>(
                ToolError::InvalidBlurRegion,
            ) && *final(self) == *old(self),
            bounds.width > 0 && bounds.height > 0 ==> ({
                let f = spec_find_id(old(self).objects@, id);
                if f < old(self).objects@.len() && old(self).objects@[f] matches ToolObject::Blur(_) {
                    let b = crate::constraints::spec_clamp_bounds_to_image(bounds, image_bounds);
                    &&& r == Ok::<(), ToolError>(())
                    &&& *final(self) == (EditorTools { objects: final(self).objects, ..*old(self) })
                    &&& final(self).objects@ == old(self).objects@.update(
                        f,
                        ToolObject::Blur(
                            BlurElement {
                                region: BlurRegion {
                                    x: b.x,
                                    y: b.y,
                                    width: b.width,
                                    height: b.height,
                                },
                                anchor: ToolPoint { x: b.x, y: b.y },
                                ..old(self).objects@[f]->Blur_0
                            },
                        ),
                    )
                } else {
                    r == Err::<(), ToolError>(ToolError::ObjectNotFound) && *final(self) == *old(
                        self,
                    )
                }
            }),
    {
        if bounds.width == 0 || bounds.height == 0 {
            return Err(ToolError::InvalidBlurRegion);
        }
        let idx = self.find_index(id);
        if idx == self.objects.len() {
            return Err(ToolError::ObjectNotFound);
        }
        if !matches!(&self.objects[idx], ToolObject::Blur(_)) {
            return Err(ToolError::ObjectNotFound);
        }
        let bounded = crate::constraints::clamp_bounds_to_image(bounds, image_bounds);
        let obj = &mut self.objects[idx];
        match obj {
            ToolObject::Blur(e) => {
                e.region.x = bounded.x;
                e.region.y = bounded.y;
                e.region.width = bounded.width;
                e.region.height = bounded.height;
                e.anchor = ToolPoint::new(bounded.x, bounded.y);
            },
            _ => {
                proof {
                    assert(false);
                }
            },
        }
        proof {
            lemma_update_keeps_wf(old(self), self, idx as int);
        }
        Ok(())
    }

    /// Resize a crop to new bounds, clamped into the image and held to the
    /// minimum crop size.
    pub fn resize_crop(&mut self, id: u64, bounds: ToolBounds, image_bounds: ImageBounds) -> (r:
        Result<(), ToolError>)
        requires
            old(self).wf(),
        ensures
            final(self).wf(),
            bounds.width < CROP_MIN_SIZE || bounds.height < CROP_MIN_SIZE ==> r == Err::<
                (),
                ToolError,
            >(ToolError::InvalidCropGeometry) && *final(self) == *old(self),
            bounds.width >= CROP_MIN_SIZE && bounds.height >= CROP_MIN_SIZE ==> ({
                let f = spec_find_id(old(self).objects@, id);
                if f < old(self).objects@.len() && old(self).objects@[f] matches ToolObject::Crop(_) {
                    let b = crate::constraints::spec_clamp_bounds_to_image(bounds, image_bounds);
                    if b.width < CROP_MIN_SIZE || b.height < CROP_MIN_SIZE {
                        r == Err::<(), ToolError>(ToolError::InvalidCropGeometry) && *final(self)
                            == *old(self)
                    } else {
                        &&& r == Ok::<(), ToolError>(())
                        &&& *final(self) == (EditorTools {
                            objects: final(self).objects,
                            ..*old(self)
                        })
                        &&& final(self).objects@ == old(self).objects@.update(
                            f,
                            ToolObject::Crop(
                                CropElement {
                                    x: b.x,
                                    y: b.y,
                                    width: b.width,
                                    height: b.height,
                                    ..old(self).objects@[f]->Crop_0
                                },
                            ),
                        )
                    }
                } else {
                    r == Err::<(), ToolError>(ToolError::ObjectNotFound) && *final(self) == *old(
                        self,
                    )
                }
            }),
    {
        if bounds.width < CROP_MIN_SIZE || bounds.height < CROP_MIN_SIZE {
            return Err(ToolError::InvalidCropGeometry);
        }
        let idx = self.find_index(id);
        if idx == self.objects.len() {
            return Err(ToolError::ObjectNotFound);
        }
        if !matches!(&self.objects[idx], ToolObject::Crop(_)) {
            return Err(ToolError::ObjectNotFound);
        }
        let bounded = crate::constraints::clamp_bounds_to_image(bounds, image_bounds);
        if bounded.width < CROP_MIN_SIZE || bounded.height < CROP_MIN_SIZE {
            return Err(ToolError::InvalidCropGeometry);
        }
        let obj = &mut self.objects[idx];
        match obj {
            ToolObject::Crop(e) => {
                e.x = bounded.x;
                e.y = bounded.y;
                e.width = bounded.width;
                e.height = bounded.height;
            },
            _ => {
                proof {
                    assert(false);
                }
            },
        }
        proof {
            lemma_update_keeps_wf(old(self), self, idx as int);
        }
        Ok(())
    }

    /// Remove the object with `id`, clearing an active reference that
    /// pointed at it.
    pub fn remove_object(&mut self, id: u64) -> (r: Option<ToolObject>)
        requires
            old(self).wf(),
        ensures
            final(self).wf(),
            ({
                let f = spec_find_id(old(self).objects@, id);
                if f < old(self).objects@.len() {
                    &&& r == Some(old(self).objects@[f])
                    &&& final(self).objects@ == old(self).objects@.remove(f)
                    &&& *final(self) == (EditorTools {
                        objects: final(self).objects,
                        active_pen_stroke: final(self).active_pen_stroke,
                        active_text_box: final(self).active_text_box,
                        ..*old(self)
                    })
                    &&& final(self).active_pen_stroke == if old(self).objects@[f] matches
                        ToolObject::Pen(p) && old(self).active_pen_stroke == Some(p.id) {
                        None
                    } else {
                        old(self).active_pen_stroke
                    }
                    &&& final(self).active_text_box == if old(self).objects@[f] matches
                        ToolObject::Text(t) && old(self).active_text_box == Some(t.id) {
                        None
                    } else {
                        old(self).active_text_box
                    }
                } else {
                    r is None && *final(self) == *old(self)
                }
            }),
    {
        let idx = self.find_index(id);
        if idx == self.objects.len() {
            return None;
        }
        let object = self.objects.remove(idx);
        self.clear_active_state_for_object(&object);
        proof {
            lemma_remove_keeps_refs(old(self), self, idx as int);
        }
        Some(object)
    }
}

impl EditorTools {
    /// Resolve a keyboard event against the focused text box and apply the
    /// resulting buffer mutation; without focus every event is a no-op.
    pub fn apply_text_input(&mut self, event: TextInputEvent) -> (r:
        TextInputAction)
        requires
            old(self).wf(),
        ensures
            final(self).wf(),
            old(self).active_text_box is None ==> r
                == TextInputAction::NoTextTarget && *final(self) == *old(self),
            ({
                match old(self).active_text_box {
                    None => true,
                    Some(id) => {
                        let f = spec_find_id(old(self).objects@, id);
                        let ot = old(self).objects@[f]->Text_0;
                        let nt = final(self).objects@[f]->Text_0;
                        &&& f < old(self).objects@.len()
                        &&& old(self).objects@[f] matches ToolObject::Text(_)
                        &&& final(self).objects@ == old(self).objects@.update(
                            f,
                            ToolObject::Text(nt),
                        )
                        &&& nt == (TextElement { content: nt.content, cursor: nt.cursor, ..ot })
                        &&& *final(self) == (EditorTools {
                            objects: final(self).objects,
                            active_text_box: final(self).active_text_box,
                            ..*old(self)
                        })
                        &&& match spec_resolve_text_input(event, true) {
                            TextInputAction::InsertCharacter(c) => {
                                &&& nt.content@ == text::spec_inserted(
                                    ot.content@,
                                    ot.cursor as int,
                                    c,
                                )
                                &&& nt.cursor == ot.cursor + 1
                                &&& r == TextInputAction::InsertCharacter(c)
                                &&& final(self).active_text_box == Some(id)
                            },
                            TextInputAction::DeleteBackward => {
                                &&& if ot.cursor > 0 {
                                    &&& nt.content@ == text::spec_deleted(
                                        ot.content@,
                                        ot.cursor as int,
                                    )
                                    &&& nt.cursor == ot.cursor - 1
                                    &&& r == TextInputAction::DeleteBackward
                                } else {
                                    nt == ot && r == TextInputAction::NoAction
                                }
                                &&& final(self).active_text_box == Some(id)
                            },
                            TextInputAction::InsertLineBreak => {
                                &&& nt.content@ == text::spec_inserted(
                                    ot.content@,
                                    ot.cursor as int,
                                    '\n',
                                )
                                &&& nt.cursor == ot.cursor + 1
                                &&& r == TextInputAction::InsertLineBreak
                                &&& final(self).active_text_box == Some(id)
                            },
                            TextInputAction::MoveCursor => {
                                &&& nt.content == ot.content
                                &&& final(self).active_text_box == Some(id)
                                &&& match event {
                                    TextInputEvent::CursorLeft => {
                                        if ot.cursor > 0 {
                                            nt.cursor == ot.cursor - 1 && r
                                                == TextInputAction::MoveCursor
                                        } else {
                                            nt == ot && r
                                                == TextInputAction::NoAction
                                        }
                                    },
                                    TextInputEvent::CursorRight => {
                                        if ot.cursor < ot.content@.len() {
                                            nt.cursor == ot.cursor + 1 && r
                                                == TextInputAction::MoveCursor
                                        } else {
                                            nt == ot && r
                                                == TextInputAction::NoAction
                                        }
                                    },
                                    TextInputEvent::CursorUp => {
                                        match text::spec_cursor_up(ot.content@, ot.cursor as int) {
                                            Some(c) => nt.cursor as int == c && r
                                                == TextInputAction::MoveCursor,
                                            None => nt == ot && r
                                                == TextInputAction::NoAction,
                                        }
                                    },
                                    TextInputEvent::CursorDown => {
                                        match text::spec_cursor_down(
                                            ot.content@,
                                            ot.cursor as int,
                                        ) {
                                            Some(c) => nt.cursor as int == c && r
                                                == TextInputAction::MoveCursor,
                                            None => nt == ot && r
                                                == TextInputAction::NoAction,
                                        }
                                    },
                                    _ => nt == ot && r
                                        == TextInputAction::NoAction,
                                }
                            },
                            TextInputAction::Commit => {
                                &&& nt == ot
                                &&& r == TextInputAction::Commit
                                &&& final(self).active_text_box is None
                            },
                            TextInputAction::ExitFocus => {
                                &&& nt == ot
                                &&& r == TextInputAction::ExitFocus
                                &&& final(self).active_text_box is None
                            },
                            TextInputAction::CopyRequested => {
                                &&& nt == ot
                                &&& r == TextInputAction::CopyRequested
                                &&& final(self).active_text_box == Some(id)
                            },
                            _ => false,
                        }
                    },
                }
            }),
    {
        let focused = self.active_text_box.is_some();
        let action = resolve_text_input(event, focused);
        let target_id = match self.active_text_box {
            Some(text_id) => text_id,
            None => {
                return action;
            },
        };
        let idx = self.find_index(target_id);
        proof {
            let w = choose|i: int|
                0 <= i < self.objects@.len() && ((#[trigger] self.objects@[i]) matches
                    ToolObject::Text(t) && t.id == target_id);
            lemma_find_id(self.objects@, target_id);
            assert(self.objects@[w].spec_id() == target_id);
            assert(idx as int <= w);
            assert(self.objects@[idx as int].spec_id() == target_id);
            assert(idx as int == w);
        }
        let obj = &mut self.objects[idx];
        let result = match obj {
            ToolObject::Text(text) => {
                match action {
                    TextInputAction::InsertCharacter(c) => {
                        text.insert_char(c);
                        TextInputAction::InsertCharacter(c)
                    },
                    TextInputAction::DeleteBackward => {
                        if text.delete_backward() {
                            TextInputAction::DeleteBackward
                        } else {
                            TextInputAction::NoAction
                        }
                    },
                    TextInputAction::InsertLineBreak => {
                        text.insert_newline();
                        TextInputAction::InsertLineBreak
                    },
                    TextInputAction::MoveCursor => {
                        match event {
                            TextInputEvent::CursorLeft => {
                                if text.move_cursor_left() {
                                    TextInputAction::MoveCursor
                                } else {
                                    TextInputAction::NoAction
                                }
                            },
                            TextInputEvent::CursorRight => {
                                if text.move_cursor_right() {
                                    TextInputAction::MoveCursor
                                } else {
                                    TextInputAction::NoAction
                                }
                            },
                            TextInputEvent::CursorUp => {
                                if text.move_cursor_up() {
                                    TextInputAction::MoveCursor
                                } else {
                                    TextInputAction::NoAction
                                }
                            },
                            TextInputEvent::CursorDown => {
                                if text.move_cursor_down() {
                                    TextInputAction::MoveCursor
                                } else {
                                    TextInputAction::NoAction
                                }
                            },
                            _ => TextInputAction::NoAction,
                        }
                    },
                    TextInputAction::Commit => {
                        TextInputAction::Commit
                    },
                    TextInputAction::ExitFocus => {
                        TextInputAction::ExitFocus
                    },
                    TextInputAction::CopyRequested => {
                        TextInputAction::CopyRequested
                    },
                    TextInputAction::NoTextTarget => {
                        proof {
                            assert(false);
                        }
                        TextInputAction::NoTextTarget
                    },
                    TextInputAction::NoAction => {
                        proof {
                            assert(false);
                        }
                        TextInputAction::NoAction
                    },
                }
            },
            _ => {
                proof {
                    assert(false);
                }
                TextInputAction::NoAction
            },
        };
        let drop_focus = matches!(result, TextInputAction::Commit)
            || matches!(result, TextInputAction::ExitFocus);
        if drop_focus {
            self.active_text_box = None;
            proof {
                let pre = EditorTools { active_text_box: old(self).active_text_box, ..*self };
                lemma_update_keeps_wf(old(self), &pre, idx as int);
            }
        } else {
            proof {
                lemma_update_keeps_wf(old(self), self, idx as int);
            }
        }
        result
    }
}

/// The greatest id among the objects, or 0 when there are none.
pub open spec fn spec_max_id(s: Seq<ToolObject>) -> int
    decreases s.len(),
{
    if s.len() == 0 {
        0
    } else if s.last().spec_id() as int > spec_max_id(s.drop_last()) {
        s.last().spec_id() as int
    } else {
        spec_max_id(s.drop_last())
    }
}

proof fn lemma_max_id_bounds(s: Seq<ToolObject>)
    ensures
        0 <= spec_max_id(s),
        forall|i: int| 0 <= i < s.len() ==> (#[trigger] s[i]).spec_id() <= spec_max_id(s),
    decreases s.len(),
{
    if s.len() > 0 {
        lemma_max_id_bounds(s.drop_last());
        assert forall|i: int| 0 <= i < s.len() implies (#[trigger] s[i]).spec_id() <= spec_max_id(
            s,
        ) by {
            if i < s.len() - 1 {
                assert(s.drop_last()[i] == s[i]);
            }
        }
    }
}

impl EditorTools {
    /// Replace the whole object list (restoring a snapshot): the id counter
    /// restarts past the largest id, and active references that no longer
    /// resolve are dropped.
    pub fn replace_objects(&mut self, objects: Vec<ToolObject>)
        requires
            old(self).wf(),
            forall|i: int| 0 <= i < objects@.len() ==> (#[trigger] objects@[i]).wf(),
            forall|i: int|
                0 <= i < objects@.len() ==> 0 < (#[trigger] objects@[i]).spec_id() < u64::MAX,
            forall|i: int, j: int|
                0 <= i < j < objects@.len() ==> (#[trigger] objects@[i]).spec_id() != (
                #[trigger] objects@[j]).spec_id(),
        ensures
            final(self).wf(),
            final(self).objects@ == objects@,
            *final(self) == (EditorTools {
                objects: final(self).objects,
                next_id: (spec_max_id(objects@) + 1) as u64,
                active_pen_stroke: final(self).active_pen_stroke,
                active_text_box: final(self).active_text_box,
                ..*old(self)
            }),
            final(self).active_pen_stroke == ({
                match old(self).active_pen_stroke {
                    Some(id) => if spec_has_pen(objects@, id) {
                        Some(id)
                    } else {
                        None
                    },
                    None => None,
                }
            }),
            final(self).active_text_box == ({
                match old(self).active_text_box {
                    Some(id) => if spec_has_text(objects@, id) {
                        Some(id)
                    } else {
                        None
                    },
                    None => None,
                }
            }),
    {
        proof {
            lemma_max_id_bounds(objects@);
        }
        let n = objects.len();
        let mut max_id: u64 = 0;
        let mut i: usize = 0;
        while i < n
            invariant
                n == objects@.len(),
                i <= n,
                max_id as int == spec_max_id(objects@.subrange(0, i as int)),
            decreases n - i,
        {
            let oid = objects[i].id();
            if oid > max_id {
                max_id = oid;
            }
            i += 1;
            proof {
                assert(objects@.subrange(0, i as int).drop_last() =~= objects@.subrange(
                    0,
                    i as int - 1,
                ));
                assert(objects@.subrange(0, i as int).last() == objects@[i - 1]);
            }
        }
        proof {
            assert(objects@.subrange(0, n as int) =~= objects@);
            assert(max_id < u64::MAX) by {
                if objects@.len() > 0 {
                    lemma_max_id_attained(objects@);
                }
            }
        }
        let keep_pen = match self.active_pen_stroke {
            Some(active) => has_pen_with_id(&objects, active),
            None => false,
        };
        let keep_text = match self.active_text_box {
            Some(active) => has_text_with_id(&objects, active),
            None => false,
        };
        self.objects = objects;
        self.next_id = max_id + 1;
        if !keep_pen {
            self.active_pen_stroke = None;
        }
        if !keep_text {
            self.active_text_box = None;
        }
        proof {
            lemma_max_id_bounds(self.objects@);
        }
    }
}

/// A non-empty list attains its maximum id.
proof fn lemma_max_id_attained(s: Seq<ToolObject>)
    requires
        s.len() > 0,
    ensures
        exists|i: int| 0 <= i < s.len() && (#[trigger] s[i]).spec_id() == spec_max_id(s),
    decreases s.len(),
{
    if s.len() == 1 {
        assert(s.drop_last().len() == 0);
        assert(spec_max_id(s.drop_last()) == 0);
        assert(s[0] == s.last());
        assert(s[0].spec_id() == spec_max_id(s));
    } else if s.last().spec_id() as int > spec_max_id(s.drop_last()) {
        assert(s[s.len() - 1].spec_id() == spec_max_id(s));
    } else {
        lemma_max_id_attained(s.drop_last());
        let w = choose|i: int|
            0 <= i < s.drop_last().len() && (#[trigger] s.drop_last()[i]).spec_id() == spec_max_id(
                s.drop_last(),
            );
        assert(s[w] == s.drop_last()[w]);
        assert(s[w].spec_id() == spec_max_id(s));
    }
}

/// Whether the list holds a pen stroke with `id`.
fn has_pen_with_id(objects: &Vec<ToolObject>, id: u64) -> (r: bool)
    ensures
        r == spec_has_pen(objects@, id),
{
    let n = objects.len();
    let mut i: usize = 0;
    while i < n
        invariant
            n == objects@.len(),
            i <= n,
            forall|j: int|
                0 <= j < i ==> !((#[trigger] objects@[j]) matches ToolObject::Pen(p) && p.id == id),
        decreases n - i,
    {
        match &objects[i] {
            ToolObject::Pen(p) => {
                if p.id == id {
                    return true;
                }
            },
            _ => {},
        }
        i += 1;
    }
    false
}

/// Whether the list holds a text element with `id`.
fn has_text_with_id(objects: &Vec<ToolObject>, id: u64) -> (r: bool)
    ensures
        r == spec_has_text(objects@, id),
{
    let n = objects.len();
    let mut i: usize = 0;
    while i < n
        invariant
            n == objects@.len(),
            i <= n,
            forall|j: int|
                0 <= j < i ==> !((#[trigger] objects@[j]) matches ToolObject::Text(t) && t.id
                    == id),
        decreases n - i,
    {
        match &objects[i] {
            ToolObject::Text(t) => {
                if t.id == id {
                    return true;
                }
            },
            _ => {},
        }
        i += 1;
    }
    false
}

/// Removing one object keeps the store well-formed once references to it
/// are cleared.
proof fn lemma_remove_keeps_refs(pre: &EditorTools, post: &EditorTools, at: int)
    requires
        pre.wf(),
        0 <= at < pre.objects@.len(),
        post.objects@ == pre.objects@.remove(at),
        post.next_id == pre.next_id,
        post.active_pen_stroke == if pre.objects@[at] matches ToolObject::Pen(p)
            && pre.active_pen_stroke == Some(p.id) {
            None
        } else {
            pre.active_pen_stroke
        },
        post.active_text_box == if pre.objects@[at] matches ToolObject::Text(t)
            && pre.active_text_box == Some(t.id) {
            None
        } else {
            pre.active_text_box
        },
    ensures
        post.wf(),
{
    let s = post.objects@;
    let orig = pre.objects@;
    assert forall|i: int| 0 <= i < s.len() implies (#[trigger] s[i]).wf() && 0 < s[i].spec_id()
        < post.next_id by {
        if i < at {
            assert(s[i] == orig[i]);
        } else {
            assert(s[i] == orig[i + 1]);
        }
    }
    assert forall|i: int, j: int| 0 <= i < j < s.len() implies (#[trigger] s[i]).spec_id() != (
    #[trigger] s[j]).spec_id() by {
        let oi = if i < at {
            i
        } else {
            i + 1
        };
        let oj = if j < at {
            j
        } else {
            j + 1
        };
        assert(s[i] == orig[oi]);
        assert(s[j] == orig[oj]);
    }
    match post.active_pen_stroke {
        Some(id) => {
            let w = choose|i: int|
                0 <= i < orig.len() && ((#[trigger] orig[i]) matches ToolObject::Pen(p) && p.id
                    == id);
            assert(w != at);
            if w < at {
                assert(s[w] == orig[w]);
            } else {
                assert(s[w - 1] == orig[w]);
            }
            assert(spec_has_pen(s, id));
        },
        None => {},
    }
    match post.active_text_box {
        Some(id) => {
            let w = choose|i: int|
                0 <= i < orig.len() && ((#[trigger] orig[i]) matches ToolObject::Text(t) && t.id
                    == id);
            assert(w != at);
            if w < at {
                assert(s[w] == orig[w]);
            } else {
                assert(s[w - 1] == orig[w]);
            }
            assert(spec_has_text(s, id));
        },
        None => {},
    }
}

/// Replacing one object by a well-formed object with the same id and kind
/// keeps the store well-formed.
proof fn lemma_update_keeps_wf(pre: &EditorTools, post: &EditorTools, i: int)
    requires
        pre.wf(),
        0 <= i < pre.objects@.len(),
        post.objects@.len() == pre.objects@.len(),
        forall|j: int| 0 <= j < pre.objects@.len() && j != i ==> post.objects@[j] == pre.objects@[j],
        post.objects@[i].wf(),
        post.objects@[i].spec_id() == pre.objects@[i].spec_id(),
        spec_kind(post.objects@[i]) == spec_kind(pre.objects@[i]),
        post.next_id == pre.next_id,
        post.active_pen_stroke == pre.active_pen_stroke,
        post.active_text_box == pre.active_text_box,
    ensures
        post.wf(),
{
    match pre.active_pen_stroke {
        Some(id) => {
            let w = choose|k: int|
                0 <= k < pre.objects@.len() && ((#[trigger] pre.objects@[k]) matches
                    ToolObject::Pen(p) && p.id == id);
            if w == i {
                assert(post.objects@[i] matches ToolObject::Pen(p) && p.id == id);
            } else {
                assert(post.objects@[w] == pre.objects@[w]);
            }
            assert(spec_has_pen(post.objects@, id));
        },
        None => {},
    }
    match pre.active_text_box {
        Some(id) => {
            let w = choose|k: int|
                0 <= k < pre.objects@.len() && ((#[trigger] pre.objects@[k]) matches
                    ToolObject::Text(t) && t.id == id);
            if w == i {
                assert(post.objects@[i] matches ToolObject::Text(t) && t.id == id);
            } else {
                assert(post.objects@[w] == pre.objects@[w]);
            }
            assert(spec_has_text(post.objects@, id));
        },
        None => {},
    }
}

/// Pushing a fresh, well-formed object with the allocated id onto a
/// well-formed store keeps the store well-formed.
proof fn lemma_push_preserves_wf(pre: &EditorTools, post: &EditorTools, obj: ToolObject)
    requires
        pre.wf(),
        pre.next_id < u64::MAX,
        obj.wf(),
        obj.spec_id() == pre.next_id,
        post.objects@ == pre.objects@.push(obj),
        post.next_id == pre.next_id + 1,
        post.active_pen_stroke == pre.active_pen_stroke,
        post.active_text_box == pre.active_text_box,
    ensures
        post.wf(),
{
    let n = pre.objects@.len() as int;
    assert forall|i: int| 0 <= i < post.objects@.len() implies (#[trigger] post.objects@[i]).wf() by {
        if i < n {
            assert(post.objects@[i] == pre.objects@[i]);
        }
    }
    assert forall|i: int| 0 <= i < post.objects@.len() implies 0 < (
    #[trigger] post.objects@[i]).spec_id() < post.next_id by {
        if i < n {
            assert(post.objects@[i] == pre.objects@[i]);
        }
    }
    assert forall|i: int, j: int| 0 <= i < j < post.objects@.len() implies (
    #[trigger] post.objects@[i]).spec_id() != (#[trigger] post.objects@[j]).spec_id() by {
        if j < n {
            assert(post.objects@[i] == pre.objects@[i]);
            assert(post.objects@[j] == pre.objects@[j]);
        } else {
            assert(post.objects@[i] == pre.objects@[i]);
            assert(post.objects@[j] == obj);
        }
    }
    match pre.active_pen_stroke {
        Some(id) => {
            let w = choose|i: int|
                0 <= i < pre.objects@.len() && ((#[trigger] pre.objects@[i]) matches
                    ToolObject::Pen(p) && p.id == id);
            assert(post.objects@[w] == pre.objects@[w]);
            assert(spec_has_pen(post.objects@, id));
        },
        None => {},
    }
    match pre.active_text_box {
        Some(id) => {
            let w = choose|i: int|
                0 <= i < pre.objects@.len() && ((#[trigger] pre.objects@[i]) matches
                    ToolObject::Text(t) && t.id == id);
            assert(post.objects@[w] == pre.objects@[w]);
            assert(spec_has_text(post.objects@, id));
        },
        None => {},
    }
}

} // verus!

