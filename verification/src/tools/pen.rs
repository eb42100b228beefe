//! Freehand pen strokes: an ordered, non-empty sequence of points.

use vstd::prelude::*;

use crate::constraints::{sat_add_i32, spec_sat_add_i32};
use crate::geometry::Color;

verus! {

#[derive(Clone, Copy, Debug, PartialEq, Eq, Structural)]
pub struct PenPoint {
    pub x: i32,
    pub y: i32,
}

impl PenPoint {
    pub fn new(x: i32, y: i32) -> (r: Self)
        ensures
            r == (PenPoint { x, y }),
    {
        PenPoint { x, y }
    }
}

#[derive(Clone, Copy, Debug, PartialEq, Eq, Structural)]
pub struct PenOptions {
    pub color: Color,
    pub thickness: u8,
    pub opacity: u8,
}

impl Default for PenOptions {
    fn default() -> (r: Self)
        ensures
            r == (PenOptions { color: Color { r: 0, g: 0, b: 0 }, thickness: 3, opacity: 100 }),
    {
        PenOptions { color: Color { r: 0, g: 0, b: 0 }, thickness: 3, opacity: 100 }
    }
}

impl PenOptions {
    pub fn set_color(&mut self, color: Color)
        ensures
            *final(self) == (PenOptions { color, ..*old(self) }),
    {
        self.color = color;
    }

    pub fn set_thickness(&mut self, thickness: u8)
        ensures
            *final(self) == (PenOptions {
                thickness: if thickness < 1 { 1u8 } else { thickness },
                ..*old(self)
            }),
    {
        self.thickness = if thickness < 1 {
            1
        } else {
            thickness
        };
    }

    pub fn set_opacity(&mut self, opacity: u8)
        ensures
            *final(self) == (PenOptions {
                opacity: if opacity > 100 { 100u8 } else { opacity },
                ..*old(self)
            }),
    {
        self.opacity = if opacity > 100 {
            100
        } else {
            opacity
        };
    }
}

#[derive(Clone, Debug)]
pub struct PenStroke {
    pub id: u64,
    pub points: Vec<PenPoint>,
    pub options: PenOptions,
    pub finalized: bool,
}

impl PenStroke {
    /// A fresh stroke holding its first point.
    pub fn new(id: u64, start: PenPoint, options: PenOptions) -> (r: Self)
        ensures
            r.id == id,
            r.points@ == seq![start],
            r.options == options,
            !r.finalized,
    {
        let mut points: Vec<PenPoint> = Vec::new();
        points.push(start);
        PenStroke { id, points, options, finalized: false }
    }

    pub fn append_point(&mut self, point: PenPoint)
        ensures
            *final(self) == (PenStroke { points: final(self).points, ..*old(self) }),
            final(self).points@ == old(self).points@.push(point),
    {
        self.points.push(point);
    }

    pub fn finalize(&mut self)
        ensures
            *final(self) == (PenStroke { finalized: true, ..*old(self) }),
    {
        self.finalized = true;
    }
}

/// The least x coordinate of a non-empty point list.
pub open spec fn spec_pen_min_x(s: Seq<PenPoint>) -> int
    recommends
        s.len() > 0,
    decreases s.len(),
{
    if s.len() <= 1 {
        s[0].x as int
    } else if s.last().x < spec_pen_min_x(s.drop_last()) {
        s.last().x as int
    } else {
        spec_pen_min_x(s.drop_last())
    }
}

/// The greatest x coordinate of a non-empty point list.
pub open spec fn spec_pen_max_x(s: Seq<PenPoint>) -> int
    recommends
        s.len() > 0,
    decreases s.len(),
{
    if s.len() <= 1 {
        s[0].x as int
    } else if s.last().x > spec_pen_max_x(s.drop_last()) {
        s.last().x as int
    } else {
        spec_pen_max_x(s.drop_last())
    }
}

/// The least y coordinate of a non-empty point list.
pub open spec fn spec_pen_min_y(s: Seq<PenPoint>) -> int
    recommends
        s.len() > 0,
    decreases s.len(),
{
    if s.len() <= 1 {
        s[0].y as int
    } else if s.last().y < spec_pen_min_y(s.drop_last()) {
        s.last().y as int
    } else {
        spec_pen_min_y(s.drop_last())
    }
}

/// The greatest y coordinate of a non-empty point list.
pub open spec fn spec_pen_max_y(s: Seq<PenPoint>) -> int
    recommends
        s.len() > 0,
    decreases s.len(),
{
    if s.len() <= 1 {
        s[0].y as int
    } else if s.last().y > spec_pen_max_y(s.drop_last()) {
        s.last().y as int
    } else {
        spec_pen_max_y(s.drop_last())
    }
}

/// The extent bounds every point of the list.
pub proof fn lemma_pen_bounds(s: Seq<PenPoint>)
    requires
        s.len() > 0,
    ensures
        spec_pen_min_x(s) <= spec_pen_max_x(s),
        spec_pen_min_y(s) <= spec_pen_max_y(s),
        forall|i: int|
            0 <= i < s.len() ==> spec_pen_min_x(s) <= (#[trigger] s[i]).x <= spec_pen_max_x(s)
                && spec_pen_min_y(s) <= s[i].y <= spec_pen_max_y(s),
    decreases s.len(),
{
    if s.len() > 1 {
        lemma_pen_bounds(s.drop_last());
        assert forall|i: int|
            0 <= i < s.len() implies spec_pen_min_x(s) <= (#[trigger] s[i]).x <= spec_pen_max_x(s)
            && spec_pen_min_y(s) <= s[i].y <= spec_pen_max_y(s) by {
            if i < s.len() - 1 {
                assert(s.drop_last()[i] == s[i]);
            }
        }
    }
}

/// A box containing every point also contains the extent bounds.
pub proof fn lemma_pen_bounds_within(s: Seq<PenPoint>, lo_x: int, hi_x: int, lo_y: int, hi_y: int)
    requires
        s.len() > 0,
        forall|i: int|
            0 <= i < s.len() ==> lo_x <= (#[trigger] s[i]).x <= hi_x && lo_y <= s[i].y <= hi_y,
    ensures
        lo_x <= spec_pen_min_x(s),
        spec_pen_max_x(s) <= hi_x,
        lo_y <= spec_pen_min_y(s),
        spec_pen_max_y(s) <= hi_y,
    decreases s.len(),
{
    if s.len() > 1 {
        assert forall|i: int|
            0 <= i < s.drop_last().len() implies lo_x <= (#[trigger] s.drop_last()[i]).x <= hi_x
            && lo_y <= s.drop_last()[i].y <= hi_y by {
            assert(s.drop_last()[i] == s[i]);
        }
        lemma_pen_bounds_within(s.drop_last(), lo_x, hi_x, lo_y, hi_y);
    }
}

/// The bounding extent of a point list: `(min_x, max_x, min_y, max_y)`,
/// or `None` for an empty list.
pub fn pen_point_bounds(points: &Vec<PenPoint>) -> (r: Option<(i32, i32, i32, i32)>)
    ensures
        r is Some <==> points@.len() > 0,
        r matches Some(b) ==> {
            &&& b.0 as int == spec_pen_min_x(points@)
            &&& b.1 as int == spec_pen_max_x(points@)
            &&& b.2 as int == spec_pen_min_y(points@)
            &&& b.3 as int == spec_pen_max_y(points@)
            &&& forall|i: int|
                0 <= i < points@.len() ==> b.0 <= #[trigger] points@[i].x <= b.1 && b.2
                    <= points@[i].y <= b.3
            &&& b.0 <= b.1 && b.2 <= b.3
        },
{
    if points.len() == 0 {
        return None;
    }
    let first = points[0];
    let mut min_x = first.x;
    let mut max_x = first.x;
    let mut min_y = first.y;
    let mut max_y = first.y;
    let mut i: usize = 1;
    while i < points.len()
        invariant
            1 <= i <= points@.len(),
            min_x as int == spec_pen_min_x(points@.subrange(0, i as int)),
            max_x as int == spec_pen_max_x(points@.subrange(0, i as int)),
            min_y as int == spec_pen_min_y(points@.subrange(0, i as int)),
            max_y as int == spec_pen_max_y(points@.subrange(0, i as int)),
        decreases points@.len() - i,
    {
        let p = points[i];
        if p.x < min_x {
            min_x = p.x;
        }
        if p.x > max_x {
            max_x = p.x;
        }
        if p.y < min_y {
            min_y = p.y;
        }
        if p.y > max_y {
            max_y = p.y;
        }
        i += 1;
        proof {
            assert(points@.subrange(0, i as int).drop_last() =~= points@.subrange(0, i as int - 1));
            assert(points@.subrange(0, i as int).last() == points@[i - 1]);
        }
    }
    proof {
        assert(points@.subrange(0, points@.len() as int) =~= points@);
        lemma_pen_bounds(points@);
    }
    Some((min_x, max_x, min_y, max_y))
}

/// Every point shifted by the same delta (saturating at the `i32` range).
pub fn translate_pen_points(points: &mut Vec<PenPoint>, delta_x: i32, delta_y: i32)
    ensures
        final(points)@.len() == old(points)@.len(),
        forall|i: int|
            0 <= i < old(points)@.len() ==> #[trigger] final(points)@[i] == (PenPoint {
                x: spec_sat_add_i32(old(points)@[i].x as int, delta_x as int) as i32,
                y: spec_sat_add_i32(old(points)@[i].y as int, delta_y as int) as i32,
            }),
{
    let n = points.len();
    let mut i: usize = 0;
    while i < n
        invariant
            n == points@.len(),
            n == old(points)@.len(),
            i <= n,
            forall|j: int|
                i <= j < n ==> #[trigger] points@[j] == old(points)@[j],
            forall|j: int|
                0 <= j < i ==> #[trigger] points@[j] == (PenPoint {
                    x: spec_sat_add_i32(old(points)@[j].x as int, delta_x as int) as i32,
                    y: spec_sat_add_i32(old(points)@[j].y as int, delta_y as int) as i32,
                }),
        decreases n - i,
    {
        let nx = sat_add_i32(points[i].x, delta_x);
        let ny = sat_add_i32(points[i].y, delta_y);
        points[i] = PenPoint { x: nx, y: ny };
        i += 1;
    }
}

} // verus!
