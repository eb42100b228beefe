//! Arrow annotations: a start and an end point with sticky stroke options.

use vstd::prelude::*;

use crate::geometry::{Color, ToolPoint};

verus! {

#[derive(Clone, Copy, Debug, PartialEq, Eq, Structural)]
pub struct ArrowOptions {
    pub color: Color,
    pub thickness: u8,
    pub head_size: u8,
}

impl Default for ArrowOptions {
    fn default() -> (r: Self)
        ensures
            r == (ArrowOptions { color: Color { r: 0, g: 0, b: 0 }, thickness: 3, head_size: 8 }),
    {
        ArrowOptions { color: Color { r: 0, g: 0, b: 0 }, thickness: 3, head_size: 8 }
    }
}

impl ArrowOptions {
    pub fn set_color(&mut self, color: Color)
        ensures
            *final(self) == (ArrowOptions { color, ..*old(self) }),
    {
        self.color = color;
    }

    pub fn set_thickness(&mut self, thickness: u8)
        ensures
            *final(self) == (ArrowOptions {
                thickness: if thickness < 1 { 1u8 } else { thickness },
                ..*old(self)
            }),
    {
        self.thickness = if thickness < 1 {
            1
        } else {
            thickness
        };
    }

    pub fn set_head_size(&mut self, head_size: u8)
        ensures
            *final(self) == (ArrowOptions {
                head_size: if head_size < 1 { 1u8 } else { head_size },
                ..*old(self)
            }),
    {
        self.head_size = if head_size < 1 {
            1
        } else {
            head_size
        };
    }
}

#[derive(Clone, Copy, Debug, PartialEq, Eq, Structural)]
pub struct ArrowElement {
    pub id: u64,
    pub start: ToolPoint,
    pub end: ToolPoint,
    pub options: ArrowOptions,
}

impl ArrowElement {
    pub fn new(id: u64, start: ToolPoint, end: ToolPoint, options: ArrowOptions) -> (r: Self)
        ensures
            r == (ArrowElement { id, start, end, options }),
    {
        ArrowElement { id, start, end, options }
    }
}

} // verus!
