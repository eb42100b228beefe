//! Rectangle annotations: a normalized box with border style options.

use vstd::prelude::*;

use crate::geometry::Color;

verus! {

pub const DEFAULT_RECTANGLE_BORDER_RADIUS: u16 = 8;

#[derive(Clone, Copy, Debug, PartialEq, Eq, Structural)]
pub struct RectangleOptions {
    pub color: Color,
    pub thickness: u8,
    pub fill_enabled: bool,
    pub border_radius: u16,
}

impl Default for RectangleOptions {
    fn default() -> (r: Self)
        ensures
            r == (RectangleOptions {
                color: Color { r: 0, g: 0, b: 0 },
                thickness: 3,
                fill_enabled: false,
                border_radius: DEFAULT_RECTANGLE_BORDER_RADIUS,
            }),
    {
        RectangleOptions {
            color: Color { r: 0, g: 0, b: 0 },
            thickness: 3,
            fill_enabled: false,
            border_radius: DEFAULT_RECTANGLE_BORDER_RADIUS,
        }
    }
}

impl RectangleOptions {
    pub fn set_border_color(&mut self, color: Color)
        ensures
            *final(self) == (RectangleOptions { color, ..*old(self) }),
    {
        self.color = color;
    }

    pub fn set_thickness(&mut self, thickness: u8)
        ensures
            *final(self) == (RectangleOptions {
                thickness: if thickness < 1 { 1u8 } else { thickness },
                ..*old(self)
            }),
    {
        self.thickness = if thickness < 1 {
            1
        } else {
            thickness
        };
    }

    pub fn set_fill_enabled(&mut self, fill_enabled: bool)
        ensures
            *final(self) == (RectangleOptions { fill_enabled, ..*old(self) }),
    {
        self.fill_enabled = fill_enabled;
    }

    pub fn set_border_radius(&mut self, border_radius: u16)
        ensures
            *final(self) == (RectangleOptions { border_radius, ..*old(self) }),
    {
        self.border_radius = border_radius;
    }
}

#[derive(Clone, Copy, Debug, PartialEq, Eq, Structural)]
pub struct RectangleElement {
    pub id: u64,
    pub x: i32,
    pub y: i32,
    pub width: u32,
    pub height: u32,
    pub options: RectangleOptions,
}

impl RectangleElement {
    pub fn new(id: u64, x: i32, y: i32, width: u32, height: u32, options: RectangleOptions) -> (r:
        Self)
        ensures
            r == (RectangleElement { id, x, y, width, height, options }),
    {
        RectangleElement { id, x, y, width, height, options }
    }
}

} // verus!
