//! Geometry primitives shared by every tool: points, axis-aligned boxes and
//! colors, as plain integer value types.

use vstd::prelude::*;

verus! {

/// A point in image coordinates.
#[derive(Clone, Copy, Debug, PartialEq, Eq, Structural)]
pub struct ToolPoint {
    pub x: i32,
    pub y: i32,
}

impl ToolPoint {
    pub fn new(x: i32, y: i32) -> (r: Self)
        ensures
            r == (ToolPoint { x, y }),
    {
        ToolPoint { x, y }
    }
}

/// An axis-aligned box: top-left corner plus non-negative extent.
#[derive(Clone, Copy, Debug, PartialEq, Eq, Structural)]
pub struct ToolBounds {
    pub x: i32,
    pub y: i32,
    pub width: u32,
    pub height: u32,
}

impl ToolBounds {
    pub fn new(x: i32, y: i32, width: u32, height: u32) -> (r: Self)
        ensures
            r == (ToolBounds { x, y, width, height }),
    {
        ToolBounds { x, y, width, height }
    }
}

/// The pixel extent of the image being annotated.
#[derive(Clone, Copy, Debug, PartialEq, Eq, Structural)]
pub struct ImageBounds {
    pub width: i32,
    pub height: i32,
}

impl ImageBounds {
    pub fn new(width: i32, height: i32) -> (r: Self)
        ensures
            r == (ImageBounds { width, height }),
    {
        ImageBounds { width, height }
    }
}

/// An opaque RGB color value.
#[derive(Clone, Copy, Debug, PartialEq, Eq, Structural)]
pub struct Color {
    pub r: u8,
    pub g: u8,
    pub b: u8,
}

impl Color {
    pub fn new(r: u8, g: u8, b: u8) -> (c: Self)
        ensures
            c == (Color { r, g, b }),
    {
        Color { r, g, b }
    }
}

} // verus!
