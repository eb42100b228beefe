//! Blur annotations: the region a blur effect applies to, and its intensity.

use vstd::prelude::*;

use crate::geometry::ToolPoint;

verus! {

#[derive(Clone, Copy, Debug, PartialEq, Eq, Structural)]
pub struct BlurRegion {
    pub x: i32,
    pub y: i32,
    pub width: u32,
    pub height: u32,
}

impl BlurRegion {
    pub fn new(x: i32, y: i32, width: u32, height: u32) -> (r: Self)
        ensures
            r == (BlurRegion { x, y, width, height }),
    {
        BlurRegion { x, y, width, height }
    }

    pub open spec fn spec_is_valid(self) -> bool {
        self.width > 0 && self.height > 0
    }

    pub fn is_valid(&self) -> (r: bool)
        ensures
            r == self.spec_is_valid(),
    {
        self.width > 0 && self.height > 0
    }
}

/// An intensity clamped into `[1, 100]`.
pub open spec fn spec_clamp_intensity(intensity: int) -> int {
    if intensity < 1 {
        1
    } else if intensity > 100 {
        100
    } else {
        intensity
    }
}

#[derive(Clone, Copy, Debug, PartialEq, Eq, Structural)]
pub struct BlurOptions {
    pub intensity: u8,
}

impl Default for BlurOptions {
    fn default() -> (r: Self)
        ensures
            r == (BlurOptions { intensity: 55u8 }),
    {
        BlurOptions { intensity: 55 }
    }
}

impl BlurOptions {
    pub fn new(intensity: u8) -> (r: Self)
        ensures
            r.intensity as int == spec_clamp_intensity(intensity as int),
    {
        BlurOptions { intensity: clamp_intensity(intensity) }
    }

    pub fn set_intensity(&mut self, intensity: u8)
        ensures
            final(self).intensity as int == spec_clamp_intensity(intensity as int),
    {
        self.intensity = clamp_intensity(intensity);
    }
}

fn clamp_intensity(intensity: u8) -> (r: u8)
    ensures
        r as int == spec_clamp_intensity(intensity as int),
{
    if intensity < 1 {
        1
    } else if intensity > 100 {
        100
    } else {
        intensity
    }
}

#[derive(Clone, Copy, Debug, PartialEq, Eq, Structural)]
pub struct BlurElement {
    pub id: u64,
    pub region: BlurRegion,
    pub options: BlurOptions,
    pub anchor: ToolPoint,
}

impl BlurElement {
    /// A fresh blur element; the anchor starts at the region's corner.
    pub fn new(id: u64, region: BlurRegion, options: BlurOptions) -> (r: Self)
        ensures
            r == (BlurElement {
                id,
                region,
                options,
                anchor: ToolPoint { x: region.x, y: region.y },
            }),
    {
        BlurElement { id, region, options, anchor: ToolPoint { x: region.x, y: region.y } }
    }
}

} // verus!
