//! Crop annotations: a crop box with an aspect-ratio preset.

use vstd::prelude::*;

verus! {

/// The smallest side length a crop box may have.
pub const CROP_MIN_SIZE: u32 = 16;

#[derive(Clone, Copy, Debug, PartialEq, Eq, Structural)]
pub enum CropPreset {
    Free,
    Ratio16x9,
    Ratio4x3,
    Ratio1x1,
    Ratio9x16,
    Original,
}

impl CropPreset {
    pub open spec fn spec_is_free(self) -> bool {
        self is Free
    }

    pub fn is_free(self) -> (r: bool)
        ensures
            r == self.spec_is_free(),
    {
        matches!(self, CropPreset::Free)
    }

    /// The fixed width : height ratio of this preset, if it carries one.
    pub open spec fn spec_ratio(self) -> Option<(u32, u32)> {
        match self {
            CropPreset::Free => None,
            CropPreset::Ratio16x9 => Some((16u32, 9u32)),
            CropPreset::Ratio4x3 => Some((4u32, 3u32)),
            CropPreset::Ratio1x1 => Some((1u32, 1u32)),
            CropPreset::Ratio9x16 => Some((9u32, 16u32)),
            CropPreset::Original => None,
        }
    }

    pub fn ratio(self) -> (r: Option<(u32, u32)>)
        ensures
            r == self.spec_ratio(),
    {
        match self {
            CropPreset::Free => None,
            CropPreset::Ratio16x9 => Some((16, 9)),
            CropPreset::Ratio4x3 => Some((4, 3)),
            CropPreset::Ratio1x1 => Some((1, 1)),
            CropPreset::Ratio9x16 => Some((9, 16)),
            CropPreset::Original => None,
        }
    }
}

#[derive(Clone, Copy, Debug, PartialEq, Eq, Structural)]
pub struct CropOptions {
    pub preset: CropPreset,
}

impl Default for CropOptions {
    fn default() -> (r: Self)
        ensures
            r == (CropOptions { preset: CropPreset::Free }),
    {
        CropOptions { preset: CropPreset::Free }
    }
}

impl CropOptions {
    pub fn set_preset(&mut self, preset: CropPreset)
        ensures
            *final(self) == (CropOptions { preset }),
    {
        self.preset = preset;
    }
}

#[derive(Clone, Copy, Debug, PartialEq, Eq, Structural)]
pub struct CropElement {
    pub id: u64,
    pub x: i32,
    pub y: i32,
    pub width: u32,
    pub height: u32,
    pub options: CropOptions,
}

impl CropElement {
    pub fn new(id: u64, x: i32, y: i32, width: u32, height: u32, options: CropOptions) -> (r: Self)
        ensures
            r == (CropElement { id, x, y, width, height, options }),
    {
        CropElement { id, x, y, width, height, options }
    }

    /// Ratio-locked crops are resized from their corners only.
    pub fn supports_corner_handles_only(&self) -> (r: bool)
        ensures
            r == !self.options.preset.spec_is_free(),
    {
        !self.options.preset.is_free()
    }
}

} // verus!
