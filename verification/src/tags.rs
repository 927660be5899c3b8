//! Scalar tag types of the TGA header: restricted byte values with named
//! constants and a default. Any byte is representable; only the named values
//! are meaningful in this profile.

use vstd::prelude::*;

verus! {

/// A bit depth, stored as its raw byte value.
#[derive(Copy, Clone, Debug, PartialEq, Eq, Structural, PartialOrd, Ord)]
pub struct BitDepth(pub u8);

impl BitDepth {
    /// Eight bits: the profile's alpha-channel depth.
    pub fn b8() -> (r: BitDepth)
        ensures
            r.0 == 8,
    {
        BitDepth(8)
    }

    /// Thirty-two bits: the profile's pixel depth.
    pub fn b32() -> (r: BitDepth)
        ensures
            r.0 == 32,
    {
        BitDepth(32)
    }
}

impl Default for BitDepth {
    /// The default bit depth is 32, the profile's pixel depth.
    fn default() -> (r: BitDepth)
        ensures
            r.0 == 32,
    {
        BitDepth(32)
    }
}

/// Whether the file carries a color map, stored as its raw byte value.
#[derive(Copy, Clone, Debug, PartialEq, Eq, Structural, PartialOrd, Ord)]
pub struct ColorMapType(pub u8);

impl ColorMapType {
    /// No color map is present.
    pub fn absent() -> (r: ColorMapType)
        ensures
            r.0 == 0,
    {
        ColorMapType(0)
    }
}

impl Default for ColorMapType {
    /// The default color-map type is absent.
    fn default() -> (r: ColorMapType)
        ensures
            r.0 == 0,
    {
        ColorMapType(0)
    }
}

/// The kind of image data in the file, stored as its raw byte value.
#[derive(Copy, Clone, Debug, PartialEq, Eq, Structural, PartialOrd, Ord)]
pub struct ImageType(pub u8);

impl ImageType {
    /// Uncompressed true-color image data.
    pub fn true_color() -> (r: ImageType)
        ensures
            r.0 == 2,
    {
        ImageType(2)
    }
}

impl Default for ImageType {
    /// The default image type is true-color.
    fn default() -> (r: ImageType)
        ensures
            r.0 == 2,
    {
        ImageType(2)
    }
}

/// The order in which pixels of a row are stored.
#[derive(Copy, Clone, Debug, PartialEq, Eq, Structural, PartialOrd, Ord)]
pub enum HorizontalOrdering {
    LeftToRight,
    RightToLeft,
}

impl Default for HorizontalOrdering {
    /// The TGA default: pixels run left to right.
    fn default() -> (r: HorizontalOrdering)
        ensures
            r == HorizontalOrdering::LeftToRight,
    {
        HorizontalOrdering::LeftToRight
    }
}

/// The order in which rows of the image are stored.
#[derive(Copy, Clone, Debug, PartialEq, Eq, Structural, PartialOrd, Ord)]
pub enum VerticalOrdering {
    BottomToTop,
    TopToBottom,
}

impl Default for VerticalOrdering {
    /// The TGA default: rows run bottom to top. The encoder itself always
    /// overrides this to top-to-bottom for its output.
    fn default() -> (r: VerticalOrdering)
        ensures
            r == VerticalOrdering::BottomToTop,
    {
        VerticalOrdering::BottomToTop
    }
}

} // verus!
