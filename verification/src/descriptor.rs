//! The image-descriptor flag byte: bits 0-3 hold the alpha-channel bit
//! depth, bit 4 marks right-to-left pixel order, bit 5 marks top-to-bottom
//! row order, bits 6-7 stay clear.

use vstd::prelude::*;
use crate::tags::BitDepth;
use crate::tags::HorizontalOrdering;
use crate::tags::VerticalOrdering;

verus! {

/// The packed descriptor byte. An alpha depth of 16 or more would spill into
/// the ordering bits; callers are expected to pass depths that fit in four
/// bits, and no check is made.
pub open spec fn descriptor_byte(
    alpha_depth: u8,
    horizontal: HorizontalOrdering,
    vertical: VerticalOrdering,
) -> u8 {
    (alpha_depth | (if horizontal == HorizontalOrdering::RightToLeft {
        0x10u8
    } else {
        0u8
    })) | (if vertical == VerticalOrdering::TopToBottom {
        0x20u8
    } else {
        0u8
    })
}

/// The single-byte image-descriptor flag field.
#[derive(Copy, Clone, Debug, Default, PartialEq, Eq, Structural, PartialOrd, Ord)]
pub struct ImageDescriptor(pub u8);

/// Collects the three descriptor inputs and packs them into the flag byte.
#[derive(Copy, Clone, Debug)]
pub struct ImageDescriptorBuilder {
    pub alpha_depth: BitDepth,
    pub horizontal_ordering: HorizontalOrdering,
    pub vertical_ordering: VerticalOrdering,
}

impl ImageDescriptorBuilder {
    /// A builder holding the TGA defaults: 32-bit alpha depth, left-to-right
    /// pixels, bottom-to-top rows.
    pub fn new() -> (r: ImageDescriptorBuilder)
        ensures
            r.alpha_depth.0 == 32,
            r.horizontal_ordering == HorizontalOrdering::LeftToRight,
            r.vertical_ordering == VerticalOrdering::BottomToTop,
    {
        ImageDescriptorBuilder {
            alpha_depth: BitDepth::b32(),
            horizontal_ordering: HorizontalOrdering::LeftToRight,
            vertical_ordering: VerticalOrdering::BottomToTop,
        }
    }

    /// Packs the collected inputs into the descriptor byte.
    pub fn build(&self) -> (r: ImageDescriptor)
        ensures
            r.0 == descriptor_byte(
                self.alpha_depth.0,
                self.horizontal_ordering,
                self.vertical_ordering,
            ),
    {
        let BitDepth(alpha_depth) = self.alpha_depth;

        let horizontal_bit: u8 = if self.horizontal_ordering
            == HorizontalOrdering::RightToLeft {
            0x10u8
        } else {
            0u8
        };

        let vertical_bit: u8 = if self.vertical_ordering == VerticalOrdering::TopToBottom {
            0x20u8
        } else {
            0u8
        };

        ImageDescriptor((alpha_depth | horizontal_bit) | vertical_bit)
    }

    /// Replaces the alpha-channel bit depth.
    pub fn with_alpha(self, depth: BitDepth) -> (r: ImageDescriptorBuilder)
        ensures
            r.alpha_depth == depth,
            r.horizontal_ordering == self.horizontal_ordering,
            r.vertical_ordering == self.vertical_ordering,
    {
        ImageDescriptorBuilder { alpha_depth: depth, ..self }
    }

    /// Replaces the horizontal pixel ordering.
    pub fn with_horizontal_ordering(self, ordering: HorizontalOrdering) -> (r:
        ImageDescriptorBuilder)
        ensures
            r.alpha_depth == self.alpha_depth,
            r.horizontal_ordering == ordering,
            r.vertical_ordering == self.vertical_ordering,
    {
        ImageDescriptorBuilder { horizontal_ordering: ordering, ..self }
    }

    /// Replaces the vertical row ordering.
    pub fn with_vertical_ordering(self, ordering: VerticalOrdering) -> (r:
        ImageDescriptorBuilder)
        ensures
            r.alpha_depth == self.alpha_depth,
            r.horizontal_ordering == self.horizontal_ordering,
            r.vertical_ordering == ordering,
    {
        ImageDescriptorBuilder { vertical_ordering: ordering, ..self }
    }
}

impl Default for ImageDescriptorBuilder {
    /// The same defaults as `new`.
    fn default() -> (r: ImageDescriptorBuilder)
        ensures
            r.alpha_depth.0 == 32,
            r.horizontal_ordering == HorizontalOrdering::LeftToRight,
            r.vertical_ordering == VerticalOrdering::BottomToTop,
    {
        ImageDescriptorBuilder::new()
    }
}

} // verus!
