//! The fixed-layout records of a TGA file: color-map specification, image
//! specification, header and footer. Each record states its exact byte
//! image and its writer is proved to deliver those bytes in order,
//! stopping at the first sink failure.

use vstd::prelude::*;
use crate::bytes::spec_u16_le;
use crate::bytes::spec_u32_le;
use crate::bytes::wrote_prefix;
use crate::bytes::push_bytes;
use crate::bytes::le_bytes_of_u16;
use crate::bytes::le_bytes_of_u32;
use crate::bytes::lemma_wrote_prefix_widen;
use crate::bytes::lemma_wrote_prefix_chain;
use crate::sink::Sink;
use crate::sink::WriteError;
use crate::sink::write_u8_to;
use crate::sink::write_u16_le_to;
use crate::sink::write_u32_le_to;
use crate::tags::BitDepth;
use crate::tags::ColorMapType;
use crate::tags::ImageType;
use crate::descriptor::ImageDescriptor;

verus! {

/// The 16 ASCII bytes of `TRUEVISION-XFILE`, the TGA 2.0 footer signature.
pub open spec fn spec_signature() -> Seq<u8> {
    seq![
        0x54u8, 0x52u8, 0x55u8, 0x45u8, 0x56u8, 0x49u8, 0x53u8, 0x49u8,
        0x4fu8, 0x4eu8, 0x2du8, 0x58u8, 0x46u8, 0x49u8, 0x4cu8, 0x45u8,
    ]
}

/// The 16 ASCII bytes of `TRUEVISION-XFILE` as plain bytes.
pub fn signature_bytes() -> (r: Vec<u8>)
    ensures
        r@ == spec_signature(),
{
    let mut r: Vec<u8> = Vec::new();
    r.push(0x54u8);
    r.push(0x52u8);
    r.push(0x55u8);
    r.push(0x45u8);
    r.push(0x56u8);
    r.push(0x49u8);
    r.push(0x53u8);
    r.push(0x49u8);
    r.push(0x4fu8);
    r.push(0x4eu8);
    r.push(0x2du8);
    r.push(0x58u8);
    r.push(0x46u8);
    r.push(0x49u8);
    r.push(0x4cu8);
    r.push(0x45u8);
    proof {
        assert(r@ =~= spec_signature());
    }
    r
}

/// Where a color map would be described. This profile carries none, so
/// every field is zero.
#[derive(Copy, Clone, Debug, PartialEq, Eq, Structural)]
pub struct ColorMapSpecification {
    pub first_entry_index: u16,
    pub entry_count: u16,
    pub color_depth: BitDepth,
}

impl ColorMapSpecification {
    /// The five bytes of the record: two little-endian 16-bit integers
    /// followed by the depth byte.
    pub open spec fn spec_bytes(self) -> Seq<u8> {
        spec_u16_le(self.first_entry_index) + spec_u16_le(self.entry_count)
            + seq![self.color_depth.0]
    }

    /// The record's five bytes as plain bytes.
    pub fn to_bytes(&self) -> (r: Vec<u8>)
        ensures
            r@ == self.spec_bytes(),
    {
        let mut out = le_bytes_of_u16(self.first_entry_index);
        let mut count = le_bytes_of_u16(self.entry_count);
        out.append(&mut count);
        out.push(self.color_depth.0);
        proof {
            assert(out@ =~= self.spec_bytes());
        }
        out
    }

    /// Writes the record's five bytes to the sink, in field order, stopping
    /// at the first failure.
    pub fn write_to<S: Sink>(&self, w: &mut S) -> (r: Result<(), WriteError>)
        ensures
            r is Ok ==> final(w).bytes() == old(w).bytes() + self.spec_bytes(),
            r is Err ==> wrote_prefix(old(w).bytes(), final(w).bytes(), self.spec_bytes()),
    {
        let ghost base = old(w).bytes();
        let ghost b0 = spec_u16_le(self.first_entry_index);
        let ghost b1 = spec_u16_le(self.entry_count);
        let ghost b2 = seq![self.color_depth.0];

        match write_u16_le_to(w, self.first_entry_index) {
            Ok(()) => {},
            Err(e) => {
                proof {
                    lemma_wrote_prefix_widen(base, w.bytes(), b0, b1 + b2);
                    assert(b0 + (b1 + b2) =~= self.spec_bytes());
                }
                return Err(e);
            },
        }
        match write_u16_le_to(w, self.entry_count) {
            Ok(()) => {},
            Err(e) => {
                proof {
                    lemma_wrote_prefix_chain(base, b0, w.bytes(), b1);
                    lemma_wrote_prefix_widen(base, w.bytes(), b0 + b1, b2);
                    assert((b0 + b1) + b2 =~= self.spec_bytes());
                }
                return Err(e);
            },
        }
        match write_u8_to(w, self.color_depth.0) {
            Ok(()) => {},
            Err(e) => {
                proof {
                    assert((base + b0) + b1 =~= base + (b0 + b1));
                    lemma_wrote_prefix_chain(base, b0 + b1, w.bytes(), b2);
                    assert((b0 + b1) + b2 =~= self.spec_bytes());
                }
                return Err(e);
            },
        }
        proof {
            assert(w.bytes() =~= base + self.spec_bytes());
        }
        Ok(())
    }
}

impl Default for ColorMapSpecification {
    /// The profile's color-map specification: all fields zero, including
    /// the depth byte, since no color map is present.
    fn default() -> (r: ColorMapSpecification)
        ensures
            r.first_entry_index == 0,
            r.entry_count == 0,
            r.color_depth.0 == 0,
    {
        ColorMapSpecification {
            first_entry_index: 0,
            entry_count: 0,
            color_depth: BitDepth(0),
        }
    }
}

/// The dimensions, pixel depth and descriptor of the image data.
#[derive(Copy, Clone, Debug, PartialEq, Eq, Structural)]
pub struct ImageSpecification {
    pub x_origin: u16,
    pub y_origin: u16,
    pub width: u16,
    pub height: u16,
    pub pixel_depth: BitDepth,
    pub descriptor: ImageDescriptor,
}

impl ImageSpecification {
    /// The ten bytes of the record: four little-endian 16-bit integers
    /// followed by the pixel-depth and descriptor bytes.
    pub open spec fn spec_bytes(self) -> Seq<u8> {
        spec_u16_le(self.x_origin) + spec_u16_le(self.y_origin) + spec_u16_le(self.width)
            + spec_u16_le(self.height) + seq![self.pixel_depth.0] + seq![self.descriptor.0]
    }

    /// The record's ten bytes as plain bytes.
    pub fn to_bytes(&self) -> (r: Vec<u8>)
        ensures
            r@ == self.spec_bytes(),
    {
        let mut out = le_bytes_of_u16(self.x_origin);
        let mut y = le_bytes_of_u16(self.y_origin);
        out.append(&mut y);
        let mut width = le_bytes_of_u16(self.width);
        out.append(&mut width);
        let mut height = le_bytes_of_u16(self.height);
        out.append(&mut height);
        out.push(self.pixel_depth.0);
        out.push(self.descriptor.0);
        proof {
            assert(out@ =~= self.spec_bytes());
        }
        out
    }

    /// Writes the record's ten bytes to the sink, in field order, stopping
    /// at the first failure.
    pub fn write_to<S: Sink>(&self, w: &mut S) -> (r: Result<(), WriteError>)
        ensures
            r is Ok ==> final(w).bytes() == old(w).bytes() + self.spec_bytes(),
            r is Err ==> wrote_prefix(old(w).bytes(), final(w).bytes(), self.spec_bytes()),
    {
        let ghost base = old(w).bytes();
        let ghost e0 = spec_u16_le(self.x_origin);
        let ghost e1 = spec_u16_le(self.y_origin);
        let ghost e2 = spec_u16_le(self.width);
        let ghost e3 = spec_u16_le(self.height);
        let ghost e4 = seq![self.pixel_depth.0];
        let ghost e5 = seq![self.descriptor.0];

        match write_u16_le_to(w, self.x_origin) {
            Ok(()) => {},
            Err(e) => {
                proof {
                    lemma_wrote_prefix_widen(base, w.bytes(), e0, e1 + e2 + e3 + e4 + e5);
                    assert(e0 + (e1 + e2 + e3 + e4 + e5) =~= self.spec_bytes());
                }
                return Err(e);
            },
        }
        match write_u16_le_to(w, self.y_origin) {
            Ok(()) => {},
            Err(e) => {
                proof {
                    lemma_wrote_prefix_chain(base, e0, w.bytes(), e1);
                    lemma_wrote_prefix_widen(base, w.bytes(), e0 + e1, e2 + e3 + e4 + e5);
                    assert((e0 + e1) + (e2 + e3 + e4 + e5) =~= self.spec_bytes());
                }
                return Err(e);
            },
        }
        proof {
            assert(w.bytes() =~= base + (e0 + e1));
        }
        match write_u16_le_to(w, self.width) {
            Ok(()) => {},
            Err(e) => {
                proof {
                    lemma_wrote_prefix_chain(base, e0 + e1, w.bytes(), e2);
                    lemma_wrote_prefix_widen(base, w.bytes(), (e0 + e1) + e2, e3 + e4 + e5);
                    assert(((e0 + e1) + e2) + (e3 + e4 + e5) =~= self.spec_bytes());
                }
                return Err(e);
            },
        }
        proof {
            assert(w.bytes() =~= base + ((e0 + e1) + e2));
        }
        match write_u16_le_to(w, self.height) {
            Ok(()) => {},
            Err(e) => {
                proof {
                    lemma_wrote_prefix_chain(base, (e0 + e1) + e2, w.bytes(), e3);
                    lemma_wrote_prefix_widen(base, w.bytes(), ((e0 + e1) + e2) + e3, e4 + e5);
                    assert((((e0 + e1) + e2) + e3) + (e4 + e5) =~= self.spec_bytes());
                }
                return Err(e);
            },
        }
        proof {
            assert(w.bytes() =~= base + (((e0 + e1) + e2) + e3));
        }
        match write_u8_to(w, self.pixel_depth.0) {
            Ok(()) => {},
            Err(e) => {
                proof {
                    lemma_wrote_prefix_chain(base, ((e0 + e1) + e2) + e3, w.bytes(), e4);
                    lemma_wrote_prefix_widen(base, w.bytes(), (((e0 + e1) + e2) + e3) + e4, e5);
                    assert(((((e0 + e1) + e2) + e3) + e4) + e5 =~= self.spec_bytes());
                }
                return Err(e);
            },
        }
        proof {
            assert(w.bytes() =~= base + ((((e0 + e1) + e2) + e3) + e4));
        }
        match write_u8_to(w, self.descriptor.0) {
            Ok(()) => {},
            Err(e) => {
                proof {
                    lemma_wrote_prefix_chain(base, (((e0 + e1) + e2) + e3) + e4, w.bytes(), e5);
                    assert((((((e0 + e1) + e2) + e3) + e4) + e5) =~= self.spec_bytes());
                }
                return Err(e);
            },
        }
        proof {
            assert(w.bytes() =~= base + self.spec_bytes());
        }
        Ok(())
    }
}

impl Default for ImageSpecification {
    /// The profile's defaults: origins zero, dimensions zero, 32-bit
    /// pixels, an all-clear descriptor byte.
    fn default() -> (r: ImageSpecification)
        ensures
            r.x_origin == 0,
            r.y_origin == 0,
            r.width == 0,
            r.height == 0,
            r.pixel_depth.0 == 32,
            r.descriptor.0 == 0,
    {
        ImageSpecification {
            x_origin: 0,
            y_origin: 0,
            width: 0,
            height: 0,
            pixel_depth: BitDepth(32),
            descriptor: ImageDescriptor(0),
        }
    }
}

/// The 18-byte TGA header: three tag bytes followed by the color-map and
/// image specifications.
#[derive(Copy, Clone, Debug, PartialEq, Eq, Structural)]
pub struct Header {
    pub id_length: u8,
    pub color_map_type: ColorMapType,
    pub image_type: ImageType,
    pub color_map_specification: ColorMapSpecification,
    pub image_specification: ImageSpecification,
}

impl Header {
    /// The 18 bytes of the header, in the fixed field order.
    pub open spec fn spec_bytes(self) -> Seq<u8> {
        seq![self.id_length, self.color_map_type.0, self.image_type.0]
            + self.color_map_specification.spec_bytes()
            + self.image_specification.spec_bytes()
    }

    /// The 18 header bytes as plain bytes.
    pub fn to_bytes(&self) -> (r: Vec<u8>)
        ensures
            r@ == self.spec_bytes(),
    {
        let mut out: Vec<u8> = Vec::new();
        out.push(self.id_length);
        out.push(self.color_map_type.0);
        out.push(self.image_type.0);
        let mut color_map = self.color_map_specification.to_bytes();
        out.append(&mut color_map);
        let mut image = self.image_specification.to_bytes();
        out.append(&mut image);
        proof {
            assert(out@ =~= self.spec_bytes());
        }
        out
    }

    /// Writes the 18 header bytes to the sink, in field order, stopping at
    /// the first failure.
    pub fn write_to<S: Sink>(&self, w: &mut S) -> (r: Result<(), WriteError>)
        ensures
            r is Ok ==> final(w).bytes() == old(w).bytes() + self.spec_bytes(),
            r is Err ==> wrote_prefix(old(w).bytes(), final(w).bytes(), self.spec_bytes()),
    {
        let ghost base = old(w).bytes();
        let ghost h0 = seq![self.id_length];
        let ghost h1 = seq![self.color_map_type.0];
        let ghost h2 = seq![self.image_type.0];
        let ghost h3 = self.color_map_specification.spec_bytes();
        let ghost h4 = self.image_specification.spec_bytes();
        proof {
            assert(seq![self.id_length, self.color_map_type.0, self.image_type.0]
                =~= (h0 + h1) + h2);
        }

        match write_u8_to(w, self.id_length) {
            Ok(()) => {},
            Err(e) => {
                proof {
                    lemma_wrote_prefix_widen(base, w.bytes(), h0, h1 + h2 + h3 + h4);
                    assert(h0 + (h1 + h2 + h3 + h4) =~= self.spec_bytes());
                }
                return Err(e);
            },
        }
        match write_u8_to(w, self.color_map_type.0) {
            Ok(()) => {},
            Err(e) => {
                proof {
                    lemma_wrote_prefix_chain(base, h0, w.bytes(), h1);
                    lemma_wrote_prefix_widen(base, w.bytes(), h0 + h1, h2 + h3 + h4);
                    assert((h0 + h1) + (h2 + h3 + h4) =~= self.spec_bytes());
                }
                return Err(e);
            },
        }
        proof {
            assert(w.bytes() =~= base + (h0 + h1));
        }
        match write_u8_to(w, self.image_type.0) {
            Ok(()) => {},
            Err(e) => {
                proof {
                    lemma_wrote_prefix_chain(base, h0 + h1, w.bytes(), h2);
                    lemma_wrote_prefix_widen(base, w.bytes(), (h0 + h1) + h2, h3 + h4);
                    assert(((h0 + h1) + h2) + (h3 + h4) =~= self.spec_bytes());
                }
                return Err(e);
            },
        }
        proof {
            assert(w.bytes() =~= base + ((h0 + h1) + h2));
        }
        match self.color_map_specification.write_to(w) {
            Ok(()) => {},
            Err(e) => {
                proof {
                    lemma_wrote_prefix_chain(base, (h0 + h1) + h2, w.bytes(), h3);
                    lemma_wrote_prefix_widen(base, w.bytes(), ((h0 + h1) + h2) + h3, h4);
                    assert((((h0 + h1) + h2) + h3) + h4 =~= self.spec_bytes());
                }
                return Err(e);
            },
        }
        proof {
            assert(w.bytes() =~= base + (((h0 + h1) + h2) + h3));
        }
        match self.image_specification.write_to(w) {
            Ok(()) => {},
            Err(e) => {
                proof {
                    lemma_wrote_prefix_chain(base, ((h0 + h1) + h2) + h3, w.bytes(), h4);
                    assert(((((h0 + h1) + h2) + h3) + h4) =~= self.spec_bytes());
                }
                return Err(e);
            },
        }
        proof {
            assert(w.bytes() =~= base + self.spec_bytes());
        }
        Ok(())
    }
}

impl Default for Header {
    /// The profile's header defaults: no identifier, no color map,
    /// true-color data, zeroed color-map specification, default image
    /// specification.
    fn default() -> (r: Header)
        ensures
            r.id_length == 0,
            r.color_map_type.0 == 0,
            r.image_type.0 == 2,
            r.color_map_specification.first_entry_index == 0,
            r.color_map_specification.entry_count == 0,
            r.color_map_specification.color_depth.0 == 0,
            r.image_specification.x_origin == 0,
            r.image_specification.y_origin == 0,
            r.image_specification.width == 0,
            r.image_specification.height == 0,
            r.image_specification.pixel_depth.0 == 32,
            r.image_specification.descriptor.0 == 0,
    {
        Header {
            id_length: 0,
            color_map_type: ColorMapType(0),
            image_type: ImageType(2),
            color_map_specification: ColorMapSpecification::default(),
            image_specification: ImageSpecification::default(),
        }
    }
}

/// The 26-byte TGA 2.0 footer: two zero offsets, the signature, a dot and
/// a terminating NUL.
#[derive(Copy, Clone, Debug, PartialEq, Eq)]
pub struct Footer {
    pub extension_offset: u32,
    pub developer_offset: u32,
    pub signature: [u8; 16],
    pub dot: u8,
    pub nul: u8,
}

impl Footer {
    /// The 26 bytes of the footer, in the fixed field order.
    pub open spec fn spec_bytes(self) -> Seq<u8> {
        spec_u32_le(self.extension_offset) + spec_u32_le(self.developer_offset)
            + self.signature@ + seq![self.dot] + seq![self.nul]
    }

    /// The 26 footer bytes as plain bytes.
    pub fn to_bytes(&self) -> (r: Vec<u8>)
        ensures
            r@ == self.spec_bytes(),
    {
        let mut out = le_bytes_of_u32(self.extension_offset);
        let mut developer = le_bytes_of_u32(self.developer_offset);
        out.append(&mut developer);
        push_bytes(&mut out, vstd::array::array_as_slice(&self.signature));
        out.push(self.dot);
        out.push(self.nul);
        proof {
            assert(out@ =~= self.spec_bytes());
        }
        out
    }

    /// Writes the 26 footer bytes to the sink, in field order, stopping at
    /// the first failure.
    pub fn write_to<S: Sink>(&self, w: &mut S) -> (r: Result<(), WriteError>)
        ensures
            r is Ok ==> final(w).bytes() == old(w).bytes() + self.spec_bytes(),
            r is Err ==> wrote_prefix(old(w).bytes(), final(w).bytes(), self.spec_bytes()),
    {
        let ghost base = old(w).bytes();
        let ghost f0 = spec_u32_le(self.extension_offset);
        let ghost f1 = spec_u32_le(self.developer_offset);
        let ghost f2 = self.signature@;
        let ghost f3 = seq![self.dot];
        let ghost f4 = seq![self.nul];

        match write_u32_le_to(w, self.extension_offset) {
            Ok(()) => {},
            Err(e) => {
                proof {
                    lemma_wrote_prefix_widen(base, w.bytes(), f0, f1 + f2 + f3 + f4);
                    assert(f0 + (f1 + f2 + f3 + f4) =~= self.spec_bytes());
                }
                return Err(e);
            },
        }
        match write_u32_le_to(w, self.developer_offset) {
            Ok(()) => {},
            Err(e) => {
                proof {
                    lemma_wrote_prefix_chain(base, f0, w.bytes(), f1);
                    lemma_wrote_prefix_widen(base, w.bytes(), f0 + f1, f2 + f3 + f4);
                    assert((f0 + f1) + (f2 + f3 + f4) =~= self.spec_bytes());
                }
                return Err(e);
            },
        }
        proof {
            assert(w.bytes() =~= base + (f0 + f1));
        }
        match w.write_bytes(vstd::array::array_as_slice(&self.signature)) {
            Ok(()) => {},
            Err(e) => {
                proof {
                    lemma_wrote_prefix_chain(base, f0 + f1, w.bytes(), f2);
                    lemma_wrote_prefix_widen(base, w.bytes(), (f0 + f1) + f2, f3 + f4);
                    assert(((f0 + f1) + f2) + (f3 + f4) =~= self.spec_bytes());
                }
                return Err(e);
            },
        }
        proof {
            assert(w.bytes() =~= base + ((f0 + f1) + f2));
        }
        match write_u8_to(w, self.dot) {
            Ok(()) => {},
            Err(e) => {
                proof {
                    lemma_wrote_prefix_chain(base, (f0 + f1) + f2, w.bytes(), f3);
                    lemma_wrote_prefix_widen(base, w.bytes(), ((f0 + f1) + f2) + f3, f4);
                    assert((((f0 + f1) + f2) + f3) + f4 =~= self.spec_bytes());
                }
                return Err(e);
            },
        }
        proof {
            assert(w.bytes() =~= base + (((f0 + f1) + f2) + f3));
        }
        match write_u8_to(w, self.nul) {
            Ok(()) => {},
            Err(e) => {
                proof {
                    lemma_wrote_prefix_chain(base, ((f0 + f1) + f2) + f3, w.bytes(), f4);
                    assert(((((f0 + f1) + f2) + f3) + f4) =~= self.spec_bytes());
                }
                return Err(e);
            },
        }
        proof {
            assert(w.bytes() =~= base + self.spec_bytes());
        }
        Ok(())
    }
}

impl Default for Footer {
    /// The profile's footer: zero offsets, the `TRUEVISION-XFILE`
    /// signature, the dot and the NUL.
    fn default() -> (r: Footer)
        ensures
            r.extension_offset == 0,
            r.developer_offset == 0,
            r.signature@ == spec_signature(),
            r.dot == 0x2e,
            r.nul == 0,
    {
        let signature: [u8; 16] = [
            0x54u8, 0x52u8, 0x55u8, 0x45u8, 0x56u8, 0x49u8, 0x53u8, 0x49u8,
            0x4fu8, 0x4eu8, 0x2du8, 0x58u8, 0x46u8, 0x49u8, 0x4cu8, 0x45u8,
        ];
        proof {
            assert(signature@ =~= spec_signature());
        }
        Footer {
            extension_offset: 0,
            developer_offset: 0,
            signature,
            dot: 0x2e,
            nul: 0,
        }
    }
}

} // verus!
