//! The public entity: an immutable pixel buffer with its dimensions, and
//! the write operation that streams header, pixel bytes and footer to a
//! caller-supplied sink.

use vstd::prelude::*;
use crate::bytes::spec_u32_le;
use crate::bytes::wrote_prefix;
use crate::bytes::push_bytes;
use crate::bytes::lemma_wrote_prefix_widen;
use crate::bytes::lemma_wrote_prefix_chain;
use crate::tags::BitDepth;
use crate::tags::ColorMapType;
use crate::tags::ImageType;
use crate::tags::HorizontalOrdering;
use crate::tags::VerticalOrdering;
use crate::descriptor::ImageDescriptor;
use crate::descriptor::ImageDescriptorBuilder;
use crate::descriptor::descriptor_byte;
use crate::records::ColorMapSpecification;
use crate::records::ImageSpecification;
use crate::records::Header;
use crate::records::Footer;
use crate::records::spec_signature;
use crate::sink::Sink;
use crate::sink::WriteError;

verus! {

/// The 26 bytes the encoder always appends: zero extension and developer
/// offsets, the `TRUEVISION-XFILE` signature, a dot and a NUL.
pub open spec fn spec_footer_bytes() -> Seq<u8> {
    spec_u32_le(0) + spec_u32_le(0) + spec_signature() + seq![0x2eu8] + seq![0u8]
}

/// A 32-bit uncompressed true-color TGA image: a pixel buffer and its
/// dimensions, captured verbatim at construction and never changed. The
/// buffer is meant to hold `width * height * 4` bytes of BGRA pixels,
/// rows top first, but no check is made: a mismatched buffer still yields
/// a structurally well-formed file.
#[derive(Clone, Debug)]
pub struct Image {
    data: Vec<u8>,
    width: u16,
    height: u16,
}

impl Image {
    /// The stored width.
    pub closed spec fn spec_width(self) -> u16 {
        self.width
    }

    /// The stored height.
    pub closed spec fn spec_height(self) -> u16 {
        self.height
    }

    /// The stored pixel bytes.
    pub closed spec fn spec_data(self) -> Seq<u8> {
        self.data@
    }

    /// The header the encoder writes for this image: no identifier, no
    /// color map, true-color data, this image's dimensions, 32-bit pixels,
    /// and a descriptor carrying an 8-bit alpha depth with rows ordered top
    /// to bottom.
    pub open spec fn spec_header(self) -> Header {
        Header {
            id_length: 0,
            color_map_type: ColorMapType(0),
            image_type: ImageType(2),
            color_map_specification: ColorMapSpecification {
                first_entry_index: 0,
                entry_count: 0,
                color_depth: BitDepth(0),
            },
            image_specification: ImageSpecification {
                x_origin: 0,
                y_origin: 0,
                width: self.spec_width(),
                height: self.spec_height(),
                pixel_depth: BitDepth(32),
                descriptor: ImageDescriptor(
                    descriptor_byte(
                        8,
                        HorizontalOrdering::LeftToRight,
                        VerticalOrdering::TopToBottom,
                    ),
                ),
            },
        }
    }

    /// The complete byte stream the encoder produces for this image: the
    /// 18-byte header, the pixel bytes verbatim, the 26-byte footer.
    pub open spec fn spec_encoding(self) -> Seq<u8> {
        self.spec_header().spec_bytes() + self.spec_data() + spec_footer_bytes()
    }

    /// The size in bytes of the pixel section of an image with the given
    /// dimensions: four bytes per pixel. The bound keeps the product inside
    /// the machine's size type; on 64-bit machines it always holds.
    pub fn effective_size(width: u16, height: u16) -> (r: usize)
        requires
            width as int * height as int * 4 <= usize::MAX as int,
        ensures
            r == width as int * height as int * 4,
    {
        proof {
            assert((width as int * 4) * height as int == width as int * height as int * 4)
                by (nonlinear_arith);
        }
        (width as usize) * 4 * (height as usize)
    }

    /// Captures the three values verbatim. No check relates the buffer's
    /// length to the dimensions; the caller owns that invariant.
    pub fn new(width: u16, height: u16, data: Vec<u8>) -> (r: Image)
        ensures
            r.spec_width() == width,
            r.spec_height() == height,
            r.spec_data() == data@,
    {
        Image { data, width, height }
    }

    /// The complete encoding as plain bytes. Encoding into memory cannot
    /// fail, so the result is always exactly the image's encoding.
    pub fn encode(&self) -> (r: Vec<u8>)
        ensures
            r@ == self.spec_encoding(),
    {
        let descriptor = ImageDescriptorBuilder::new()
            .with_alpha(BitDepth::b8())
            .with_vertical_ordering(VerticalOrdering::TopToBottom)
            .build();
        let header = Header {
            id_length: 0,
            color_map_type: ColorMapType::absent(),
            image_type: ImageType::true_color(),
            color_map_specification: ColorMapSpecification::default(),
            image_specification: ImageSpecification {
                x_origin: 0,
                y_origin: 0,
                width: self.width,
                height: self.height,
                pixel_depth: BitDepth::b32(),
                descriptor,
            },
        };
        let footer = Footer::default();
        proof {
            assert(header == self.spec_header());
            assert(footer.spec_bytes() =~= spec_footer_bytes());
        }

        let mut out = header.to_bytes();
        push_bytes(&mut out, self.data.as_slice());
        let mut trailer = footer.to_bytes();
        out.append(&mut trailer);
        proof {
            assert(out@ =~= self.spec_encoding());
        }
        out
    }

    /// Streams the image to the sink: header, pixel bytes, footer. On
    /// success the sink received exactly the image's encoding after what it
    /// already held; on failure the sink received some leading portion of
    /// that encoding and nothing further was written.
    pub fn write_to<S: Sink>(&self, w: &mut S) -> (r: Result<(), WriteError>)
        ensures
            r is Ok ==> final(w).bytes() == old(w).bytes() + self.spec_encoding(),
            r is Err ==> wrote_prefix(old(w).bytes(), final(w).bytes(), self.spec_encoding()),
    {
        let descriptor = ImageDescriptorBuilder::new()
            .with_alpha(BitDepth::b8())
            .with_vertical_ordering(VerticalOrdering::TopToBottom)
            .build();
        let header = Header {
            id_length: 0,
            color_map_type: ColorMapType::absent(),
            image_type: ImageType::true_color(),
            color_map_specification: ColorMapSpecification::default(),
            image_specification: ImageSpecification {
                x_origin: 0,
                y_origin: 0,
                width: self.width,
                height: self.height,
                pixel_depth: BitDepth::b32(),
                descriptor,
            },
        };
        let footer = Footer::default();

        let ghost base = old(w).bytes();
        let ghost g0 = self.spec_header().spec_bytes();
        let ghost g1 = self.spec_data();
        let ghost g2 = spec_footer_bytes();
        proof {
            assert(header == self.spec_header());
            assert(footer.spec_bytes() =~= g2);
        }

        match header.write_to(w) {
            Ok(()) => {},
            Err(e) => {
                proof {
                    lemma_wrote_prefix_widen(base, w.bytes(), g0, g1 + g2);
                    assert(g0 + (g1 + g2) =~= self.spec_encoding());
                }
                return Err(e);
            },
        }
        match w.write_bytes(self.data.as_slice()) {
            Ok(()) => {},
            Err(e) => {
                proof {
                    lemma_wrote_prefix_chain(base, g0, w.bytes(), g1);
                    lemma_wrote_prefix_widen(base, w.bytes(), g0 + g1, g2);
                    assert((g0 + g1) + g2 =~= self.spec_encoding());
                }
                return Err(e);
            },
        }
        proof {
            assert(w.bytes() =~= base + (g0 + g1));
        }
        match footer.write_to(w) {
            Ok(()) => {},
            Err(e) => {
                proof {
                    lemma_wrote_prefix_chain(base, g0 + g1, w.bytes(), g2);
                    assert((g0 + g1) + g2 =~= self.spec_encoding());
                }
                return Err(e);
            },
        }
        proof {
            assert(w.bytes() =~= base + self.spec_encoding());
        }
        Ok(())
    }
}

impl Default for Image {
    /// An empty image: zero dimensions and no pixel bytes.
    fn default() -> (r: Image)
        ensures
            r.spec_width() == 0,
            r.spec_height() == 0,
            r.spec_data() == Seq::<u8>::empty(),
    {
        Image { data: Vec::new(), width: 0, height: 0 }
    }
}

/// Writing never depends on anything but the image: the encoding is a
/// function of the image alone, so writing the same image twice — each
/// time into a fresh sink — yields byte-identical output both times.
pub proof fn lemma_write_deterministic(img: Image, first: Seq<u8>, second: Seq<u8>)
    requires
        first == img.spec_encoding(),
        second == img.spec_encoding(),
    ensures
        first == second,
{
}

/// The encoding always splits into the 18 header bytes, the pixel bytes
/// verbatim, and the 26 footer bytes, so its length is the pixel buffer's
/// length plus 44.
pub proof fn lemma_encoding_layout(img: Image)
    ensures
        img.spec_encoding().len() == 18 + img.spec_data().len() + 26,
        img.spec_encoding().subrange(0, 18) == img.spec_header().spec_bytes(),
        img.spec_encoding().subrange(18, 18 + img.spec_data().len() as int)
            == img.spec_data(),
        img.spec_encoding().subrange(
            18 + img.spec_data().len() as int,
            img.spec_encoding().len() as int,
        ) == spec_footer_bytes(),
{
    let e = img.spec_encoding();
    let h = img.spec_header().spec_bytes();
    let d = img.spec_data();
    let f = spec_footer_bytes();
    assert(h.len() == 18);
    assert(f.len() == 26);
    assert(e.subrange(0, 18) =~= h);
    assert(e.subrange(18, 18 + d.len() as int) =~= d);
    assert(e.subrange(18 + d.len() as int, e.len() as int) =~= f);
}

/// When the pixel buffer matches the dimensions — four bytes per pixel —
/// the whole file is 18 header bytes, the pixel section, and 26 footer
/// bytes.
pub proof fn lemma_total_file_size(img: Image)
    requires
        img.spec_data().len() == img.spec_width() as int * img.spec_height() as int * 4,
    ensures
        img.spec_encoding().len() == 18 + img.spec_width() as int * img.spec_height() as int
            * 4 + 26,
{
    lemma_encoding_layout(img);
}

/// Whatever the image holds, its encoding ends with the two zero offsets,
/// the 16 ASCII bytes `TRUEVISION-XFILE`, a dot (0x2e) and a NUL.
pub proof fn lemma_footer_signature(img: Image)
    ensures
        img.spec_encoding().len() >= 26,
        img.spec_encoding().subrange(
            img.spec_encoding().len() - 18,
            img.spec_encoding().len() - 2,
        ) == spec_signature(),
        img.spec_encoding()[img.spec_encoding().len() - 2] == 0x2eu8,
        img.spec_encoding()[img.spec_encoding().len() - 1] == 0u8,
{
    let e = img.spec_encoding();
    lemma_encoding_layout(img);
    assert(e.subrange(e.len() - 18, e.len() - 2) =~= spec_signature());
}

} // verus!
