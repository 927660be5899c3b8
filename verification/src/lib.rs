//! Encoder for one fixed profile of the Truevision TGA raster format:
//! uncompressed 32-bit true-color pixels with an 8-bit alpha channel, no
//! color map, no image identifier, and an empty TGA 2.0 footer.
//!
//! The heart of the crate is the byte layout: every record states, as a
//! sequence of bytes, exactly what its serialization produces, and the
//! writers are proved to deliver those bytes to the caller's sink.


mod bytes;
mod tags;
mod descriptor;
mod sink;
mod records;
mod image;

pub use bytes::le_bytes_of_u16;
pub use bytes::le_bytes_of_u32;
pub use bytes::wrote_prefix;
pub use tags::BitDepth;
pub use tags::ColorMapType;
pub use tags::ImageType;
pub use tags::HorizontalOrdering;
pub use tags::VerticalOrdering;
pub use descriptor::ImageDescriptor;
pub use descriptor::ImageDescriptorBuilder;
pub use descriptor::descriptor_byte;
pub use sink::WriteError;
pub use sink::Sink;
pub use sink::VecSink;
pub use sink::BoundedSink;
pub use sink::write_u8_to;
pub use sink::write_u16_le_to;
pub use sink::write_u32_le_to;
pub use records::ColorMapSpecification;
pub use records::ImageSpecification;
pub use records::Header;
pub use records::Footer;
pub use records::spec_signature;
pub use records::signature_bytes;
pub use image::Image;
pub use image::spec_footer_bytes;
pub use image::lemma_write_deterministic;
pub use image::lemma_encoding_layout;
pub use image::lemma_total_file_size;
pub use image::lemma_footer_signature;
