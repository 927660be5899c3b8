use tga::{
    BitDepth, BoundedSink, ColorMapSpecification, Footer, Header, HorizontalOrdering, Image,
    ImageDescriptorBuilder, ImageSpecification, VecSink, VerticalOrdering, le_bytes_of_u16,
    le_bytes_of_u32, signature_bytes,
};

fn golden_1x1() -> Vec<u8> {
    let mut expected: Vec<u8> = vec![
        0, 0, 2, // id length, color-map type, image type
        0, 0, 0, 0, 0, // zeroed color-map specification
        0, 0, 0, 0, // x-origin, y-origin
        1, 0, 1, 0, // width 1, height 1
        32, 40, // pixel depth, descriptor
        0x11, 0x22, 0x33, 0x44, // the single BGRA pixel
        0, 0, 0, 0, 0, 0, 0, 0, // extension and developer offsets
    ];
    expected.extend_from_slice(b"TRUEVISION-XFILE");
    expected.push(0x2e);
    expected.push(0x00);
    expected
}

#[test]
fn effective_size_is_four_bytes_per_pixel() {
    assert_eq!(Image::effective_size(0, 0), 0);
    assert_eq!(Image::effective_size(1, 1), 4);
    assert_eq!(Image::effective_size(3, 2), 24);
    assert_eq!(Image::effective_size(640, 480), 640 * 480 * 4);
    assert_eq!(Image::effective_size(65535, 65535), 65535usize * 65535 * 4);
}

#[test]
fn descriptor_default_packer_yields_40() {
    let descriptor = ImageDescriptorBuilder::new()
        .with_alpha(BitDepth(8))
        .with_horizontal_ordering(HorizontalOrdering::LeftToRight)
        .with_vertical_ordering(VerticalOrdering::TopToBottom)
        .build();
    assert_eq!(descriptor.0, 0b00101000);
    assert_eq!(descriptor.0, 40);
}

#[test]
fn descriptor_right_to_left_only_yields_16() {
    let descriptor = ImageDescriptorBuilder::new()
        .with_alpha(BitDepth(0))
        .with_horizontal_ordering(HorizontalOrdering::RightToLeft)
        .with_vertical_ordering(VerticalOrdering::BottomToTop)
        .build();
    assert_eq!(descriptor.0, 0b00010000);
    assert_eq!(descriptor.0, 16);
}

#[test]
fn descriptor_builder_starts_from_tga_defaults() {
    let builder = ImageDescriptorBuilder::new();
    assert_eq!(builder.alpha_depth, BitDepth(32));
    assert_eq!(builder.horizontal_ordering, HorizontalOrdering::LeftToRight);
    assert_eq!(builder.vertical_ordering, VerticalOrdering::BottomToTop);
}

#[test]
fn golden_encode_one_pixel() {
    let img = Image::new(1, 1, vec![0x11, 0x22, 0x33, 0x44]);
    let mut sink = VecSink::new();
    assert!(img.write_to(&mut sink).is_ok());
    let out = sink.into_vec();
    assert_eq!(out.len(), 48);
    assert_eq!(out, golden_1x1());
}

#[test]
fn zero_dimension_encode_is_44_bytes() {
    let img = Image::new(0, 0, Vec::new());
    let mut sink = VecSink::new();
    assert!(img.write_to(&mut sink).is_ok());
    let out = sink.into_vec();
    assert_eq!(out.len(), 44);
    // Pixel section empty: header runs straight into the footer offsets.
    assert_eq!(out[12..16], [0, 0, 0, 0]);
    assert_eq!(out[18..26], [0, 0, 0, 0, 0, 0, 0, 0]);
}

#[test]
fn write_twice_gives_identical_bytes() {
    let img = Image::new(2, 1, vec![1, 2, 3, 4, 5, 6, 7, 8]);
    let mut first = VecSink::new();
    let mut second = VecSink::new();
    assert!(img.write_to(&mut first).is_ok());
    assert!(img.write_to(&mut second).is_ok());
    assert_eq!(first.into_vec(), second.into_vec());
}

#[test]
fn failing_sink_stops_the_write_at_the_failure() {
    let img = Image::new(1, 1, vec![0x11, 0x22, 0x33, 0x44]);
    let mut sink = BoundedSink::new(10);
    assert!(img.write_to(&mut sink).is_err());
    let out = sink.into_vec();
    assert_eq!(out, golden_1x1()[..10].to_vec());
}

#[test]
fn failure_can_fall_inside_the_pixel_section() {
    let img = Image::new(1, 1, vec![0x11, 0x22, 0x33, 0x44]);
    let mut sink = BoundedSink::new(20);
    assert!(img.write_to(&mut sink).is_err());
    let out = sink.into_vec();
    assert_eq!(out, golden_1x1()[..20].to_vec());
}

#[test]
fn exactly_enough_room_succeeds() {
    let img = Image::new(1, 1, vec![0x11, 0x22, 0x33, 0x44]);
    let mut sink = BoundedSink::new(48);
    assert!(img.write_to(&mut sink).is_ok());
    assert_eq!(sink.into_vec(), golden_1x1());
}

#[test]
fn footer_trailer_is_fixed_regardless_of_content() {
    // A deliberately mismatched buffer: seven bytes for a 3x5 image. The
    // encoder still produces a structurally well-formed file.
    let img = Image::new(3, 5, vec![9, 8, 7, 6, 5, 4, 3]);
    let mut sink = VecSink::new();
    assert!(img.write_to(&mut sink).is_ok());
    let out = sink.into_vec();
    assert_eq!(out.len(), 18 + 7 + 26);
    let tail = &out[out.len() - 26..];
    assert_eq!(tail[..8], [0, 0, 0, 0, 0, 0, 0, 0]);
    assert_eq!(&tail[8..24], b"TRUEVISION-XFILE");
    assert_eq!(tail[24], 0x2e);
    assert_eq!(tail[25], 0x00);
}

#[test]
fn header_writes_its_eighteen_bytes() {
    let header = Header {
        id_length: 0,
        color_map_type: tga::ColorMapType(0),
        image_type: tga::ImageType(2),
        color_map_specification: ColorMapSpecification {
            first_entry_index: 0,
            entry_count: 0,
            color_depth: BitDepth(0),
        },
        image_specification: ImageSpecification {
            x_origin: 0,
            y_origin: 0,
            width: 1,
            height: 1,
            pixel_depth: BitDepth(32),
            descriptor: ImageDescriptorBuilder::new()
                .with_alpha(BitDepth(8))
                .with_vertical_ordering(VerticalOrdering::TopToBottom)
                .build(),
        },
    };
    let mut sink = VecSink::new();
    assert!(header.write_to(&mut sink).is_ok());
    assert_eq!(sink.into_vec(), golden_1x1()[..18].to_vec());
}

#[test]
fn color_map_specification_writes_little_endian_fields() {
    let record = ColorMapSpecification {
        first_entry_index: 0x0201,
        entry_count: 0x0403,
        color_depth: BitDepth(24),
    };
    let mut sink = VecSink::new();
    assert!(record.write_to(&mut sink).is_ok());
    assert_eq!(sink.into_vec(), vec![0x01, 0x02, 0x03, 0x04, 24]);
}

#[test]
fn default_footer_writes_the_fixed_trailer() {
    let footer = Footer::default();
    let mut sink = VecSink::new();
    assert!(footer.write_to(&mut sink).is_ok());
    let out = sink.into_vec();
    assert_eq!(out.len(), 26);
    assert_eq!(out[..8], [0, 0, 0, 0, 0, 0, 0, 0]);
    assert_eq!(&out[8..24], b"TRUEVISION-XFILE");
    assert_eq!(out[24..26], [0x2e, 0x00]);
}

#[test]
fn little_endian_helpers_match_known_values() {
    assert_eq!(le_bytes_of_u16(0), vec![0, 0]);
    assert_eq!(le_bytes_of_u16(1), vec![1, 0]);
    assert_eq!(le_bytes_of_u16(0x1234), vec![0x34, 0x12]);
    assert_eq!(le_bytes_of_u16(0xffff), vec![0xff, 0xff]);
    assert_eq!(le_bytes_of_u32(0), vec![0, 0, 0, 0]);
    assert_eq!(le_bytes_of_u32(0xdeadbeef), vec![0xef, 0xbe, 0xad, 0xde]);
}

#[test]
fn signature_is_the_sixteen_ascii_bytes() {
    assert_eq!(signature_bytes(), b"TRUEVISION-XFILE".to_vec());
}

#[test]
fn bounded_sink_keeps_the_leading_bytes_it_accepted() {
    let mut sink = BoundedSink::new(3);
    assert_eq!(sink.capacity(), 3);
    assert!(tga::Sink::write_bytes(&mut sink, &[1, 2]).is_ok());
    assert!(tga::Sink::write_bytes(&mut sink, &[3, 4, 5]).is_err());
    assert_eq!(sink.into_vec(), vec![1, 2, 3]);
}

#[test]
fn vec_sink_accepts_everything() {
    let mut sink = VecSink::new();
    assert!(tga::Sink::write_bytes(&mut sink, &[1, 2, 3]).is_ok());
    assert!(tga::Sink::write_bytes(&mut sink, &[]).is_ok());
    assert!(tga::Sink::write_bytes(&mut sink, &[4]).is_ok());
    assert_eq!(sink.as_bytes().as_slice(), &[1, 2, 3, 4]);
}

#[test]
fn default_image_encodes_like_an_explicit_empty_one() {
    let default_img = Image::default();
    let explicit = Image::new(0, 0, Vec::new());
    let mut first = VecSink::new();
    let mut second = VecSink::new();
    assert!(default_img.write_to(&mut first).is_ok());
    assert!(explicit.write_to(&mut second).is_ok());
    assert_eq!(first.into_vec(), second.into_vec());
}

#[test]
fn default_header_matches_the_profile() {
    let header = Header::default();
    assert_eq!(header.id_length, 0);
    assert_eq!(header.color_map_type, tga::ColorMapType(0));
    assert_eq!(header.image_type, tga::ImageType(2));
    assert_eq!(header.color_map_specification, ColorMapSpecification::default());
    assert_eq!(header.image_specification.pixel_depth, BitDepth(32));
    assert_eq!(header.image_specification.descriptor.0, 0);
}

#[test]
fn tag_defaults_match_the_tga_spec() {
    assert_eq!(BitDepth::default(), BitDepth(32));
    assert_eq!(tga::ColorMapType::default(), tga::ColorMapType(0));
    assert_eq!(tga::ImageType::default(), tga::ImageType(2));
    assert_eq!(HorizontalOrdering::default(), HorizontalOrdering::LeftToRight);
    assert_eq!(VerticalOrdering::default(), VerticalOrdering::BottomToTop);
}

#[test]
fn encode_matches_the_sink_write() {
    let img = Image::new(2, 2, vec![0, 1, 2, 3, 4, 5, 6, 7, 8, 9, 10, 11, 12, 13, 14, 15]);
    let mut sink = VecSink::new();
    assert!(img.write_to(&mut sink).is_ok());
    assert_eq!(img.encode(), sink.into_vec());
}

#[test]
fn encode_golden_one_pixel() {
    let img = Image::new(1, 1, vec![0x11, 0x22, 0x33, 0x44]);
    assert_eq!(img.encode(), golden_1x1());
}

#[test]
fn record_to_bytes_matches_what_the_sink_receives() {
    let record = ColorMapSpecification {
        first_entry_index: 7,
        entry_count: 300,
        color_depth: BitDepth(16),
    };
    let mut sink = VecSink::new();
    assert!(record.write_to(&mut sink).is_ok());
    assert_eq!(record.to_bytes(), sink.into_vec());
    assert_eq!(Footer::default().to_bytes().len(), 26);
}
