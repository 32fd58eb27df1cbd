use avif::{expand_gray, image_depth, is_ok, layout_for, BitDepth, ColorKind, Layout, RgbFormat, AVIF_RESULT_OK};

#[test]
fn layouts_of_supported_color_types() {
    let cases = [
        (ColorKind::L8, 1, 3, 1, RgbFormat::Rgb, 8, true, false),
        (ColorKind::La8, 2, 4, 1, RgbFormat::Rgba, 8, true, true),
        (ColorKind::Rgb8, 3, 3, 1, RgbFormat::Rgb, 8, false, false),
        (ColorKind::Rgba8, 4, 4, 1, RgbFormat::Rgba, 8, false, true),
        (ColorKind::L16, 1, 3, 2, RgbFormat::Rgb, 16, true, false),
        (ColorKind::La16, 2, 4, 2, RgbFormat::Rgba, 16, true, true),
        (ColorKind::Rgb16, 3, 3, 2, RgbFormat::Rgb, 16, false, false),
        (ColorKind::Rgba16, 4, 4, 2, RgbFormat::Rgba, 16, false, true),
    ];
    for (kind, src, rgb, sb, fmt, depth, gray, alpha) in cases {
        assert_eq!(
            layout_for(kind),
            Some(Layout {
                src_channels: src,
                rgb_channels: rgb,
                sample_bytes: sb,
                rgb_format: fmt,
                rgb_depth: depth,
                gray,
                alpha,
            })
        );
    }
}

#[test]
fn unsupported_color_type_has_no_layout() {
    assert_eq!(layout_for(ColorKind::Other), None);
}

#[test]
fn image_depth_of_each_bit_depth() {
    assert_eq!(image_depth(BitDepth::Eight), 8);
    assert_eq!(image_depth(BitDepth::Ten), 10);
    assert_eq!(image_depth(BitDepth::Twelve), 12);
}

#[test]
fn only_the_ok_code_is_ok() {
    assert!(is_ok(AVIF_RESULT_OK));
    assert!(is_ok(0));
    assert!(!is_ok(1));
    assert!(!is_ok(u32::MAX));
}

#[test]
fn expand_luma8_to_rgb() {
    assert_eq!(expand_gray(&[1, 2, 3], 1, false), vec![1, 1, 1, 2, 2, 2, 3, 3, 3]);
}

#[test]
fn expand_luma_alpha8_to_rgba() {
    assert_eq!(expand_gray(&[10, 200, 20, 100], 1, true), vec![10, 10, 10, 200, 20, 20, 20, 100]);
}

#[test]
fn expand_luma16_keeps_sample_bytes_together() {
    assert_eq!(expand_gray(&[0x12, 0x34, 0x56, 0x78], 2, false), vec![
        0x12, 0x34, 0x12, 0x34, 0x12, 0x34, 0x56, 0x78, 0x56, 0x78, 0x56, 0x78,
    ]);
}

#[test]
fn expand_luma_alpha16_to_rgba() {
    assert_eq!(expand_gray(&[1, 2, 3, 4], 2, true), vec![1, 2, 1, 2, 1, 2, 3, 4]);
}

#[test]
fn expand_ignores_trailing_partial_pixel() {
    assert_eq!(expand_gray(&[5, 6, 7], 1, true), vec![5, 5, 5, 6]);
    assert_eq!(expand_gray(&[5, 6, 7], 2, false), vec![5, 6, 5, 6, 5, 6]);
}

#[test]
fn expand_empty_buffer() {
    assert_eq!(expand_gray(&[], 1, false), Vec::<u8>::new());
    assert_eq!(expand_gray(&[9], 2, false), Vec::<u8>::new());
}

#[test]
fn expanded_pixels_are_neutral_gray() {
    let buf: Vec<u8> = (0..=255u8).collect();
    let out = expand_gray(&buf, 1, false);
    assert_eq!(out.len(), 3 * buf.len());
    for (p, chunk) in out.chunks(3).enumerate() {
        assert_eq!(chunk, &[buf[p], buf[p], buf[p]]);
    }
}

#[test]
fn expanding_concatenated_buffers_concatenates_expansions() {
    let a = [1u8, 2, 3, 4];
    let b = [5u8, 6, 7];
    let whole: Vec<u8> = a.iter().chain(b.iter()).copied().collect();
    for (sb, alpha) in [(1usize, false), (1, true), (2, false)] {
        let mut joined = expand_gray(&a, sb, alpha);
        joined.extend(expand_gray(&b, sb, alpha));
        assert_eq!(expand_gray(&whole, sb, alpha), joined);
    }
}
