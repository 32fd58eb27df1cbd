use avif::{
    AvifError, BitDepth, CodecChoice, ColorKind, YuvFormat, EncodeError, EncodePlan, EncoderConfig, EncoderSettings,
    RgbFormat, Tiling,
};

fn plan(config: &EncoderConfig, buf: &[u8], w: u32, h: u32, kind: ColorKind) -> EncodePlan {
    match config.prepare(buf, w, h, kind) {
        Ok(p) => p,
        Err(e) => panic!("unexpected error {:?}", e),
    }
}

#[test]
fn zero_width_is_invalid_dimensions() {
    let c = EncoderConfig::default();
    match c.prepare(&[], 0, 4, ColorKind::Rgb8) {
        Err(EncodeError::Avif(AvifError::InvalidDimensions { width, height })) => {
            assert_eq!((width, height), (0, 4));
        }
        other => panic!("unexpected {:?}", other),
    }
}

#[test]
fn zero_height_is_checked_before_color_type() {
    let c = EncoderConfig::default();
    match c.prepare(&[1, 2, 3], 3, 0, ColorKind::Other) {
        Err(EncodeError::Avif(AvifError::InvalidDimensions { width, height })) => {
            assert_eq!((width, height), (3, 0));
        }
        other => panic!("unexpected {:?}", other),
    }
}

#[test]
fn unsupported_color_type_is_reported() {
    let c = EncoderConfig::default();
    match c.prepare(&[0; 16], 2, 2, ColorKind::Other) {
        Err(EncodeError::Unsupported(kind)) => assert_eq!(kind, ColorKind::Other),
        other => panic!("unexpected {:?}", other),
    }
}

#[test]
fn wrong_buffer_length_is_reported() {
    let c = EncoderConfig::default();
    match c.prepare(&[0; 11], 2, 2, ColorKind::Rgb8) {
        Err(EncodeError::Avif(AvifError::BufferSize { len, width, height, channels, sample_bytes })) => {
            assert_eq!((len, width, height, channels, sample_bytes), (11, 2, 2, 3, 1));
        }
        other => panic!("unexpected {:?}", other),
    }
    match c.prepare(&[0; 8], 2, 2, ColorKind::La16) {
        Err(EncodeError::Avif(AvifError::BufferSize { len, channels, sample_bytes, .. })) => {
            assert_eq!((len, channels, sample_bytes), (8, 2, 2));
        }
        other => panic!("unexpected {:?}", other),
    }
}

#[test]
fn rgb8_input_is_handed_over_unchanged() {
    let c = EncoderConfig::default();
    let buf: Vec<u8> = (0..24).collect();
    let p = plan(&c, &buf, 4, 2, ColorKind::Rgb8);
    assert_eq!((p.width, p.height, p.depth), (4, 2, 8));
    assert_eq!(p.layout.rgb_format, RgbFormat::Rgb);
    assert_eq!(p.row_bytes, 12);
    assert!(p.expanded.is_none());
    assert_eq!(p.pixels(&buf), &buf[..]);
    assert_eq!(p.pixels(&buf).len(), p.row_bytes as usize * p.height as usize);
}

#[test]
fn rgba16_rows_are_eight_bytes_per_pixel() {
    let c = EncoderConfig::default();
    let buf = vec![0u8; 3 * 5 * 8];
    let p = plan(&c, &buf, 3, 5, ColorKind::Rgba16);
    assert_eq!(p.row_bytes, 24);
    assert_eq!(p.layout.rgb_depth, 16);
    assert_eq!(p.layout.rgb_format, RgbFormat::Rgba);
}

#[test]
fn grayscale_input_is_expanded() {
    let c = EncoderConfig::default();
    let buf = [1u8, 2, 3, 4];
    let p = plan(&c, &buf, 2, 2, ColorKind::L8);
    assert_eq!(p.row_bytes, 6);
    assert_eq!(p.expanded, Some(vec![1, 1, 1, 2, 2, 2, 3, 3, 3, 4, 4, 4]));
    assert_eq!(p.pixels(&buf), &[1, 1, 1, 2, 2, 2, 3, 3, 3, 4, 4, 4][..]);
    assert_eq!(p.pixels(&buf).len(), p.row_bytes as usize * p.height as usize);
}

#[test]
fn grayscale_alpha16_rows_cover_the_expanded_buffer() {
    let c = EncoderConfig::default();
    let buf: Vec<u8> = (0..12).collect();
    let p = plan(&c, &buf, 3, 1, ColorKind::La16);
    assert_eq!(p.row_bytes, 24);
    assert_eq!(p.pixels(&buf).len(), 24);
    assert_eq!(&p.pixels(&buf)[..8], &[0, 1, 0, 1, 0, 1, 2, 3]);
}

#[test]
fn default_settings_use_auto_tiling_and_auto_threads() {
    let s = EncoderConfig::default().settings();
    assert_eq!(s, EncoderSettings { codec: CodecChoice::Svt, speed: 6, quality: 60, quality_alpha: 60, max_threads: 0, tiling: Tiling::Auto });
}

#[test]
fn explicit_tiles_and_threads_are_passed_on() {
    let c = EncoderConfig {
        speed: 9,
        quality: 20,
        quality_alpha: 30,
        threads: Some(3),
        bit_depth: BitDepth::Twelve,
        tile_columns: 2,
        tile_rows: 0,
    };
    let s = c.settings();
    assert_eq!(s.speed, 9);
    assert_eq!(s.quality, 20);
    assert_eq!(s.quality_alpha, 30);
    assert_eq!(s.max_threads, 3);
    assert_eq!(s.tiling, Tiling::Explicit { cols_log2: 2, rows_log2: 0 });
    assert_eq!(s.codec, CodecChoice::Svt);
    let p = plan(&c, &[0; 3], 1, 1, ColorKind::Rgb8);
    assert_eq!(p.depth, 12);
    assert_eq!(p.yuv_format, YuvFormat::Yuv420);
    assert_eq!(p.settings, s);
}

#[test]
fn only_rows_given_is_explicit_tiling() {
    let c = EncoderConfig { tile_rows: 1, ..EncoderConfig::default() };
    assert_eq!(c.settings().tiling, Tiling::Explicit { cols_log2: 0, rows_log2: 1 });
}

#[test]
fn ordinary_requests_fit() {
    assert!(avif::request_fits(12, 2, 2, ColorKind::Rgb8));
    assert!(avif::request_fits(0, 0, 7, ColorKind::Rgba16));
    assert!(avif::request_fits(5, 2, 2, ColorKind::Other));
    assert!(avif::request_fits(3, 2, 2, ColorKind::L16));
}

#[test]
fn oversized_requests_do_not_fit() {
    // 4 billion squared pixels of 8 bytes exceed any usize.
    assert!(!avif::request_fits(0, u32::MAX, u32::MAX, ColorKind::Rgba16));
    // A matching 16-bit gray buffer whose RGB rows would exceed a u32 row size.
    let width: u32 = 0x3000_0000;
    if usize::MAX as u128 >= 0x6000_0000u128 * 3 {
        assert!(!avif::request_fits(0x6000_0000, width, 1, ColorKind::L16));
        // A mismatched length is rejected by `prepare` before any row is computed.
        assert!(avif::request_fits(0x6000_0001, width, 1, ColorKind::L16));
    }
}
