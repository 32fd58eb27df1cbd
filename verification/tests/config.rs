use avif::{
    AvifDecoder, AvifEncoder, AvifHeader, BitDepth, DecodeError, DecodedColor, DecoderConfig,
    EncoderConfig,
};

fn custom_config() -> EncoderConfig {
    EncoderConfig {
        speed: 9,
        quality: 20,
        quality_alpha: 30,
        threads: Some(2),
        bit_depth: BitDepth::Ten,
        tile_columns: 1,
        tile_rows: 2,
    }
}

#[test]
fn default_config_matches_documented_values() {
    let c = EncoderConfig::default();
    assert_eq!(c.speed, 6);
    assert_eq!(c.quality, 60);
    assert_eq!(c.quality_alpha, 60);
    assert_eq!(c.threads, None);
    assert_eq!(c.bit_depth, BitDepth::Eight);
    assert_eq!(c.tile_columns, 0);
    assert_eq!(c.tile_rows, 0);
}

#[test]
fn new_encoder_uses_defaults_and_keeps_writer() {
    let (w, c) = AvifEncoder::new(vec![7u8]).into_parts();
    assert_eq!(w, vec![7u8]);
    assert_eq!(c, EncoderConfig::default());
}

#[test]
fn new_with_config_keeps_config() {
    let (w, c) = AvifEncoder::new_with_config(5u32, custom_config()).into_parts();
    assert_eq!(w, 5);
    assert_eq!(c, custom_config());
}

#[test]
fn builders_change_one_setting_each() {
    let base = AvifEncoder::new_with_config((), custom_config());
    let (_, c) = base.with_speed(3).into_parts();
    assert_eq!(c, EncoderConfig { speed: 3, ..custom_config() });

    let (_, c) = AvifEncoder::new_with_config((), custom_config()).with_quality(80).into_parts();
    assert_eq!(c, EncoderConfig { quality: 80, ..custom_config() });

    let (_, c) = AvifEncoder::new_with_config((), custom_config()).with_quality_alpha(11).into_parts();
    assert_eq!(c, EncoderConfig { quality_alpha: 11, ..custom_config() });

    let (_, c) = AvifEncoder::new_with_config((), custom_config()).with_threads(4).into_parts();
    assert_eq!(c, EncoderConfig { threads: Some(4), ..custom_config() });

    let (_, c) = AvifEncoder::new_with_config((), custom_config())
        .with_bit_depth(BitDepth::Twelve)
        .into_parts();
    assert_eq!(c, EncoderConfig { bit_depth: BitDepth::Twelve, ..custom_config() });
}

#[test]
fn builder_chain_as_in_readme() {
    let (_, c) = AvifEncoder::new(Vec::<u8>::new())
        .with_quality(80)
        .with_speed(4)
        .with_threads(4)
        .into_parts();
    assert_eq!(c.quality, 80);
    assert_eq!(c.speed, 4);
    assert_eq!(c.threads, Some(4));
    assert_eq!(c.quality_alpha, 60);
    assert_eq!(c.bit_depth, BitDepth::Eight);
}

#[test]
fn later_builder_call_wins() {
    let (_, c) = AvifEncoder::new(()).with_speed(1).with_speed(10).into_parts();
    assert_eq!(c.speed, 10);
}

fn header(depth: u32, alpha: bool) -> AvifHeader {
    AvifHeader { width: 640, height: 480, depth, alpha }
}

fn decoder<R>(r: R, h: AvifHeader) -> AvifDecoder<R> {
    match AvifDecoder::new(r, Ok(h)) {
        Ok(d) => d,
        Err(e) => panic!("unexpected {:?}", e),
    }
}

#[test]
fn decoder_defaults_and_threads() {
    let d = decoder(vec![1u8, 2], header(8, false));
    let (r, c) = d.into_parts();
    assert_eq!(r, vec![1u8, 2]);
    assert_eq!(c, DecoderConfig::default());
    assert_eq!(c.threads, None);

    let d = decoder(3u8, header(10, true)).with_threads(6);
    assert_eq!(d.dimensions(), (640, 480));
    assert_eq!(d.bit_depth(), BitDepth::Ten);
    assert_eq!(d.color_type(), DecodedColor::Rgba16);
    let (r, c) = d.into_parts();
    assert_eq!(r, 3);
    assert_eq!(c, DecoderConfig { threads: Some(6) });
}

#[test]
fn decoder_reports_the_header() {
    let d = decoder((), header(8, false));
    assert_eq!(d.dimensions(), (640, 480));
    assert_eq!(d.bit_depth(), BitDepth::Eight);
    assert_eq!(d.color_type(), DecodedColor::Rgb8);
    assert_eq!(decoder((), header(8, true)).color_type(), DecodedColor::Rgba8);
    assert_eq!(decoder((), header(12, false)).color_type(), DecodedColor::Rgb16);
    assert_eq!(decoder((), header(12, false)).bit_depth(), BitDepth::Twelve);
}

#[test]
fn unreadable_header_is_an_error() {
    match AvifDecoder::new((), Err(3)) {
        Err(e) => assert_eq!(e, DecodeError::Header(3)),
        Ok(_) => panic!("expected an error"),
    }
}

#[test]
fn unsupported_bit_depth_is_an_error() {
    for depth in [0u32, 1, 9, 16] {
        match AvifDecoder::new((), Ok(header(depth, false))) {
            Err(e) => assert_eq!(e, DecodeError::UnsupportedDepth(depth)),
            Ok(_) => panic!("expected an error"),
        }
    }
}
