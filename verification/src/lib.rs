//! Encoding and decoding settings for AVIF images, with the checks and the
//! pixel preparation that stand between an `image`-style pixel buffer and the
//! libavif encoder (SVT-AV1) and decoder (dav1d).
//!
//! * [`EncoderConfig`] / [`AvifEncoder`] hold the encoder settings and their builders;
//! * [`DecoderConfig`] / [`AvifDecoder`] hold the decoder settings and the
//!   image header (size, bit depth, alpha) read before the frame is decoded;
//! * [`layout_for`] maps a pixel layout onto the RGB image libavif consumes;
//! * [`expand_gray`] widens grayscale buffers to RGB/RGBA;
//! * [`EncoderConfig::prepare`] checks an encode request and fixes every value
//!   that is handed to libavif;
//! * [`next_step`] decides, after each call into libavif, whether the encode
//!   goes on or which error it reports.

mod decoder;
mod encoder;
mod error;
mod ffi;
mod gray;
mod info;
mod layout;
mod pipeline;
mod plan;

pub use decoder::{
    bit_depth_of, decoded_color, decoded_color_keeps_depth_and_alpha, header_depths_taken,
    AvifDecoder, AvifHeader, DecodeError, DecodedColor, DecoderConfig,
};
pub use encoder::{default_encoder_config, AvifEncoder, EncoderConfig};
pub use error::{AvifError, EncodeError};
pub use ffi::{is_ok, AVIF_RESULT_OK};
pub use gray::{
    expand_gray, expand_gray_concat, expanded_gray, expansion_replicates_luma, gray_index,
    gray_pixel_count, gray_source_index, in_channels, out_channels,
};
pub use info::{bit_depth_bits, BitDepth};
pub use layout::{
    input_pixel_bytes, layout_follows_the_name, layout_for, layout_of, names_16bit, names_alpha,
    names_gray, ColorKind, Layout, RgbFormat,
};
pub use pipeline::{
    allocates, next_step, outcome_fits, succeeded, successor, EncodeAction, EncodeStep, StepOutcome,
};
pub use plan::{
    accepted, accepted_exactly_at_pixel_size, expected_len, image_depth,
    only_unknown_layouts_are_unsupported, plan_pixels, prepare_fits, prepare_result, request_fits,
    rgb_buffer_fills_rows, rgb_row_bytes, settings_keep_the_configuration, settings_of,
    CodecChoice, EncodePlan, EncoderSettings, Tiling, YuvFormat,
};
