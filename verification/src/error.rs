use vstd::prelude::*;

use crate::layout::ColorKind;

verus! {

/// Failures of an AVIF encode.
#[derive(Debug)]
pub enum AvifError {
    /// A width or a height of zero.
    InvalidDimensions { width: u32, height: u32 },
    /// The pixel buffer does not hold exactly `width * height` pixels of
    /// `channels` samples of `sample_bytes` bytes each.
    BufferSize { len: usize, width: u32, height: u32, channels: usize, sample_bytes: usize },
    /// libavif refused a step of the encode; the text is libavif's own message.
    Encode(String),
    /// libavif could not allocate an image or an encoder.
    EncoderInit(String),
}

/// An encode failure: either an input layout the encoder does not take, or
/// an [`AvifError`].
#[derive(Debug)]
pub enum EncodeError {
    Unsupported(ColorKind),
    Avif(AvifError),
}

} // verus!
