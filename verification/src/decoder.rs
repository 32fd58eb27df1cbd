use vstd::prelude::*;

use crate::info::{bit_depth_bits, BitDepth};

verus! {

/// Tunable parameters for the dav1d decoder.
#[derive(Clone, Copy, Debug, PartialEq, Eq, Structural)]
pub struct DecoderConfig {
    /// Worker threads; `None` = auto-detect.
    pub threads: Option<u32>,
}

impl Default for DecoderConfig {
    fn default() -> (c: Self)
        ensures
            c.threads is None,
    {
        DecoderConfig { threads: None }
    }
}

/// What libavif's parse of an AVIF container header reports of the image.
#[derive(Clone, Copy, Debug, PartialEq, Eq, Structural)]
pub struct AvifHeader {
    pub width: u32,
    pub height: u32,
    /// Bits per channel (`avifImage.depth`).
    pub depth: u32,
    /// Whether the container holds an alpha plane (`avifDecoder.alphaPresent`).
    pub alpha: bool,
}

/// The pixel layout a decoded image is delivered in: RGB or RGBA, with 8-bit
/// samples for 8-bit images and 16-bit samples for deeper ones.
#[derive(Clone, Copy, Debug, PartialEq, Eq, Structural)]
pub enum DecodedColor {
    Rgb8,
    Rgba8,
    Rgb16,
    Rgba16,
}

/// Why a decoder could not be made.
#[derive(Clone, Copy, Debug, PartialEq, Eq, Structural)]
pub enum DecodeError {
    /// libavif could not parse the container header; the code is libavif's
    /// result code.
    Header(u32),
    /// The image has a bit depth other than 8, 10 or 12.
    UnsupportedDepth(u32),
}

/// The bit depth a header's bits per channel stand for, if it is one the
/// decoder takes.
pub open spec fn bit_depth_of(depth: u32) -> Option<BitDepth> {
    if depth == 8 {
        Some(BitDepth::Eight)
    } else if depth == 10 {
        Some(BitDepth::Ten)
    } else if depth == 12 {
        Some(BitDepth::Twelve)
    } else {
        None
    }
}

/// The layout an image of this bit depth, with or without alpha, is decoded to.
pub open spec fn decoded_color(bit_depth: BitDepth, alpha: bool) -> DecodedColor {
    if bit_depth == BitDepth::Eight {
        if alpha { DecodedColor::Rgba8 } else { DecodedColor::Rgb8 }
    } else {
        if alpha { DecodedColor::Rgba16 } else { DecodedColor::Rgb16 }
    }
}

/// An image is delivered with 8-bit samples exactly when it is an 8-bit
/// image (10- and 12-bit images need 16-bit samples), and as RGBA exactly
/// when it carries alpha.
pub proof fn decoded_color_keeps_depth_and_alpha(bit_depth: BitDepth, alpha: bool)
    ensures
        (decoded_color(bit_depth, alpha) == DecodedColor::Rgb8 || decoded_color(bit_depth, alpha)
            == DecodedColor::Rgba8) <==> bit_depth == BitDepth::Eight,
        (decoded_color(bit_depth, alpha) == DecodedColor::Rgba8 || decoded_color(bit_depth, alpha)
            == DecodedColor::Rgba16) <==> alpha,
{
}

/// A header is taken exactly when it was parsed and announces 8, 10 or 12
/// bits per channel, and the bit depth kept is the announced one.
pub proof fn header_depths_taken(depth: u32)
    ensures
        bit_depth_of(depth) is Some <==> (depth == 8 || depth == 10 || depth == 12),
        bit_depth_of(depth) matches Some(b) ==> bit_depth_bits(b) == depth,
{
}

/// AVIF decoder reading from `R`, using dav1d. The container header has
/// been read when the decoder is made.
pub struct AvifDecoder<R> {
    reader: R,
    config: DecoderConfig,
    width: u32,
    height: u32,
    bit_depth: BitDepth,
    alpha: bool,
}

impl<R> AvifDecoder<R> {
    /// The source the frame is decoded from.
    pub closed spec fn reader_of(&self) -> R {
        self.reader
    }

    /// The settings the decoder will use.
    pub closed spec fn config_of(&self) -> DecoderConfig {
        self.config
    }

    /// The image size read from the header.
    pub closed spec fn dimensions_of(&self) -> (u32, u32) {
        (self.width, self.height)
    }

    /// The bit depth read from the header.
    pub closed spec fn bit_depth_of(&self) -> BitDepth {
        self.bit_depth
    }

    /// Whether the header announces an alpha plane.
    pub closed spec fn alpha_of(&self) -> bool {
        self.alpha
    }

    /// Create a decoder from `r` and the result of parsing its container
    /// header, so that the size, the pixel layout and the bit depth are known
    /// before the frame is decoded. Threads are auto-detected.
    ///
    /// Fails when the header could not be parsed, or announces a bit depth
    /// other than 8, 10 or 12.
    pub fn new(r: R, header: Result<AvifHeader, u32>) -> (d: Result<Self, DecodeError>)
        ensures
            header matches Err(code) ==> d == Err::<Self, DecodeError>(DecodeError::Header(code)),
            header matches Ok(h) ==> (bit_depth_of(h.depth) is None <==> d == Err::<Self, DecodeError>(
                DecodeError::UnsupportedDepth(h.depth),
            )),
            d is Ok <==> (header matches Ok(h) && (h.depth == 8 || h.depth == 10 || h.depth == 12)),
            d matches Ok(dec) ==> (header matches Ok(h) && (h.depth == 8 <==> dec.bit_depth_of()
                == BitDepth::Eight) && (h.depth == 10 <==> dec.bit_depth_of() == BitDepth::Ten) && (h.depth
                == 12 <==> dec.bit_depth_of() == BitDepth::Twelve)),
            d matches Ok(dec) ==> (header matches Ok(h) && bit_depth_bits(dec.bit_depth_of()) == h.depth
                && dec.dimensions_of() == (h.width, h.height) && dec.alpha_of() == h.alpha),
            header matches Ok(h) ==> (bit_depth_of(h.depth) matches Some(b) ==> d matches Ok(dec) && {
                &&& dec.reader_of() == r
                &&& dec.config_of().threads is None
                &&& dec.dimensions_of() == (h.width, h.height)
                &&& dec.bit_depth_of() == b
                &&& dec.alpha_of() == h.alpha
            }),
    {
        let h = match header {
            Ok(h) => h,
            Err(code) => {
                return Err(DecodeError::Header(code));
            },
        };
        let bit_depth = if h.depth == 8 {
            BitDepth::Eight
        } else if h.depth == 10 {
            BitDepth::Ten
        } else if h.depth == 12 {
            BitDepth::Twelve
        } else {
            return Err(DecodeError::UnsupportedDepth(h.depth));
        };
        Ok(
            AvifDecoder {
                reader: r,
                config: DecoderConfig::default(),
                width: h.width,
                height: h.height,
                bit_depth,
                alpha: h.alpha,
            },
        )
    }

    /// Set the number of decode worker threads (applied when the frame is decoded);
    /// the source and the header are kept.
    pub fn with_threads(self, threads: u32) -> (d: Self)
        ensures
            d.reader_of() == self.reader_of(),
            d.config_of() == (DecoderConfig { threads: Some(threads) }),
            d.dimensions_of() == self.dimensions_of(),
            d.bit_depth_of() == self.bit_depth_of(),
            d.alpha_of() == self.alpha_of(),
    {
        let mut s = self;
        s.config.threads = Some(threads);
        s
    }

    /// Width and height of the image, from the header.
    pub fn dimensions(&self) -> (wh: (u32, u32))
        ensures
            wh == self.dimensions_of(),
    {
        (self.width, self.height)
    }

    /// The pixel layout the image is decoded to.
    pub fn color_type(&self) -> (c: DecodedColor)
        ensures
            c == decoded_color(self.bit_depth_of(), self.alpha_of()),
            (c == DecodedColor::Rgb8 || c == DecodedColor::Rgba8) <==> self.bit_depth_of()
                == BitDepth::Eight,
            (c == DecodedColor::Rgba8 || c == DecodedColor::Rgba16) <==> self.alpha_of(),
    {
        match (self.bit_depth, self.alpha) {
            (BitDepth::Eight, false) => DecodedColor::Rgb8,
            (BitDepth::Eight, true) => DecodedColor::Rgba8,
            (_, false) => DecodedColor::Rgb16,
            (_, true) => DecodedColor::Rgba16,
        }
    }

    /// Bit depth of the image — extra information that the decoded pixel
    /// layout cannot express (it only distinguishes 8- vs 16-bit).
    pub fn bit_depth(&self) -> (b: BitDepth)
        ensures
            b == self.bit_depth_of(),
    {
        self.bit_depth
    }

    /// Takes the decoder apart into its source and its settings.
    pub fn into_parts(self) -> (parts: (R, DecoderConfig))
        ensures
            parts.0 == self.reader_of(),
            parts.1 == self.config_of(),
    {
        (self.reader, self.config)
    }
}

} // verus!
