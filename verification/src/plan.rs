use vstd::prelude::*;

use vstd::arithmetic::div_mod::lemma_fundamental_div_mod_converse;

use crate::encoder::EncoderConfig;
use crate::error::{AvifError, EncodeError};
use crate::gray::{expand_gray, expanded_gray, gray_pixel_count, in_channels, out_channels};
use crate::info::{bit_depth_bits, BitDepth};
use crate::layout::{
    input_pixel_bytes, layout_for, layout_of, names_16bit, names_alpha, names_gray, ColorKind, Layout,
};

verus! {

/// How the encoder splits the frame into tiles.
#[derive(Clone, Copy, Debug, PartialEq, Eq, Structural)]
pub enum Tiling {
    /// libavif picks the tiling (`autoTiling`).
    Auto,
    /// Fixed `tileColsLog2` / `tileRowsLog2`.
    Explicit { cols_log2: i32, rows_log2: i32 },
}

/// The AV1 codec libavif encodes with (`avifCodecChoice`).
#[derive(Clone, Copy, Debug, PartialEq, Eq, Structural)]
pub enum CodecChoice {
    Auto,
    Aom,
    Dav1d,
    Libgav1,
    Rav1e,
    Svt,
    Avm,
}

/// The chroma layout of the YUV image libavif creates (`avifPixelFormat`).
#[derive(Clone, Copy, Debug, PartialEq, Eq, Structural)]
pub enum YuvFormat {
    Yuv444,
    Yuv422,
    Yuv420,
    Yuv400,
}

/// The values written into libavif's `avifEncoder` before an encode.
#[derive(Clone, Copy, Debug, PartialEq, Eq, Structural)]
pub struct EncoderSettings {
    /// `avifEncoder.codecChoice`
    pub codec: CodecChoice,
    /// `avifEncoder.speed`
    pub speed: i32,
    /// `avifEncoder.quality`
    pub quality: i32,
    /// `avifEncoder.qualityAlpha`
    pub quality_alpha: i32,
    /// `avifEncoder.maxThreads`; 0 lets libavif pick.
    pub max_threads: i32,
    /// `avifEncoder.autoTiling` or `tileColsLog2` / `tileRowsLog2`.
    pub tiling: Tiling,
}

/// The encoder settings a configuration stands for: always SVT-AV1, the three knobs copied,
/// an absent thread count as 0 (auto-detect), and automatic tiling exactly
/// when neither a tile column nor a tile row count is given.
pub open spec fn settings_of(c: EncoderConfig) -> EncoderSettings {
    EncoderSettings {
        codec: CodecChoice::Svt,
        speed: c.speed as i32,
        quality: c.quality as i32,
        quality_alpha: c.quality_alpha as i32,
        max_threads: (match c.threads {
            Some(t) => t,
            None => 0u32,
        }) as i32,
        tiling: if c.tile_columns == 0 && c.tile_rows == 0 {
            Tiling::Auto
        } else {
            Tiling::Explicit { cols_log2: c.tile_columns as i32, rows_log2: c.tile_rows as i32 }
        },
    }
}

/// Bytes per row of the RGB image handed to libavif.
pub open spec fn rgb_row_bytes(width: int, l: Layout) -> int {
    width * (l.rgb_channels * l.sample_bytes)
}

/// The number of bits per channel of the encoded image.
pub fn image_depth(bit_depth: BitDepth) -> (bits: u32)
    ensures
        bits == bit_depth_bits(bit_depth),
        bit_depth == BitDepth::Eight ==> bits == 8,
        bit_depth == BitDepth::Ten ==> bits == 10,
        bit_depth == BitDepth::Twelve ==> bits == 12,
{
    match bit_depth {
        BitDepth::Eight => 8,
        BitDepth::Ten => 10,
        BitDepth::Twelve => 12,
    }
}

/// Everything an encode hands to libavif, fixed before libavif is called.
#[derive(Debug)]
pub struct EncodePlan {
    pub width: u32,
    pub height: u32,
    /// Bits per channel of the image libavif creates.
    pub depth: u32,
    /// Chroma layout of the image libavif creates; always 4:2:0, the only one
    /// the bundled SVT-AV1 takes.
    pub yuv_format: YuvFormat,
    pub layout: Layout,
    /// `avifRGBImage.rowBytes`
    pub row_bytes: u32,
    /// The expanded copy of a grayscale input; `None` when the input is
    /// handed to libavif as it is.
    pub expanded: Option<Vec<u8>>,
    pub settings: EncoderSettings,
}

/// The RGB bytes libavif reads for a plan made from `buf`.
pub open spec fn plan_pixels(expanded: Option<Vec<u8>>, buf: Seq<u8>) -> Seq<u8> {
    match expanded {
        Some(v) => v@,
        None => buf,
    }
}

/// The input buffer size that `width`, `height` and a layout call for.
pub open spec fn expected_len(width: int, height: int, l: Layout) -> int {
    width * height * l.src_channels * l.sample_bytes
}

/// Whether an encode request passes every check: both dimensions non-zero,
/// a supported layout and a buffer of exactly the expected size.
pub open spec fn accepted(len: int, width: u32, height: u32, color: ColorKind) -> bool {
    &&& width > 0
    &&& height > 0
    &&& layout_of(color) is Some
    &&& len == expected_len(width as int, height as int, layout_of(color)->0)
}

/// The sizes a request computes fit the machine's integers: the expected
/// buffer size, and for an accepted request the expanded buffer and a row.
pub open spec fn prepare_fits(len: int, width: u32, height: u32, color: ColorKind) -> bool {
    &&& (width > 0 && height > 0 && layout_of(color) is Some) ==> expected_len(
        width as int,
        height as int,
        layout_of(color)->0,
    ) <= usize::MAX
    &&& accepted(len, width, height, color) ==> {
        &&& width * height * layout_of(color)->0.rgb_channels * layout_of(color)->0.sample_bytes
            <= usize::MAX
        &&& rgb_row_bytes(width as int, layout_of(color)->0) <= u32::MAX
    }
}

/// Whether [`EncoderConfig::prepare`] can take a request: the sizes it
/// computes fit the machine's integers.
pub fn request_fits(len: usize, width: u32, height: u32, color_type: ColorKind) -> (b: bool)
    ensures
        b == prepare_fits(len as int, width, height, color_type),
{
    let layout = match layout_for(color_type) {
        Some(l) => l,
        None => {
            return true;
        },
    };
    if width == 0 || height == 0 {
        return true;
    }
    assert(width * height <= 0xffff_ffff_ffff_ffff_ffff_ffff) by (nonlinear_arith)
        requires
            width <= u32::MAX,
            height <= u32::MAX,
    ;
    let pixels: u128 = width as u128 * height as u128;
    assert(layout.src_channels * layout.sample_bytes <= 8 && layout.rgb_channels * layout.sample_bytes <= 8)
        by (nonlinear_arith)
        requires
            1 <= layout.src_channels <= 4,
            layout.rgb_channels == 3 || layout.rgb_channels == 4,
            layout.sample_bytes == 1 || layout.sample_bytes == 2,
    ;
    assert(pixels * 8 <= 0x1_0000_0000_0000_0000_0000_0000) by (nonlinear_arith)
        requires
            pixels == width * height,
            width <= u32::MAX,
            height <= u32::MAX,
    ;
    let src_bytes: u128 = (layout.src_channels * layout.sample_bytes) as u128;
    let rgb_bytes: u128 = (layout.rgb_channels * layout.sample_bytes) as u128;
    assert(pixels * src_bytes <= pixels * 8 && pixels * rgb_bytes <= pixels * 8 && width * rgb_bytes
        <= width * 8) by (nonlinear_arith)
        requires
            src_bytes <= 8,
            rgb_bytes <= 8,
    ;
    let expected: u128 = pixels * src_bytes;
    assert(expected == expected_len(width as int, height as int, layout)) by (nonlinear_arith)
        requires
            expected == pixels * src_bytes,
            pixels == width * height,
            src_bytes == layout.src_channels * layout.sample_bytes,
    ;
    if expected > usize::MAX as u128 {
        return false;
    }
    if len as u128 != expected {
        return true;
    }
    assert(pixels * rgb_bytes == width * height * layout.rgb_channels * layout.sample_bytes)
        by (nonlinear_arith)
        requires
            pixels == width * height,
            rgb_bytes == layout.rgb_channels * layout.sample_bytes,
    ;
    pixels * rgb_bytes <= usize::MAX as u128 && width as u128 * rgb_bytes <= u32::MAX as u128
}

/// The error a rejected request gets, checked in this order: dimensions,
/// layout, buffer size. `None` for an accepted request.
pub open spec fn prepare_result(len: int, width: u32, height: u32, color: ColorKind) -> Option<EncodeError> {
    if width == 0 || height == 0 {
        Some(EncodeError::Avif(AvifError::InvalidDimensions { width, height }))
    } else if layout_of(color) is None {
        Some(EncodeError::Unsupported(color))
    } else if len != expected_len(width as int, height as int, layout_of(color)->0) {
        Some(
            EncodeError::Avif(
                AvifError::BufferSize {
                    len: len as usize,
                    width,
                    height,
                    channels: layout_of(color)->0.src_channels,
                    sample_bytes: layout_of(color)->0.sample_bytes,
                },
            ),
        )
    } else {
        None
    }
}

/// For an accepted request, the RGB buffer handed to libavif holds exactly
/// `height` rows of `rowBytes` bytes: the input itself for RGB(A) layouts,
/// the expanded copy for grayscale ones.
pub proof fn rgb_buffer_fills_rows(len: int, width: u32, height: u32, color: ColorKind)
    requires
        accepted(len, width, height, color),
    ensures
        ({
            let l = layout_of(color)->0;
            let rgb_len = if l.gray {
                gray_pixel_count(len, l.sample_bytes as int, l.alpha) * out_channels(l.alpha)
                    * l.sample_bytes
            } else {
                len
            };
            rgb_len == rgb_row_bytes(width as int, l) * height
        }),
{
    let l = layout_of(color)->0;
    let w = width as int;
    let h = height as int;
    let sb = l.sample_bytes as int;
    if l.gray {
        let d = in_channels(l.alpha) * sb;
        assert(len == (w * h) * d) by (nonlinear_arith)
            requires
                len == w * h * l.src_channels * l.sample_bytes,
                d == in_channels(l.alpha) * sb,
                l.src_channels == in_channels(l.alpha),
                sb == l.sample_bytes,
        ;
        assert(d > 0) by (nonlinear_arith)
            requires
                d == in_channels(l.alpha) * sb,
                sb >= 1,
                in_channels(l.alpha) >= 1,
        ;
        lemma_fundamental_div_mod_converse(len, d, w * h, 0);
        assert(gray_pixel_count(len, sb, l.alpha) == w * h);
        assert((w * h) * out_channels(l.alpha) * sb == w * (l.rgb_channels * l.sample_bytes) * h)
            by (nonlinear_arith)
            requires
                l.rgb_channels == out_channels(l.alpha),
                sb == l.sample_bytes,
        ;
    } else {
        assert(w * h * l.src_channels * l.sample_bytes == w * (l.rgb_channels * l.sample_bytes) * h)
            by (nonlinear_arith)
            requires
                l.rgb_channels == l.src_channels,
        ;
    }
}

/// Only a layout the encoder does not take is refused as unsupported, and
/// only once both dimensions are non-zero; the refusal names that layout.
pub proof fn only_unknown_layouts_are_unsupported(len: int, width: u32, height: u32, color: ColorKind)
    ensures
        (prepare_result(len, width, height, color) matches Some(EncodeError::Unsupported(_))) <==> (
        width > 0 && height > 0 && color == ColorKind::Other),
        prepare_result(len, width, height, color) matches Some(EncodeError::Unsupported(c)) ==> c
            == color,
{
}

/// A request with both dimensions non-zero and a named layout is accepted
/// exactly when the buffer holds `width * height` pixels of that layout's
/// size: 1 byte (L8), 2 (La8, L16), 3 (Rgb8), 4 (Rgba8, La16), 6 (Rgb16) or
/// 8 (Rgba16).
pub proof fn accepted_exactly_at_pixel_size(len: int, width: u32, height: u32, color: ColorKind)
    requires
        width > 0,
        height > 0,
        color != ColorKind::Other,
    ensures
        prepare_result(len, width, height, color) is None <==> len == width * height * (match color {
            ColorKind::L8 => 1int,
            ColorKind::La8 => 2int,
            ColorKind::Rgb8 => 3int,
            ColorKind::Rgba8 => 4int,
            ColorKind::L16 => 2int,
            ColorKind::La16 => 4int,
            ColorKind::Rgb16 => 6int,
            ColorKind::Rgba16 => 8int,
            ColorKind::Other => 0int,
        }),
{
    lemma_pixel_size(width as int, height as int, color);
}

/// For a named layout, `width * height` input pixels of the layout take
/// `width * height` times the named pixel size, and a row of the RGB image
/// takes `width` times 3 or 4 channels of 1 or 2 bytes.
proof fn lemma_pixel_size(w: int, h: int, color: ColorKind)
    requires
        color != ColorKind::Other,
    ensures
        expected_len(w, h, layout_of(color)->0) == w * h * input_pixel_bytes(color),
        rgb_row_bytes(w, layout_of(color)->0) == w * (if names_alpha(color) { 4int } else { 3int }) * (
        if names_16bit(color) {
            2int
        } else {
            1int
        }),
{
    let l = layout_of(color)->0;
    crate::layout::layout_follows_the_name(color);
    let a = l.src_channels as int;
    let b = l.sample_bytes as int;
    let r = l.rgb_channels as int;
    assert(w * h * a * b == w * h * (a * b)) by (nonlinear_arith);
    assert(w * (r * b) == w * r * b) by (nonlinear_arith);
}

/// The settings handed to the encoder keep the configured speed, quality and
/// alpha quality as they are, over the whole range of each, always pick
/// SVT-AV1, pass the thread count on (0 when none is given) and tile
/// automatically exactly when neither a tile column nor a tile row count is
/// given, else with the given counts.
pub proof fn settings_keep_the_configuration(c: EncoderConfig)
    ensures
        settings_of(c).speed == c.speed,
        settings_of(c).quality == c.quality,
        settings_of(c).quality_alpha == c.quality_alpha,
        settings_of(c).codec == CodecChoice::Svt,
        c.threads is None ==> settings_of(c).max_threads == 0,
        c.threads matches Some(t) ==> (t <= i32::MAX ==> settings_of(c).max_threads == t),
        settings_of(c).tiling is Auto <==> (c.tile_columns == 0 && c.tile_rows == 0),
        settings_of(c).tiling matches Tiling::Explicit { cols_log2, rows_log2 } ==> cols_log2
            == c.tile_columns && rows_log2 == c.tile_rows,
{
}

impl EncoderConfig {
    /// The values this configuration writes into libavif's encoder.
    pub fn settings(&self) -> (s: EncoderSettings)
        ensures
            s == settings_of(*self),
            s.speed == self.speed,
            s.quality == self.quality,
            s.quality_alpha == self.quality_alpha,
            s.codec == CodecChoice::Svt,
            self.threads is None ==> s.max_threads == 0,
            self.threads matches Some(t) ==> (t <= i32::MAX ==> s.max_threads == t),
            s.tiling is Auto <==> (self.tile_columns == 0 && self.tile_rows == 0),
            s.tiling matches Tiling::Explicit { cols_log2, rows_log2 } ==> cols_log2
                == self.tile_columns && rows_log2 == self.tile_rows,
    {
        let tiling = if self.tile_columns == 0 && self.tile_rows == 0 {
            Tiling::Auto
        } else {
            Tiling::Explicit { cols_log2: self.tile_columns as i32, rows_log2: self.tile_rows as i32 }
        };
        EncoderSettings {
            codec: CodecChoice::Svt,
            speed: self.speed as i32,
            quality: self.quality as i32,
            quality_alpha: self.quality_alpha as i32,
            max_threads: self.threads.unwrap_or(0) as i32,
            tiling,
        }
    }

    /// Checks an encode request and fixes every value that is handed to
    /// libavif: the image size, depth and chroma layout (always 4:2:0), the
    /// RGB layout and row size, the RGB bytes (a grayscale input is expanded
    /// to RGB/RGBA) and the encoder settings, codec (always SVT-AV1) included.
    pub fn prepare(&self, buf: &[u8], width: u32, height: u32, color_type: ColorKind) -> (r: Result<
        EncodePlan,
        EncodeError,
    >)
        requires
            prepare_fits(buf@.len() as int, width, height, color_type),
        ensures
            prepare_result(buf@.len() as int, width, height, color_type) matches Some(e) ==> r
                == Err::<EncodePlan, EncodeError>(e),
            prepare_result(buf@.len() as int, width, height, color_type) is None ==> (r matches Ok(
                plan,
            ) && {
                let l = layout_of(color_type)->0;
                &&& plan.width == width
                &&& plan.height == height
                &&& plan.depth == bit_depth_bits(self.bit_depth)
                &&& plan.yuv_format == YuvFormat::Yuv420
                &&& plan.layout == l
                &&& plan.row_bytes == rgb_row_bytes(width as int, l)
                &&& plan.settings == settings_of(*self)
                &&& if l.gray {
                    plan.expanded matches Some(v) && v@ == expanded_gray(
                        buf@,
                        l.sample_bytes as int,
                        l.alpha,
                    )
                } else {
                    plan.expanded is None
                }
                &&& plan_pixels(plan.expanded, buf@).len() == plan.row_bytes as int * height
            }),
            (width > 0 && height > 0 && color_type != ColorKind::Other && buf@.len() == width * height
                * input_pixel_bytes(color_type)) ==> r is Ok,
            r matches Err(EncodeError::Unsupported(c)) ==> c == color_type,
            (r matches Err(EncodeError::Unsupported(_))) <==> (width > 0 && height > 0 && color_type
                == ColorKind::Other),
            r matches Ok(plan) ==> {
                &&& plan.expanded is Some <==> names_gray(color_type)
                &&& plan.layout.gray == names_gray(color_type)
                &&& plan.layout.alpha == names_alpha(color_type)
                &&& plan.layout.sample_bytes == (if names_16bit(color_type) { 2usize } else { 1usize })
                &&& plan.row_bytes == width * (if names_alpha(color_type) { 4int } else { 3int }) * (
                if names_16bit(color_type) {
                    2int
                } else {
                    1int
                })
                &&& buf@.len() == width * height * input_pixel_bytes(color_type)
            },
    {
        proof {
            if color_type != ColorKind::Other {
                lemma_pixel_size(width as int, height as int, color_type);
            }
            crate::layout::layout_follows_the_name(color_type);
        }
        if width == 0 || height == 0 {
            return Err(EncodeError::Avif(AvifError::InvalidDimensions { width, height }));
        }
        let layout = match layout_for(color_type) {
            Some(l) => l,
            None => {
                return Err(EncodeError::Unsupported(color_type));
            },
        };
        proof {
            let w = width as int;
            let h = height as int;
            assert(w * h <= w * h * layout.src_channels && w * h * layout.src_channels <= w * h
                * layout.src_channels * layout.sample_bytes) by (nonlinear_arith)
                requires
                    w >= 0,
                    h >= 0,
                    layout.src_channels >= 1,
                    layout.sample_bytes >= 1,
            ;
        }
        let expected = width as usize * height as usize * layout.src_channels * layout.sample_bytes;
        if buf.len() != expected {
            return Err(
                EncodeError::Avif(
                    AvifError::BufferSize {
                        len: buf.len(),
                        width,
                        height,
                        channels: layout.src_channels,
                        sample_bytes: layout.sample_bytes,
                    },
                ),
            );
        }
        proof {
            rgb_buffer_fills_rows(buf@.len() as int, width, height, color_type);
            let w = width as int;
            let h = height as int;
            assert(rgb_row_bytes(w, layout) * h == w * h * layout.rgb_channels * layout.sample_bytes)
                by (nonlinear_arith);
        }
        let expanded = if layout.gray {
            Some(expand_gray(buf, layout.sample_bytes, layout.alpha))
        } else {
            None
        };
        assert(layout.rgb_channels * layout.sample_bytes <= 8) by (nonlinear_arith)
            requires
                layout.rgb_channels == 3 || layout.rgb_channels == 4,
                layout.sample_bytes == 1 || layout.sample_bytes == 2,
        ;
        assert(rgb_row_bytes(width as int, layout) <= u32::MAX);
        let row_bytes = width * (layout.rgb_channels * layout.sample_bytes) as u32;
        Ok(
            EncodePlan {
                width,
                height,
                depth: image_depth(self.bit_depth),
                yuv_format: YuvFormat::Yuv420,
                layout,
                row_bytes,
                expanded,
                settings: self.settings(),
            },
        )
    }
}

impl EncodePlan {
    /// The RGB bytes libavif reads: the expanded copy when there is one, else
    /// the input buffer the plan was made from.
    pub fn pixels<'a>(&'a self, buf: &'a [u8]) -> (p: &'a [u8])
        ensures
            p@ == plan_pixels(self.expanded, buf@),
    {
        match &self.expanded {
            Some(v) => v.as_slice(),
            None => buf,
        }
    }
}

} // verus!
