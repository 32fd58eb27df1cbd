use vstd::prelude::*;

use crate::info::BitDepth;

verus! {

/// Tunable parameters for the SVT-AV1 encoder.
///
/// Field names, ranges, and defaults mirror libavif / the `avifenc` CLI.
#[derive(Clone, Copy, Debug, PartialEq, Eq, Structural)]
pub struct EncoderConfig {
    /// Encoder speed, range 0–10 (slower = better quality per byte); default 6.
    /// Maps to `avifEncoder.speed`.
    pub speed: u8,
    /// Color quality, range 0–100 (higher = better); default 60.
    /// Maps to `avifEncoder.quality`.
    pub quality: u8,
    /// Alpha quality, range 0–100 (higher = better); default 60.
    /// Maps to `avifEncoder.qualityAlpha`.
    pub quality_alpha: u8,
    /// Worker threads; `None` = auto-detect. Maps to `avifEncoder.maxThreads`.
    pub threads: Option<u32>,
    /// Output bit depth, default [`BitDepth::Eight`].
    ///
    /// Chroma subsampling is fixed at 4:2:0: the bundled SVT-AV1 rejects
    /// 4:2:2 / 4:4:4, so no subsampling knob is exposed.
    pub bit_depth: BitDepth,
    /// Tile columns, default 0 (auto). Maps to `avifEncoder.tileColsLog2` / `autoTiling`.
    pub tile_columns: u8,
    /// Tile rows, default 0 (auto). Maps to `avifEncoder.tileRowsLog2` / `autoTiling`.
    pub tile_rows: u8,
}

/// The default encoder settings: speed 6, quality 60, alpha quality 60,
/// auto-detected threads, 8-bit output and automatic tiling.
pub open spec fn default_encoder_config() -> EncoderConfig {
    EncoderConfig {
        speed: 6,
        quality: 60,
        quality_alpha: 60,
        threads: None,
        bit_depth: BitDepth::Eight,
        tile_columns: 0,
        tile_rows: 0,
    }
}

impl Default for EncoderConfig {
    fn default() -> (c: Self)
        ensures
            c == default_encoder_config(),
            c.speed == 6,
            c.quality == 60,
            c.quality_alpha == 60,
            c.threads is None,
            c.bit_depth == BitDepth::Eight,
            c.tile_columns == 0,
            c.tile_rows == 0,
    {
        EncoderConfig {
            speed: 6,
            quality: 60,
            quality_alpha: 60,
            threads: None,
            bit_depth: BitDepth::Eight,
            tile_columns: 0,
            tile_rows: 0,
        }
    }
}

/// AVIF encoder writing to `W`, using SVT-AV1.
pub struct AvifEncoder<W> {
    writer: W,
    config: EncoderConfig,
}

impl<W> AvifEncoder<W> {
    /// The sink the encoded bytes go to.
    pub closed spec fn writer_of(&self) -> W {
        self.writer
    }

    /// The settings the encoder will use.
    pub closed spec fn config_of(&self) -> EncoderConfig {
        self.config
    }

    /// Create an encoder writing to `w` with default settings.
    pub fn new(w: W) -> (e: Self)
        ensures
            e.writer_of() == w,
            e.config_of() == default_encoder_config(),
    {
        AvifEncoder { writer: w, config: EncoderConfig::default() }
    }

    /// Create an encoder writing to `w` with an explicit configuration.
    pub fn new_with_config(w: W, config: EncoderConfig) -> (e: Self)
        ensures
            e.writer_of() == w,
            e.config_of() == config,
    {
        AvifEncoder { writer: w, config }
    }

    /// Sets the encoder speed and leaves every other setting as it was.
    pub fn with_speed(self, speed: u8) -> (e: Self)
        ensures
            e.writer_of() == self.writer_of(),
            e.config_of() == (EncoderConfig { speed, ..self.config_of() }),
    {
        let mut s = self;
        s.config.speed = speed;
        s
    }

    /// Sets the color quality and leaves every other setting as it was.
    pub fn with_quality(self, quality: u8) -> (e: Self)
        ensures
            e.writer_of() == self.writer_of(),
            e.config_of() == (EncoderConfig { quality, ..self.config_of() }),
    {
        let mut s = self;
        s.config.quality = quality;
        s
    }

    /// Sets the alpha quality and leaves every other setting as it was.
    pub fn with_quality_alpha(self, quality_alpha: u8) -> (e: Self)
        ensures
            e.writer_of() == self.writer_of(),
            e.config_of() == (EncoderConfig { quality_alpha, ..self.config_of() }),
    {
        let mut s = self;
        s.config.quality_alpha = quality_alpha;
        s
    }

    /// Sets the number of worker threads and leaves every other setting as it was.
    pub fn with_threads(self, threads: u32) -> (e: Self)
        ensures
            e.writer_of() == self.writer_of(),
            e.config_of() == (EncoderConfig { threads: Some(threads), ..self.config_of() }),
    {
        let mut s = self;
        s.config.threads = Some(threads);
        s
    }

    /// Sets the output bit depth and leaves every other setting as it was.
    pub fn with_bit_depth(self, bit_depth: BitDepth) -> (e: Self)
        ensures
            e.writer_of() == self.writer_of(),
            e.config_of() == (EncoderConfig { bit_depth, ..self.config_of() }),
    {
        let mut s = self;
        s.config.bit_depth = bit_depth;
        s
    }

    /// Takes the encoder apart into its sink and its settings.
    pub fn into_parts(self) -> (parts: (W, EncoderConfig))
        ensures
            parts.0 == self.writer_of(),
            parts.1 == self.config_of(),
    {
        (self.writer, self.config)
    }
}

} // verus!
