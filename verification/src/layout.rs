use vstd::prelude::*;

verus! {

/// The pixel layout of an input buffer, as the encoder sees it.
///
/// The eight layouts the encoder takes are named; every other layout is
/// [`ColorKind::Other`].
#[derive(Clone, Copy, Debug, PartialEq, Eq, Structural)]
pub enum ColorKind {
    L8,
    La8,
    Rgb8,
    Rgba8,
    L16,
    La16,
    Rgb16,
    Rgba16,
    Other,
}

/// The channel order of the RGB image handed to libavif.
#[derive(Clone, Copy, Debug, PartialEq, Eq, Structural)]
pub enum RgbFormat {
    Rgb,
    Rgba,
}

/// How an input pixel buffer maps onto the RGB image libavif consumes.
#[derive(Clone, Copy, Debug, PartialEq, Eq, Structural)]
pub struct Layout {
    /// Channels per pixel in the input buffer (1 = L, 2 = La, 3 = Rgb, 4 = Rgba).
    pub src_channels: usize,
    /// Channels in the RGB buffer handed to libavif (3 = RGB, 4 = RGBA).
    pub rgb_channels: usize,
    /// Bytes per sample (1 for 8-bit, 2 for 16-bit, native-endian).
    pub sample_bytes: usize,
    pub rgb_format: RgbFormat,
    /// Depth of the input RGB samples (8 or 16); libavif scales to the image depth.
    pub rgb_depth: u32,
    /// Whether the input is grayscale and must be expanded to RGB/RGBA.
    pub gray: bool,
    /// Whether the input carries an alpha channel.
    pub alpha: bool,
}

/// Whether the layout's name is a grayscale one (L or La).
pub open spec fn names_gray(c: ColorKind) -> bool {
    c == ColorKind::L8 || c == ColorKind::La8 || c == ColorKind::L16 || c == ColorKind::La16
}

/// Whether the layout's name carries alpha (La or Rgba).
pub open spec fn names_alpha(c: ColorKind) -> bool {
    c == ColorKind::La8 || c == ColorKind::Rgba8 || c == ColorKind::La16 || c == ColorKind::Rgba16
}

/// Whether the layout's name has 16-bit samples.
pub open spec fn names_16bit(c: ColorKind) -> bool {
    c == ColorKind::L16 || c == ColorKind::La16 || c == ColorKind::Rgb16 || c == ColorKind::Rgba16
}

/// The size in bytes of one input pixel of a named layout: one sample per
/// channel (L: 1, La: 2, Rgb: 3, Rgba: 4), of 1 byte (8-bit) or 2 bytes (16-bit).
pub open spec fn input_pixel_bytes(c: ColorKind) -> int {
    ((if names_gray(c) { 1int } else { 3int }) + (if names_alpha(c) { 1int } else { 0int })) * (if names_16bit(
        c,
    ) {
        2int
    } else {
        1int
    })
}

/// The layout of each input pixel layout the encoder takes, `None` for the others.
pub open spec fn layout_of(color: ColorKind) -> Option<Layout> {
    let make = |src: usize, sb: usize, gray: bool, alpha: bool|
        Some(
            Layout {
                src_channels: src,
                rgb_channels: if alpha { 4usize } else { 3usize },
                sample_bytes: sb,
                rgb_format: if alpha { RgbFormat::Rgba } else { RgbFormat::Rgb },
                rgb_depth: if sb == 1 { 8u32 } else { 16u32 },
                gray,
                alpha,
            },
        );
    match color {
        ColorKind::L8 => make(1, 1, true, false),
        ColorKind::La8 => make(2, 1, true, true),
        ColorKind::Rgb8 => make(3, 1, false, false),
        ColorKind::Rgba8 => make(4, 1, false, true),
        ColorKind::L16 => make(1, 2, true, false),
        ColorKind::La16 => make(2, 2, true, true),
        ColorKind::Rgb16 => make(3, 2, false, false),
        ColorKind::Rgba16 => make(4, 2, false, true),
        ColorKind::Other => None,
    }
}

/// Maps a supported [`ColorKind`] to its [`Layout`], or `None` if unsupported.
pub fn layout_for(color_type: ColorKind) -> (r: Option<Layout>)
    ensures
        r == layout_of(color_type),
        r is None <==> color_type == ColorKind::Other,
        r matches Some(l) ==> {
            &&& l.gray == names_gray(color_type)
            &&& l.alpha == names_alpha(color_type)
            &&& l.sample_bytes == (if names_16bit(color_type) { 2usize } else { 1usize })
        },
        r matches Some(l) ==> {
            &&& l.src_channels == (if l.gray { 1usize } else { 3usize }) + (if l.alpha { 1usize } else { 0usize })
            &&& l.rgb_channels == (if l.alpha { 4usize } else { 3usize })
            &&& l.rgb_format == (if l.alpha { RgbFormat::Rgba } else { RgbFormat::Rgb })
            &&& (l.sample_bytes == 1 || l.sample_bytes == 2)
            &&& l.rgb_depth == 8 * l.sample_bytes
        },
{
    let rgb = RgbFormat::Rgb;
    let rgba = RgbFormat::Rgba;
    match color_type {
        ColorKind::L8 => Some(make_layout(1, 3, 1, rgb, 8, true, false)),
        ColorKind::La8 => Some(make_layout(2, 4, 1, rgba, 8, true, true)),
        ColorKind::Rgb8 => Some(make_layout(3, 3, 1, rgb, 8, false, false)),
        ColorKind::Rgba8 => Some(make_layout(4, 4, 1, rgba, 8, false, true)),
        ColorKind::L16 => Some(make_layout(1, 3, 2, rgb, 16, true, false)),
        ColorKind::La16 => Some(make_layout(2, 4, 2, rgba, 16, true, true)),
        ColorKind::Rgb16 => Some(make_layout(3, 3, 2, rgb, 16, false, false)),
        ColorKind::Rgba16 => Some(make_layout(4, 4, 2, rgba, 16, false, true)),
        ColorKind::Other => None,
    }
}

/// Every named layout has a layout, and it follows the name: grayscale
/// inputs are expanded, alpha is kept as a fourth RGB channel, and 16-bit
/// names have 2-byte, 16-bit samples. Only [`ColorKind::Other`] has none.
pub proof fn layout_follows_the_name(c: ColorKind)
    ensures
        layout_of(c) is None <==> c == ColorKind::Other,
        layout_of(c) matches Some(l) ==> {
            &&& l.gray == names_gray(c)
            &&& l.alpha == names_alpha(c)
            &&& l.sample_bytes == (if names_16bit(c) { 2usize } else { 1usize })
            &&& l.src_channels * l.sample_bytes == input_pixel_bytes(c)
            &&& l.rgb_channels == (if names_alpha(c) { 4usize } else { 3usize })
            &&& l.rgb_format == (if names_alpha(c) { RgbFormat::Rgba } else { RgbFormat::Rgb })
            &&& l.rgb_depth == (if names_16bit(c) { 16u32 } else { 8u32 })
        },
{
}

fn make_layout(
    src_channels: usize,
    rgb_channels: usize,
    sample_bytes: usize,
    rgb_format: RgbFormat,
    rgb_depth: u32,
    gray: bool,
    alpha: bool,
) -> (l: Layout)
    ensures
        l == (Layout { src_channels, rgb_channels, sample_bytes, rgb_format, rgb_depth, gray, alpha }),
{
    Layout { src_channels, rgb_channels, sample_bytes, rgb_format, rgb_depth, gray, alpha }
}

} // verus!
