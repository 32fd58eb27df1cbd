use vstd::prelude::*;

verus! {

/// Bit depth per channel of an AVIF image.
#[derive(Clone, Copy, Debug, PartialEq, Eq, Structural)]
pub enum BitDepth {
    Eight,
    Ten,
    Twelve,
}

/// The number of bits per channel that a [`BitDepth`] stands for.
pub open spec fn bit_depth_bits(d: BitDepth) -> u32 {
    match d {
        BitDepth::Eight => 8,
        BitDepth::Ten => 10,
        BitDepth::Twelve => 12,
    }
}

} // verus!
