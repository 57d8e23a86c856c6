//! What every pixel format offers to the layout computations.
use vstd::prelude::*;
use crate::pixel_format::FourCC;
use crate::d3d::D3DFormat;
use crate::dxgi::DxgiFormat;

verus! {

/// Bytes in one row of `width` pixels, in exact arithmetic.
///
/// The two packed formats that share a pair of bytes between two pixels take four bytes per
/// pair of pixels, whatever their bit depth. Otherwise a known bit depth gives the row's bits
/// rounded up to whole bytes, and a known block size gives one block per four pixels, at least
/// one block. A format with neither has no pitch.
pub open spec fn pitch_spec(packed: bool, bits_per_pixel: Option<u8>, block_size: Option<u32>, width: int) -> Option<int> {
    if packed {
        Some(((width + 1) / 2) * 4)
    } else if bits_per_pixel is Some {
        Some((width * bits_per_pixel->0 + 7) / 8)
    } else if block_size is Some {
        let blocks = (width + 3) / 4;
        Some(if blocks > 1 { blocks } else { 1 } * block_size->0)
    } else {
        None
    }
}

/// A value that fits in 32 bits, or nothing.
pub open spec fn fit_u32(v: Option<int>) -> Option<u32> {
    match v {
        Some(x) => if 0 <= x <= u32::MAX { Some(x as u32) } else { None },
        None => None,
    }
}

/// Image rows held by one row of data: four for block-compressed formats, else one.
pub open spec fn pitch_height_spec(block_size: Option<u32>) -> u32 {
    if block_size is Some { 4 } else { 1 }
}

/// The least number of bytes a mip level takes: a whole pixel for uncompressed formats, a
/// whole block for compressed ones.
pub open spec fn min_mip_spec(bits_per_pixel: Option<u8>, block_size: Option<u32>) -> Option<u32> {
    match bits_per_pixel {
        Some(b) => Some(((b + 7) / 8) as u32),
        None => block_size,
    }
}

/// The row pitch of a format with the given properties, where it fits in 32 bits.
pub fn row_pitch(packed: bool, bits_per_pixel: Option<u8>, block_size: Option<u32>, width: u32) -> (r: Option<u32>)
    ensures
        r == fit_u32(pitch_spec(packed, bits_per_pixel, block_size, width as int)),
{
    let w = width as u64;
    let p: u64 = if packed {
        ((w + 1) / 2) * 4
    } else if let Some(bpp) = bits_per_pixel {
        assert(w * (bpp as u64) <= 0x1_0000_0000u64 * 0x100u64) by (nonlinear_arith)
            requires w <= 0xffff_ffffu64, bpp <= 0xffu64;
        (w * (bpp as u64) + 7) / 8
    } else if let Some(bs) = block_size {
        let blocks = (w + 3) / 4;
        let blocks = if blocks > 1 { blocks } else { 1 };
        assert(blocks * (bs as u64) <= 0x4000_0000u64 * 0x1_0000_0000u64) by (nonlinear_arith)
            requires blocks <= 0x4000_0000u64, bs <= 0xffff_ffffu64;
        blocks * (bs as u64)
    } else {
        return None;
    };
    if p <= u32::MAX as u64 {
        Some(p as u32)
    } else {
        None
    }
}

/// The properties shared by the legacy and the extended format enumerations.
pub trait DataFormat {
    spec fn spec_bits_per_pixel(&self) -> Option<u8>;

    spec fn spec_block_size(&self) -> Option<u32>;

    spec fn spec_fourcc(&self) -> Option<FourCC>;

    spec fn spec_requires_extension(&self) -> bool;

    /// Whether two pixels share a pair of bytes (the R8G8_B8G8 and G8R8_G8B8 layouts).
    spec fn spec_is_packed(&self) -> bool;

    /// The number of bytes required to store one row of data, where it fits in 32 bits.
    fn get_pitch(&self, width: u32) -> (r: Option<u32>)
        ensures
            r == fit_u32(pitch_spec(self.spec_is_packed(), self.spec_bits_per_pixel(), self.spec_block_size(), width as int)),
    ;

    /// The height of each row of data: 1, or 4 for block-compressed textures.
    fn get_pitch_height(&self) -> (r: u32)
        ensures
            r == pitch_height_spec(self.spec_block_size()),
    {
        if self.get_block_size().is_some() {
            4
        } else {
            1
        }
    }

    /// The bits that store a single pixel; only defined for uncompressed formats.
    fn get_bits_per_pixel(&self) -> (r: Option<u8>)
        ensures
            r == self.spec_bits_per_pixel(),
    ;

    /// The bytes of one 4x4 block; only defined for compressed formats.
    fn get_block_size(&self) -> (r: Option<u32>)
        ensures
            r == self.spec_block_size(),
    ;

    /// The four-character code of this format, where it has one.
    fn get_fourcc(&self) -> (r: Option<FourCC>)
        ensures
            r == self.spec_fourcc(),
    ;

    /// Whether the format can only be described through the extended header.
    fn requires_extension(&self) -> (r: bool)
        ensures
            r == self.spec_requires_extension(),
    ;

    /// The least number of bytes of a mip level, however small its dimensions.
    fn get_minimum_mipmap_size_in_bytes(&self) -> (r: Option<u32>)
        ensures
            r == min_mip_spec(self.spec_bits_per_pixel(), self.spec_block_size()),
    {
        if let Some(bpp) = self.get_bits_per_pixel() {
            Some((bpp as u32 + 7) / 8)
        } else {
            self.get_block_size()
        }
    }
}

/// A resolved format of either enumeration, used uniformly by the layout computations.
#[derive(Debug, Clone, Copy, PartialEq, Eq, Structural)]
pub enum Format {
    D3d(D3DFormat),
    Dxgi(DxgiFormat),
}

impl DataFormat for Format {
    open spec fn spec_bits_per_pixel(&self) -> Option<u8> {
        match *self {
            Format::D3d(f) => f.spec_bits_per_pixel(),
            Format::Dxgi(f) => f.spec_bits_per_pixel(),
        }
    }

    open spec fn spec_block_size(&self) -> Option<u32> {
        match *self {
            Format::D3d(f) => f.spec_block_size(),
            Format::Dxgi(f) => f.spec_block_size(),
        }
    }

    open spec fn spec_fourcc(&self) -> Option<FourCC> {
        match *self {
            Format::D3d(f) => f.spec_fourcc(),
            Format::Dxgi(f) => f.spec_fourcc(),
        }
    }

    open spec fn spec_requires_extension(&self) -> bool {
        match *self {
            Format::D3d(f) => f.spec_requires_extension(),
            Format::Dxgi(f) => f.spec_requires_extension(),
        }
    }

    open spec fn spec_is_packed(&self) -> bool {
        match *self {
            Format::D3d(f) => f.spec_is_packed(),
            Format::Dxgi(f) => f.spec_is_packed(),
        }
    }

    fn get_pitch(&self, width: u32) -> (r: Option<u32>) {
        match self {
            Format::D3d(f) => f.get_pitch(width),
            Format::Dxgi(f) => f.get_pitch(width),
        }
    }

    fn get_bits_per_pixel(&self) -> (r: Option<u8>) {
        match self {
            Format::D3d(f) => f.get_bits_per_pixel(),
            Format::Dxgi(f) => f.get_bits_per_pixel(),
        }
    }

    fn get_block_size(&self) -> (r: Option<u32>) {
        match self {
            Format::D3d(f) => f.get_block_size(),
            Format::Dxgi(f) => f.get_block_size(),
        }
    }

    fn get_fourcc(&self) -> (r: Option<FourCC>) {
        match self {
            Format::D3d(f) => f.get_fourcc(),
            Format::Dxgi(f) => f.get_fourcc(),
        }
    }

    fn requires_extension(&self) -> (r: bool) {
        match self {
            Format::D3d(f) => f.requires_extension(),
            Format::Dxgi(f) => f.requires_extension(),
        }
    }
}

/// No format has both a bit depth and a block size.
pub proof fn lemma_depth_excludes_block(f: Format)
    ensures
        !(f.spec_bits_per_pixel() is Some && f.spec_block_size() is Some),
{
}

} // verus!
