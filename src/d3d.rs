//! The legacy pixel formats, named after the Direct3D 9 format enumeration.
use vstd::prelude::*;
use crate::format::{DataFormat, row_pitch};
use crate::pixel_format::{FourCC, PixelFormat, PixelFormatFlags};

verus! {

/// A legacy pixel format.
#[allow(non_camel_case_types)]
#[derive(Debug, Clone, Copy, PartialEq, Eq, Hash, Structural)]
pub enum D3DFormat {
    A8B8G8R8,
    G16R16,
    A2B10G10R10,
    A1R5G5B5,
    R5G6B5,
    A8,
    A8R8G8B8,
    X8R8G8B8,
    X8B8G8R8,
    A2R10G10B10,
    R8G8B8,
    X1R5G5B5,
    A4R4G4B4,
    X4R4G4B4,
    A8R3G3B2,
    A8L8,
    L16,
    L8,
    A4L4,
    DXT1,
    DXT3,
    DXT5,
    R8G8_B8G8,
    G8R8_G8B8,
    A16B16G16R16,
    Q16W16V16U16,
    R16F,
    G16R16F,
    A16B16G16R16F,
    R32F,
    G32R32F,
    A32B32G32R32F,
    DXT2,
    DXT4,
    UYVY,
    YUY2,
    CXV8U8,
}

/// Bits per pixel of each legacy format. Block-compressed and YUV formats have none.
pub open spec fn d3d_bits_per_pixel(f: D3DFormat) -> Option<u8> {
    match f {
        D3DFormat::A8B8G8R8 => Some(32),
        D3DFormat::G16R16 => Some(32),
        D3DFormat::A2B10G10R10 => Some(32),
        D3DFormat::A1R5G5B5 => Some(16),
        D3DFormat::R5G6B5 => Some(16),
        D3DFormat::A8 => Some(8),
        D3DFormat::A8R8G8B8 => Some(32),
        D3DFormat::X8R8G8B8 => Some(32),
        D3DFormat::X8B8G8R8 => Some(32),
        D3DFormat::A2R10G10B10 => Some(32),
        D3DFormat::R8G8B8 => Some(24),
        D3DFormat::X1R5G5B5 => Some(16),
        D3DFormat::A4R4G4B4 => Some(16),
        D3DFormat::X4R4G4B4 => Some(16),
        D3DFormat::A8R3G3B2 => Some(16),
        D3DFormat::A8L8 => Some(16),
        D3DFormat::L16 => Some(16),
        D3DFormat::L8 => Some(8),
        D3DFormat::A4L4 => Some(8),
        D3DFormat::DXT1 => None,
        D3DFormat::DXT3 => None,
        D3DFormat::DXT5 => None,
        D3DFormat::R8G8_B8G8 => Some(32),
        D3DFormat::G8R8_G8B8 => Some(32),
        D3DFormat::A16B16G16R16 => Some(64),
        D3DFormat::Q16W16V16U16 => Some(64),
        D3DFormat::R16F => Some(16),
        D3DFormat::G16R16F => Some(32),
        D3DFormat::A16B16G16R16F => Some(64),
        D3DFormat::R32F => Some(32),
        D3DFormat::G32R32F => Some(64),
        D3DFormat::A32B32G32R32F => Some(128),
        D3DFormat::DXT2 => None,
        D3DFormat::DXT4 => None,
        D3DFormat::UYVY => None,
        D3DFormat::YUY2 => None,
        D3DFormat::CXV8U8 => Some(16),
    }
}

/// Bytes per 4x4 block of each block-compressed legacy format.
pub open spec fn d3d_block_size(f: D3DFormat) -> Option<u32> {
    match f {
        D3DFormat::DXT1 => Some(8),
        D3DFormat::DXT3 => Some(16),
        D3DFormat::DXT5 => Some(16),
        D3DFormat::DXT2 => Some(16),
        D3DFormat::DXT4 => Some(16),
        _ => None,
    }
}

/// The four-character code of each legacy format that has one.
pub open spec fn d3d_fourcc(f: D3DFormat) -> Option<FourCC> {
    match f {
        D3DFormat::A8B8G8R8 => None,
        D3DFormat::G16R16 => None,
        D3DFormat::A2B10G10R10 => None,
        D3DFormat::A1R5G5B5 => None,
        D3DFormat::R5G6B5 => None,
        D3DFormat::A8 => None,
        D3DFormat::A8R8G8B8 => None,
        D3DFormat::X8R8G8B8 => None,
        D3DFormat::X8B8G8R8 => None,
        D3DFormat::A2R10G10B10 => None,
        D3DFormat::R8G8B8 => None,
        D3DFormat::X1R5G5B5 => None,
        D3DFormat::A4R4G4B4 => None,
        D3DFormat::X4R4G4B4 => None,
        D3DFormat::A8R3G3B2 => None,
        D3DFormat::A8L8 => None,
        D3DFormat::L16 => None,
        D3DFormat::L8 => None,
        D3DFormat::A4L4 => None,
        D3DFormat::DXT1 => Some(FourCC(FourCC::DXT1)),
        D3DFormat::DXT3 => Some(FourCC(FourCC::DXT3)),
        D3DFormat::DXT5 => Some(FourCC(FourCC::DXT5)),
        D3DFormat::R8G8_B8G8 => Some(FourCC(FourCC::R8G8_B8G8)),
        D3DFormat::G8R8_G8B8 => Some(FourCC(FourCC::G8R8_G8B8)),
        D3DFormat::A16B16G16R16 => Some(FourCC(FourCC::A16B16G16R16)),
        D3DFormat::Q16W16V16U16 => Some(FourCC(FourCC::Q16W16V16U16)),
        D3DFormat::R16F => Some(FourCC(FourCC::R16F)),
        D3DFormat::G16R16F => Some(FourCC(FourCC::G16R16F)),
        D3DFormat::A16B16G16R16F => Some(FourCC(FourCC::A16B16G16R16F)),
        D3DFormat::R32F => Some(FourCC(FourCC::R32F)),
        D3DFormat::G32R32F => Some(FourCC(FourCC::G32R32F)),
        D3DFormat::A32B32G32R32F => Some(FourCC(FourCC::A32B32G32R32F)),
        D3DFormat::DXT2 => Some(FourCC(FourCC::DXT2)),
        D3DFormat::DXT4 => Some(FourCC(FourCC::DXT4)),
        D3DFormat::UYVY => Some(FourCC(FourCC::UYVY)),
        D3DFormat::YUY2 => Some(FourCC(FourCC::YUY2)),
        D3DFormat::CXV8U8 => Some(FourCC(FourCC::CXV8U8)),
    }
}

/// The red channel mask of each legacy format.
pub open spec fn d3d_r_mask(f: D3DFormat) -> Option<u32> {
    match f {
        D3DFormat::A8B8G8R8 => Some(0x0000_00ff),
        D3DFormat::G16R16 => Some(0x0000_ffff),
        D3DFormat::A2B10G10R10 => Some(0x0000_03ff),
        D3DFormat::A1R5G5B5 => Some(0x7c00),
        D3DFormat::R5G6B5 => Some(0xf800),
        D3DFormat::A8 => None,
        D3DFormat::A8R8G8B8 => Some(0x00ff_0000),
        D3DFormat::X8R8G8B8 => Some(0x00ff_0000),
        D3DFormat::X8B8G8R8 => Some(0x0000_00ff),
        D3DFormat::A2R10G10B10 => Some(0x3ff0_0000),
        D3DFormat::R8G8B8 => Some(0xff_0000),
        D3DFormat::X1R5G5B5 => Some(0x7c00),
        D3DFormat::A4R4G4B4 => Some(0x0f00),
        D3DFormat::X4R4G4B4 => Some(0x0f00),
        D3DFormat::A8R3G3B2 => Some(0x00e0),
        D3DFormat::A8L8 => Some(0x00ff),
        D3DFormat::L16 => Some(0xffff),
        D3DFormat::L8 => Some(0xff),
        D3DFormat::A4L4 => Some(0x0f),
        _ => None,
    }
}

/// The green channel mask of each legacy format.
pub open spec fn d3d_g_mask(f: D3DFormat) -> Option<u32> {
    match f {
        D3DFormat::A8B8G8R8 => Some(0x0000_ff00),
        D3DFormat::G16R16 => Some(0xffff_0000),
        D3DFormat::A2B10G10R10 => Some(0x000f_fc00),
        D3DFormat::A1R5G5B5 => Some(0x03e0),
        D3DFormat::R5G6B5 => Some(0x07e0),
        D3DFormat::A8 => None,
        D3DFormat::A8R8G8B8 => Some(0x0000_ff00),
        D3DFormat::X8R8G8B8 => Some(0x0000_ff00),
        D3DFormat::X8B8G8R8 => Some(0x0000_ff00),
        D3DFormat::A2R10G10B10 => Some(0x000f_fc00),
        D3DFormat::R8G8B8 => Some(0x00_ff00),
        D3DFormat::X1R5G5B5 => Some(0x03e0),
        D3DFormat::A4R4G4B4 => Some(0x00f0),
        D3DFormat::X4R4G4B4 => Some(0x00f0),
        D3DFormat::A8R3G3B2 => Some(0x001c),
        D3DFormat::A8L8 => None,
        D3DFormat::L16 => None,
        D3DFormat::L8 => None,
        D3DFormat::A4L4 => None,
        _ => None,
    }
}

/// The blue channel mask of each legacy format.
pub open spec fn d3d_b_mask(f: D3DFormat) -> Option<u32> {
    match f {
        D3DFormat::A8B8G8R8 => Some(0x00ff_0000),
        D3DFormat::G16R16 => None,
        D3DFormat::A2B10G10R10 => Some(0x3ff0_0000),
        D3DFormat::A1R5G5B5 => Some(0x001f),
        D3DFormat::R5G6B5 => Some(0x001f),
        D3DFormat::A8 => None,
        D3DFormat::A8R8G8B8 => Some(0x0000_00ff),
        D3DFormat::X8R8G8B8 => Some(0x0000_00ff),
        D3DFormat::X8B8G8R8 => Some(0x00ff_0000),
        D3DFormat::A2R10G10B10 => Some(0x0000_03ff),
        D3DFormat::R8G8B8 => Some(0x00_00ff),
        D3DFormat::X1R5G5B5 => Some(0x001f),
        D3DFormat::A4R4G4B4 => Some(0x000f),
        D3DFormat::X4R4G4B4 => Some(0x000f),
        D3DFormat::A8R3G3B2 => Some(0x0003),
        D3DFormat::A8L8 => None,
        D3DFormat::L16 => None,
        D3DFormat::L8 => None,
        D3DFormat::A4L4 => None,
        _ => None,
    }
}

/// The alpha channel mask of each legacy format.
pub open spec fn d3d_a_mask(f: D3DFormat) -> Option<u32> {
    match f {
        D3DFormat::A8B8G8R8 => Some(0xff00_0000),
        D3DFormat::G16R16 => None,
        D3DFormat::A2B10G10R10 => Some(0xc000_0000),
        D3DFormat::A1R5G5B5 => Some(0x8000),
        D3DFormat::R5G6B5 => None,
        D3DFormat::A8 => Some(0xff),
        D3DFormat::A8R8G8B8 => Some(0xff00_0000),
        D3DFormat::X8R8G8B8 => None,
        D3DFormat::X8B8G8R8 => None,
        D3DFormat::A2R10G10B10 => Some(0xc000_0000),
        D3DFormat::R8G8B8 => None,
        D3DFormat::X1R5G5B5 => None,
        D3DFormat::A4R4G4B4 => Some(0xf000),
        D3DFormat::X4R4G4B4 => None,
        D3DFormat::A8R3G3B2 => Some(0xff00),
        D3DFormat::A8L8 => Some(0xff00),
        D3DFormat::L16 => None,
        D3DFormat::L8 => None,
        D3DFormat::A4L4 => Some(0xf0),
        _ => None,
    }
}

/// The legacy format that a four-character code names; the extension code names none.
pub open spec fn d3d_from_fourcc(code: u32) -> Option<D3DFormat> {
    if code == FourCC::DXT1 {
        Some(D3DFormat::DXT1)
    } else if code == FourCC::DXT2 {
        Some(D3DFormat::DXT2)
    } else if code == FourCC::DXT3 {
        Some(D3DFormat::DXT3)
    } else if code == FourCC::DXT4 {
        Some(D3DFormat::DXT4)
    } else if code == FourCC::DXT5 {
        Some(D3DFormat::DXT5)
    } else if code == FourCC::R8G8_B8G8 {
        Some(D3DFormat::R8G8_B8G8)
    } else if code == FourCC::G8R8_G8B8 {
        Some(D3DFormat::G8R8_G8B8)
    } else if code == FourCC::A16B16G16R16 {
        Some(D3DFormat::A16B16G16R16)
    } else if code == FourCC::Q16W16V16U16 {
        Some(D3DFormat::Q16W16V16U16)
    } else if code == FourCC::R16F {
        Some(D3DFormat::R16F)
    } else if code == FourCC::G16R16F {
        Some(D3DFormat::G16R16F)
    } else if code == FourCC::A16B16G16R16F {
        Some(D3DFormat::A16B16G16R16F)
    } else if code == FourCC::R32F {
        Some(D3DFormat::R32F)
    } else if code == FourCC::G32R32F {
        Some(D3DFormat::G32R32F)
    } else if code == FourCC::A32B32G32R32F {
        Some(D3DFormat::A32B32G32R32F)
    } else if code == FourCC::UYVY {
        Some(D3DFormat::UYVY)
    } else if code == FourCC::YUY2 {
        Some(D3DFormat::YUY2)
    } else if code == FourCC::CXV8U8 {
        Some(D3DFormat::CXV8U8)
    } else {
        None
    }
}

/// The legacy format recognised from a descriptor's flags, bit count and channel masks:
/// the first row of a fixed table that matches the tuple exactly.
pub open spec fn d3d_from_masks(
    lum: bool,
    rgb: bool,
    alpha: bool,
    bits: Option<u32>,
    r: Option<u32>,
    g: Option<u32>,
    b: Option<u32>,
    a: Option<u32>,
) -> Option<D3DFormat> {
    match (lum, rgb, alpha, bits, r, g, b, a) {
        (false, true, true, Some(32), Some(0xff), Some(0xff00), Some(0xff0000), Some(0xff000000)) => Some(D3DFormat::A8B8G8R8),
        (false, true, false, Some(32), Some(0xffff), Some(0xffff0000), None, None) => Some(D3DFormat::G16R16),
        (false, true, true, Some(32), Some(0x3ff), Some(0xffc00), Some(0x3ff00000), None) => Some(D3DFormat::A2B10G10R10),
        (false, true, true, Some(16), Some(0x7c00), Some(0x3e0), Some(0x1f), Some(0x8000)) => Some(D3DFormat::A1R5G5B5),
        (false, true, false, Some(16), Some(0xf800), Some(0x7e0), Some(0x1f), None) => Some(D3DFormat::R5G6B5),
        (false, false, true, Some(8) | None, None, None, None, Some(0xff)) => Some(D3DFormat::A8),
        (false, true, true, Some(32), Some(0xff0000), Some(0xff00), Some(0xff), Some(0xff000000)) => Some(D3DFormat::A8R8G8B8),
        (false, true, false, Some(32), Some(0xff0000), Some(0xff00), Some(0xff), None) => Some(D3DFormat::X8R8G8B8),
        (false, true, false, Some(32), Some(0xff), Some(0xff00), Some(0xff0000), None) => Some(D3DFormat::X8B8G8R8),
        (false, true, true, Some(32), Some(0x3ff00000), Some(0xffc00), Some(0x3ff), Some(0xc0000000)) => Some(D3DFormat::A2R10G10B10),
        (false, true, false, Some(24), Some(0xff0000), Some(0xff00), Some(0xff), None) => Some(D3DFormat::R8G8B8),
        (false, true, false, Some(16), Some(0x7c00), Some(0x3e0), Some(0x1f), None) => Some(D3DFormat::X1R5G5B5),
        (false, true, true, Some(16), Some(0xf00), Some(0xf0), Some(0xf), Some(0xf000)) => Some(D3DFormat::A4R4G4B4),
        (false, true, false, Some(16), Some(0xf00), Some(0xf0), Some(0xf), None) => Some(D3DFormat::X4R4G4B4),
        (false, true, true, Some(16), Some(0xe0), Some(0x1c), Some(0x3), Some(0xff00)) => Some(D3DFormat::A8R3G3B2),
        (true, false, true, Some(16), Some(0xff), None, None, Some(0xff00)) => Some(D3DFormat::A8L8),
        (true, false, false, Some(16), Some(0xffff), None, None, None) => Some(D3DFormat::L16),
        (true, false, false, Some(8), Some(0xff), None, None, None) => Some(D3DFormat::L8),
        (true, false, true, Some(8), Some(0xf), None, None, Some(0xf0)) => Some(D3DFormat::A4L4),
        _ => None,
    }
}

/// The legacy format a descriptor names: through its four-character code where it has
/// one, else through its masks.
pub open spec fn d3d_from_pixel_format(pf: PixelFormat) -> Option<D3DFormat> {
    match pf.fourcc {
        Some(code) => d3d_from_fourcc(code.0),
        None => d3d_from_masks(
            pf.flags.has(PixelFormatFlags::LUMINANCE),
            pf.flags.has(PixelFormatFlags::RGB),
            pf.has_alpha_flag(),
            pf.rgb_bit_count,
            pf.r_bit_mask,
            pf.g_bit_mask,
            pf.b_bit_mask,
            pf.a_bit_mask,
        ),
    }
}

impl DataFormat for D3DFormat {
    open spec fn spec_bits_per_pixel(&self) -> Option<u8> {
        d3d_bits_per_pixel(*self)
    }

    open spec fn spec_block_size(&self) -> Option<u32> {
        d3d_block_size(*self)
    }

    open spec fn spec_fourcc(&self) -> Option<FourCC> {
        d3d_fourcc(*self)
    }

    open spec fn spec_requires_extension(&self) -> bool {
        false
    }

    open spec fn spec_is_packed(&self) -> bool {
        *self == D3DFormat::R8G8_B8G8 || *self == D3DFormat::G8R8_G8B8
    }

    fn get_pitch(&self, width: u32) -> (r: Option<u32>) {
        let packed = matches!(*self, D3DFormat::R8G8_B8G8 | D3DFormat::G8R8_G8B8);
        row_pitch(packed, self.get_bits_per_pixel(), self.get_block_size(), width)
    }

    fn get_bits_per_pixel(&self) -> (r: Option<u8>) {
        match *self {
            D3DFormat::A8B8G8R8 => Some(32),
            D3DFormat::G16R16 => Some(32),
            D3DFormat::A2B10G10R10 => Some(32),
            D3DFormat::A1R5G5B5 => Some(16),
            D3DFormat::R5G6B5 => Some(16),
            D3DFormat::A8 => Some(8),
            D3DFormat::A8R8G8B8 => Some(32),
            D3DFormat::X8R8G8B8 => Some(32),
            D3DFormat::X8B8G8R8 => Some(32),
            D3DFormat::A2R10G10B10 => Some(32),
            D3DFormat::R8G8B8 => Some(24),
            D3DFormat::X1R5G5B5 => Some(16),
            D3DFormat::A4R4G4B4 => Some(16),
            D3DFormat::X4R4G4B4 => Some(16),
            D3DFormat::A8R3G3B2 => Some(16),
            D3DFormat::A8L8 => Some(16),
            D3DFormat::L16 => Some(16),
            D3DFormat::L8 => Some(8),
            D3DFormat::A4L4 => Some(8),
            D3DFormat::DXT1 => None,
            D3DFormat::DXT3 => None,
            D3DFormat::DXT5 => None,
            D3DFormat::R8G8_B8G8 => Some(32),
            D3DFormat::G8R8_G8B8 => Some(32),
            D3DFormat::A16B16G16R16 => Some(64),
            D3DFormat::Q16W16V16U16 => Some(64),
            D3DFormat::R16F => Some(16),
            D3DFormat::G16R16F => Some(32),
            D3DFormat::A16B16G16R16F => Some(64),
            D3DFormat::R32F => Some(32),
            D3DFormat::G32R32F => Some(64),
            D3DFormat::A32B32G32R32F => Some(128),
            D3DFormat::DXT2 => None,
            D3DFormat::DXT4 => None,
            D3DFormat::UYVY => None,
            D3DFormat::YUY2 => None,
            D3DFormat::CXV8U8 => Some(16),
        }
    }

    fn get_block_size(&self) -> (r: Option<u32>) {
        match *self {
            D3DFormat::DXT1 => Some(8),
            D3DFormat::DXT2 | D3DFormat::DXT3 | D3DFormat::DXT4 | D3DFormat::DXT5 => Some(16),
            _ => None,
        }
    }

    fn get_fourcc(&self) -> (r: Option<FourCC>) {
        match *self {
            D3DFormat::A8B8G8R8 => None,
            D3DFormat::G16R16 => None,
            D3DFormat::A2B10G10R10 => None,
            D3DFormat::A1R5G5B5 => None,
            D3DFormat::R5G6B5 => None,
            D3DFormat::A8 => None,
            D3DFormat::A8R8G8B8 => None,
            D3DFormat::X8R8G8B8 => None,
            D3DFormat::X8B8G8R8 => None,
            D3DFormat::A2R10G10B10 => None,
            D3DFormat::R8G8B8 => None,
            D3DFormat::X1R5G5B5 => None,
            D3DFormat::A4R4G4B4 => None,
            D3DFormat::X4R4G4B4 => None,
            D3DFormat::A8R3G3B2 => None,
            D3DFormat::A8L8 => None,
            D3DFormat::L16 => None,
            D3DFormat::L8 => None,
            D3DFormat::A4L4 => None,
            D3DFormat::DXT1 => Some(FourCC(FourCC::DXT1)),
            D3DFormat::DXT3 => Some(FourCC(FourCC::DXT3)),
            D3DFormat::DXT5 => Some(FourCC(FourCC::DXT5)),
            D3DFormat::R8G8_B8G8 => Some(FourCC(FourCC::R8G8_B8G8)),
            D3DFormat::G8R8_G8B8 => Some(FourCC(FourCC::G8R8_G8B8)),
            D3DFormat::A16B16G16R16 => Some(FourCC(FourCC::A16B16G16R16)),
            D3DFormat::Q16W16V16U16 => Some(FourCC(FourCC::Q16W16V16U16)),
            D3DFormat::R16F => Some(FourCC(FourCC::R16F)),
            D3DFormat::G16R16F => Some(FourCC(FourCC::G16R16F)),
            D3DFormat::A16B16G16R16F => Some(FourCC(FourCC::A16B16G16R16F)),
            D3DFormat::R32F => Some(FourCC(FourCC::R32F)),
            D3DFormat::G32R32F => Some(FourCC(FourCC::G32R32F)),
            D3DFormat::A32B32G32R32F => Some(FourCC(FourCC::A32B32G32R32F)),
            D3DFormat::DXT2 => Some(FourCC(FourCC::DXT2)),
            D3DFormat::DXT4 => Some(FourCC(FourCC::DXT4)),
            D3DFormat::UYVY => Some(FourCC(FourCC::UYVY)),
            D3DFormat::YUY2 => Some(FourCC(FourCC::YUY2)),
            D3DFormat::CXV8U8 => Some(FourCC(FourCC::CXV8U8)),
        }
    }

    fn requires_extension(&self) -> (r: bool) {
        false
    }
}

impl D3DFormat {
    /// The bitmask for the red channel pixels.
    pub fn r_bit_mask(&self) -> (r: Option<u32>)
        ensures
            r == d3d_r_mask(*self),
    {
        match *self {
            D3DFormat::A8B8G8R8 => Some(0x0000_00ff),
            D3DFormat::G16R16 => Some(0x0000_ffff),
            D3DFormat::A2B10G10R10 => Some(0x0000_03ff),
            D3DFormat::A1R5G5B5 => Some(0x7c00),
            D3DFormat::R5G6B5 => Some(0xf800),
            D3DFormat::A8 => None,
            D3DFormat::A8R8G8B8 => Some(0x00ff_0000),
            D3DFormat::X8R8G8B8 => Some(0x00ff_0000),
            D3DFormat::X8B8G8R8 => Some(0x0000_00ff),
            D3DFormat::A2R10G10B10 => Some(0x3ff0_0000),
            D3DFormat::R8G8B8 => Some(0xff_0000),
            D3DFormat::X1R5G5B5 => Some(0x7c00),
            D3DFormat::A4R4G4B4 => Some(0x0f00),
            D3DFormat::X4R4G4B4 => Some(0x0f00),
            D3DFormat::A8R3G3B2 => Some(0x00e0),
            D3DFormat::A8L8 => Some(0x00ff),
            D3DFormat::L16 => Some(0xffff),
            D3DFormat::L8 => Some(0xff),
            D3DFormat::A4L4 => Some(0x0f),
            _ => None,
        }
    }

    /// The bitmask for the green channel pixels.
    pub fn g_bit_mask(&self) -> (r: Option<u32>)
        ensures
            r == d3d_g_mask(*self),
    {
        match *self {
            D3DFormat::A8B8G8R8 => Some(0x0000_ff00),
            D3DFormat::G16R16 => Some(0xffff_0000),
            D3DFormat::A2B10G10R10 => Some(0x000f_fc00),
            D3DFormat::A1R5G5B5 => Some(0x03e0),
            D3DFormat::R5G6B5 => Some(0x07e0),
            D3DFormat::A8 => None,
            D3DFormat::A8R8G8B8 => Some(0x0000_ff00),
            D3DFormat::X8R8G8B8 => Some(0x0000_ff00),
            D3DFormat::X8B8G8R8 => Some(0x0000_ff00),
            D3DFormat::A2R10G10B10 => Some(0x000f_fc00),
            D3DFormat::R8G8B8 => Some(0x00_ff00),
            D3DFormat::X1R5G5B5 => Some(0x03e0),
            D3DFormat::A4R4G4B4 => Some(0x00f0),
            D3DFormat::X4R4G4B4 => Some(0x00f0),
            D3DFormat::A8R3G3B2 => Some(0x001c),
            D3DFormat::A8L8 => None,
            D3DFormat::L16 => None,
            D3DFormat::L8 => None,
            D3DFormat::A4L4 => None,
            _ => None,
        }
    }

    /// The bitmask for the blue channel pixels.
    pub fn b_bit_mask(&self) -> (r: Option<u32>)
        ensures
            r == d3d_b_mask(*self),
    {
        match *self {
            D3DFormat::A8B8G8R8 => Some(0x00ff_0000),
            D3DFormat::G16R16 => None,
            D3DFormat::A2B10G10R10 => Some(0x3ff0_0000),
            D3DFormat::A1R5G5B5 => Some(0x001f),
            D3DFormat::R5G6B5 => Some(0x001f),
            D3DFormat::A8 => None,
            D3DFormat::A8R8G8B8 => Some(0x0000_00ff),
            D3DFormat::X8R8G8B8 => Some(0x0000_00ff),
            D3DFormat::X8B8G8R8 => Some(0x00ff_0000),
            D3DFormat::A2R10G10B10 => Some(0x0000_03ff),
            D3DFormat::R8G8B8 => Some(0x00_00ff),
            D3DFormat::X1R5G5B5 => Some(0x001f),
            D3DFormat::A4R4G4B4 => Some(0x000f),
            D3DFormat::X4R4G4B4 => Some(0x000f),
            D3DFormat::A8R3G3B2 => Some(0x0003),
            D3DFormat::A8L8 => None,
            D3DFormat::L16 => None,
            D3DFormat::L8 => None,
            D3DFormat::A4L4 => None,
            _ => None,
        }
    }

    /// The bitmask for the alpha channel pixels.
    pub fn a_bit_mask(&self) -> (r: Option<u32>)
        ensures
            r == d3d_a_mask(*self),
    {
        match *self {
            D3DFormat::A8B8G8R8 => Some(0xff00_0000),
            D3DFormat::G16R16 => None,
            D3DFormat::A2B10G10R10 => Some(0xc000_0000),
            D3DFormat::A1R5G5B5 => Some(0x8000),
            D3DFormat::R5G6B5 => None,
            D3DFormat::A8 => Some(0xff),
            D3DFormat::A8R8G8B8 => Some(0xff00_0000),
            D3DFormat::X8R8G8B8 => None,
            D3DFormat::X8B8G8R8 => None,
            D3DFormat::A2R10G10B10 => Some(0xc000_0000),
            D3DFormat::R8G8B8 => None,
            D3DFormat::X1R5G5B5 => None,
            D3DFormat::A4R4G4B4 => Some(0xf000),
            D3DFormat::X4R4G4B4 => None,
            D3DFormat::A8R3G3B2 => Some(0xff00),
            D3DFormat::A8L8 => Some(0xff00),
            D3DFormat::L16 => None,
            D3DFormat::L8 => None,
            D3DFormat::A4L4 => Some(0xf0),
            _ => None,
        }
    }

    /// Recognises the legacy format that a descriptor (such as the one in a file's header)
    /// describes.
    pub fn try_from_pixel_format(pixel_format: &PixelFormat) -> (r: Option<D3DFormat>)
        ensures
            r == d3d_from_pixel_format(*pixel_format),
    {
        if let Some(fourcc) = pixel_format.fourcc {
            let code = fourcc.0;
            if code == FourCC::DXT1 {
                Some(D3DFormat::DXT1)
            } else if code == FourCC::DXT2 {
                Some(D3DFormat::DXT2)
            } else if code == FourCC::DXT3 {
                Some(D3DFormat::DXT3)
            } else if code == FourCC::DXT4 {
                Some(D3DFormat::DXT4)
            } else if code == FourCC::DXT5 {
                Some(D3DFormat::DXT5)
            } else if code == FourCC::R8G8_B8G8 {
                Some(D3DFormat::R8G8_B8G8)
            } else if code == FourCC::G8R8_G8B8 {
                Some(D3DFormat::G8R8_G8B8)
            } else if code == FourCC::A16B16G16R16 {
                Some(D3DFormat::A16B16G16R16)
            } else if code == FourCC::Q16W16V16U16 {
                Some(D3DFormat::Q16W16V16U16)
            } else if code == FourCC::R16F {
                Some(D3DFormat::R16F)
            } else if code == FourCC::G16R16F {
                Some(D3DFormat::G16R16F)
            } else if code == FourCC::A16B16G16R16F {
                Some(D3DFormat::A16B16G16R16F)
            } else if code == FourCC::R32F {
                Some(D3DFormat::R32F)
            } else if code == FourCC::G32R32F {
                Some(D3DFormat::G32R32F)
            } else if code == FourCC::A32B32G32R32F {
                Some(D3DFormat::A32B32G32R32F)
            } else if code == FourCC::UYVY {
                Some(D3DFormat::UYVY)
            } else if code == FourCC::YUY2 {
                Some(D3DFormat::YUY2)
            } else if code == FourCC::CXV8U8 {
                Some(D3DFormat::CXV8U8)
            } else {
                None
            }
        } else {
            let rgb = pixel_format.flags.contains(PixelFormatFlags::RGB);
            let alpha = pixel_format.flags.contains(PixelFormatFlags::ALPHA)
                || pixel_format.flags.contains(PixelFormatFlags::ALPHA_PIXELS);
            let lum = pixel_format.flags.contains(PixelFormatFlags::LUMINANCE);
            match (
                lum,
                rgb,
                alpha,
                pixel_format.rgb_bit_count,
                pixel_format.r_bit_mask,
                pixel_format.g_bit_mask,
                pixel_format.b_bit_mask,
                pixel_format.a_bit_mask,
            ) {
                (false, true, true, Some(32), Some(0xff), Some(0xff00), Some(0xff0000), Some(0xff000000)) => Some(D3DFormat::A8B8G8R8),
                (false, true, false, Some(32), Some(0xffff), Some(0xffff0000), None, None) => Some(D3DFormat::G16R16),
                (false, true, true, Some(32), Some(0x3ff), Some(0xffc00), Some(0x3ff00000), None) => Some(D3DFormat::A2B10G10R10),
                (false, true, true, Some(16), Some(0x7c00), Some(0x3e0), Some(0x1f), Some(0x8000)) => Some(D3DFormat::A1R5G5B5),
                (false, true, false, Some(16), Some(0xf800), Some(0x7e0), Some(0x1f), None) => Some(D3DFormat::R5G6B5),
                (false, false, true, Some(8) | None, None, None, None, Some(0xff)) => Some(D3DFormat::A8),
                (false, true, true, Some(32), Some(0xff0000), Some(0xff00), Some(0xff), Some(0xff000000)) => Some(D3DFormat::A8R8G8B8),
                (false, true, false, Some(32), Some(0xff0000), Some(0xff00), Some(0xff), None) => Some(D3DFormat::X8R8G8B8),
                (false, true, false, Some(32), Some(0xff), Some(0xff00), Some(0xff0000), None) => Some(D3DFormat::X8B8G8R8),
                (false, true, true, Some(32), Some(0x3ff00000), Some(0xffc00), Some(0x3ff), Some(0xc0000000)) => Some(D3DFormat::A2R10G10B10),
                (false, true, false, Some(24), Some(0xff0000), Some(0xff00), Some(0xff), None) => Some(D3DFormat::R8G8B8),
                (false, true, false, Some(16), Some(0x7c00), Some(0x3e0), Some(0x1f), None) => Some(D3DFormat::X1R5G5B5),
                (false, true, true, Some(16), Some(0xf00), Some(0xf0), Some(0xf), Some(0xf000)) => Some(D3DFormat::A4R4G4B4),
                (false, true, false, Some(16), Some(0xf00), Some(0xf0), Some(0xf), None) => Some(D3DFormat::X4R4G4B4),
                (false, true, true, Some(16), Some(0xe0), Some(0x1c), Some(0x3), Some(0xff00)) => Some(D3DFormat::A8R3G3B2),
                (true, false, true, Some(16), Some(0xff), None, None, Some(0xff00)) => Some(D3DFormat::A8L8),
                (true, false, false, Some(16), Some(0xffff), None, None, None) => Some(D3DFormat::L16),
                (true, false, false, Some(8), Some(0xff), None, None, None) => Some(D3DFormat::L8),
                (true, false, true, Some(8), Some(0xf), None, None, Some(0xf0)) => Some(D3DFormat::A4L4),
                _ => None,
            }
        }
    }
}

} // verus!
