//! The extended pixel formats, numbered as in the DXGI format enumeration.
use vstd::prelude::*;
use crate::format::{DataFormat, row_pitch};
use crate::pixel_format::{FourCC, PixelFormat};

verus! {

/// An extended pixel format, as the extended header names it.
#[allow(non_camel_case_types)]
#[derive(Debug, Clone, Copy, PartialEq, Eq, Hash, Structural)]
pub enum DxgiFormat {
    Unknown,
    R32G32B32A32_Typeless,
    R32G32B32A32_Float,
    R32G32B32A32_UInt,
    R32G32B32A32_SInt,
    R32G32B32_Typeless,
    R32G32B32_Float,
    R32G32B32_UInt,
    R32G32B32_SInt,
    R16G16B16A16_Typeless,
    R16G16B16A16_Float,
    R16G16B16A16_UNorm,
    R16G16B16A16_UInt,
    R16G16B16A16_SNorm,
    R16G16B16A16_SInt,
    R32G32_Typeless,
    R32G32_Float,
    R32G32_UInt,
    R32G32_SInt,
    R32G8X24_Typeless,
    D32_Float_S8X24_UInt,
    R32_Float_X8X24_Typeless,
    X32_Typeless_G8X24_UInt,
    R10G10B10A2_Typeless,
    R10G10B10A2_UNorm,
    R10G10B10A2_UInt,
    R11G11B10_Float,
    R8G8B8A8_Typeless,
    R8G8B8A8_UNorm,
    R8G8B8A8_UNorm_sRGB,
    R8G8B8A8_UInt,
    R8G8B8A8_SNorm,
    R8G8B8A8_SInt,
    R16G16_Typeless,
    R16G16_Float,
    R16G16_UNorm,
    R16G16_UInt,
    R16G16_SNorm,
    R16G16_SInt,
    R32_Typeless,
    D32_Float,
    R32_Float,
    R32_UInt,
    R32_SInt,
    R24G8_Typeless,
    D24_UNorm_S8_UInt,
    R24_UNorm_X8_Typeless,
    X24_Typeless_G8_UInt,
    R8G8_Typeless,
    R8G8_UNorm,
    R8G8_UInt,
    R8G8_SNorm,
    R8G8_SInt,
    R16_Typeless,
    R16_Float,
    D16_UNorm,
    R16_UNorm,
    R16_UInt,
    R16_SNorm,
    R16_SInt,
    R8_Typeless,
    R8_UNorm,
    R8_UInt,
    R8_SNorm,
    R8_SInt,
    A8_UNorm,
    R1_UNorm,
    R9G9B9E5_SharedExp,
    R8G8_B8G8_UNorm,
    G8R8_G8B8_UNorm,
    BC1_Typeless,
    BC1_UNorm,
    BC1_UNorm_sRGB,
    BC2_Typeless,
    BC2_UNorm,
    BC2_UNorm_sRGB,
    BC3_Typeless,
    BC3_UNorm,
    BC3_UNorm_sRGB,
    BC4_Typeless,
    BC4_UNorm,
    BC4_SNorm,
    BC5_Typeless,
    BC5_UNorm,
    BC5_SNorm,
    B5G6R5_UNorm,
    B5G5R5A1_UNorm,
    B8G8R8A8_UNorm,
    B8G8R8X8_UNorm,
    R10G10B10_XR_Bias_A2_UNorm,
    B8G8R8A8_Typeless,
    B8G8R8A8_UNorm_sRGB,
    B8G8R8X8_Typeless,
    B8G8R8X8_UNorm_sRGB,
    BC6H_Typeless,
    BC6H_UF16,
    BC6H_SF16,
    BC7_Typeless,
    BC7_UNorm,
    BC7_UNorm_sRGB,
    AYUV,
    Y410,
    Y416,
    NV12,
    P010,
    P016,
    Format_420_Opaque,
    YUY2,
    Y210,
    Y216,
    NV11,
    AI44,
    IA44,
    P8,
    A8P8,
    B4G4R4A4_UNorm,
    P208,
    V208,
    V408,
    Force_UInt,
}

/// Bits per pixel of each extended format with a regular layout. Block-compressed, video
/// (YUV, planar and palette) and typeless formats have none.
pub open spec fn dxgi_bits_per_pixel(f: DxgiFormat) -> Option<u8> {
    match f {
        DxgiFormat::R32G32B32A32_Float |
        DxgiFormat::R32G32B32A32_UInt |
        DxgiFormat::R32G32B32A32_SInt
            => Some(128),

        DxgiFormat::R32G32B32_Float |
        DxgiFormat::R32G32B32_UInt |
        DxgiFormat::R32G32B32_SInt
            => Some(96),

        DxgiFormat::R16G16B16A16_Float |
        DxgiFormat::R16G16B16A16_UNorm |
        DxgiFormat::R16G16B16A16_UInt |
        DxgiFormat::R16G16B16A16_SNorm |
        DxgiFormat::R16G16B16A16_SInt |
        DxgiFormat::R32G32_Float |
        DxgiFormat::R32G32_UInt |
        DxgiFormat::R32G32_SInt |
        DxgiFormat::D32_Float_S8X24_UInt
            => Some(64),

        DxgiFormat::R10G10B10A2_UNorm |
        DxgiFormat::R10G10B10A2_UInt |
        DxgiFormat::R11G11B10_Float |
        DxgiFormat::R8G8B8A8_UNorm |
        DxgiFormat::R8G8B8A8_UNorm_sRGB |
        DxgiFormat::R8G8B8A8_UInt |
        DxgiFormat::R8G8B8A8_SNorm |
        DxgiFormat::R8G8B8A8_SInt |
        DxgiFormat::R16G16_Float |
        DxgiFormat::R16G16_UNorm |
        DxgiFormat::R16G16_UInt |
        DxgiFormat::R16G16_SNorm |
        DxgiFormat::R16G16_SInt |
        DxgiFormat::D32_Float |
        DxgiFormat::R32_Float |
        DxgiFormat::R32_UInt |
        DxgiFormat::R32_SInt |
        DxgiFormat::D24_UNorm_S8_UInt
            => Some(32),

        DxgiFormat::R8G8_UNorm |
        DxgiFormat::R8G8_UInt |
        DxgiFormat::R8G8_SNorm |
        DxgiFormat::R8G8_SInt |
        DxgiFormat::R16_Float |
        DxgiFormat::D16_UNorm |
        DxgiFormat::R16_UNorm |
        DxgiFormat::R16_UInt |
        DxgiFormat::R16_SNorm |
        DxgiFormat::R16_SInt
            => Some(16),

        DxgiFormat::R8_UNorm |
        DxgiFormat::R8_UInt |
        DxgiFormat::R8_SNorm |
        DxgiFormat::R8_SInt |
        DxgiFormat::A8_UNorm
            => Some(8),

        DxgiFormat::R1_UNorm => Some(1),

        DxgiFormat::R9G9B9E5_SharedExp => Some(32),

        DxgiFormat::R8G8_B8G8_UNorm |
        DxgiFormat::G8R8_G8B8_UNorm
            => Some(16),

        DxgiFormat::B5G6R5_UNorm |
        DxgiFormat::B5G5R5A1_UNorm
            => Some(16),

        DxgiFormat::B8G8R8A8_UNorm |
        DxgiFormat::B8G8R8X8_UNorm |
        DxgiFormat::R10G10B10_XR_Bias_A2_UNorm |
        DxgiFormat::B8G8R8A8_UNorm_sRGB |
        DxgiFormat::B8G8R8X8_UNorm_sRGB
            => Some(32),

        DxgiFormat::B4G4R4A4_UNorm => Some(16),

        _ => None,
    }
}

/// Bytes per 4x4 block of each block-compressed extended format.
pub open spec fn dxgi_block_size(f: DxgiFormat) -> Option<u32> {
    match f {
        DxgiFormat::BC1_Typeless |
        DxgiFormat::BC1_UNorm |
        DxgiFormat::BC1_UNorm_sRGB
            => Some(8),

        DxgiFormat::BC2_Typeless |
        DxgiFormat::BC2_UNorm |
        DxgiFormat::BC2_UNorm_sRGB |
        DxgiFormat::BC3_Typeless |
        DxgiFormat::BC3_UNorm |
        DxgiFormat::BC3_UNorm_sRGB
            => Some(16),

        DxgiFormat::BC4_Typeless |
        DxgiFormat::BC4_UNorm |
        DxgiFormat::BC4_SNorm
            => Some(8),

        DxgiFormat::BC5_Typeless |
        DxgiFormat::BC5_UNorm |
        DxgiFormat::BC5_SNorm |
        DxgiFormat::BC6H_Typeless |
        DxgiFormat::BC6H_UF16 |
        DxgiFormat::BC6H_SF16 |
        DxgiFormat::BC7_Typeless |
        DxgiFormat::BC7_UNorm |
        DxgiFormat::BC7_UNorm_sRGB
            => Some(16),

        _ => None,
    }
}

/// The four-character code that each extended format had before the extended header existed, where it had one.
pub open spec fn dxgi_fourcc(f: DxgiFormat) -> Option<FourCC> {
    match f {
        DxgiFormat::BC1_UNorm => Some(FourCC(FourCC::BC1_UNORM)),
        DxgiFormat::BC2_UNorm => Some(FourCC(FourCC::BC2_UNORM)),
        DxgiFormat::BC3_UNorm => Some(FourCC(FourCC::BC3_UNORM)),
        DxgiFormat::BC4_UNorm => Some(FourCC(FourCC::BC4_UNORM)),
        DxgiFormat::BC4_SNorm => Some(FourCC(FourCC::BC4_SNORM)),
        DxgiFormat::BC5_UNorm => Some(FourCC(FourCC::BC5_UNORM)),
        DxgiFormat::BC5_SNorm  => Some(FourCC(FourCC::BC5_SNORM)),
        DxgiFormat::R8G8_B8G8_UNorm => Some(FourCC(FourCC::R8G8_B8G8_UNORM)),
        DxgiFormat::G8R8_G8B8_UNorm => Some(FourCC(FourCC::G8R8_G8B8_UNORM)),
        DxgiFormat::R16G16B16A16_UNorm => Some(FourCC(FourCC::R16G16B16A16_UNORM)),
        DxgiFormat::R16G16B16A16_SNorm => Some(FourCC(FourCC::R16G16B16A16_SNORM)),
        DxgiFormat::R16_Float => Some(FourCC(FourCC::R16_FLOAT)),
        DxgiFormat::R16G16_Float => Some(FourCC(FourCC::R16G16_FLOAT)),
        DxgiFormat::R16G16B16A16_Float => Some(FourCC(FourCC::R16G16B16A16_FLOAT)),
        DxgiFormat::R32_Float => Some(FourCC(FourCC::R32_FLOAT)),
        DxgiFormat::R32G32_Float => Some(FourCC(FourCC::R32G32_FLOAT)),
        DxgiFormat::R32G32B32A32_Float => Some(FourCC(FourCC::R32G32B32A32_FLOAT)),
        _ => None
    }
}

/// Whether an extended format cannot be described by a bit count and four channel masks alone.
pub open spec fn dxgi_requires_extension(f: DxgiFormat) -> bool {
    match f {
        // Too big, and many are also not maskable types
        DxgiFormat::R32G32B32A32_Typeless |
        DxgiFormat::R32G32B32A32_Float |
        DxgiFormat::R32G32B32A32_UInt |
        DxgiFormat::R32G32B32A32_SInt |
        DxgiFormat::R32G32B32_Typeless |
        DxgiFormat::R32G32B32_Float |
        DxgiFormat::R32G32B32_UInt |
        DxgiFormat::R32G32B32_SInt |
        DxgiFormat::R16G16B16A16_Typeless |
        DxgiFormat::R16G16B16A16_Float |
        DxgiFormat::R16G16B16A16_UNorm |
        DxgiFormat::R16G16B16A16_UInt |
        DxgiFormat::R16G16B16A16_SNorm |
        DxgiFormat::R16G16B16A16_SInt |
        DxgiFormat::R32G32_Typeless |
        DxgiFormat::R32G32_Float |
        DxgiFormat::R32G32_UInt |
        DxgiFormat::R32G32_SInt |
        DxgiFormat::R32G8X24_Typeless |
        DxgiFormat::D32_Float_S8X24_UInt |
        DxgiFormat::R32_Float_X8X24_Typeless |
        DxgiFormat::X32_Typeless_G8X24_UInt
            => true,

        // Not maskable types
        DxgiFormat::R10G10B10A2_Typeless |
        DxgiFormat::R11G11B10_Float |
        DxgiFormat::R8G8B8A8_Typeless |
        DxgiFormat::R8G8B8A8_UNorm_sRGB |
        DxgiFormat::R16G16_Typeless |
        DxgiFormat::R16G16_Float |
        DxgiFormat::R32_Typeless |
        DxgiFormat::D32_Float |
        DxgiFormat::R32_Float |
        DxgiFormat::R24G8_Typeless |
        DxgiFormat::R24_UNorm_X8_Typeless
            => true,

        // Not maskable types
        DxgiFormat::R8G8_Typeless |
        DxgiFormat::R16_Typeless |
        DxgiFormat::R16_Float
            => true,

        // Not maskable types
        DxgiFormat::R8_Typeless => true,

        // Not maskable types
        DxgiFormat::R9G9B9E5_SharedExp => true,

        // Not maskable types
        DxgiFormat::R10G10B10_XR_Bias_A2_UNorm |
        DxgiFormat::B8G8R8A8_Typeless |
        DxgiFormat::B8G8R8A8_UNorm_sRGB |
        DxgiFormat::B8G8R8X8_Typeless |
        DxgiFormat::B8G8R8X8_UNorm_sRGB
            => true,

        // Channels are not actual rgb
        DxgiFormat::AYUV |
        DxgiFormat::Y410 |
        DxgiFormat::Y416 |
        DxgiFormat::NV12 |
        DxgiFormat::P010 |
        DxgiFormat::P016 |
        DxgiFormat::Format_420_Opaque |
        DxgiFormat::YUY2 |
        DxgiFormat::Y210 |
        DxgiFormat::Y216 |
        DxgiFormat::NV11 |
        DxgiFormat::AI44 |
        DxgiFormat::IA44 |
        DxgiFormat::P8 |
        DxgiFormat::A8P8 |
        DxgiFormat::P208 |
        DxgiFormat::V208 |
        DxgiFormat::V408
            => true,

        // Typeless, sRGB, float or single-bit layouts that masks cannot express
        DxgiFormat::X24_Typeless_G8_UInt |
        DxgiFormat::R1_UNorm |
        DxgiFormat::BC1_Typeless |
        DxgiFormat::BC1_UNorm_sRGB |
        DxgiFormat::BC2_Typeless |
        DxgiFormat::BC2_UNorm_sRGB |
        DxgiFormat::BC3_Typeless |
        DxgiFormat::BC3_UNorm_sRGB |
        DxgiFormat::BC4_Typeless |
        DxgiFormat::BC5_Typeless |
        DxgiFormat::BC6H_Typeless |
        DxgiFormat::BC6H_UF16 |
        DxgiFormat::BC6H_SF16 |
        DxgiFormat::BC7_Typeless |
        DxgiFormat::BC7_UNorm_sRGB
            => true,

        _ => false
    }
}

/// The number that stands for each extended format in a file.
pub open spec fn dxgi_code(f: DxgiFormat) -> u32 {
    match f {
        DxgiFormat::Unknown => 0,
        DxgiFormat::R32G32B32A32_Typeless => 1,
        DxgiFormat::R32G32B32A32_Float => 2,
        DxgiFormat::R32G32B32A32_UInt => 3,
        DxgiFormat::R32G32B32A32_SInt => 4,
        DxgiFormat::R32G32B32_Typeless => 5,
        DxgiFormat::R32G32B32_Float => 6,
        DxgiFormat::R32G32B32_UInt => 7,
        DxgiFormat::R32G32B32_SInt => 8,
        DxgiFormat::R16G16B16A16_Typeless => 9,
        DxgiFormat::R16G16B16A16_Float => 10,
        DxgiFormat::R16G16B16A16_UNorm => 11,
        DxgiFormat::R16G16B16A16_UInt => 12,
        DxgiFormat::R16G16B16A16_SNorm => 13,
        DxgiFormat::R16G16B16A16_SInt => 14,
        DxgiFormat::R32G32_Typeless => 15,
        DxgiFormat::R32G32_Float => 16,
        DxgiFormat::R32G32_UInt => 17,
        DxgiFormat::R32G32_SInt => 18,
        DxgiFormat::R32G8X24_Typeless => 19,
        DxgiFormat::D32_Float_S8X24_UInt => 20,
        DxgiFormat::R32_Float_X8X24_Typeless => 21,
        DxgiFormat::X32_Typeless_G8X24_UInt => 22,
        DxgiFormat::R10G10B10A2_Typeless => 23,
        DxgiFormat::R10G10B10A2_UNorm => 24,
        DxgiFormat::R10G10B10A2_UInt => 25,
        DxgiFormat::R11G11B10_Float => 26,
        DxgiFormat::R8G8B8A8_Typeless => 27,
        DxgiFormat::R8G8B8A8_UNorm => 28,
        DxgiFormat::R8G8B8A8_UNorm_sRGB => 29,
        DxgiFormat::R8G8B8A8_UInt => 30,
        DxgiFormat::R8G8B8A8_SNorm => 31,
        DxgiFormat::R8G8B8A8_SInt => 32,
        DxgiFormat::R16G16_Typeless => 33,
        DxgiFormat::R16G16_Float => 34,
        DxgiFormat::R16G16_UNorm => 35,
        DxgiFormat::R16G16_UInt => 36,
        DxgiFormat::R16G16_SNorm => 37,
        DxgiFormat::R16G16_SInt => 38,
        DxgiFormat::R32_Typeless => 39,
        DxgiFormat::D32_Float => 40,
        DxgiFormat::R32_Float => 41,
        DxgiFormat::R32_UInt => 42,
        DxgiFormat::R32_SInt => 43,
        DxgiFormat::R24G8_Typeless => 44,
        DxgiFormat::D24_UNorm_S8_UInt => 45,
        DxgiFormat::R24_UNorm_X8_Typeless => 46,
        DxgiFormat::X24_Typeless_G8_UInt => 47,
        DxgiFormat::R8G8_Typeless => 48,
        DxgiFormat::R8G8_UNorm => 49,
        DxgiFormat::R8G8_UInt => 50,
        DxgiFormat::R8G8_SNorm => 51,
        DxgiFormat::R8G8_SInt => 52,
        DxgiFormat::R16_Typeless => 53,
        DxgiFormat::R16_Float => 54,
        DxgiFormat::D16_UNorm => 55,
        DxgiFormat::R16_UNorm => 56,
        DxgiFormat::R16_UInt => 57,
        DxgiFormat::R16_SNorm => 58,
        DxgiFormat::R16_SInt => 59,
        DxgiFormat::R8_Typeless => 60,
        DxgiFormat::R8_UNorm => 61,
        DxgiFormat::R8_UInt => 62,
        DxgiFormat::R8_SNorm => 63,
        DxgiFormat::R8_SInt => 64,
        DxgiFormat::A8_UNorm => 65,
        DxgiFormat::R1_UNorm => 66,
        DxgiFormat::R9G9B9E5_SharedExp => 67,
        DxgiFormat::R8G8_B8G8_UNorm => 68,
        DxgiFormat::G8R8_G8B8_UNorm => 69,
        DxgiFormat::BC1_Typeless => 70,
        DxgiFormat::BC1_UNorm => 71,
        DxgiFormat::BC1_UNorm_sRGB => 72,
        DxgiFormat::BC2_Typeless => 73,
        DxgiFormat::BC2_UNorm => 74,
        DxgiFormat::BC2_UNorm_sRGB => 75,
        DxgiFormat::BC3_Typeless => 76,
        DxgiFormat::BC3_UNorm => 77,
        DxgiFormat::BC3_UNorm_sRGB => 78,
        DxgiFormat::BC4_Typeless => 79,
        DxgiFormat::BC4_UNorm => 80,
        DxgiFormat::BC4_SNorm => 81,
        DxgiFormat::BC5_Typeless => 82,
        DxgiFormat::BC5_UNorm => 83,
        DxgiFormat::BC5_SNorm => 84,
        DxgiFormat::B5G6R5_UNorm => 85,
        DxgiFormat::B5G5R5A1_UNorm => 86,
        DxgiFormat::B8G8R8A8_UNorm => 87,
        DxgiFormat::B8G8R8X8_UNorm => 88,
        DxgiFormat::R10G10B10_XR_Bias_A2_UNorm => 89,
        DxgiFormat::B8G8R8A8_Typeless => 90,
        DxgiFormat::B8G8R8A8_UNorm_sRGB => 91,
        DxgiFormat::B8G8R8X8_Typeless => 92,
        DxgiFormat::B8G8R8X8_UNorm_sRGB => 93,
        DxgiFormat::BC6H_Typeless => 94,
        DxgiFormat::BC6H_UF16 => 95,
        DxgiFormat::BC6H_SF16 => 96,
        DxgiFormat::BC7_Typeless => 97,
        DxgiFormat::BC7_UNorm => 98,
        DxgiFormat::BC7_UNorm_sRGB => 99,
        DxgiFormat::AYUV => 100,
        DxgiFormat::Y410 => 101,
        DxgiFormat::Y416 => 102,
        DxgiFormat::NV12 => 103,
        DxgiFormat::P010 => 104,
        DxgiFormat::P016 => 105,
        DxgiFormat::Format_420_Opaque => 106,
        DxgiFormat::YUY2 => 107,
        DxgiFormat::Y210 => 108,
        DxgiFormat::Y216 => 109,
        DxgiFormat::NV11 => 110,
        DxgiFormat::AI44 => 111,
        DxgiFormat::IA44 => 112,
        DxgiFormat::P8 => 113,
        DxgiFormat::A8P8 => 114,
        DxgiFormat::B4G4R4A4_UNorm => 115,
        DxgiFormat::P208 => 130,
        DxgiFormat::V208 => 131,
        DxgiFormat::V408 => 132,
        DxgiFormat::Force_UInt => 0xffff_ffff,
    }
}

/// The extended format a number stands for, if any.
pub open spec fn dxgi_from_code(n: u32) -> Option<DxgiFormat> {
    match n {
        0 => Some(DxgiFormat::Unknown),
        1 => Some(DxgiFormat::R32G32B32A32_Typeless),
        2 => Some(DxgiFormat::R32G32B32A32_Float),
        3 => Some(DxgiFormat::R32G32B32A32_UInt),
        4 => Some(DxgiFormat::R32G32B32A32_SInt),
        5 => Some(DxgiFormat::R32G32B32_Typeless),
        6 => Some(DxgiFormat::R32G32B32_Float),
        7 => Some(DxgiFormat::R32G32B32_UInt),
        8 => Some(DxgiFormat::R32G32B32_SInt),
        9 => Some(DxgiFormat::R16G16B16A16_Typeless),
        10 => Some(DxgiFormat::R16G16B16A16_Float),
        11 => Some(DxgiFormat::R16G16B16A16_UNorm),
        12 => Some(DxgiFormat::R16G16B16A16_UInt),
        13 => Some(DxgiFormat::R16G16B16A16_SNorm),
        14 => Some(DxgiFormat::R16G16B16A16_SInt),
        15 => Some(DxgiFormat::R32G32_Typeless),
        16 => Some(DxgiFormat::R32G32_Float),
        17 => Some(DxgiFormat::R32G32_UInt),
        18 => Some(DxgiFormat::R32G32_SInt),
        19 => Some(DxgiFormat::R32G8X24_Typeless),
        20 => Some(DxgiFormat::D32_Float_S8X24_UInt),
        21 => Some(DxgiFormat::R32_Float_X8X24_Typeless),
        22 => Some(DxgiFormat::X32_Typeless_G8X24_UInt),
        23 => Some(DxgiFormat::R10G10B10A2_Typeless),
        24 => Some(DxgiFormat::R10G10B10A2_UNorm),
        25 => Some(DxgiFormat::R10G10B10A2_UInt),
        26 => Some(DxgiFormat::R11G11B10_Float),
        27 => Some(DxgiFormat::R8G8B8A8_Typeless),
        28 => Some(DxgiFormat::R8G8B8A8_UNorm),
        29 => Some(DxgiFormat::R8G8B8A8_UNorm_sRGB),
        30 => Some(DxgiFormat::R8G8B8A8_UInt),
        31 => Some(DxgiFormat::R8G8B8A8_SNorm),
        32 => Some(DxgiFormat::R8G8B8A8_SInt),
        33 => Some(DxgiFormat::R16G16_Typeless),
        34 => Some(DxgiFormat::R16G16_Float),
        35 => Some(DxgiFormat::R16G16_UNorm),
        36 => Some(DxgiFormat::R16G16_UInt),
        37 => Some(DxgiFormat::R16G16_SNorm),
        38 => Some(DxgiFormat::R16G16_SInt),
        39 => Some(DxgiFormat::R32_Typeless),
        40 => Some(DxgiFormat::D32_Float),
        41 => Some(DxgiFormat::R32_Float),
        42 => Some(DxgiFormat::R32_UInt),
        43 => Some(DxgiFormat::R32_SInt),
        44 => Some(DxgiFormat::R24G8_Typeless),
        45 => Some(DxgiFormat::D24_UNorm_S8_UInt),
        46 => Some(DxgiFormat::R24_UNorm_X8_Typeless),
        47 => Some(DxgiFormat::X24_Typeless_G8_UInt),
        48 => Some(DxgiFormat::R8G8_Typeless),
        49 => Some(DxgiFormat::R8G8_UNorm),
        50 => Some(DxgiFormat::R8G8_UInt),
        51 => Some(DxgiFormat::R8G8_SNorm),
        52 => Some(DxgiFormat::R8G8_SInt),
        53 => Some(DxgiFormat::R16_Typeless),
        54 => Some(DxgiFormat::R16_Float),
        55 => Some(DxgiFormat::D16_UNorm),
        56 => Some(DxgiFormat::R16_UNorm),
        57 => Some(DxgiFormat::R16_UInt),
        58 => Some(DxgiFormat::R16_SNorm),
        59 => Some(DxgiFormat::R16_SInt),
        60 => Some(DxgiFormat::R8_Typeless),
        61 => Some(DxgiFormat::R8_UNorm),
        62 => Some(DxgiFormat::R8_UInt),
        63 => Some(DxgiFormat::R8_SNorm),
        64 => Some(DxgiFormat::R8_SInt),
        65 => Some(DxgiFormat::A8_UNorm),
        66 => Some(DxgiFormat::R1_UNorm),
        67 => Some(DxgiFormat::R9G9B9E5_SharedExp),
        68 => Some(DxgiFormat::R8G8_B8G8_UNorm),
        69 => Some(DxgiFormat::G8R8_G8B8_UNorm),
        70 => Some(DxgiFormat::BC1_Typeless),
        71 => Some(DxgiFormat::BC1_UNorm),
        72 => Some(DxgiFormat::BC1_UNorm_sRGB),
        73 => Some(DxgiFormat::BC2_Typeless),
        74 => Some(DxgiFormat::BC2_UNorm),
        75 => Some(DxgiFormat::BC2_UNorm_sRGB),
        76 => Some(DxgiFormat::BC3_Typeless),
        77 => Some(DxgiFormat::BC3_UNorm),
        78 => Some(DxgiFormat::BC3_UNorm_sRGB),
        79 => Some(DxgiFormat::BC4_Typeless),
        80 => Some(DxgiFormat::BC4_UNorm),
        81 => Some(DxgiFormat::BC4_SNorm),
        82 => Some(DxgiFormat::BC5_Typeless),
        83 => Some(DxgiFormat::BC5_UNorm),
        84 => Some(DxgiFormat::BC5_SNorm),
        85 => Some(DxgiFormat::B5G6R5_UNorm),
        86 => Some(DxgiFormat::B5G5R5A1_UNorm),
        87 => Some(DxgiFormat::B8G8R8A8_UNorm),
        88 => Some(DxgiFormat::B8G8R8X8_UNorm),
        89 => Some(DxgiFormat::R10G10B10_XR_Bias_A2_UNorm),
        90 => Some(DxgiFormat::B8G8R8A8_Typeless),
        91 => Some(DxgiFormat::B8G8R8A8_UNorm_sRGB),
        92 => Some(DxgiFormat::B8G8R8X8_Typeless),
        93 => Some(DxgiFormat::B8G8R8X8_UNorm_sRGB),
        94 => Some(DxgiFormat::BC6H_Typeless),
        95 => Some(DxgiFormat::BC6H_UF16),
        96 => Some(DxgiFormat::BC6H_SF16),
        97 => Some(DxgiFormat::BC7_Typeless),
        98 => Some(DxgiFormat::BC7_UNorm),
        99 => Some(DxgiFormat::BC7_UNorm_sRGB),
        100 => Some(DxgiFormat::AYUV),
        101 => Some(DxgiFormat::Y410),
        102 => Some(DxgiFormat::Y416),
        103 => Some(DxgiFormat::NV12),
        104 => Some(DxgiFormat::P010),
        105 => Some(DxgiFormat::P016),
        106 => Some(DxgiFormat::Format_420_Opaque),
        107 => Some(DxgiFormat::YUY2),
        108 => Some(DxgiFormat::Y210),
        109 => Some(DxgiFormat::Y216),
        110 => Some(DxgiFormat::NV11),
        111 => Some(DxgiFormat::AI44),
        112 => Some(DxgiFormat::IA44),
        113 => Some(DxgiFormat::P8),
        114 => Some(DxgiFormat::A8P8),
        115 => Some(DxgiFormat::B4G4R4A4_UNorm),
        130 => Some(DxgiFormat::P208),
        131 => Some(DxgiFormat::V208),
        132 => Some(DxgiFormat::V408),
        0xffff_ffff => Some(DxgiFormat::Force_UInt),
        _ => None,
    }
}

/// The extended format that a legacy four-character code names, if any.
pub open spec fn dxgi_from_fourcc(code: u32) -> Option<DxgiFormat> {
    if code == FourCC::BC1_UNORM {
        Some(DxgiFormat::BC1_UNorm)
    } else if code == FourCC::BC2_UNORM {
        Some(DxgiFormat::BC2_UNorm)
    } else if code == FourCC::BC3_UNORM {
        Some(DxgiFormat::BC3_UNorm)
    } else if code == FourCC::BC4_UNORM {
        Some(DxgiFormat::BC4_UNorm)
    } else if code == FourCC::BC4_SNORM {
        Some(DxgiFormat::BC4_SNorm)
    } else if code == FourCC::BC5_UNORM {
        Some(DxgiFormat::BC5_UNorm)
    } else if code == FourCC::BC5_SNORM {
        Some(DxgiFormat::BC5_SNorm)
    } else if code == FourCC::R8G8_B8G8_UNORM {
        Some(DxgiFormat::R8G8_B8G8_UNorm)
    } else if code == FourCC::G8R8_G8B8_UNORM {
        Some(DxgiFormat::G8R8_G8B8_UNorm)
    } else if code == FourCC::R16G16B16A16_UNORM {
        Some(DxgiFormat::R16G16B16A16_UNorm)
    } else if code == FourCC::R16G16B16A16_SNORM {
        Some(DxgiFormat::R16G16B16A16_SNorm)
    } else if code == FourCC::R16_FLOAT {
        Some(DxgiFormat::R16_Float)
    } else if code == FourCC::R16G16_FLOAT {
        Some(DxgiFormat::R16G16_Float)
    } else if code == FourCC::R16G16B16A16_FLOAT {
        Some(DxgiFormat::R16G16B16A16_Float)
    } else if code == FourCC::R32_FLOAT {
        Some(DxgiFormat::R32_Float)
    } else if code == FourCC::R32G32_FLOAT {
        Some(DxgiFormat::R32G32_Float)
    } else if code == FourCC::R32G32B32A32_FLOAT {
        Some(DxgiFormat::R32G32B32A32_Float)
    } else {
        None
    }
}

/// The extended format a descriptor names through a legacy four-character code, if any.
pub open spec fn dxgi_from_pixel_format(pf: PixelFormat) -> Option<DxgiFormat> {
    match pf.fourcc {
        Some(code) => dxgi_from_fourcc(code.0),
        None => None,
    }
}

/// Reading back the number written for a format gives the format.
pub proof fn lemma_dxgi_code_round_trip(f: DxgiFormat)
    ensures
        dxgi_from_code(dxgi_code(f)) == Some(f),
{
}

impl DataFormat for DxgiFormat {
    open spec fn spec_bits_per_pixel(&self) -> Option<u8> {
        dxgi_bits_per_pixel(*self)
    }

    open spec fn spec_block_size(&self) -> Option<u32> {
        dxgi_block_size(*self)
    }

    open spec fn spec_fourcc(&self) -> Option<FourCC> {
        dxgi_fourcc(*self)
    }

    open spec fn spec_requires_extension(&self) -> bool {
        dxgi_requires_extension(*self)
    }

    open spec fn spec_is_packed(&self) -> bool {
        *self == DxgiFormat::R8G8_B8G8_UNorm || *self == DxgiFormat::G8R8_G8B8_UNorm
    }

    fn get_pitch(&self, width: u32) -> (r: Option<u32>) {
        let packed = matches!(*self, DxgiFormat::R8G8_B8G8_UNorm | DxgiFormat::G8R8_G8B8_UNorm);
        row_pitch(packed, self.get_bits_per_pixel(), self.get_block_size(), width)
    }

    fn get_bits_per_pixel(&self) -> (r: Option<u8>) {
        match *self {
            DxgiFormat::R32G32B32A32_Float |
            DxgiFormat::R32G32B32A32_UInt |
            DxgiFormat::R32G32B32A32_SInt
                => Some(128),

            DxgiFormat::R32G32B32_Float |
            DxgiFormat::R32G32B32_UInt |
            DxgiFormat::R32G32B32_SInt
                => Some(96),

            DxgiFormat::R16G16B16A16_Float |
            DxgiFormat::R16G16B16A16_UNorm |
            DxgiFormat::R16G16B16A16_UInt |
            DxgiFormat::R16G16B16A16_SNorm |
            DxgiFormat::R16G16B16A16_SInt |
            DxgiFormat::R32G32_Float |
            DxgiFormat::R32G32_UInt |
            DxgiFormat::R32G32_SInt |
            DxgiFormat::D32_Float_S8X24_UInt
                => Some(64),

            DxgiFormat::R10G10B10A2_UNorm |
            DxgiFormat::R10G10B10A2_UInt |
            DxgiFormat::R11G11B10_Float |
            DxgiFormat::R8G8B8A8_UNorm |
            DxgiFormat::R8G8B8A8_UNorm_sRGB |
            DxgiFormat::R8G8B8A8_UInt |
            DxgiFormat::R8G8B8A8_SNorm |
            DxgiFormat::R8G8B8A8_SInt |
            DxgiFormat::R16G16_Float |
            DxgiFormat::R16G16_UNorm |
            DxgiFormat::R16G16_UInt |
            DxgiFormat::R16G16_SNorm |
            DxgiFormat::R16G16_SInt |
            DxgiFormat::D32_Float |
            DxgiFormat::R32_Float |
            DxgiFormat::R32_UInt |
            DxgiFormat::R32_SInt |
            DxgiFormat::D24_UNorm_S8_UInt
                => Some(32),

            DxgiFormat::R8G8_UNorm |
            DxgiFormat::R8G8_UInt |
            DxgiFormat::R8G8_SNorm |
            DxgiFormat::R8G8_SInt |
            DxgiFormat::R16_Float |
            DxgiFormat::D16_UNorm |
            DxgiFormat::R16_UNorm |
            DxgiFormat::R16_UInt |
            DxgiFormat::R16_SNorm |
            DxgiFormat::R16_SInt
                => Some(16),

            DxgiFormat::R8_UNorm |
            DxgiFormat::R8_UInt |
            DxgiFormat::R8_SNorm |
            DxgiFormat::R8_SInt |
            DxgiFormat::A8_UNorm
                => Some(8),

            DxgiFormat::R1_UNorm => Some(1),

            DxgiFormat::R9G9B9E5_SharedExp => Some(32),

            DxgiFormat::R8G8_B8G8_UNorm |
            DxgiFormat::G8R8_G8B8_UNorm
                => Some(16),

            DxgiFormat::B5G6R5_UNorm |
            DxgiFormat::B5G5R5A1_UNorm
                => Some(16),

            DxgiFormat::B8G8R8A8_UNorm |
            DxgiFormat::B8G8R8X8_UNorm |
            DxgiFormat::R10G10B10_XR_Bias_A2_UNorm |
            DxgiFormat::B8G8R8A8_UNorm_sRGB |
            DxgiFormat::B8G8R8X8_UNorm_sRGB
                => Some(32),

            DxgiFormat::B4G4R4A4_UNorm => Some(16),

            _ => None,
        }
    }

    fn get_block_size(&self) -> (r: Option<u32>) {
        match *self {
            DxgiFormat::BC1_Typeless |
            DxgiFormat::BC1_UNorm |
            DxgiFormat::BC1_UNorm_sRGB
                => Some(8),

            DxgiFormat::BC2_Typeless |
            DxgiFormat::BC2_UNorm |
            DxgiFormat::BC2_UNorm_sRGB |
            DxgiFormat::BC3_Typeless |
            DxgiFormat::BC3_UNorm |
            DxgiFormat::BC3_UNorm_sRGB
                => Some(16),

            DxgiFormat::BC4_Typeless |
            DxgiFormat::BC4_UNorm |
            DxgiFormat::BC4_SNorm
                => Some(8),

            DxgiFormat::BC5_Typeless |
            DxgiFormat::BC5_UNorm |
            DxgiFormat::BC5_SNorm |
            DxgiFormat::BC6H_Typeless |
            DxgiFormat::BC6H_UF16 |
            DxgiFormat::BC6H_SF16 |
            DxgiFormat::BC7_Typeless |
            DxgiFormat::BC7_UNorm |
            DxgiFormat::BC7_UNorm_sRGB
                => Some(16),

            _ => None,
        }
    }

    fn get_fourcc(&self) -> (r: Option<FourCC>) {
        match *self {
            DxgiFormat::BC1_UNorm => Some(FourCC(FourCC::BC1_UNORM)),
            DxgiFormat::BC2_UNorm => Some(FourCC(FourCC::BC2_UNORM)),
            DxgiFormat::BC3_UNorm => Some(FourCC(FourCC::BC3_UNORM)),
            DxgiFormat::BC4_UNorm => Some(FourCC(FourCC::BC4_UNORM)),
            DxgiFormat::BC4_SNorm => Some(FourCC(FourCC::BC4_SNORM)),
            DxgiFormat::BC5_UNorm => Some(FourCC(FourCC::BC5_UNORM)),
            DxgiFormat::BC5_SNorm  => Some(FourCC(FourCC::BC5_SNORM)),
            DxgiFormat::R8G8_B8G8_UNorm => Some(FourCC(FourCC::R8G8_B8G8_UNORM)),
            DxgiFormat::G8R8_G8B8_UNorm => Some(FourCC(FourCC::G8R8_G8B8_UNORM)),
            DxgiFormat::R16G16B16A16_UNorm => Some(FourCC(FourCC::R16G16B16A16_UNORM)),
            DxgiFormat::R16G16B16A16_SNorm => Some(FourCC(FourCC::R16G16B16A16_SNORM)),
            DxgiFormat::R16_Float => Some(FourCC(FourCC::R16_FLOAT)),
            DxgiFormat::R16G16_Float => Some(FourCC(FourCC::R16G16_FLOAT)),
            DxgiFormat::R16G16B16A16_Float => Some(FourCC(FourCC::R16G16B16A16_FLOAT)),
            DxgiFormat::R32_Float => Some(FourCC(FourCC::R32_FLOAT)),
            DxgiFormat::R32G32_Float => Some(FourCC(FourCC::R32G32_FLOAT)),
            DxgiFormat::R32G32B32A32_Float => Some(FourCC(FourCC::R32G32B32A32_FLOAT)),
            _ => None
        }
    }

    fn requires_extension(&self) -> (r: bool) {
        match *self {
            // Too big, and many are also not maskable types
            DxgiFormat::R32G32B32A32_Typeless |
            DxgiFormat::R32G32B32A32_Float |
            DxgiFormat::R32G32B32A32_UInt |
            DxgiFormat::R32G32B32A32_SInt |
            DxgiFormat::R32G32B32_Typeless |
            DxgiFormat::R32G32B32_Float |
            DxgiFormat::R32G32B32_UInt |
            DxgiFormat::R32G32B32_SInt |
            DxgiFormat::R16G16B16A16_Typeless |
            DxgiFormat::R16G16B16A16_Float |
            DxgiFormat::R16G16B16A16_UNorm |
            DxgiFormat::R16G16B16A16_UInt |
            DxgiFormat::R16G16B16A16_SNorm |
            DxgiFormat::R16G16B16A16_SInt |
            DxgiFormat::R32G32_Typeless |
            DxgiFormat::R32G32_Float |
            DxgiFormat::R32G32_UInt |
            DxgiFormat::R32G32_SInt |
            DxgiFormat::R32G8X24_Typeless |
            DxgiFormat::D32_Float_S8X24_UInt |
            DxgiFormat::R32_Float_X8X24_Typeless |
            DxgiFormat::X32_Typeless_G8X24_UInt
                => true,

            // Not maskable types
            DxgiFormat::R10G10B10A2_Typeless |
            DxgiFormat::R11G11B10_Float |
            DxgiFormat::R8G8B8A8_Typeless |
            DxgiFormat::R8G8B8A8_UNorm_sRGB |
            DxgiFormat::R16G16_Typeless |
            DxgiFormat::R16G16_Float |
            DxgiFormat::R32_Typeless |
            DxgiFormat::D32_Float |
            DxgiFormat::R32_Float |
            DxgiFormat::R24G8_Typeless |
            DxgiFormat::R24_UNorm_X8_Typeless
                => true,

            // Not maskable types
            DxgiFormat::R8G8_Typeless |
            DxgiFormat::R16_Typeless |
            DxgiFormat::R16_Float
                => true,

            // Not maskable types
            DxgiFormat::R8_Typeless => true,

            // Not maskable types
            DxgiFormat::R9G9B9E5_SharedExp => true,

            // Not maskable types
            DxgiFormat::R10G10B10_XR_Bias_A2_UNorm |
            DxgiFormat::B8G8R8A8_Typeless |
            DxgiFormat::B8G8R8A8_UNorm_sRGB |
            DxgiFormat::B8G8R8X8_Typeless |
            DxgiFormat::B8G8R8X8_UNorm_sRGB
                => true,

            // Channels are not actual rgb
            DxgiFormat::AYUV |
            DxgiFormat::Y410 |
            DxgiFormat::Y416 |
            DxgiFormat::NV12 |
            DxgiFormat::P010 |
            DxgiFormat::P016 |
            DxgiFormat::Format_420_Opaque |
            DxgiFormat::YUY2 |
            DxgiFormat::Y210 |
            DxgiFormat::Y216 |
            DxgiFormat::NV11 |
            DxgiFormat::AI44 |
            DxgiFormat::IA44 |
            DxgiFormat::P8 |
            DxgiFormat::A8P8 |
            DxgiFormat::P208 |
            DxgiFormat::V208 |
            DxgiFormat::V408
                => true,

            // Typeless, sRGB, float or single-bit layouts that masks cannot express
            DxgiFormat::X24_Typeless_G8_UInt |
            DxgiFormat::R1_UNorm |
            DxgiFormat::BC1_Typeless |
            DxgiFormat::BC1_UNorm_sRGB |
            DxgiFormat::BC2_Typeless |
            DxgiFormat::BC2_UNorm_sRGB |
            DxgiFormat::BC3_Typeless |
            DxgiFormat::BC3_UNorm_sRGB |
            DxgiFormat::BC4_Typeless |
            DxgiFormat::BC5_Typeless |
            DxgiFormat::BC6H_Typeless |
            DxgiFormat::BC6H_UF16 |
            DxgiFormat::BC6H_SF16 |
            DxgiFormat::BC7_Typeless |
            DxgiFormat::BC7_UNorm_sRGB
                => true,

            _ => false
        }
    }

}

impl DxgiFormat {
    /// The number that stands for this format in a file.
    pub fn to_u32(&self) -> (r: u32)
        ensures
            r == dxgi_code(*self),
    {
        match *self {
            DxgiFormat::Unknown => 0,
            DxgiFormat::R32G32B32A32_Typeless => 1,
            DxgiFormat::R32G32B32A32_Float => 2,
            DxgiFormat::R32G32B32A32_UInt => 3,
            DxgiFormat::R32G32B32A32_SInt => 4,
            DxgiFormat::R32G32B32_Typeless => 5,
            DxgiFormat::R32G32B32_Float => 6,
            DxgiFormat::R32G32B32_UInt => 7,
            DxgiFormat::R32G32B32_SInt => 8,
            DxgiFormat::R16G16B16A16_Typeless => 9,
            DxgiFormat::R16G16B16A16_Float => 10,
            DxgiFormat::R16G16B16A16_UNorm => 11,
            DxgiFormat::R16G16B16A16_UInt => 12,
            DxgiFormat::R16G16B16A16_SNorm => 13,
            DxgiFormat::R16G16B16A16_SInt => 14,
            DxgiFormat::R32G32_Typeless => 15,
            DxgiFormat::R32G32_Float => 16,
            DxgiFormat::R32G32_UInt => 17,
            DxgiFormat::R32G32_SInt => 18,
            DxgiFormat::R32G8X24_Typeless => 19,
            DxgiFormat::D32_Float_S8X24_UInt => 20,
            DxgiFormat::R32_Float_X8X24_Typeless => 21,
            DxgiFormat::X32_Typeless_G8X24_UInt => 22,
            DxgiFormat::R10G10B10A2_Typeless => 23,
            DxgiFormat::R10G10B10A2_UNorm => 24,
            DxgiFormat::R10G10B10A2_UInt => 25,
            DxgiFormat::R11G11B10_Float => 26,
            DxgiFormat::R8G8B8A8_Typeless => 27,
            DxgiFormat::R8G8B8A8_UNorm => 28,
            DxgiFormat::R8G8B8A8_UNorm_sRGB => 29,
            DxgiFormat::R8G8B8A8_UInt => 30,
            DxgiFormat::R8G8B8A8_SNorm => 31,
            DxgiFormat::R8G8B8A8_SInt => 32,
            DxgiFormat::R16G16_Typeless => 33,
            DxgiFormat::R16G16_Float => 34,
            DxgiFormat::R16G16_UNorm => 35,
            DxgiFormat::R16G16_UInt => 36,
            DxgiFormat::R16G16_SNorm => 37,
            DxgiFormat::R16G16_SInt => 38,
            DxgiFormat::R32_Typeless => 39,
            DxgiFormat::D32_Float => 40,
            DxgiFormat::R32_Float => 41,
            DxgiFormat::R32_UInt => 42,
            DxgiFormat::R32_SInt => 43,
            DxgiFormat::R24G8_Typeless => 44,
            DxgiFormat::D24_UNorm_S8_UInt => 45,
            DxgiFormat::R24_UNorm_X8_Typeless => 46,
            DxgiFormat::X24_Typeless_G8_UInt => 47,
            DxgiFormat::R8G8_Typeless => 48,
            DxgiFormat::R8G8_UNorm => 49,
            DxgiFormat::R8G8_UInt => 50,
            DxgiFormat::R8G8_SNorm => 51,
            DxgiFormat::R8G8_SInt => 52,
            DxgiFormat::R16_Typeless => 53,
            DxgiFormat::R16_Float => 54,
            DxgiFormat::D16_UNorm => 55,
            DxgiFormat::R16_UNorm => 56,
            DxgiFormat::R16_UInt => 57,
            DxgiFormat::R16_SNorm => 58,
            DxgiFormat::R16_SInt => 59,
            DxgiFormat::R8_Typeless => 60,
            DxgiFormat::R8_UNorm => 61,
            DxgiFormat::R8_UInt => 62,
            DxgiFormat::R8_SNorm => 63,
            DxgiFormat::R8_SInt => 64,
            DxgiFormat::A8_UNorm => 65,
            DxgiFormat::R1_UNorm => 66,
            DxgiFormat::R9G9B9E5_SharedExp => 67,
            DxgiFormat::R8G8_B8G8_UNorm => 68,
            DxgiFormat::G8R8_G8B8_UNorm => 69,
            DxgiFormat::BC1_Typeless => 70,
            DxgiFormat::BC1_UNorm => 71,
            DxgiFormat::BC1_UNorm_sRGB => 72,
            DxgiFormat::BC2_Typeless => 73,
            DxgiFormat::BC2_UNorm => 74,
            DxgiFormat::BC2_UNorm_sRGB => 75,
            DxgiFormat::BC3_Typeless => 76,
            DxgiFormat::BC3_UNorm => 77,
            DxgiFormat::BC3_UNorm_sRGB => 78,
            DxgiFormat::BC4_Typeless => 79,
            DxgiFormat::BC4_UNorm => 80,
            DxgiFormat::BC4_SNorm => 81,
            DxgiFormat::BC5_Typeless => 82,
            DxgiFormat::BC5_UNorm => 83,
            DxgiFormat::BC5_SNorm => 84,
            DxgiFormat::B5G6R5_UNorm => 85,
            DxgiFormat::B5G5R5A1_UNorm => 86,
            DxgiFormat::B8G8R8A8_UNorm => 87,
            DxgiFormat::B8G8R8X8_UNorm => 88,
            DxgiFormat::R10G10B10_XR_Bias_A2_UNorm => 89,
            DxgiFormat::B8G8R8A8_Typeless => 90,
            DxgiFormat::B8G8R8A8_UNorm_sRGB => 91,
            DxgiFormat::B8G8R8X8_Typeless => 92,
            DxgiFormat::B8G8R8X8_UNorm_sRGB => 93,
            DxgiFormat::BC6H_Typeless => 94,
            DxgiFormat::BC6H_UF16 => 95,
            DxgiFormat::BC6H_SF16 => 96,
            DxgiFormat::BC7_Typeless => 97,
            DxgiFormat::BC7_UNorm => 98,
            DxgiFormat::BC7_UNorm_sRGB => 99,
            DxgiFormat::AYUV => 100,
            DxgiFormat::Y410 => 101,
            DxgiFormat::Y416 => 102,
            DxgiFormat::NV12 => 103,
            DxgiFormat::P010 => 104,
            DxgiFormat::P016 => 105,
            DxgiFormat::Format_420_Opaque => 106,
            DxgiFormat::YUY2 => 107,
            DxgiFormat::Y210 => 108,
            DxgiFormat::Y216 => 109,
            DxgiFormat::NV11 => 110,
            DxgiFormat::AI44 => 111,
            DxgiFormat::IA44 => 112,
            DxgiFormat::P8 => 113,
            DxgiFormat::A8P8 => 114,
            DxgiFormat::B4G4R4A4_UNorm => 115,
            DxgiFormat::P208 => 130,
            DxgiFormat::V208 => 131,
            DxgiFormat::V408 => 132,
            DxgiFormat::Force_UInt => 0xffff_ffff,
        }
    }

    /// The format that `n` stands for, if any.
    pub fn from_u32(n: u32) -> (r: Option<DxgiFormat>)
        ensures
            r == dxgi_from_code(n),
    {
        match n {
            0 => Some(DxgiFormat::Unknown),
            1 => Some(DxgiFormat::R32G32B32A32_Typeless),
            2 => Some(DxgiFormat::R32G32B32A32_Float),
            3 => Some(DxgiFormat::R32G32B32A32_UInt),
            4 => Some(DxgiFormat::R32G32B32A32_SInt),
            5 => Some(DxgiFormat::R32G32B32_Typeless),
            6 => Some(DxgiFormat::R32G32B32_Float),
            7 => Some(DxgiFormat::R32G32B32_UInt),
            8 => Some(DxgiFormat::R32G32B32_SInt),
            9 => Some(DxgiFormat::R16G16B16A16_Typeless),
            10 => Some(DxgiFormat::R16G16B16A16_Float),
            11 => Some(DxgiFormat::R16G16B16A16_UNorm),
            12 => Some(DxgiFormat::R16G16B16A16_UInt),
            13 => Some(DxgiFormat::R16G16B16A16_SNorm),
            14 => Some(DxgiFormat::R16G16B16A16_SInt),
            15 => Some(DxgiFormat::R32G32_Typeless),
            16 => Some(DxgiFormat::R32G32_Float),
            17 => Some(DxgiFormat::R32G32_UInt),
            18 => Some(DxgiFormat::R32G32_SInt),
            19 => Some(DxgiFormat::R32G8X24_Typeless),
            20 => Some(DxgiFormat::D32_Float_S8X24_UInt),
            21 => Some(DxgiFormat::R32_Float_X8X24_Typeless),
            22 => Some(DxgiFormat::X32_Typeless_G8X24_UInt),
            23 => Some(DxgiFormat::R10G10B10A2_Typeless),
            24 => Some(DxgiFormat::R10G10B10A2_UNorm),
            25 => Some(DxgiFormat::R10G10B10A2_UInt),
            26 => Some(DxgiFormat::R11G11B10_Float),
            27 => Some(DxgiFormat::R8G8B8A8_Typeless),
            28 => Some(DxgiFormat::R8G8B8A8_UNorm),
            29 => Some(DxgiFormat::R8G8B8A8_UNorm_sRGB),
            30 => Some(DxgiFormat::R8G8B8A8_UInt),
            31 => Some(DxgiFormat::R8G8B8A8_SNorm),
            32 => Some(DxgiFormat::R8G8B8A8_SInt),
            33 => Some(DxgiFormat::R16G16_Typeless),
            34 => Some(DxgiFormat::R16G16_Float),
            35 => Some(DxgiFormat::R16G16_UNorm),
            36 => Some(DxgiFormat::R16G16_UInt),
            37 => Some(DxgiFormat::R16G16_SNorm),
            38 => Some(DxgiFormat::R16G16_SInt),
            39 => Some(DxgiFormat::R32_Typeless),
            40 => Some(DxgiFormat::D32_Float),
            41 => Some(DxgiFormat::R32_Float),
            42 => Some(DxgiFormat::R32_UInt),
            43 => Some(DxgiFormat::R32_SInt),
            44 => Some(DxgiFormat::R24G8_Typeless),
            45 => Some(DxgiFormat::D24_UNorm_S8_UInt),
            46 => Some(DxgiFormat::R24_UNorm_X8_Typeless),
            47 => Some(DxgiFormat::X24_Typeless_G8_UInt),
            48 => Some(DxgiFormat::R8G8_Typeless),
            49 => Some(DxgiFormat::R8G8_UNorm),
            50 => Some(DxgiFormat::R8G8_UInt),
            51 => Some(DxgiFormat::R8G8_SNorm),
            52 => Some(DxgiFormat::R8G8_SInt),
            53 => Some(DxgiFormat::R16_Typeless),
            54 => Some(DxgiFormat::R16_Float),
            55 => Some(DxgiFormat::D16_UNorm),
            56 => Some(DxgiFormat::R16_UNorm),
            57 => Some(DxgiFormat::R16_UInt),
            58 => Some(DxgiFormat::R16_SNorm),
            59 => Some(DxgiFormat::R16_SInt),
            60 => Some(DxgiFormat::R8_Typeless),
            61 => Some(DxgiFormat::R8_UNorm),
            62 => Some(DxgiFormat::R8_UInt),
            63 => Some(DxgiFormat::R8_SNorm),
            64 => Some(DxgiFormat::R8_SInt),
            65 => Some(DxgiFormat::A8_UNorm),
            66 => Some(DxgiFormat::R1_UNorm),
            67 => Some(DxgiFormat::R9G9B9E5_SharedExp),
            68 => Some(DxgiFormat::R8G8_B8G8_UNorm),
            69 => Some(DxgiFormat::G8R8_G8B8_UNorm),
            70 => Some(DxgiFormat::BC1_Typeless),
            71 => Some(DxgiFormat::BC1_UNorm),
            72 => Some(DxgiFormat::BC1_UNorm_sRGB),
            73 => Some(DxgiFormat::BC2_Typeless),
            74 => Some(DxgiFormat::BC2_UNorm),
            75 => Some(DxgiFormat::BC2_UNorm_sRGB),
            76 => Some(DxgiFormat::BC3_Typeless),
            77 => Some(DxgiFormat::BC3_UNorm),
            78 => Some(DxgiFormat::BC3_UNorm_sRGB),
            79 => Some(DxgiFormat::BC4_Typeless),
            80 => Some(DxgiFormat::BC4_UNorm),
            81 => Some(DxgiFormat::BC4_SNorm),
            82 => Some(DxgiFormat::BC5_Typeless),
            83 => Some(DxgiFormat::BC5_UNorm),
            84 => Some(DxgiFormat::BC5_SNorm),
            85 => Some(DxgiFormat::B5G6R5_UNorm),
            86 => Some(DxgiFormat::B5G5R5A1_UNorm),
            87 => Some(DxgiFormat::B8G8R8A8_UNorm),
            88 => Some(DxgiFormat::B8G8R8X8_UNorm),
            89 => Some(DxgiFormat::R10G10B10_XR_Bias_A2_UNorm),
            90 => Some(DxgiFormat::B8G8R8A8_Typeless),
            91 => Some(DxgiFormat::B8G8R8A8_UNorm_sRGB),
            92 => Some(DxgiFormat::B8G8R8X8_Typeless),
            93 => Some(DxgiFormat::B8G8R8X8_UNorm_sRGB),
            94 => Some(DxgiFormat::BC6H_Typeless),
            95 => Some(DxgiFormat::BC6H_UF16),
            96 => Some(DxgiFormat::BC6H_SF16),
            97 => Some(DxgiFormat::BC7_Typeless),
            98 => Some(DxgiFormat::BC7_UNorm),
            99 => Some(DxgiFormat::BC7_UNorm_sRGB),
            100 => Some(DxgiFormat::AYUV),
            101 => Some(DxgiFormat::Y410),
            102 => Some(DxgiFormat::Y416),
            103 => Some(DxgiFormat::NV12),
            104 => Some(DxgiFormat::P010),
            105 => Some(DxgiFormat::P016),
            106 => Some(DxgiFormat::Format_420_Opaque),
            107 => Some(DxgiFormat::YUY2),
            108 => Some(DxgiFormat::Y210),
            109 => Some(DxgiFormat::Y216),
            110 => Some(DxgiFormat::NV11),
            111 => Some(DxgiFormat::AI44),
            112 => Some(DxgiFormat::IA44),
            113 => Some(DxgiFormat::P8),
            114 => Some(DxgiFormat::A8P8),
            115 => Some(DxgiFormat::B4G4R4A4_UNorm),
            130 => Some(DxgiFormat::P208),
            131 => Some(DxgiFormat::V208),
            132 => Some(DxgiFormat::V408),
            0xffff_ffff => Some(DxgiFormat::Force_UInt),
            _ => None,
        }
    }

    /// Recognises the extended format that a descriptor names through a legacy
    /// four-character code. A descriptor without a code, or with the code that announces
    /// the extended header, names none.
    pub fn try_from_pixel_format(pixel_format: &PixelFormat) -> (r: Option<DxgiFormat>)
        ensures
            r == dxgi_from_pixel_format(*pixel_format),
    {
        if let Some(fourcc) = pixel_format.fourcc {
            let code = fourcc.0;
            if code == FourCC::BC1_UNORM {
                Some(DxgiFormat::BC1_UNorm)
            } else if code == FourCC::BC2_UNORM {
                Some(DxgiFormat::BC2_UNorm)
            } else if code == FourCC::BC3_UNORM {
                Some(DxgiFormat::BC3_UNorm)
            } else if code == FourCC::BC4_UNORM {
                Some(DxgiFormat::BC4_UNorm)
            } else if code == FourCC::BC4_SNORM {
                Some(DxgiFormat::BC4_SNorm)
            } else if code == FourCC::BC5_UNORM {
                Some(DxgiFormat::BC5_UNorm)
            } else if code == FourCC::BC5_SNORM {
                Some(DxgiFormat::BC5_SNorm)
            } else if code == FourCC::R8G8_B8G8_UNORM {
                Some(DxgiFormat::R8G8_B8G8_UNorm)
            } else if code == FourCC::G8R8_G8B8_UNORM {
                Some(DxgiFormat::G8R8_G8B8_UNorm)
            } else if code == FourCC::R16G16B16A16_UNORM {
                Some(DxgiFormat::R16G16B16A16_UNorm)
            } else if code == FourCC::R16G16B16A16_SNORM {
                Some(DxgiFormat::R16G16B16A16_SNorm)
            } else if code == FourCC::R16_FLOAT {
                Some(DxgiFormat::R16_Float)
            } else if code == FourCC::R16G16_FLOAT {
                Some(DxgiFormat::R16G16_Float)
            } else if code == FourCC::R16G16B16A16_FLOAT {
                Some(DxgiFormat::R16G16B16A16_Float)
            } else if code == FourCC::R32_FLOAT {
                Some(DxgiFormat::R32_Float)
            } else if code == FourCC::R32G32_FLOAT {
                Some(DxgiFormat::R32G32_Float)
            } else if code == FourCC::R32G32B32A32_FLOAT {
                Some(DxgiFormat::R32G32B32A32_Float)
            } else {
                None
            }
        } else {
            None
        }
    }
}

} // verus!
