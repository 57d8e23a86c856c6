//! The pixel format descriptor embedded in the primary header.
use vstd::prelude::*;
use crate::error::{Error, ErrorKind, fails_with};
use crate::d3d::{D3DFormat, d3d_bits_per_pixel, d3d_fourcc, d3d_r_mask, d3d_g_mask, d3d_b_mask, d3d_a_mask};
use crate::dxgi::{DxgiFormat, dxgi_bits_per_pixel};
use crate::format::DataFormat;
use crate::wire::{push_words, read_word, word_at, words_to_bytes, lemma_word_at_words};

verus! {

/// A four-character code, stored as the little-endian value of its four bytes.
#[derive(Clone, Copy, Debug, PartialEq, Eq, Structural)]
pub struct FourCC(pub u32);

impl FourCC {
    pub const NONE: u32 = 0;
    pub const DXT1: u32 = 0x31545844;
    pub const DXT2: u32 = 0x32545844;
    pub const DXT3: u32 = 0x33545844;
    pub const DXT4: u32 = 0x34545844;
    pub const DXT5: u32 = 0x35545844;
    pub const R8G8_B8G8: u32 = 0x47424752;
    pub const G8R8_G8B8: u32 = 0x42475247;
    pub const A16B16G16R16: u32 = 36;
    pub const Q16W16V16U16: u32 = 110;
    pub const R16F: u32 = 111;
    pub const G16R16F: u32 = 112;
    pub const A16B16G16R16F: u32 = 113;
    pub const R32F: u32 = 114;
    pub const G32R32F: u32 = 115;
    pub const A32B32G32R32F: u32 = 116;
    pub const UYVY: u32 = 0x59565955;
    pub const YUY2: u32 = 0x32595559;
    pub const CXV8U8: u32 = 117;
    /// Announces the extended header.
    pub const DX10: u32 = 0x30315844;
    pub const BC1_UNORM: u32 = 0x31545844;
    pub const BC2_UNORM: u32 = 0x33545844;
    pub const BC3_UNORM: u32 = 0x35545844;
    pub const BC4_UNORM: u32 = 0x55344342;
    pub const BC4_SNORM: u32 = 0x53344342;
    pub const BC5_UNORM: u32 = 0x32495441;
    pub const BC5_SNORM: u32 = 0x53354342;
    pub const R8G8_B8G8_UNORM: u32 = 0x47424752;
    pub const G8R8_G8B8_UNORM: u32 = 0x42475247;
    pub const R16G16B16A16_UNORM: u32 = 36;
    pub const R16G16B16A16_SNORM: u32 = 110;
    pub const R16_FLOAT: u32 = 111;
    pub const R16G16_FLOAT: u32 = 112;
    pub const R16G16B16A16_FLOAT: u32 = 113;
    pub const R32_FLOAT: u32 = 114;
    pub const R32G32_FLOAT: u32 = 115;
    pub const R32G32B32A32_FLOAT: u32 = 116;
}

/// The set of flags that say what kind of data a descriptor describes.
#[derive(Clone, Copy, Debug, PartialEq, Eq, Structural)]
pub struct PixelFormatFlags {
    pub bits: u32,
}

impl PixelFormatFlags {
    /// Texture contains alpha data.
    pub const ALPHA_PIXELS: u32 = 0x1;
    /// Alpha channel only uncompressed data (used in older DDS files).
    pub const ALPHA: u32 = 0x2;
    /// Texture contains compressed RGB data.
    pub const FOURCC: u32 = 0x4;
    /// Texture contains uncompressed RGB data.
    pub const RGB: u32 = 0x40;
    /// YUV uncompressed data (used in older DDS files).
    pub const YUV: u32 = 0x200;
    /// Single channel color uncompressed data (used in older DDS files).
    pub const LUMINANCE: u32 = 0x20000;
    /// Every flag that has a meaning.
    pub const ALL: u32 = 0x20247;

    /// Whether every flag of `flag` is in the set.
    pub open spec fn has(&self, flag: u32) -> bool {
        self.bits & flag == flag
    }

    /// The set holds no bit without a meaning.
    pub open spec fn wf(&self) -> bool {
        self.bits & !Self::ALL == 0
    }

    pub fn empty() -> (r: Self)
        ensures
            r.bits == 0,
    {
        PixelFormatFlags { bits: 0 }
    }

    /// The flags among `bits` that have a meaning; the others are dropped.
    pub fn from_bits_truncate(bits: u32) -> (r: Self)
        ensures
            r.bits == bits & Self::ALL,
            r.wf(),
    {
        let r = PixelFormatFlags { bits: bits & Self::ALL };
        assert(bits & 0x20247 & !0x20247u32 == 0) by (bit_vector);
        r
    }

    pub fn bits(&self) -> (r: u32)
        ensures
            r == self.bits,
    {
        self.bits
    }

    pub fn contains(&self, flag: u32) -> (r: bool)
        ensures
            r == self.has(flag),
    {
        self.bits & flag == flag
    }

    /// Adds the flags of `flag` that have a meaning.
    pub fn insert(&mut self, flag: u32)
        ensures
            final(self).bits == old(self).bits | (flag & Self::ALL),
    {
        self.bits = self.bits | (flag & Self::ALL);
    }
}

/// Describes how the pixels of the surface are stored.
#[derive(Clone, Debug)]
pub struct PixelFormat {
    /// Size of this structure in bytes; set to 32.
    pub size: u32,
    /// Values which indicate what type of data is in the surface.
    pub flags: PixelFormatFlags,
    /// Codes for specifying compressed or custom formats.
    pub fourcc: Option<FourCC>,
    /// Number of bits in an RGB (possibly including alpha) format. Valid when flags includes
    /// RGB or LUMINANCE.
    pub rgb_bit_count: Option<u32>,
    /// Red (or Y) mask for reading color data. For instance, given the A8R8G8B8 format, the
    /// red mask would be 0x00ff0000.
    pub r_bit_mask: Option<u32>,
    /// Green (or U) mask for reading color data. For instance, given the A8R8G8B8 format, the
    /// green mask would be 0x0000ff00.
    pub g_bit_mask: Option<u32>,
    /// Blue (or V) mask for reading color data. For instance, given the A8R8G8B8 format, the
    /// blue mask would be 0x000000ff.
    pub b_bit_mask: Option<u32>,
    /// Alpha mask for reading alpha data. Valid if flags includes ALPHA_PIXELS or ALPHA. For
    /// instance, given the A8R8G8B8 format, the alpha mask would be 0xff000000.
    pub a_bit_mask: Option<u32>,
}

impl PixelFormat {
    /// Whether the descriptor holds any alpha flag.
    pub open spec fn has_alpha_flag(&self) -> bool {
        self.flags.has(PixelFormatFlags::ALPHA) || self.flags.has(PixelFormatFlags::ALPHA_PIXELS)
    }

    /// Whether the descriptor holds the RGB or the LUMINANCE flag.
    pub open spec fn has_color_flag(&self) -> bool {
        self.flags.has(PixelFormatFlags::RGB) || self.flags.has(PixelFormatFlags::LUMINANCE)
    }

    /// A descriptor as the file format defines it: its size tag is 32, its flags have a
    /// meaning, and each optional field is present exactly when its flag is set.
    pub open spec fn wf(&self) -> bool {
        &&& self.size == 32
        &&& self.flags.wf()
        &&& (self.fourcc is Some) == self.flags.has(PixelFormatFlags::FOURCC)
        &&& (self.rgb_bit_count is Some) == self.has_color_flag()
        &&& (self.r_bit_mask is Some) == self.has_color_flag()
        &&& (self.g_bit_mask is Some) == self.has_color_flag()
        &&& (self.b_bit_mask is Some) == self.has_color_flag()
        &&& (self.a_bit_mask is Some) == self.has_alpha_flag()
    }
}

/// `Some(v)` where `present` holds, else nothing.
pub open spec fn present_if(present: bool, v: u32) -> Option<u32> {
    if present { Some(v) } else { None }
}

/// The value of an optional word, zero where it is absent.
pub open spec fn or_zero(v: Option<u32>) -> u32 {
    match v {
        Some(x) => x,
        None => 0,
    }
}

/// The descriptor that the 32 bytes at the start of `b` hold: its flags keep only the bits
/// that have a meaning, and each optional field is read where its flag is set.
pub open spec fn pixel_format_of(b: Seq<u8>) -> PixelFormat {
    let flags = PixelFormatFlags { bits: word_at(b, 1) & PixelFormatFlags::ALL };
    let color = flags.has(PixelFormatFlags::RGB) || flags.has(PixelFormatFlags::LUMINANCE);
    let alpha = flags.has(PixelFormatFlags::ALPHA) || flags.has(PixelFormatFlags::ALPHA_PIXELS);
    PixelFormat {
        size: word_at(b, 0),
        flags,
        fourcc: if flags.has(PixelFormatFlags::FOURCC) { Some(FourCC(word_at(b, 2))) } else { None },
        rgb_bit_count: present_if(color, word_at(b, 3)),
        r_bit_mask: present_if(color, word_at(b, 4)),
        g_bit_mask: present_if(color, word_at(b, 5)),
        b_bit_mask: present_if(color, word_at(b, 6)),
        a_bit_mask: present_if(alpha, word_at(b, 7)),
    }
}

/// Why decoding a descriptor from the start of `b` fails, if it does: the input ends before
/// the size tag or before the whole structure, or the size tag is not 32.
pub open spec fn pixel_format_fault(b: Seq<u8>) -> Option<ErrorKind> {
    if b.len() < 4 {
        Some(ErrorKind::ShortFile)
    } else if word_at(b, 0) != 32 {
        Some(ErrorKind::InvalidField)
    } else if b.len() < 32 {
        Some(ErrorKind::ShortFile)
    } else {
        None
    }
}

/// The eight words a descriptor is written as; absent fields are written as zero.
pub open spec fn pixel_format_words(pf: PixelFormat) -> Seq<u32> {
    seq![
        pf.size,
        pf.flags.bits,
        match pf.fourcc {
            Some(c) => c.0,
            None => 0,
        },
        or_zero(pf.rgb_bit_count),
        or_zero(pf.r_bit_mask),
        or_zero(pf.g_bit_mask),
        or_zero(pf.b_bit_mask),
        or_zero(pf.a_bit_mask),
    ]
}

/// A well-formed descriptor, written and read back, is the same descriptor, whatever bytes
/// follow it.
pub proof fn lemma_pixel_format_round_trip(pf: PixelFormat, rest: Seq<u8>)
    requires
        pf.wf(),
    ensures
        pixel_format_of(words_to_bytes(pixel_format_words(pf)) + rest) == pf,
{
    let ws = pixel_format_words(pf);
    let b = words_to_bytes(ws) + rest;
    assert forall|i: int| 0 <= i < 8 implies word_at(b, i) == ws[i] by {
        lemma_word_at_words(ws, rest, i);
    }
    let bits = pf.flags.bits;
    assert(bits & !0x20247u32 == 0 ==> bits & 0x20247u32 == bits) by (bit_vector);
}

impl PixelFormat {
    /// Decodes a descriptor from the start of `bytes`.
    pub fn read(bytes: &[u8]) -> (r: Result<PixelFormat, Error>)
        ensures
            match pixel_format_fault(bytes@) {
                Some(k) => fails_with(r, k),
                None => r == Ok::<PixelFormat, Error>(pixel_format_of(bytes@)),
            },
    {
        if bytes.len() < 4 {
            return Err(Error::ShortFile);
        }
        let size = read_word(bytes, 0);
        if size != 32 {
            return Err(Error::InvalidField("Pixel format struct size".to_owned()));
        }
        if bytes.len() < 32 {
            return Err(Error::ShortFile);
        }
        let flags = PixelFormatFlags::from_bits_truncate(read_word(bytes, 1));
        let fourcc = read_word(bytes, 2);
        let rgb_bit_count = read_word(bytes, 3);
        let r_bit_mask = read_word(bytes, 4);
        let g_bit_mask = read_word(bytes, 5);
        let b_bit_mask = read_word(bytes, 6);
        let a_bit_mask = read_word(bytes, 7);
        let color = flags.contains(PixelFormatFlags::RGB) || flags.contains(PixelFormatFlags::LUMINANCE);
        let alpha = flags.contains(PixelFormatFlags::ALPHA) || flags.contains(PixelFormatFlags::ALPHA_PIXELS);
        Ok(PixelFormat {
            size,
            flags,
            fourcc: if flags.contains(PixelFormatFlags::FOURCC) { Some(FourCC(fourcc)) } else { None },
            rgb_bit_count: if color { Some(rgb_bit_count) } else { None },
            r_bit_mask: if color { Some(r_bit_mask) } else { None },
            g_bit_mask: if color { Some(g_bit_mask) } else { None },
            b_bit_mask: if color { Some(b_bit_mask) } else { None },
            a_bit_mask: if alpha { Some(a_bit_mask) } else { None },
        })
    }

    /// Appends the descriptor's eight words to `ws`.
    pub fn push_words_to(&self, ws: &mut Vec<u32>)
        ensures
            final(ws)@ == old(ws)@ + pixel_format_words(*self),
    {
        ws.push(self.size);
        ws.push(self.flags.bits());
        ws.push(match self.fourcc {
            Some(c) => c.0,
            None => 0,
        });
        ws.push(self.rgb_bit_count.unwrap_or(0));
        ws.push(self.r_bit_mask.unwrap_or(0));
        ws.push(self.g_bit_mask.unwrap_or(0));
        ws.push(self.b_bit_mask.unwrap_or(0));
        ws.push(self.a_bit_mask.unwrap_or(0));
        assert(ws@ =~= old(ws)@ + pixel_format_words(*self));
    }

    /// Writes the descriptor's 32 bytes to `w`.
    pub fn write(&self, w: &mut Vec<u8>)
        ensures
            final(w)@ == old(w)@ + words_to_bytes(pixel_format_words(*self)),
    {
        let mut ws: Vec<u32> = Vec::new();
        self.push_words_to(&mut ws);
        push_words(w, ws.as_slice());
    }
}

/// The flag bit `flag` where `on` holds, else no bit.
pub open spec fn bit_if(on: bool, flag: u32) -> u32 {
    if on { flag } else { 0 }
}

/// The descriptor written for a legacy format. A format with a bit depth is described by
/// the RGB flag, its bit count and its masks (zero where the format has none); one without
/// is described by its four-character code, if any; an alpha mask comes with ALPHA_PIXELS.
pub open spec fn pixel_format_from_d3d(f: D3DFormat) -> PixelFormat {
    let color = d3d_bits_per_pixel(f) is Some;
    let coded = !color && d3d_fourcc(f) is Some;
    let alpha = d3d_a_mask(f) is Some;
    PixelFormat {
        size: 32,
        flags: PixelFormatFlags {
            bits: bit_if(color, PixelFormatFlags::RGB) | bit_if(coded, PixelFormatFlags::FOURCC)
                | bit_if(alpha, PixelFormatFlags::ALPHA_PIXELS),
        },
        fourcc: if coded { d3d_fourcc(f) } else { None },
        rgb_bit_count: if color { Some(d3d_bits_per_pixel(f)->0 as u32) } else { None },
        r_bit_mask: if color { Some(or_zero(d3d_r_mask(f))) } else { None },
        g_bit_mask: if color { Some(or_zero(d3d_g_mask(f))) } else { None },
        b_bit_mask: if color { Some(or_zero(d3d_b_mask(f))) } else { None },
        a_bit_mask: d3d_a_mask(f),
    }
}

/// The descriptor written for an extended format: the code that announces the extended
/// header, and the RGB flag with the bit count (masks zero) where the format has a bit depth.
pub open spec fn pixel_format_from_dxgi(f: DxgiFormat) -> PixelFormat {
    let color = dxgi_bits_per_pixel(f) is Some;
    PixelFormat {
        size: 32,
        flags: PixelFormatFlags {
            bits: bit_if(color, PixelFormatFlags::RGB) | PixelFormatFlags::FOURCC,
        },
        fourcc: Some(FourCC(FourCC::DX10)),
        rgb_bit_count: if color { Some(dxgi_bits_per_pixel(f)->0 as u32) } else { None },
        r_bit_mask: if color { Some(0) } else { None },
        g_bit_mask: if color { Some(0) } else { None },
        b_bit_mask: if color { Some(0) } else { None },
        a_bit_mask: None,
    }
}

/// The descriptors built for either kind of format are well formed.
pub proof fn lemma_pixel_format_from_wf(f: D3DFormat, g: DxgiFormat)
    ensures
        pixel_format_from_d3d(f).wf(),
        pixel_format_from_dxgi(g).wf(),
{
    let pf = pixel_format_from_d3d(f);
    let c = d3d_bits_per_pixel(f) is Some;
    let k = !c && d3d_fourcc(f) is Some;
    let a = d3d_a_mask(f) is Some;
    let x = bit_if(c, 0x40);
    let y = bit_if(k, 0x4);
    let z = bit_if(a, 0x1);
    assert((x == 0 || x == 0x40) && (y == 0 || y == 0x4) && (z == 0 || z == 0x1) ==> {
        let v = x | y | z;
        &&& v & !0x20247u32 == 0
        &&& (v & 0x40 == 0x40) == (x == 0x40)
        &&& (v & 0x4 == 0x4) == (y == 0x4)
        &&& (v & 0x1 == 0x1) == (z == 0x1)
        &&& v & 0x2 != 0x2
        &&& v & 0x20000 != 0x20000
    }) by (bit_vector);
    let x2 = bit_if(dxgi_bits_per_pixel(g) is Some, 0x40);
    assert((x2 == 0 || x2 == 0x40) ==> {
        let v = x2 | 0x4;
        &&& v & !0x20247u32 == 0
        &&& (v & 0x40 == 0x40) == (x2 == 0x40)
        &&& v & 0x4 == 0x4
        &&& v & 0x1 != 0x1
        &&& v & 0x2 != 0x2
        &&& v & 0x20000 != 0x20000
    }) by (bit_vector);
}

impl PixelFormat {
    /// The empty descriptor: size 32, no flags, no field present.
    pub open spec fn default_spec() -> PixelFormat {
        PixelFormat {
            size: 32,
            flags: PixelFormatFlags { bits: 0 },
            fourcc: None,
            rgb_bit_count: None,
            r_bit_mask: None,
            g_bit_mask: None,
            b_bit_mask: None,
            a_bit_mask: None,
        }
    }
}

impl Default for PixelFormat {
    fn default() -> (r: PixelFormat)
        ensures
            r == PixelFormat::default_spec(),
    {
        PixelFormat {
            size: 32,
            flags: PixelFormatFlags::empty(),
            fourcc: None,
            rgb_bit_count: None,
            r_bit_mask: None,
            g_bit_mask: None,
            b_bit_mask: None,
            a_bit_mask: None,
        }
    }
}

impl From<D3DFormat> for PixelFormat {
    fn from(format: D3DFormat) -> (r: PixelFormat) {
        let bpp = format.get_bits_per_pixel();
        let fourcc = format.get_fourcc();
        let a_bit_mask = format.a_bit_mask();
        let color = bpp.is_some();
        let coded = !color && fourcc.is_some();
        let rgb_flag: u32 = if color { PixelFormatFlags::RGB } else { 0 };
        let fourcc_flag: u32 = if coded { PixelFormatFlags::FOURCC } else { 0 };
        let alpha_flag: u32 = if a_bit_mask.is_some() { PixelFormatFlags::ALPHA_PIXELS } else { 0 };
        PixelFormat {
            size: 32,
            flags: PixelFormatFlags { bits: rgb_flag | fourcc_flag | alpha_flag },
            fourcc: if coded { fourcc } else { None },
            rgb_bit_count: match bpp {
                Some(b) => Some(b as u32),
                None => None,
            },
            r_bit_mask: if color { Some(format.r_bit_mask().unwrap_or(0)) } else { None },
            g_bit_mask: if color { Some(format.g_bit_mask().unwrap_or(0)) } else { None },
            b_bit_mask: if color { Some(format.b_bit_mask().unwrap_or(0)) } else { None },
            a_bit_mask,
        }
    }
}

impl vstd::std_specs::convert::FromSpecImpl<D3DFormat> for PixelFormat {
    open spec fn obeys_from_spec() -> bool {
        true
    }

    open spec fn from_spec(v: D3DFormat) -> PixelFormat {
        pixel_format_from_d3d(v)
    }
}

impl From<DxgiFormat> for PixelFormat {
    fn from(format: DxgiFormat) -> (r: PixelFormat) {
        let bpp = format.get_bits_per_pixel();
        let color = bpp.is_some();
        let rgb_flag: u32 = if color { PixelFormatFlags::RGB } else { 0 };
        PixelFormat {
            size: 32,
            flags: PixelFormatFlags { bits: rgb_flag | PixelFormatFlags::FOURCC },
            fourcc: Some(FourCC(FourCC::DX10)),
            rgb_bit_count: match bpp {
                Some(b) => Some(b as u32),
                None => None,
            },
            r_bit_mask: if color { Some(0) } else { None },
            g_bit_mask: if color { Some(0) } else { None },
            b_bit_mask: if color { Some(0) } else { None },
            a_bit_mask: None,
        }
    }
}

impl vstd::std_specs::convert::FromSpecImpl<DxgiFormat> for PixelFormat {
    open spec fn obeys_from_spec() -> bool {
        true
    }

    open spec fn from_spec(v: DxgiFormat) -> PixelFormat {
        pixel_format_from_dxgi(v)
    }
}

} // verus!
