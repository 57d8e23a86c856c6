//! The primary header and its flag sets.
use vstd::prelude::*;
use vstd::slice::slice_subrange;
use crate::error::{Error, ErrorKind, fails_with};
use crate::format::{DataFormat, fit_u32, pitch_spec};
use crate::d3d::D3DFormat;
use crate::dxgi::DxgiFormat;
use crate::pixel_format::{pixel_format_from_d3d, pixel_format_from_dxgi, lemma_pixel_format_from_wf, PixelFormat, pixel_format_of, pixel_format_fault, pixel_format_words, present_if, or_zero, bit_if, lemma_pixel_format_round_trip};
use crate::wire::{push_words, read_word, word_at, words_to_bytes, lemma_word_at_words, lemma_words_to_bytes_len, lemma_words_to_bytes_append};

verus! {

/// The primary header, which follows the magic number.
#[derive(Clone, Debug)]
pub struct Header {
    /// Size of this structure in bytes; set to 124.
    pub size: u32,
    /// Flags indicating which members contain valid data. Writing derives the flags of the
    /// optional fields from which of them are present.
    pub flags: HeaderFlags,
    /// Surface height (in pixels).
    pub height: u32,
    /// Surface width (in pixels).
    pub width: u32,
    /// The pitch or number of bytes per scan line in an uncompressed texture.
    pub pitch: Option<u32>,
    /// The total number of bytes in a top level texture for a compressed texture.
    pub linear_size: Option<u32>,
    /// Depth of a volume texture (in pixels).
    pub depth: Option<u32>,
    /// Number of mipmap levels.
    pub mip_map_count: Option<u32>,
    /// Unused (reserved); written back as read.
    pub reserved1: [u32; 11],
    /// The pixel format.
    pub spf: PixelFormat,
    /// Specifies the complexity of the surfaces stored.
    pub caps: Caps,
    /// Additional detail about the surfaces stored.
    pub caps2: Caps2,
    /// Unused; written back as read.
    pub caps3: u32,
    /// Unused; written back as read.
    pub caps4: u32,
    /// Unused; written back as read.
    pub reserved2: u32,
}

/// The flag bits of the four optional fields.
pub const PRESENCE_FLAGS: u32 = 0x8A0008;

/// The value of an optional count, one where it is absent.
pub open spec fn or_one(v: Option<u32>) -> u32 {
    match v {
        Some(x) => x,
        None => 1,
    }
}

/// The number of data rows that `height` image rows take, `pitch_height` rows per data row.
pub open spec fn row_count(height: u32, pitch_height: u32) -> int
    recommends
        pitch_height > 0,
{
    (height + pitch_height - 1) / pitch_height as int
}

impl Header {
    /// The flags of the optional fields, derived from which of them are present. Only one of
    /// pitch and linear size is written; pitch wins.
    pub open spec fn presence_bits(&self) -> u32 {
        bit_if(self.pitch is Some, HeaderFlags::PITCH)
            | bit_if(self.pitch is None && self.linear_size is Some, HeaderFlags::LINEARSIZE)
            | bit_if(self.depth is Some, HeaderFlags::DEPTH)
            | bit_if(self.mip_map_count is Some, HeaderFlags::MIPMAPCOUNT)
    }

    /// The flags that writing stores.
    pub open spec fn written_flags(&self) -> u32 {
        (self.flags.bits & !PRESENCE_FLAGS) | self.presence_bits()
    }

    /// The word that holds the pitch, or else the linear size.
    pub open spec fn pitch_or_linear_size(&self) -> u32 {
        match self.pitch {
            Some(p) => p,
            None => or_zero(self.linear_size),
        }
    }

    /// A header as the file format defines it: its size tag is 124, its flag sets hold only
    /// flags with a meaning, its flags agree with its optional fields, at most one of pitch
    /// and linear size is present, and its pixel format descriptor is well formed.
    pub open spec fn wf(&self) -> bool {
        &&& self.size == 124
        &&& self.flags.wf()
        &&& self.flags.bits == self.written_flags()
        &&& !(self.pitch is Some && self.linear_size is Some)
        &&& self.spf.wf()
        &&& self.caps.wf()
        &&& self.caps2.wf()
    }
}

/// The 31 words a header is written as.
pub open spec fn header_words(h: Header) -> Seq<u32> {
    seq![
        h.size,
        h.written_flags(),
        h.height,
        h.width,
        h.pitch_or_linear_size(),
        or_zero(h.depth),
        or_zero(h.mip_map_count),
    ] + h.reserved1@ + pixel_format_words(h.spf) + seq![
        h.caps.bits,
        h.caps2.bits,
        h.caps3,
        h.caps4,
        h.reserved2,
    ]
}

/// The header that the 124 bytes at the start of `b` hold: flag sets keep only the bits
/// that have a meaning, and each optional field is read where its flag is set.
pub open spec fn header_of(b: Seq<u8>) -> Header {
    let flags = HeaderFlags { bits: word_at(b, 1) & HeaderFlags::ALL };
    let slot = word_at(b, 4);
    Header {
        size: word_at(b, 0),
        flags,
        height: word_at(b, 2),
        width: word_at(b, 3),
        pitch: present_if(flags.has(HeaderFlags::PITCH), slot),
        linear_size: present_if(flags.has(HeaderFlags::LINEARSIZE), slot),
        depth: present_if(flags.has(HeaderFlags::DEPTH), word_at(b, 5)),
        mip_map_count: present_if(flags.has(HeaderFlags::MIPMAPCOUNT), word_at(b, 6)),
        reserved1: [
            word_at(b, 7),
            word_at(b, 8),
            word_at(b, 9),
            word_at(b, 10),
            word_at(b, 11),
            word_at(b, 12),
            word_at(b, 13),
            word_at(b, 14),
            word_at(b, 15),
            word_at(b, 16),
            word_at(b, 17),
        ],
        spf: pixel_format_of(b.subrange(72, b.len() as int)),
        caps: Caps { bits: word_at(b, 26) & Caps::ALL },
        caps2: Caps2 { bits: word_at(b, 27) & Caps2::ALL },
        caps3: word_at(b, 28),
        caps4: word_at(b, 29),
        reserved2: word_at(b, 30),
    }
}

/// Why decoding a header from the start of `b` fails, if it does: the input ends too soon,
/// or the header's or the descriptor's size tag is wrong.
pub open spec fn header_fault(b: Seq<u8>) -> Option<ErrorKind> {
    if b.len() < 4 {
        Some(ErrorKind::ShortFile)
    } else if word_at(b, 0) != 124 {
        Some(ErrorKind::InvalidField)
    } else if b.len() < 72 {
        Some(ErrorKind::ShortFile)
    } else if pixel_format_fault(b.subrange(72, b.len() as int)) is Some {
        pixel_format_fault(b.subrange(72, b.len() as int))
    } else if b.len() < 124 {
        Some(ErrorKind::ShortFile)
    } else {
        None
    }
}

/// The bytes of a well-formed header read back as that header, whatever follows them.
#[verifier::spinoff_prover]
#[verifier::rlimit(40)]
pub proof fn lemma_header_round_trip(h: Header, rest: Seq<u8>)
    requires
        h.wf(),
    ensures
        header_fault(words_to_bytes(header_words(h)) + rest) is None,
        header_of(words_to_bytes(header_words(h)) + rest) == h,
{
    let ws = header_words(h);
    let b = words_to_bytes(ws) + rest;
    let head = ws.subrange(0, 18);
    let pfw = pixel_format_words(h.spf);
    let tail = ws.subrange(26, 31);
    assert(ws =~= head + pfw + tail);
    lemma_words_to_bytes_append(head + pfw, tail);
    lemma_words_to_bytes_append(head, pfw);
    lemma_words_to_bytes_len(head);
    lemma_words_to_bytes_len(ws);
    let pf_bytes = b.subrange(72, b.len() as int);
    assert(pf_bytes =~= words_to_bytes(pfw) + (words_to_bytes(tail) + rest));
    lemma_pixel_format_round_trip(h.spf, words_to_bytes(tail) + rest);
    assert(word_at(pf_bytes, 0) == 32) by {
        lemma_word_at_words(pfw, words_to_bytes(tail) + rest, 0);
    }
    lemma_words_to_bytes_len(pfw);
    assert forall|i: int| 0 <= i < 31 implies word_at(b, i) == ws[i] by {
        lemma_word_at_words(ws, rest, i);
    }
    let r = header_of(b);
    assert(r.reserved1@ =~= h.reserved1@);
    let x = h.flags.bits;
    let p = bit_if(h.pitch is Some, 0x8);
    let l = bit_if(h.pitch is None && h.linear_size is Some, 0x80000);
    let d = bit_if(h.depth is Some, 0x800000);
    let m = bit_if(h.mip_map_count is Some, 0x20000);
    assert({
        let v = (x & !0x8A0008u32) | (p | l | d | m);
        &&& v & 0x8A100F == v
        &&& (v & 0x8 == 0x8) == (p == 0x8)
        &&& (v & 0x80000 == 0x80000) == (l == 0x80000)
        &&& (v & 0x800000 == 0x800000) == (d == 0x800000)
        &&& (v & 0x20000 == 0x20000) == (m == 0x20000)
    }) by (bit_vector)
        requires
            x & !0x8A100Fu32 == 0,
            p == 0 || p == 0x8,
            l == 0 || l == 0x80000,
            d == 0 || d == 0x800000,
            m == 0 || m == 0x20000;
    let c = h.caps.bits;
    let c2 = h.caps2.bits;
    assert(c & !0x401008u32 == 0 ==> c & 0x401008 == c) by (bit_vector);
    assert(c2 & !0x20FE00u32 == 0 ==> c2 & 0x20FE00 == c2) by (bit_vector);
    assert(r.size == h.size);
    assert(r.flags == h.flags);
    assert(r.height == h.height);
    assert(r.pitch == h.pitch);
    assert(r.linear_size == h.linear_size);
    assert(r.depth == h.depth);
    assert(r.mip_map_count == h.mip_map_count);
    assert(r.reserved1 == h.reserved1);
    assert(r.spf == h.spf);
    assert(r.caps == h.caps);
    assert(r.caps2 == h.caps2);
    assert(r.reserved2 == h.reserved2);
}

/// The bytes of `depth` slices of `height` image rows, `pitch` bytes per data row and
/// `pitch_height` image rows per data row, where that fits in 32 bits.
pub fn surface_size(pitch: u32, pitch_height: u32, height: u32, depth: u32) -> (r: Option<u32>)
    requires
        pitch_height > 0,
    ensures
        r == fit_u32(Some(pitch * row_count(height, pitch_height) * depth)),
{
    let rows: u64 = (height as u64 + pitch_height as u64 - 1) / pitch_height as u64;
    assert(rows <= 0xffff_ffffu64) by (nonlinear_arith)
        requires
            rows == (height + pitch_height - 1) / (pitch_height as int),
            pitch_height >= 1,
            height <= 0xffff_ffffu64;
    assert(pitch as u64 * rows <= 0xffff_ffffu64 * 0xffff_ffffu64) by (nonlinear_arith)
        requires
            rows <= 0xffff_ffffu64,
            pitch <= 0xffff_ffffu64;
    let per_slice: u64 = pitch as u64 * rows;
    match per_slice.checked_mul(depth as u64) {
        Some(total) => {
            if total <= u32::MAX as u64 {
                Some(total as u32)
            } else {
                None
            }
        },
        None => None,
    }
}

/// The header of a new texture, or nothing where the format has no pitch or, compressed,
/// a top level whose size does not fit in 32 bits. A compressed texture records its top
/// level's size (all slices), an uncompressed one its pitch; each optional field given is
/// flagged; caps mark a mipmap chain of more than one level, and several slices or layers.
pub open spec fn fresh_header(
    height: u32,
    width: u32,
    depth: Option<u32>,
    spf: PixelFormat,
    pitch: Option<u32>,
    compressed: bool,
    mipmap_levels: Option<u32>,
    many_layers: bool,
    caps2: Option<Caps2>,
) -> Option<Header> {
    match pitch {
        None => None,
        Some(p) => {
            let size = fit_u32(Some(p * row_count(height, if compressed { 4 } else { 1 }) * or_one(depth)));
            if compressed && size is None {
                None
            } else {
                Some(Header {
                    size: 124,
                    flags: HeaderFlags {
                        bits: (HeaderFlags::CAPS | HeaderFlags::HEIGHT | HeaderFlags::WIDTH | HeaderFlags::PIXELFORMAT) | (
                        bit_if(!compressed, HeaderFlags::PITCH) | bit_if(compressed, HeaderFlags::LINEARSIZE) | bit_if(
                            depth is Some,
                            HeaderFlags::DEPTH,
                        ) | bit_if(mipmap_levels is Some, HeaderFlags::MIPMAPCOUNT)),
                    },
                    height,
                    width,
                    pitch: if compressed { None } else { Some(p) },
                    linear_size: if compressed { size } else { None },
                    depth,
                    mip_map_count: mipmap_levels,
                    reserved1: [0u32, 0, 0, 0, 0, 0, 0, 0, 0, 0, 0],
                    spf,
                    caps: Caps {
                        bits: Caps::TEXTURE | bit_if(mipmap_levels matches Some(m) && m > 1, Caps::COMPLEX | Caps::MIPMAP)
                            | bit_if((depth matches Some(d) && d > 1) || many_layers, Caps::COMPLEX),
                    },
                    caps2: match caps2 {
                        Some(c) => c,
                        None => Caps2 { bits: 0 },
                    },
                    caps3: 0,
                    caps4: 0,
                    reserved2: 0,
                })
            }
        },
    }
}

/// A new header is well formed, given a well-formed descriptor and flag set.
pub proof fn lemma_fresh_header_wf(
    height: u32,
    width: u32,
    depth: Option<u32>,
    spf: PixelFormat,
    pitch: Option<u32>,
    compressed: bool,
    mipmap_levels: Option<u32>,
    many_layers: bool,
    caps2: Option<Caps2>,
)
    requires
        spf.wf(),
        caps2 matches Some(c) ==> c.wf(),
        fresh_header(height, width, depth, spf, pitch, compressed, mipmap_levels, many_layers, caps2) is Some,
    ensures
        fresh_header(height, width, depth, spf, pitch, compressed, mipmap_levels, many_layers, caps2)->0.wf(),
{
    let h = fresh_header(height, width, depth, spf, pitch, compressed, mipmap_levels, many_layers, caps2)->0;
    let p = bit_if(!compressed, 0x8);
    let l = bit_if(compressed, 0x80000);
    let d = bit_if(depth is Some, 0x800000);
    let m = bit_if(mipmap_levels is Some, 0x20000);
    assert({
        let x = 0x1007u32 | (p | l | d | m);
        &&& x & !0x8A100Fu32 == 0
        &&& (x & !0x8A0008u32) | (p | l | d | m) == x
    }) by (bit_vector)
        requires
            p == 0 || p == 0x8,
            l == 0 || l == 0x80000,
            d == 0 || d == 0x800000,
            m == 0 || m == 0x20000;
    let a = bit_if(mipmap_levels matches Some(k) && k > 1, 0x400008);
    let b = bit_if((depth matches Some(k) && k > 1) || many_layers, 0x8);
    assert((0x1000u32 | a | b) & !0x401008u32 == 0) by (bit_vector)
        requires
            a == 0 || a == 0x400008,
            b == 0 || b == 0x8;
    assert(0x1u32 | 0x2u32 | 0x4u32 | 0x1000u32 == 0x1007u32) by (bit_vector);
    assert(0x1000u32 | (0x8u32 | 0x400000u32) == 0x1000u32 | 0x400008u32) by (bit_vector);
    assert(h.flags.bits == 0x1007u32 | (p | l | d | m));
    assert(h.flags.wf());
    assert(h.presence_bits() == p | l | d | m);
    assert(h.flags.bits == h.written_flags());
    assert(h.caps.bits == 0x1000u32 | a | b);
    assert(h.caps.wf());
    assert(0u32 & !0x20FE00u32 == 0) by (bit_vector);
}

impl Default for Header {
    fn default() -> (r: Header)
        ensures
            r.size == 124,
            r.flags.bits == HeaderFlags::CAPS | HeaderFlags::HEIGHT | HeaderFlags::WIDTH | HeaderFlags::PIXELFORMAT,
            r.height == 0,
            r.width == 0,
            r.pitch is None,
            r.linear_size is None,
            r.depth is None,
            r.mip_map_count is None,
            r.reserved1@ == Seq::new(11, |i: int| 0u32),
            r.spf == PixelFormat::default_spec(),
            r.caps.bits == Caps::TEXTURE,
            r.caps2.bits == 0,
            r.caps3 == 0,
            r.caps4 == 0,
            r.reserved2 == 0,
    {
        let r = Header {
            size: 124,
            flags: HeaderFlags {
                bits: HeaderFlags::CAPS | HeaderFlags::HEIGHT | HeaderFlags::WIDTH | HeaderFlags::PIXELFORMAT,
            },
            height: 0,
            width: 0,
            pitch: None,
            linear_size: None,
            depth: None,
            mip_map_count: None,
            reserved1: [0u32; 11],
            spf: PixelFormat::default(),
            caps: Caps { bits: Caps::TEXTURE },
            caps2: Caps2::empty(),
            caps3: 0,
            caps4: 0,
            reserved2: 0,
        };
        assert(r.reserved1@ =~= Seq::new(11, |i: int| 0u32));
        r
    }
}

impl Header {
    fn fresh(
        height: u32,
        width: u32,
        depth: Option<u32>,
        spf: PixelFormat,
        pitch: Option<u32>,
        compressed: bool,
        mipmap_levels: Option<u32>,
        many_layers: bool,
        caps2: Option<Caps2>,
    ) -> (r: Result<Header, Error>)
        ensures
            match fresh_header(height, width, depth, spf, pitch, compressed, mipmap_levels, many_layers, caps2) {
                Some(h) => r == Ok::<Header, Error>(h),
                None => r == Err::<Header, Error>(Error::UnsupportedFormat),
            },
    {
        let pitch = match pitch {
            Some(p) => p,
            None => return Err(Error::UnsupportedFormat),
        };
        let pitch_height: u32 = if compressed { 4 } else { 1 };
        let size = surface_size(pitch, pitch_height, height, depth.unwrap_or(1));
        if compressed && size.is_none() {
            return Err(Error::UnsupportedFormat);
        }
        let layout_flag: u32 = if compressed { HeaderFlags::LINEARSIZE } else { HeaderFlags::PITCH };
        let depth_flag: u32 = if depth.is_some() { HeaderFlags::DEPTH } else { 0 };
        let mips_flag: u32 = if mipmap_levels.is_some() { HeaderFlags::MIPMAPCOUNT } else { 0 };
        let many_mips = match mipmap_levels {
            Some(m) => m > 1,
            None => false,
        };
        let deep = match depth {
            Some(d) => d > 1,
            None => false,
        };
        let mips_caps: u32 = if many_mips { Caps::COMPLEX | Caps::MIPMAP } else { 0 };
        let complex_caps: u32 = if deep || many_layers { Caps::COMPLEX } else { 0 };
        let h = Header {
            size: 124,
            flags: HeaderFlags {
                bits: (HeaderFlags::CAPS | HeaderFlags::HEIGHT | HeaderFlags::WIDTH | HeaderFlags::PIXELFORMAT) | (
                (if compressed { 0 } else { HeaderFlags::PITCH }) | (if compressed { HeaderFlags::LINEARSIZE } else { 0 })
                    | depth_flag | mips_flag),
            },
            height,
            width,
            pitch: if compressed { None } else { Some(pitch) },
            linear_size: if compressed { size } else { None },
            depth,
            mip_map_count: mipmap_levels,
            reserved1: [0u32; 11],
            spf,
            caps: Caps { bits: Caps::TEXTURE | mips_caps | complex_caps },
            caps2: match caps2 {
                Some(c) => c,
                None => Caps2::empty(),
            },
            caps3: 0,
            caps4: 0,
            reserved2: 0,
        };
        assert(h.reserved1 =~= [0u32, 0, 0, 0, 0, 0, 0, 0, 0, 0, 0]);
        Ok(h)
    }

    /// The header of a new texture in a legacy format. It fails with `UnsupportedFormat`
    /// where the format has no pitch at this width, or where a compressed format's top level
    /// does not fit in 32 bits.
    pub fn new_d3d(
        height: u32,
        width: u32,
        depth: Option<u32>,
        format: D3DFormat,
        mipmap_levels: Option<u32>,
        caps2: Option<Caps2>,
    ) -> (r: Result<Header, Error>)
        ensures
            match fresh_header(
                height,
                width,
                depth,
                pixel_format_from_d3d(format),
                fit_u32(pitch_spec(format.spec_is_packed(), format.spec_bits_per_pixel(), format.spec_block_size(), width as int)),
                format.spec_block_size() is Some,
                mipmap_levels,
                false,
                caps2,
            ) {
                Some(h) => r == Ok::<Header, Error>(h),
                None => r == Err::<Header, Error>(Error::UnsupportedFormat),
            },
    {
        let compressed = format.get_block_size().is_some();
        Header::fresh(height, width, depth, PixelFormat::from(format), format.get_pitch(width), compressed, mipmap_levels, false, caps2)
    }

    /// The header of a new texture in an extended format; more than one array layer marks
    /// the texture complex. It fails as `new_d3d` does.
    pub fn new_dxgi(
        height: u32,
        width: u32,
        depth: Option<u32>,
        format: DxgiFormat,
        mipmap_levels: Option<u32>,
        array_layers: Option<u32>,
        caps2: Option<Caps2>,
    ) -> (r: Result<Header, Error>)
        ensures
            match fresh_header(
                height,
                width,
                depth,
                pixel_format_from_dxgi(format),
                fit_u32(pitch_spec(format.spec_is_packed(), format.spec_bits_per_pixel(), format.spec_block_size(), width as int)),
                format.spec_block_size() is Some,
                mipmap_levels,
                array_layers matches Some(a) && a > 1,
                caps2,
            ) {
                Some(h) => r == Ok::<Header, Error>(h),
                None => r == Err::<Header, Error>(Error::UnsupportedFormat),
            },
    {
        let compressed = format.get_block_size().is_some();
        let many_layers = match array_layers {
            Some(a) => a > 1,
            None => false,
        };
        Header::fresh(height, width, depth, PixelFormat::from(format), format.get_pitch(width), compressed, mipmap_levels, many_layers, caps2)
    }

    /// Decodes a header from the start of `bytes`.
    pub fn read(bytes: &[u8]) -> (r: Result<Header, Error>)
        ensures
            match header_fault(bytes@) {
                Some(k) => fails_with(r, k),
                None => r == Ok::<Header, Error>(header_of(bytes@)),
            },
    {
        if bytes.len() < 4 {
            return Err(Error::ShortFile);
        }
        let size = read_word(bytes, 0);
        if size != 124 {
            return Err(Error::InvalidField("Header struct size".to_owned()));
        }
        if bytes.len() < 72 {
            return Err(Error::ShortFile);
        }
        let spf = match PixelFormat::read(slice_subrange(bytes, 72, bytes.len())) {
            Ok(spf) => spf,
            Err(e) => return Err(e),
        };
        if bytes.len() < 124 {
            return Err(Error::ShortFile);
        }
        let flags = HeaderFlags::from_bits_truncate(read_word(bytes, 1));
        let height = read_word(bytes, 2);
        let width = read_word(bytes, 3);
        let pitch_or_linear_size = read_word(bytes, 4);
        let depth = read_word(bytes, 5);
        let mip_map_count = read_word(bytes, 6);
        let reserved1 = [
            read_word(bytes, 7),
            read_word(bytes, 8),
            read_word(bytes, 9),
            read_word(bytes, 10),
            read_word(bytes, 11),
            read_word(bytes, 12),
            read_word(bytes, 13),
            read_word(bytes, 14),
            read_word(bytes, 15),
            read_word(bytes, 16),
            read_word(bytes, 17),
        ];
        let caps = Caps::from_bits_truncate(read_word(bytes, 26));
        let caps2 = Caps2::from_bits_truncate(read_word(bytes, 27));
        let caps3 = read_word(bytes, 28);
        let caps4 = read_word(bytes, 29);
        let reserved2 = read_word(bytes, 30);
        let h = Header {
            size,
            flags,
            height,
            width,
            pitch: if flags.contains(HeaderFlags::PITCH) { Some(pitch_or_linear_size) } else { None },
            linear_size: if flags.contains(HeaderFlags::LINEARSIZE) { Some(pitch_or_linear_size) } else { None },
            depth: if flags.contains(HeaderFlags::DEPTH) { Some(depth) } else { None },
            mip_map_count: if flags.contains(HeaderFlags::MIPMAPCOUNT) { Some(mip_map_count) } else { None },
            reserved1,
            spf,
            caps,
            caps2,
            caps3,
            caps4,
            reserved2,
        };
        assert(h.reserved1 =~= header_of(bytes@).reserved1);
        Ok(h)
    }

    /// The flags that writing stores: those of the optional fields follow which of them are
    /// present.
    fn flags_to_write(&self) -> (r: u32)
        ensures
            r == self.written_flags(),
    {
        let mut bits = self.flags.bits & !PRESENCE_FLAGS;
        let pitch: u32 = if self.pitch.is_some() { HeaderFlags::PITCH } else { 0 };
        let linear: u32 = if self.pitch.is_none() && self.linear_size.is_some() { HeaderFlags::LINEARSIZE } else { 0 };
        let depth: u32 = if self.depth.is_some() { HeaderFlags::DEPTH } else { 0 };
        let mips: u32 = if self.mip_map_count.is_some() { HeaderFlags::MIPMAPCOUNT } else { 0 };
        bits | (pitch | linear | depth | mips)
    }

    /// Appends the header's 31 words to `ws`.
    pub fn push_words_to(&self, ws: &mut Vec<u32>)
        ensures
            final(ws)@ == old(ws)@ + header_words(*self),
    {
        ws.push(self.size);
        ws.push(self.flags_to_write());
        ws.push(self.height);
        ws.push(self.width);
        let slot = match self.pitch {
            Some(p) => p,
            None => self.linear_size.unwrap_or(0),
        };
        ws.push(slot);
        ws.push(self.depth.unwrap_or(0));
        ws.push(self.mip_map_count.unwrap_or(0));
        let ghost start = ws@;
        let mut i: usize = 0;
        while i < 11
            invariant
                i <= 11,
                ws@ == start + self.reserved1@.take(i as int),
            decreases 11 - i,
        {
            ws.push(self.reserved1[i]);
            assert(self.reserved1@.take(i + 1) =~= self.reserved1@.take(i as int).push(self.reserved1@[i as int]));
            i += 1;
        }
        assert(self.reserved1@.take(11) =~= self.reserved1@);
        self.spf.push_words_to(ws);
        ws.push(self.caps.bits());
        ws.push(self.caps2.bits());
        ws.push(self.caps3);
        ws.push(self.caps4);
        ws.push(self.reserved2);
        assert(ws@ =~= old(ws)@ + header_words(*self));
    }

    /// Writes the header's 124 bytes to `w`.
    pub fn write(&self, w: &mut Vec<u8>)
        ensures
            final(w)@ == old(w)@ + words_to_bytes(header_words(*self)),
    {
        let mut ws: Vec<u32> = Vec::new();
        self.push_words_to(&mut ws);
        push_words(w, ws.as_slice());
    }
}

/// The set of flags that say which header fields hold data.
#[derive(Clone, Copy, Debug, PartialEq, Eq, Structural)]
pub struct HeaderFlags {
    pub bits: u32,
}

impl HeaderFlags {
    /// Required in every DDS file.
    pub const CAPS: u32 = 0x1;
    /// Required in every DDS file.
    pub const HEIGHT: u32 = 0x2;
    /// Required in every DDS file.
    pub const WIDTH: u32 = 0x4;
    /// Required when pitch is provided for an uncompressed texture.
    pub const PITCH: u32 = 0x8;
    /// Required in every DDS file.
    pub const PIXELFORMAT: u32 = 0x1000;
    /// Required in a mipmapped texture.
    pub const MIPMAPCOUNT: u32 = 0x20000;
    /// Required when pitch is provided for a compressed texture.
    pub const LINEARSIZE: u32 = 0x80000;
    /// Required in a depth texture.
    pub const DEPTH: u32 = 0x800000;
    /// Every flag that has a meaning.
    pub const ALL: u32 = 0x8A100F;

    /// Whether every flag of `flag` is in the set.
    pub open spec fn has(&self, flag: u32) -> bool {
        self.bits & flag == flag
    }

    /// The set holds no bit without a meaning.
    pub open spec fn wf(&self) -> bool {
        self.bits & !Self::ALL == 0
    }

    pub fn empty() -> (r: Self)
        ensures
            r.bits == 0,
    {
        HeaderFlags { bits: 0 }
    }

    /// The flags among `bits` that have a meaning; the others are dropped.
    pub fn from_bits_truncate(bits: u32) -> (r: Self)
        ensures
            r.bits == bits & Self::ALL,
            r.wf(),
    {
        let r = HeaderFlags { bits: bits & Self::ALL };
        assert(bits & 0x8A100F & !0x8A100Fu32 == 0) by (bit_vector);
        r
    }

    pub fn bits(&self) -> (r: u32)
        ensures
            r == self.bits,
    {
        self.bits
    }

    pub fn contains(&self, flag: u32) -> (r: bool)
        ensures
            r == self.has(flag),
    {
        self.bits & flag == flag
    }

    /// Adds the flags of `flag` that have a meaning.
    pub fn insert(&mut self, flag: u32)
        ensures
            final(self).bits == old(self).bits | (flag & Self::ALL),
    {
        self.bits = self.bits | (flag & Self::ALL);
    }
}

/// Specifies the complexity of the surfaces stored.
#[derive(Clone, Copy, Debug, PartialEq, Eq, Structural)]
pub struct Caps {
    pub bits: u32,
}

impl Caps {
    /// Optional; must be used on any file that contains more than one surface (a mipmap, a cubic environment, or a mipmapped volume texture).
    pub const COMPLEX: u32 = 0x8;
    /// Optional; should be used for a mipmap.
    pub const MIPMAP: u32 = 0x400000;
    /// Required.
    pub const TEXTURE: u32 = 0x1000;
    /// Every flag that has a meaning.
    pub const ALL: u32 = 0x401008;

    /// Whether every flag of `flag` is in the set.
    pub open spec fn has(&self, flag: u32) -> bool {
        self.bits & flag == flag
    }

    /// The set holds no bit without a meaning.
    pub open spec fn wf(&self) -> bool {
        self.bits & !Self::ALL == 0
    }

    pub fn empty() -> (r: Self)
        ensures
            r.bits == 0,
    {
        Caps { bits: 0 }
    }

    /// The flags among `bits` that have a meaning; the others are dropped.
    pub fn from_bits_truncate(bits: u32) -> (r: Self)
        ensures
            r.bits == bits & Self::ALL,
            r.wf(),
    {
        let r = Caps { bits: bits & Self::ALL };
        assert(bits & 0x401008 & !0x401008u32 == 0) by (bit_vector);
        r
    }

    pub fn bits(&self) -> (r: u32)
        ensures
            r == self.bits,
    {
        self.bits
    }

    pub fn contains(&self, flag: u32) -> (r: bool)
        ensures
            r == self.has(flag),
    {
        self.bits & flag == flag
    }

    /// Adds the flags of `flag` that have a meaning.
    pub fn insert(&mut self, flag: u32)
        ensures
            final(self).bits == old(self).bits | (flag & Self::ALL),
    {
        self.bits = self.bits | (flag & Self::ALL);
    }
}

/// Additional detail about the surfaces stored.
#[derive(Clone, Copy, Debug, PartialEq, Eq, Structural)]
pub struct Caps2 {
    pub bits: u32,
}

impl Caps2 {
    /// Required for a cube map.
    pub const CUBEMAP: u32 = 0x200;
    /// Required when these surfaces are stored in a cubemap.
    pub const CUBEMAP_POSITIVEX: u32 = 0x400;
    /// Required when these surfaces are stored in a cubemap.
    pub const CUBEMAP_NEGATIVEX: u32 = 0x800;
    /// Required when these surfaces are stored in a cubemap.
    pub const CUBEMAP_POSITIVEY: u32 = 0x1000;
    /// Required when these surfaces are stored in a cubemap.
    pub const CUBEMAP_NEGATIVEY: u32 = 0x2000;
    /// Required when these surfaces are stored in a cubemap.
    pub const CUBEMAP_POSITIVEZ: u32 = 0x4000;
    /// Required when these surfaces are stored in a cubemap.
    pub const CUBEMAP_NEGATIVEZ: u32 = 0x8000;
    /// Required for a volume texture.
    pub const VOLUME: u32 = 0x200000;
    /// Every flag that has a meaning.
    pub const ALL: u32 = 0x20FE00;

    /// Whether every flag of `flag` is in the set.
    pub open spec fn has(&self, flag: u32) -> bool {
        self.bits & flag == flag
    }

    /// The set holds no bit without a meaning.
    pub open spec fn wf(&self) -> bool {
        self.bits & !Self::ALL == 0
    }

    pub fn empty() -> (r: Self)
        ensures
            r.bits == 0,
    {
        Caps2 { bits: 0 }
    }

    /// The flags among `bits` that have a meaning; the others are dropped.
    pub fn from_bits_truncate(bits: u32) -> (r: Self)
        ensures
            r.bits == bits & Self::ALL,
            r.wf(),
    {
        let r = Caps2 { bits: bits & Self::ALL };
        assert(bits & 0x20FE00 & !0x20FE00u32 == 0) by (bit_vector);
        r
    }

    pub fn bits(&self) -> (r: u32)
        ensures
            r == self.bits,
    {
        self.bits
    }

    pub fn contains(&self, flag: u32) -> (r: bool)
        ensures
            r == self.has(flag),
    {
        self.bits & flag == flag
    }

    /// Adds the flags of `flag` that have a meaning.
    pub fn insert(&mut self, flag: u32)
        ensures
            final(self).bits == old(self).bits | (flag & Self::ALL),
    {
        self.bits = self.bits | (flag & Self::ALL);
    }
}

} // verus!
