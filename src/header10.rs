//! The extended header, present when the primary header's descriptor carries the code
//! that announces it.
use vstd::prelude::*;
use crate::error::{Error, ErrorKind, fails_with};
use crate::dxgi::{DxgiFormat, dxgi_code, dxgi_from_code, lemma_dxgi_code_round_trip};
use crate::wire::{push_words, read_word, word_at, words_to_bytes, lemma_word_at_words};

verus! {

/// The kind of resource the extended header describes.
#[derive(Debug, Clone, Copy, PartialEq, Eq, Hash, Structural)]
pub enum D3D10ResourceDimension {
    Unknown,
    Buffer,
    Texture1D,
    Texture2D,
    Texture3D,
}

/// The number that stands for each resource dimension in a file.
pub open spec fn dimension_code(d: D3D10ResourceDimension) -> u32 {
    match d {
        D3D10ResourceDimension::Unknown => 0,
        D3D10ResourceDimension::Buffer => 1,
        D3D10ResourceDimension::Texture1D => 2,
        D3D10ResourceDimension::Texture2D => 3,
        D3D10ResourceDimension::Texture3D => 4,
    }
}

/// The resource dimension a number stands for, if any.
pub open spec fn dimension_from_code(n: u32) -> Option<D3D10ResourceDimension> {
    match n {
        0 => Some(D3D10ResourceDimension::Unknown),
        1 => Some(D3D10ResourceDimension::Buffer),
        2 => Some(D3D10ResourceDimension::Texture1D),
        3 => Some(D3D10ResourceDimension::Texture2D),
        4 => Some(D3D10ResourceDimension::Texture3D),
        _ => None,
    }
}

impl D3D10ResourceDimension {
    /// The number that stands for this dimension in a file.
    pub fn to_u32(&self) -> (r: u32)
        ensures
            r == dimension_code(*self),
    {
        match self {
            D3D10ResourceDimension::Unknown => 0,
            D3D10ResourceDimension::Buffer => 1,
            D3D10ResourceDimension::Texture1D => 2,
            D3D10ResourceDimension::Texture2D => 3,
            D3D10ResourceDimension::Texture3D => 4,
        }
    }

    /// The dimension that `n` stands for, if any.
    pub fn from_u32(n: u32) -> (r: Option<D3D10ResourceDimension>)
        ensures
            r == dimension_from_code(n),
    {
        match n {
            0 => Some(D3D10ResourceDimension::Unknown),
            1 => Some(D3D10ResourceDimension::Buffer),
            2 => Some(D3D10ResourceDimension::Texture1D),
            3 => Some(D3D10ResourceDimension::Texture2D),
            4 => Some(D3D10ResourceDimension::Texture3D),
            _ => None,
        }
    }
}

/// How the alpha channel of the texture is to be read.
#[derive(Debug, Clone, Copy, PartialEq, Eq, Hash, Structural)]
pub enum AlphaMode {
    Unknown,
    Straight,
    PreMultiplied,
    Opaque,
    Custom,
}

/// The number that stands for each alpha mode in a file.
pub open spec fn alpha_code(a: AlphaMode) -> u32 {
    match a {
        AlphaMode::Unknown => 0,
        AlphaMode::Straight => 1,
        AlphaMode::PreMultiplied => 2,
        AlphaMode::Opaque => 3,
        AlphaMode::Custom => 4,
    }
}

/// The alpha mode a number stands for, if any.
pub open spec fn alpha_from_code(n: u32) -> Option<AlphaMode> {
    match n {
        0 => Some(AlphaMode::Unknown),
        1 => Some(AlphaMode::Straight),
        2 => Some(AlphaMode::PreMultiplied),
        3 => Some(AlphaMode::Opaque),
        4 => Some(AlphaMode::Custom),
        _ => None,
    }
}

impl AlphaMode {
    /// The number that stands for this mode in a file.
    pub fn to_u32(&self) -> (r: u32)
        ensures
            r == alpha_code(*self),
    {
        match self {
            AlphaMode::Unknown => 0,
            AlphaMode::Straight => 1,
            AlphaMode::PreMultiplied => 2,
            AlphaMode::Opaque => 3,
            AlphaMode::Custom => 4,
        }
    }

    /// The mode that `n` stands for, if any.
    pub fn from_u32(n: u32) -> (r: Option<AlphaMode>)
        ensures
            r == alpha_from_code(n),
    {
        match n {
            0 => Some(AlphaMode::Unknown),
            1 => Some(AlphaMode::Straight),
            2 => Some(AlphaMode::PreMultiplied),
            3 => Some(AlphaMode::Opaque),
            4 => Some(AlphaMode::Custom),
            _ => None,
        }
    }
}

/// The extended header: the format of the texture, and how many array layers it has.
#[derive(Clone, Copy, Debug, PartialEq, Eq, Structural)]
pub struct Header10 {
    pub dxgi_format: DxgiFormat,
    pub resource_dimension: D3D10ResourceDimension,
    pub misc_flag: MiscFlag,
    pub array_size: u32,
    /// This is called misc_flags2 in the official documentation.
    pub alpha_mode: AlphaMode,
}

impl Header10 {
    /// Its flag set holds only flags with a meaning.
    pub open spec fn wf(&self) -> bool {
        self.misc_flag.wf()
    }
}

/// The five words an extended header is written as.
pub open spec fn header10_words(h: Header10) -> Seq<u32> {
    seq![
        dxgi_code(h.dxgi_format),
        dimension_code(h.resource_dimension),
        h.misc_flag.bits,
        h.array_size,
        alpha_code(h.alpha_mode),
    ]
}

/// The extended header that the 20 bytes at the start of `b` hold, if each enumerated field
/// holds a number of its set.
pub open spec fn header10_of(b: Seq<u8>) -> Option<Header10> {
    let format = dxgi_from_code(word_at(b, 0));
    let dimension = dimension_from_code(word_at(b, 1));
    let alpha = alpha_from_code(word_at(b, 4));
    if format is Some && dimension is Some && alpha is Some {
        Some(Header10 {
            dxgi_format: format->0,
            resource_dimension: dimension->0,
            misc_flag: MiscFlag { bits: word_at(b, 2) & MiscFlag::ALL },
            array_size: word_at(b, 3),
            alpha_mode: alpha->0,
        })
    } else {
        None
    }
}

/// Why decoding an extended header from the start of `b` fails, if it does: the input ends
/// before 20 bytes, or an enumerated field is out of its set.
pub open spec fn header10_fault(b: Seq<u8>) -> Option<ErrorKind> {
    if b.len() < 20 {
        Some(ErrorKind::ShortFile)
    } else if header10_of(b) is None {
        Some(ErrorKind::InvalidField)
    } else {
        None
    }
}

/// The bytes of a well-formed extended header read back as that header, whatever follows.
pub proof fn lemma_header10_round_trip(h: Header10, rest: Seq<u8>)
    requires
        h.wf(),
    ensures
        header10_fault(words_to_bytes(header10_words(h)) + rest) is None,
        header10_of(words_to_bytes(header10_words(h)) + rest) == Some(h),
{
    let ws = header10_words(h);
    let b = words_to_bytes(ws) + rest;
    crate::wire::lemma_words_to_bytes_len(ws);
    assert forall|i: int| 0 <= i < 5 implies word_at(b, i) == ws[i] by {
        lemma_word_at_words(ws, rest, i);
    }
    lemma_dxgi_code_round_trip(h.dxgi_format);
    let m = h.misc_flag.bits;
    assert(m & !0x4u32 == 0 ==> m & 0x4 == m) by (bit_vector);
}

impl Default for Header10 {
    fn default() -> (r: Header10)
        ensures
            r == (Header10 {
                dxgi_format: DxgiFormat::Unknown,
                resource_dimension: D3D10ResourceDimension::Unknown,
                misc_flag: MiscFlag { bits: 0 },
                array_size: 0,
                alpha_mode: AlphaMode::Unknown,
            }),
    {
        Header10 {
            dxgi_format: DxgiFormat::Unknown,
            resource_dimension: D3D10ResourceDimension::Unknown,
            misc_flag: MiscFlag::empty(),
            array_size: 0,
            alpha_mode: AlphaMode::Unknown,
        }
    }
}

impl Header10 {
    /// An extended header with the given fields; a cube map sets TEXTURECUBE.
    pub fn new(
        format: DxgiFormat,
        is_cubemap: bool,
        resource_dimension: D3D10ResourceDimension,
        array_size: u32,
        alpha_mode: AlphaMode,
    ) -> (r: Header10)
        ensures
            r == (Header10 {
                dxgi_format: format,
                resource_dimension,
                misc_flag: MiscFlag { bits: if is_cubemap { MiscFlag::TEXTURECUBE } else { 0 } },
                array_size,
                alpha_mode,
            }),
    {
        let flags = if is_cubemap {
            MiscFlag { bits: MiscFlag::TEXTURECUBE }
        } else {
            MiscFlag::empty()
        };
        Header10 { dxgi_format: format, resource_dimension, misc_flag: flags, array_size, alpha_mode }
    }

    /// Decodes an extended header from the start of `bytes`.
    pub fn read(bytes: &[u8]) -> (r: Result<Header10, Error>)
        ensures
            match header10_fault(bytes@) {
                Some(k) => fails_with(r, k),
                None => r == Ok::<Header10, Error>(header10_of(bytes@)->0),
            },
    {
        if bytes.len() < 20 {
            return Err(Error::ShortFile);
        }
        let dxgi_format = read_word(bytes, 0);
        let resource_dimension = read_word(bytes, 1);
        let misc_flag = MiscFlag::from_bits_truncate(read_word(bytes, 2));
        let array_size = read_word(bytes, 3);
        let alpha_mode = read_word(bytes, 4);
        let dxgi_format = match DxgiFormat::from_u32(dxgi_format) {
            Some(f) => f,
            None => return Err(Error::InvalidField("dxgi_format".to_owned())),
        };
        let resource_dimension = match D3D10ResourceDimension::from_u32(resource_dimension) {
            Some(d) => d,
            None => return Err(Error::InvalidField("resource_dimension".to_owned())),
        };
        let alpha_mode = match AlphaMode::from_u32(alpha_mode) {
            Some(a) => a,
            None => return Err(Error::InvalidField("alpha mode (misc_flags2)".to_owned())),
        };
        Ok(Header10 { dxgi_format, resource_dimension, misc_flag, array_size, alpha_mode })
    }

    /// Writes the extended header's 20 bytes to `w`.
    pub fn write(&self, w: &mut Vec<u8>)
        ensures
            final(w)@ == old(w)@ + words_to_bytes(header10_words(*self)),
    {
        let ws = vec![
            self.dxgi_format.to_u32(),
            self.resource_dimension.to_u32(),
            self.misc_flag.bits(),
            self.array_size,
            self.alpha_mode.to_u32(),
        ];
        assert(ws@ =~= header10_words(*self));
        push_words(w, ws.as_slice());
    }
}

/// Flags of the extended header.
#[derive(Clone, Copy, Debug, PartialEq, Eq, Structural)]
pub struct MiscFlag {
    pub bits: u32,
}

impl MiscFlag {
    /// 2D texture is a cube-map texture.
    pub const TEXTURECUBE: u32 = 0x4;
    /// Every flag that has a meaning.
    pub const ALL: u32 = 0x4;

    /// Whether every flag of `flag` is in the set.
    pub open spec fn has(&self, flag: u32) -> bool {
        self.bits & flag == flag
    }

    /// The set holds no bit without a meaning.
    pub open spec fn wf(&self) -> bool {
        self.bits & !Self::ALL == 0
    }

    pub fn empty() -> (r: Self)
        ensures
            r.bits == 0,
    {
        MiscFlag { bits: 0 }
    }

    /// The flags among `bits` that have a meaning; the others are dropped.
    pub fn from_bits_truncate(bits: u32) -> (r: Self)
        ensures
            r.bits == bits & Self::ALL,
            r.wf(),
    {
        let r = MiscFlag { bits: bits & Self::ALL };
        assert(bits & 0x4 & !0x4u32 == 0) by (bit_vector);
        r
    }

    pub fn bits(&self) -> (r: u32)
        ensures
            r == self.bits,
    {
        self.bits
    }

    pub fn contains(&self, flag: u32) -> (r: bool)
        ensures
            r == self.has(flag),
    {
        self.bits & flag == flag
    }

    /// Adds the flags of `flag` that have a meaning.
    pub fn insert(&mut self, flag: u32)
        ensures
            final(self).bits == old(self).bits | (flag & Self::ALL),
    {
        self.bits = self.bits | (flag & Self::ALL);
    }
}

} // verus!
