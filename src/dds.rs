//! The container: a whole file's headers and pixel data, and the layout of that data.
use vstd::prelude::*;
use vstd::slice::{slice_subrange, slice_to_vec};
use crate::error::{Error, ErrorKind, fails_with};
use crate::format::{DataFormat, Format, fit_u32, min_mip_spec, pitch_height_spec, pitch_spec};
use crate::d3d::{D3DFormat, d3d_from_pixel_format};
use crate::dxgi::{DxgiFormat, dxgi_from_pixel_format};
use crate::pixel_format::{FourCC, pixel_format_from_d3d, pixel_format_from_dxgi, lemma_pixel_format_from_wf};
use crate::header::{
    Caps2, Header, fresh_header, header_fault, header_of, header_words, or_one, row_count, surface_size,
    lemma_fresh_header_wf, lemma_header_round_trip,
};
use crate::header10::{
    AlphaMode, D3D10ResourceDimension, Header10, MiscFlag, header10_fault, header10_of, header10_words,
    lemma_header10_round_trip,
};
use crate::wire::{
    push_words, read_word, word_at, words_to_bytes, lemma_word_at_words, lemma_words_to_bytes_append,
    lemma_words_to_bytes_len,
};

verus! {

/// The size of the top mip level: an explicit linear size times the depth, else the pitch
/// times the number of data rows times the depth (depth 1 where absent); nothing where
/// neither size is known or the result does not fit in 32 bits.
pub open spec fn texture_size_spec(
    pitch: Option<u32>,
    linear_size: Option<u32>,
    pitch_height: u32,
    height: u32,
    depth: Option<u32>,
) -> Option<u32> {
    match linear_size {
        Some(ls) => fit_u32(Some(ls * or_one(depth))),
        None => match pitch {
            Some(p) => fit_u32(Some(p * row_count(height, pitch_height) * or_one(depth))),
            None => None,
        },
    }
}

/// The size of the next smaller mip level: a quarter of this one, but never below `min`.
pub open spec fn next_mip_size(size: int, min: int) -> int {
    if size / 4 < min { min } else { size / 4 }
}

/// The bytes of a chain of `levels` mip levels whose first level takes `size` bytes.
pub open spec fn mip_chain_size(size: int, min: int, levels: nat) -> int
    decreases levels,
{
    if levels == 0 {
        0
    } else {
        size + mip_chain_size(next_mip_size(size, min), min, (levels - 1) as nat)
    }
}

proof fn lemma_mip_chain_nonneg(size: int, min: int, levels: nat)
    requires
        size >= 0,
        min >= 0,
    ensures
        mip_chain_size(size, min, levels) >= 0,
    decreases levels,
{
    if levels > 0 {
        lemma_mip_chain_nonneg(next_mip_size(size, min), min, (levels - 1) as nat);
    }
}

/// The size of the top mip level of a texture; see `texture_size_spec`.
pub fn get_texture_size(
    pitch: Option<u32>,
    linear_size: Option<u32>,
    pitch_height: u32,
    height: u32,
    depth: Option<u32>,
) -> (r: Option<u32>)
    requires
        pitch_height > 0,
    ensures
        r == texture_size_spec(pitch, linear_size, pitch_height, height, depth),
{
    let depth = depth.unwrap_or(1);
    if let Some(ls) = linear_size {
        ls.checked_mul(depth)
    } else if let Some(pitch) = pitch {
        surface_size(pitch, pitch_height, height, depth)
    } else {
        None
    }
}

/// The bytes of one array layer: `mipmap_levels` mip levels, the first of `texture_size`
/// bytes, each next one a quarter of the one before but never below `min_mipmap_size`.
/// Nothing where the sum does not fit in 32 bits.
pub fn get_array_stride(texture_size: u32, min_mipmap_size: u32, mipmap_levels: u32) -> (r: Option<u32>)
    ensures
        r == fit_u32(Some(mip_chain_size(texture_size as int, min_mipmap_size as int, mipmap_levels as nat))),
{
    let mut stride: u32 = 0;
    let mut current_mipsize: u32 = texture_size;
    let mut i: u32 = 0;
    while i < mipmap_levels
        invariant
            i <= mipmap_levels,
            stride + mip_chain_size(current_mipsize as int, min_mipmap_size as int, (mipmap_levels - i) as nat)
                == mip_chain_size(texture_size as int, min_mipmap_size as int, mipmap_levels as nat),
        decreases mipmap_levels - i,
    {
        proof {
            lemma_mip_chain_nonneg(
                next_mip_size(current_mipsize as int, min_mipmap_size as int),
                min_mipmap_size as int,
                (mipmap_levels - i - 1) as nat,
            );
        }
        stride = match stride.checked_add(current_mipsize) {
            Some(s) => s,
            None => return None,
        };
        current_mipsize = current_mipsize / 4;
        if current_mipsize < min_mipmap_size {
            current_mipsize = min_mipmap_size;
        }
        i += 1;
    }
    Some(stride)
}

/// Parameters for `Dds::new_d3d`.
pub struct NewD3dParams {
    pub height: u32,
    pub width: u32,
    pub depth: Option<u32>,
    pub format: D3DFormat,
    pub mipmap_levels: Option<u32>,
    pub caps2: Option<Caps2>,
}

/// Parameters for `Dds::new_dxgi`.
pub struct NewDxgiParams {
    pub height: u32,
    pub width: u32,
    pub depth: Option<u32>,
    pub format: DxgiFormat,
    pub mipmap_levels: Option<u32>,
    pub array_layers: Option<u32>,
    pub caps2: Option<Caps2>,
    pub is_cubemap: bool,
    pub resource_dimension: D3D10ResourceDimension,
    pub alpha_mode: AlphaMode,
}

/// The bytes of one array layer of a new texture in format `f`: its mip chain, the top
/// level sized from the format's pitch at `width`. Nothing where the format has no pitch
/// or no minimum mip size, or a size does not fit in 32 bits.
pub open spec fn new_layer_stride<F: DataFormat>(f: F, width: u32, height: u32, depth: Option<u32>, mipmap_levels: Option<u32>) -> Option<u32> {
    let pitch = fit_u32(pitch_spec(f.spec_is_packed(), f.spec_bits_per_pixel(), f.spec_block_size(), width as int));
    let size = texture_size_spec(pitch, None, pitch_height_spec(f.spec_block_size()), height, depth);
    let min = min_mip_spec(f.spec_bits_per_pixel(), f.spec_block_size());
    if size is Some && min is Some {
        fit_u32(Some(mip_chain_size(size->0 as int, min->0 as int, or_one(mipmap_levels) as nat)))
    } else {
        None
    }
}

/// This is the main DirectDraw Surface file structure.
pub struct Dds {
    pub header: Header,
    pub header10: Option<Header10>,
    /// The pixel data of every array layer and mip level, layer after layer.
    pub data: Vec<u8>,
}

/// The four bytes "DDS " that start every file, read as a little-endian word.
pub const MAGIC: u32 = 0x20534444;

/// Whether a header's descriptor carries the code that announces the extended header.
pub open spec fn announces_extension(h: Header) -> bool {
    h.spf.fourcc == Some(FourCC(FourCC::DX10))
}

/// Where the pixel data starts in a file whose header is `h`.
pub open spec fn data_start(h: Header) -> int {
    if announces_extension(h) { 148 } else { 128 }
}

/// Why decoding a whole file fails, if it does: it is shorter than the magic number, the
/// magic number is wrong, the primary header fails, or the extended header that the
/// primary header announces fails.
pub open spec fn dds_fault(b: Seq<u8>) -> Option<ErrorKind> {
    if b.len() < 4 {
        Some(ErrorKind::ShortFile)
    } else if word_at(b, 0) != MAGIC {
        Some(ErrorKind::BadMagicNumber)
    } else if header_fault(b.subrange(4, b.len() as int)) is Some {
        header_fault(b.subrange(4, b.len() as int))
    } else if announces_extension(header_of(b.subrange(4, b.len() as int))) {
        header10_fault(b.subrange(128, b.len() as int))
    } else {
        None
    }
}

/// Whether the file `b` decodes to the parts `header`, `header10` and `data`: the primary
/// header after the magic number, the extended header exactly when the primary one
/// announces it, and every byte after the headers as pixel data.
pub open spec fn decodes_to(b: Seq<u8>, header: Header, header10: Option<Header10>, data: Seq<u8>) -> bool {
    &&& dds_fault(b) is None
    &&& header == header_of(b.subrange(4, b.len() as int))
    &&& header10 == if announces_extension(header) {
        header10_of(b.subrange(128, b.len() as int))
    } else {
        None
    }
    &&& data == b.subrange(data_start(header), b.len() as int)
}

impl Dds {
    /// A container as the file format defines it: well-formed headers, and an extended
    /// header exactly when the primary header announces one.
    pub open spec fn valid(&self) -> bool {
        &&& self.header.wf()
        &&& (self.header10 is Some) == announces_extension(self.header)
        &&& self.header10 matches Some(h) ==> h.wf()
    }

    /// The bytes `write` produces: the magic number, the primary header, the extended
    /// header where the primary header announces it and one is present, then the data.
    pub open spec fn spec_bytes(&self) -> Seq<u8> {
        words_to_bytes(seq![MAGIC] + header_words(self.header)) + match self.header10 {
            Some(h) => if announces_extension(self.header) {
                words_to_bytes(header10_words(h))
            } else {
                Seq::empty()
            },
            None => Seq::empty(),
        } + self.data@
    }

    /// Decodes a whole file held in `bytes`. The bytes after the headers become the pixel
    /// data as they are; their length is only checked when a layer is requested.
    pub fn read(bytes: &[u8]) -> (r: Result<Dds, Error>)
        ensures
            match dds_fault(bytes@) {
                Some(k) => fails_with(r, k),
                None => r is Ok && decodes_to(bytes@, r->Ok_0.header, r->Ok_0.header10, r->Ok_0.data@),
            },
    {
        if bytes.len() < 4 {
            return Err(Error::ShortFile);
        }
        let magic = read_word(bytes, 0);
        if magic != MAGIC {
            return Err(Error::BadMagicNumber);
        }
        let header = match Header::read(slice_subrange(bytes, 4, bytes.len())) {
            Ok(h) => h,
            Err(e) => return Err(e),
        };
        let extended = match header.spf.fourcc {
            Some(code) => code.0 == FourCC::DX10,
            None => false,
        };
        let (header10, start) = if extended {
            match Header10::read(slice_subrange(bytes, 128, bytes.len())) {
                Ok(h) => (Some(h), 148),
                Err(e) => return Err(e),
            }
        } else {
            (None, 128)
        };
        let data = slice_to_vec(slice_subrange(bytes, start, bytes.len()));
        Ok(Dds { header, header10, data })
    }

    /// Writes the whole file to `w`: magic number, primary header, the extended header
    /// where the primary header announces it, then the pixel data. Nothing else is written,
    /// whatever the other fields hold.
    pub fn write(&self, w: &mut Vec<u8>)
        ensures
            final(w)@ == old(w)@ + self.spec_bytes(),
    {
        let mut ws: Vec<u32> = Vec::new();
        ws.push(MAGIC);
        self.header.push_words_to(&mut ws);
        push_words(w, ws.as_slice());
        let extended = match self.header.spf.fourcc {
            Some(code) => code.0 == FourCC::DX10,
            None => false,
        };
        let ghost mid = w@;
        if let Some(h10) = &self.header10 {
            if extended {
                h10.write(w);
            }
        }
        let ghost after = w@;
        let mut i: usize = 0;
        while i < self.data.len()
            invariant
                i <= self.data@.len(),
                w@ == after + self.data@.take(i as int),
            decreases self.data@.len() - i,
        {
            w.push(self.data[i]);
            assert(self.data@.take(i + 1) =~= self.data@.take(i as int).push(self.data@[i as int]));
            i += 1;
        }
        assert(self.data@.take(i as int) =~= self.data@);
        assert(w@ =~= old(w)@ + self.spec_bytes());
    }
}

impl Dds {
    /// The legacy format the descriptor names.
    pub open spec fn spec_d3d_format(&self) -> Option<D3DFormat> {
        d3d_from_pixel_format(self.header.spf)
    }

    /// The extended format: the extended header's, else the one the descriptor names.
    pub open spec fn spec_dxgi_format(&self) -> Option<DxgiFormat> {
        match self.header10 {
            Some(h) => Some(h.dxgi_format),
            None => dxgi_from_pixel_format(self.header.spf),
        }
    }

    /// The resolved format: the extended header's where there is one, else the legacy
    /// format the descriptor names, else the extended format it names.
    pub open spec fn spec_format(&self) -> Option<Format> {
        match self.header10 {
            Some(h) => Some(Format::Dxgi(h.dxgi_format)),
            None => match self.spec_d3d_format() {
                Some(f) => Some(Format::D3d(f)),
                None => match dxgi_from_pixel_format(self.header.spf) {
                    Some(g) => Some(Format::Dxgi(g)),
                    None => None,
                },
            },
        }
    }

    /// Bits per pixel: the resolved format's, else the descriptor's bit count.
    pub open spec fn spec_bits_per_pixel(&self) -> Option<u32> {
        match self.spec_format() {
            Some(f) if f.spec_bits_per_pixel() is Some => Some(f.spec_bits_per_pixel()->0 as u32),
            _ => self.header.spf.rgb_bit_count,
        }
    }

    /// Row pitch: the resolved format's at the header's width, else the header's pitch,
    /// else the row's bits at the known bit depth rounded up to bytes (where it fits).
    pub open spec fn spec_pitch(&self) -> Option<u32> {
        let from_format = match self.spec_format() {
            Some(f) => fit_u32(pitch_spec(f.spec_is_packed(), f.spec_bits_per_pixel(), f.spec_block_size(), self.header.width as int)),
            None => None,
        };
        if from_format is Some {
            from_format
        } else if self.header.pitch is Some {
            self.header.pitch
        } else {
            match self.spec_bits_per_pixel() {
                Some(bpp) => fit_u32(Some((bpp * self.header.width + 7) / 8)),
                None => None,
            }
        }
    }

    /// Image rows per data row: the resolved format's, else 1.
    pub open spec fn spec_pitch_height(&self) -> u32 {
        match self.spec_format() {
            Some(f) => pitch_height_spec(f.spec_block_size()),
            None => 1,
        }
    }

    /// The size of the top mip level: the explicit linear size, else the header's explicit
    /// pitch, else the pitch derived as `spec_pitch` does, each with the row count and depth.
    pub open spec fn spec_main_texture_size(&self) -> Option<u32> {
        texture_size_spec(
            if self.header.pitch is Some { self.header.pitch } else { self.spec_pitch() },
            self.header.linear_size,
            self.spec_pitch_height(),
            self.header.height,
            self.header.depth,
        )
    }

    pub open spec fn spec_num_mipmap_levels(&self) -> u32 {
        or_one(self.header.mip_map_count)
    }

    /// The least bytes of a mip level: the resolved format's, else a whole pixel at the
    /// known bit depth, else 1.
    pub open spec fn spec_min_mipmap_size(&self) -> u32 {
        let from_format = match self.spec_format() {
            Some(f) => min_mip_spec(f.spec_bits_per_pixel(), f.spec_block_size()),
            None => None,
        };
        match from_format {
            Some(m) => m,
            None => match self.spec_bits_per_pixel() {
                Some(bpp) => ((bpp + 7) / 8) as u32,
                None => 1,
            },
        }
    }

    /// The bytes of one array layer with its whole mip chain, where it can be computed.
    pub open spec fn spec_array_stride(&self) -> Option<u32> {
        match self.spec_main_texture_size() {
            Some(size) => fit_u32(
                Some(mip_chain_size(size as int, self.spec_min_mipmap_size() as int, self.spec_num_mipmap_levels() as nat)),
            ),
            None => None,
        }
    }

    /// Array layers: the extended header's array size, else six faces of a cube map, else one.
    pub open spec fn spec_num_array_layers(&self) -> u32 {
        match self.header10 {
            Some(h) => h.array_size,
            None => if self.header.caps2.has(Caps2::CUBEMAP) { 6 } else { 1 },
        }
    }

    /// The byte range `[start, end)` that array layer `layer` takes in the data.
    pub open spec fn layer_span(&self, layer: u32) -> (int, int) {
        let stride = self.spec_array_stride()->0 as int;
        (layer * stride, layer * stride + stride)
    }

    /// Why locating array layer `layer` fails, if it does: the layer does not exist, the
    /// stride cannot be computed, or the layer's bytes run past the end of the data.
    pub open spec fn layer_fault(&self, layer: u32) -> Option<ErrorKind> {
        if layer >= self.spec_num_array_layers() {
            Some(ErrorKind::OutOfBounds)
        } else if self.spec_array_stride() is None {
            Some(ErrorKind::UnsupportedFormat)
        } else if self.layer_span(layer).1 > self.data@.len() {
            Some(ErrorKind::OutOfBounds)
        } else {
            None
        }
    }

    /// Attempt to get the format of this DDS, presuming it is a D3DFormat. Extended formats
    /// are not converted to equivalent legacy ones: a file described only by its extended
    /// header has no legacy format.
    pub fn get_d3d_format(&self) -> (r: Option<D3DFormat>)
        ensures
            r == self.spec_d3d_format(),
    {
        D3DFormat::try_from_pixel_format(&self.header.spf)
    }

    /// Attempt to get the format of this DDS, presuming it is a DxgiFormat: the extended
    /// header's, else the one a legacy four-character code names. Descriptors given by masks
    /// are not converted to equivalent extended formats.
    pub fn get_dxgi_format(&self) -> (r: Option<DxgiFormat>)
        ensures
            r == self.spec_dxgi_format(),
    {
        if let Some(h10) = &self.header10 {
            Some(h10.dxgi_format)
        } else {
            DxgiFormat::try_from_pixel_format(&self.header.spf)
        }
    }

    /// The format of the DDS, whichever enumeration it belongs to.
    pub fn get_format(&self) -> (r: Option<Format>)
        ensures
            r == self.spec_format(),
    {
        if let Some(h10) = &self.header10 {
            Some(Format::Dxgi(h10.dxgi_format))
        } else if let Some(d3d) = self.get_d3d_format() {
            Some(Format::D3d(d3d))
        } else if let Some(dxgi) = DxgiFormat::try_from_pixel_format(&self.header.spf) {
            Some(Format::Dxgi(dxgi))
        } else {
            None
        }
    }

    pub fn get_width(&self) -> (r: u32)
        ensures
            r == self.header.width,
    {
        self.header.width
    }

    pub fn get_height(&self) -> (r: u32)
        ensures
            r == self.header.height,
    {
        self.header.height
    }

    pub fn get_depth(&self) -> (r: u32)
        ensures
            r == or_one(self.header.depth),
    {
        self.header.depth.unwrap_or(1)
    }

    pub fn get_bits_per_pixel(&self) -> (r: Option<u32>)
        ensures
            r == self.spec_bits_per_pixel(),
    {
        if let Some(format) = self.get_format() {
            if let Some(bpp) = format.get_bits_per_pixel() {
                return Some(bpp as u32);
            }
        }
        self.header.spf.rgb_bit_count
    }

    pub fn get_pitch(&self) -> (r: Option<u32>)
        ensures
            r == self.spec_pitch(),
    {
        if let Some(format) = self.get_format() {
            if let Some(pitch) = format.get_pitch(self.header.width) {
                return Some(pitch);
            }
        }
        if let Some(pitch) = self.header.pitch {
            return Some(pitch);
        }
        if let Some(bpp) = self.get_bits_per_pixel() {
            let b64 = bpp as u64;
            let w64 = self.header.width as u64;
            assert(b64 * w64 <= 0xffff_ffffu64 * 0xffff_ffffu64) by (nonlinear_arith)
                requires
                    b64 <= 0xffff_ffffu64,
                    w64 <= 0xffff_ffffu64;
            let bits: u64 = b64 * w64;
            let bytes: u64 = (bits + 7) / 8;
            if bytes <= u32::MAX as u64 {
                return Some(bytes as u32);
            } else {
                return None;
            }
        }
        None
    }

    pub fn get_pitch_height(&self) -> (r: u32)
        ensures
            r == self.spec_pitch_height(),
    {
        if let Some(format) = self.get_format() {
            format.get_pitch_height()
        } else {
            1
        }
    }

    /// The size of the top mip level: the explicit linear size, else the header's explicit
    /// pitch, else the derived pitch, each times the row count and depth.
    pub fn get_main_texture_size(&self) -> (r: Option<u32>)
        ensures
            r == self.spec_main_texture_size(),
    {
        let pitch = if self.header.pitch.is_some() { self.header.pitch } else { self.get_pitch() };
        get_texture_size(
            pitch,
            self.header.linear_size,
            self.get_pitch_height(),
            self.header.height,
            self.header.depth,
        )
    }

    /// The bytes of one array layer; `UnsupportedFormat` where the main texture's size is
    /// unknown or the layer does not fit in 32 bits.
    pub fn get_array_stride(&self) -> (r: Result<u32, Error>)
        ensures
            match self.spec_array_stride() {
                Some(s) => r == Ok::<u32, Error>(s),
                None => r == Err::<u32, Error>(Error::UnsupportedFormat),
            },
    {
        let size = match self.get_main_texture_size() {
            Some(s) => s,
            None => return Err(Error::UnsupportedFormat),
        };
        let mml = self.get_num_mipmap_levels();
        let min_mipmap_size = self.get_min_mipmap_size_in_bytes();
        match get_array_stride(size, min_mipmap_size, mml) {
            Some(s) => Ok(s),
            None => Err(Error::UnsupportedFormat),
        }
    }

    pub fn get_num_array_layers(&self) -> (r: u32)
        ensures
            r == self.spec_num_array_layers(),
    {
        if let Some(h10) = &self.header10 {
            h10.array_size
        } else if self.header.caps2.contains(Caps2::CUBEMAP) {
            6
        } else {
            1
        }
    }

    pub fn get_num_mipmap_levels(&self) -> (r: u32)
        ensures
            r == self.spec_num_mipmap_levels(),
    {
        self.header.mip_map_count.unwrap_or(1)
    }

    pub fn get_min_mipmap_size_in_bytes(&self) -> (r: u32)
        ensures
            r == self.spec_min_mipmap_size(),
    {
        if let Some(format) = self.get_format() {
            if let Some(min) = format.get_minimum_mipmap_size_in_bytes() {
                return min;
            }
        }
        if let Some(bpp) = self.get_bits_per_pixel() {
            bpp / 8 + if bpp % 8 != 0 { 1 } else { 0 }
        } else {
            1
        }
    }

    /// Where array layer `array_layer` starts in the data, and how many bytes it takes.
    fn get_offset_and_size(&self, array_layer: u32) -> (r: Result<(u64, u64), Error>)
        ensures
            array_layer >= self.spec_num_array_layers() ==> r == Err::<(u64, u64), Error>(Error::OutOfBounds),
            array_layer < self.spec_num_array_layers() && self.spec_array_stride() is None
                ==> r == Err::<(u64, u64), Error>(Error::UnsupportedFormat),
            array_layer < self.spec_num_array_layers() && self.spec_array_stride() is Some
                ==> r is Ok && r->Ok_0.0 == self.layer_span(array_layer).0
                    && r->Ok_0.1 == self.spec_array_stride()->0
                    && r->Ok_0.0 + r->Ok_0.1 <= u64::MAX,
    {
        if array_layer >= self.get_num_array_layers() {
            return Err(Error::OutOfBounds);
        }
        let array_stride = match self.get_array_stride() {
            Ok(s) => s,
            Err(e) => return Err(e),
        };
        let l64 = array_layer as u64;
        let s64 = array_stride as u64;
        assert(l64 * s64 + s64 <= 0x1_0000_0000u64 * 0xffff_ffffu64) by (nonlinear_arith)
            requires
                l64 <= 0xffff_ffffu64,
                s64 <= 0xffff_ffffu64;
        Ok((array_layer as u64 * array_stride as u64, array_stride as u64))
    }

    /// The data of array layer `array_layer` (0 for textures with just one image): the
    /// layer's bytes with its whole mip chain.
    pub fn get_data(&self, array_layer: u32) -> (r: Result<&[u8], Error>)
        ensures
            match self.layer_fault(array_layer) {
                Some(k) => fails_with(r, k),
                None => r is Ok && r->Ok_0@ == self.data@.subrange(
                    self.layer_span(array_layer).0,
                    self.layer_span(array_layer).1,
                ),
            },
    {
        let (offset, size) = match self.get_offset_and_size(array_layer) {
            Ok(p) => p,
            Err(e) => return Err(e),
        };
        let len = self.data.len() as u64;
        if offset + size > len {
            return Err(Error::OutOfBounds);
        }
        Ok(slice_subrange(self.data.as_slice(), offset as usize, (offset + size) as usize))
    }

    /// The data of array layer `array_layer`, to be changed in place; it fails as
    /// `get_data` does, and then changes nothing.
    pub fn get_mut_data(&mut self, array_layer: u32) -> (r: Result<&mut [u8], Error>)
        ensures
            match old(self).layer_fault(array_layer) {
                Some(k) => fails_with(r, k) && *final(self) == *old(self),
                None => r is Ok && {
                    let (start, end) = old(self).layer_span(array_layer);
                    &&& (*r->Ok_0)@ == old(self).data@.subrange(start, end)
                    &&& final(self).header == old(self).header
                    &&& final(self).header10 == old(self).header10
                    &&& final(self).data@ == old(self).data@.subrange(0, start) + final(r->Ok_0)@
                        + old(self).data@.subrange(end, old(self).data@.len() as int)
                },
            },
    {
        let (offset, size) = match self.get_offset_and_size(array_layer) {
            Ok(p) => p,
            Err(e) => return Err(e),
        };
        let len = self.data.len() as u64;
        if offset + size > len {
            return Err(Error::OutOfBounds);
        }
        let whole = self.data.as_mut_slice();
        let (_, tail) = whole.split_at_mut(offset as usize);
        let (layer, _) = tail.split_at_mut(size as usize);
        Ok(layer)
    }

    /// A new texture in a legacy format, its data all zero: one array layer with its mip
    /// chain. It fails with `UnsupportedFormat` where the layout cannot be computed.
    pub fn new_d3d(params: NewD3dParams) -> (r: Result<Dds, Error>)
        ensures
            match new_layer_stride(params.format, params.width, params.height, params.depth, params.mipmap_levels) {
                None => fails_with(r, ErrorKind::UnsupportedFormat),
                Some(stride) => r is Ok && {
                    let d = r->Ok_0;
                    &&& Some(d.header) == fresh_header(
                        params.height,
                        params.width,
                        params.depth,
                        pixel_format_from_d3d(params.format),
                        fit_u32(pitch_spec(params.format.spec_is_packed(), params.format.spec_bits_per_pixel(), params.format.spec_block_size(), params.width as int)),
                        params.format.spec_block_size() is Some,
                        params.mipmap_levels,
                        false,
                        params.caps2,
                    )
                    &&& d.header10 is None
                    &&& d.data@ == Seq::new(stride as nat, |i: int| 0u8)
                },
            },
            r is Ok && (params.caps2 matches Some(c) ==> c.wf()) ==> r->Ok_0.valid(),
    {
        let size = match get_texture_size(
            params.format.get_pitch(params.width),
            None,
            params.format.get_pitch_height(),
            params.height,
            params.depth,
        ) {
            Some(s) => s,
            None => return Err(Error::UnsupportedFormat),
        };
        let mml = params.mipmap_levels.unwrap_or(1);
        let min_mipmap_size = match params.format.get_minimum_mipmap_size_in_bytes() {
            Some(mms) => mms,
            None => return Err(Error::UnsupportedFormat),
        };
        let array_stride = match get_array_stride(size, min_mipmap_size, mml) {
            Some(s) => s,
            None => return Err(Error::UnsupportedFormat),
        };
        let header = match Header::new_d3d(
            params.height,
            params.width,
            params.depth,
            params.format,
            params.mipmap_levels,
            params.caps2,
        ) {
            Ok(h) => h,
            Err(e) => return Err(e),
        };
        let data: Vec<u8> = vec![0u8; array_stride as usize];
        assert(data@ =~= Seq::new(array_stride as nat, |i: int| 0u8));
        proof {
            lemma_pixel_format_from_wf(params.format, DxgiFormat::Unknown);
            if params.caps2 matches Some(c) ==> c.wf() {
                lemma_fresh_header_wf(
                    params.height,
                    params.width,
                    params.depth,
                    pixel_format_from_d3d(params.format),
                    fit_u32(pitch_spec(params.format.spec_is_packed(), params.format.spec_bits_per_pixel(), params.format.spec_block_size(), params.width as int)),
                    params.format.spec_block_size() is Some,
                    params.mipmap_levels,
                    false,
                    params.caps2,
                );
            }
        }
        Ok(Dds { header, header10: None, data })
    }

    /// A new texture in an extended format, its data all zero: `array_layers` (default 1)
    /// layers, each with its mip chain. The extended header records the layer count, divided
    /// by six for a cube map. It fails with `UnsupportedFormat` where the layout cannot be
    /// computed or the data's size does not fit in 32 bits.
    pub fn new_dxgi(params: NewDxgiParams) -> (r: Result<Dds, Error>)
        ensures
            match new_layer_stride(params.format, params.width, params.height, params.depth, params.mipmap_levels) {
                None => fails_with(r, ErrorKind::UnsupportedFormat),
                Some(stride) => {
                    let layers = or_one(params.array_layers);
                    if layers * stride > u32::MAX {
                        fails_with(r, ErrorKind::UnsupportedFormat)
                    } else {
                        r is Ok && {
                            let d = r->Ok_0;
                            &&& Some(d.header) == fresh_header(
                                params.height,
                                params.width,
                                params.depth,
                                pixel_format_from_dxgi(params.format),
                                fit_u32(pitch_spec(params.format.spec_is_packed(), params.format.spec_bits_per_pixel(), params.format.spec_block_size(), params.width as int)),
                                params.format.spec_block_size() is Some,
                                params.mipmap_levels,
                                params.array_layers matches Some(a) && a > 1,
                                params.caps2,
                            )
                            &&& d.header10 == Some(Header10 {
                                dxgi_format: params.format,
                                resource_dimension: params.resource_dimension,
                                misc_flag: MiscFlag { bits: if params.is_cubemap { MiscFlag::TEXTURECUBE } else { 0 } },
                                array_size: if params.is_cubemap { layers / 6 } else { layers },
                                alpha_mode: params.alpha_mode,
                            })
                            &&& d.data@ == Seq::new((layers * stride) as nat, |i: int| 0u8)
                        }
                    }
                },
            },
            r is Ok && (params.caps2 matches Some(c) ==> c.wf()) ==> r->Ok_0.valid(),
    {
        let arraysize = params.array_layers.unwrap_or(1);
        let size = match get_texture_size(
            params.format.get_pitch(params.width),
            None,
            params.format.get_pitch_height(),
            params.height,
            params.depth,
        ) {
            Some(s) => s,
            None => return Err(Error::UnsupportedFormat),
        };
        let mml = params.mipmap_levels.unwrap_or(1);
        let min_mipmap_size = match params.format.get_minimum_mipmap_size_in_bytes() {
            Some(mms) => mms,
            None => return Err(Error::UnsupportedFormat),
        };
        let array_stride = match get_array_stride(size, min_mipmap_size, mml) {
            Some(s) => s,
            None => return Err(Error::UnsupportedFormat),
        };
        let data_size = match arraysize.checked_mul(array_stride) {
            Some(s) => s,
            None => return Err(Error::UnsupportedFormat),
        };
        let recorded_layers = if params.is_cubemap { arraysize / 6 } else { arraysize };
        let header10 = Header10::new(
            params.format,
            params.is_cubemap,
            params.resource_dimension,
            recorded_layers,
            params.alpha_mode,
        );
        let header = match Header::new_dxgi(
            params.height,
            params.width,
            params.depth,
            params.format,
            params.mipmap_levels,
            params.array_layers,
            params.caps2,
        ) {
            Ok(h) => h,
            Err(e) => return Err(e),
        };
        let data: Vec<u8> = vec![0u8; data_size as usize];
        assert(data@ =~= Seq::new(data_size as nat, |i: int| 0u8));
        proof {
            lemma_pixel_format_from_wf(D3DFormat::DXT1, params.format);
            if params.caps2 matches Some(c) ==> c.wf() {
                lemma_fresh_header_wf(
                    params.height,
                    params.width,
                    params.depth,
                    pixel_format_from_dxgi(params.format),
                    fit_u32(pitch_spec(params.format.spec_is_packed(), params.format.spec_bits_per_pixel(), params.format.spec_block_size(), params.width as int)),
                    params.format.spec_block_size() is Some,
                    params.mipmap_levels,
                    params.array_layers matches Some(a) && a > 1,
                    params.caps2,
                );
            }
            assert(0u32 & !0x4u32 == 0 && 0x4u32 & !0x4u32 == 0) by (bit_vector);
        }
        Ok(Dds { header, header10: Some(header10), data })
    }
}

/// Writing a valid container and reading the bytes back gives the same primary header
/// (reserved and unused words included), the same extended header and the same pixel data.
#[verifier::spinoff_prover]
#[verifier::rlimit(40)]
pub proof fn lemma_write_then_read(d: Dds)
    requires
        d.valid(),
    ensures
        decodes_to(d.spec_bytes(), d.header, d.header10, d.data@),
{
    let hw = header_words(d.header);
    let ext = match d.header10 {
        Some(h) => if announces_extension(d.header) { words_to_bytes(header10_words(h)) } else { Seq::empty() },
        None => Seq::empty(),
    };
    let rest = ext + d.data@;
    let b = d.spec_bytes();
    lemma_words_to_bytes_append(seq![MAGIC], hw);
    lemma_words_to_bytes_len(seq![MAGIC]);
    lemma_words_to_bytes_len(hw);
    assert(b =~= words_to_bytes(seq![MAGIC] + hw) + rest);
    lemma_word_at_words(seq![MAGIC] + hw, rest, 0);
    let after_magic = b.subrange(4, b.len() as int);
    assert(after_magic =~= words_to_bytes(hw) + rest);
    lemma_header_round_trip(d.header, rest);
    if announces_extension(d.header) {
        let h10 = d.header10->0;
        lemma_words_to_bytes_len(header10_words(h10));
        assert(b.subrange(128, b.len() as int) =~= words_to_bytes(header10_words(h10)) + d.data@);
        lemma_header10_round_trip(h10, d.data@);
        assert(b.subrange(148, b.len() as int) =~= d.data@);
    } else {
        assert(b.subrange(128, b.len() as int) =~= d.data@);
    }
}

/// Array layers at or past the layer count are out of bounds; each layer ends exactly where
/// the next one begins; and where the stride is known and the data holds every layer, every
/// layer below the count is found.
pub proof fn lemma_layer_bounds(d: Dds, k: u32)
    ensures
        k >= d.spec_num_array_layers() ==> d.layer_fault(k) == Some(ErrorKind::OutOfBounds),
        k < u32::MAX ==> d.layer_span(k).1 == d.layer_span((k + 1) as u32).0,
        k < d.spec_num_array_layers() && d.spec_array_stride() is Some
            && d.spec_num_array_layers() * d.spec_array_stride()->0 <= d.data@.len()
            ==> d.layer_fault(k) is None,
{
    let s = d.spec_array_stride()->0 as int;
    let n = d.spec_num_array_layers() as int;
    assert(k * s + s == (k + 1) * s) by (nonlinear_arith);
    if k < n && s >= 0 {
        assert((k + 1) * s <= n * s) by (nonlinear_arith)
            requires
                k + 1 <= n,
                s >= 0;
    }
}

/// A file whose first four bytes are not the magic number fails with `BadMagicNumber`,
/// whatever follows them.
pub proof fn lemma_bad_magic(b: Seq<u8>)
    requires
        b.len() >= 4,
        word_at(b, 0) != MAGIC,
    ensures
        dds_fault(b) == Some(ErrorKind::BadMagicNumber),
{
}

/// A container whose header does not announce the extended header is written without
/// one, whatever its other fields hold.
pub proof fn lemma_write_without_extension(d: Dds)
    requires
        !announces_extension(d.header),
    ensures
        d.spec_bytes() == words_to_bytes(seq![MAGIC] + header_words(d.header)) + d.data@,
{
    let front = words_to_bytes(seq![MAGIC] + header_words(d.header));
    assert(d.spec_bytes() =~= front + d.data@);
}

/// A file whose header does not announce the extended header is read without one: the
/// pixel data starts right after the primary header.
pub proof fn lemma_read_without_extension(b: Seq<u8>, header: Header, header10: Option<Header10>, data: Seq<u8>)
    requires
        decodes_to(b, header, header10, data),
        !announces_extension(header),
    ensures
        header10 is None,
        data == b.subrange(128, b.len() as int),
{
}

} // verus!
