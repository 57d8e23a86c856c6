use ddsfile::{
    AlphaMode, D3D10ResourceDimension, D3DFormat, Dds, DxgiFormat, ErrorKind, FourCC, Header,
    Header10, NewD3dParams, NewDxgiParams, PixelFormat, PixelFormatFlags,
};

fn sample_d3d() -> Dds {
    let mut dds = Dds::new_d3d(NewD3dParams {
        height: 2,
        width: 3,
        depth: None,
        format: D3DFormat::A8R8G8B8,
        mipmap_levels: Some(2),
        caps2: None,
    })
    .unwrap();
    for (i, b) in dds.data.iter_mut().enumerate() {
        *b = (i * 7) as u8;
    }
    dds
}

fn sample_dxgi() -> Dds {
    let mut dds = Dds::new_dxgi(NewDxgiParams {
        height: 8,
        width: 8,
        depth: None,
        format: DxgiFormat::BC7_UNorm,
        mipmap_levels: None,
        array_layers: Some(2),
        caps2: None,
        is_cubemap: false,
        resource_dimension: D3D10ResourceDimension::Texture2D,
        alpha_mode: AlphaMode::Straight,
    })
    .unwrap();
    for (i, b) in dds.data.iter_mut().enumerate() {
        *b = (i * 3 + 1) as u8;
    }
    dds
}

fn bytes_of(dds: &Dds) -> Vec<u8> {
    let mut out = Vec::new();
    dds.write(&mut out);
    out
}

fn word(bytes: &[u8], i: usize) -> u32 {
    u32::from_le_bytes([bytes[4 * i], bytes[4 * i + 1], bytes[4 * i + 2], bytes[4 * i + 3]])
}

fn assert_same_header(a: &Header, b: &Header) {
    assert_eq!(a.size, b.size);
    assert_eq!(a.flags, b.flags);
    assert_eq!(a.height, b.height);
    assert_eq!(a.width, b.width);
    assert_eq!(a.pitch, b.pitch);
    assert_eq!(a.linear_size, b.linear_size);
    assert_eq!(a.depth, b.depth);
    assert_eq!(a.mip_map_count, b.mip_map_count);
    assert_eq!(a.reserved1, b.reserved1);
    assert_eq!(a.spf.size, b.spf.size);
    assert_eq!(a.spf.flags, b.spf.flags);
    assert_eq!(a.spf.fourcc, b.spf.fourcc);
    assert_eq!(a.spf.rgb_bit_count, b.spf.rgb_bit_count);
    assert_eq!(a.spf.r_bit_mask, b.spf.r_bit_mask);
    assert_eq!(a.spf.g_bit_mask, b.spf.g_bit_mask);
    assert_eq!(a.spf.b_bit_mask, b.spf.b_bit_mask);
    assert_eq!(a.spf.a_bit_mask, b.spf.a_bit_mask);
    assert_eq!(a.caps, b.caps);
    assert_eq!(a.caps2, b.caps2);
    assert_eq!(a.caps3, b.caps3);
    assert_eq!(a.caps4, b.caps4);
    assert_eq!(a.reserved2, b.reserved2);
}

#[test]
fn round_trip_legacy() {
    let mut dds = sample_d3d();
    dds.header.reserved1[3] = 0xdead_beef;
    dds.header.caps3 = 17;
    dds.header.caps4 = 18;
    dds.header.reserved2 = 19;
    let bytes = bytes_of(&dds);
    assert_eq!(bytes.len(), 128 + dds.data.len());
    let back = Dds::read(&bytes).unwrap();
    assert_same_header(&back.header, &dds.header);
    assert!(back.header10.is_none());
    assert_eq!(back.data, dds.data);
}

#[test]
fn round_trip_extended() {
    let dds = sample_dxgi();
    let bytes = bytes_of(&dds);
    assert_eq!(bytes.len(), 148 + dds.data.len());
    let back = Dds::read(&bytes).unwrap();
    assert_same_header(&back.header, &dds.header);
    assert_eq!(back.header10, dds.header10);
    assert_eq!(back.data, dds.data);
    assert_eq!(back.get_num_array_layers(), 2);
    assert_eq!(back.get_data(1).unwrap(), &dds.data[64..128]);
}

#[test]
fn wire_layout_is_little_endian() {
    let dds = sample_d3d();
    let bytes = bytes_of(&dds);
    assert_eq!(&bytes[0..4], b"DDS ");
    assert_eq!(word(&bytes, 1), 124);
    assert_eq!(word(&bytes, 3), 2);
    assert_eq!(word(&bytes, 4), 3);
    assert_eq!(word(&bytes, 5), 12);
    assert_eq!(word(&bytes, 7), 2);
    assert_eq!(word(&bytes, 19), 32);
    assert_eq!(word(&bytes, 20), PixelFormatFlags::RGB | PixelFormatFlags::ALPHA_PIXELS);
    assert_eq!(word(&bytes, 23), 0x00ff_0000);
    assert_eq!(word(&bytes, 26), 0xff00_0000);
    assert_eq!(&bytes[128..], &dds.data[..]);
}

#[test]
fn flags_follow_optional_fields_on_write() {
    let mut dds = sample_d3d();
    dds.header.pitch = None;
    dds.header.linear_size = Some(77);
    dds.header.depth = Some(1);
    let bytes = bytes_of(&dds);
    let flags = word(&bytes, 2);
    assert_eq!(flags & ddsfile::HeaderFlags::PITCH, 0);
    assert_ne!(flags & ddsfile::HeaderFlags::LINEARSIZE, 0);
    assert_ne!(flags & ddsfile::HeaderFlags::DEPTH, 0);
    assert_eq!(word(&bytes, 5), 77);
    let back = Dds::read(&bytes).unwrap();
    assert_eq!(back.header.pitch, None);
    assert_eq!(back.header.linear_size, Some(77));
    assert_eq!(back.header.depth, Some(1));
}

#[test]
fn bad_magic_is_reported() {
    let mut bytes = bytes_of(&sample_d3d());
    bytes[0] = b'X';
    assert_eq!(Dds::read(&bytes).err().map(|e| e.kind()), Some(ErrorKind::BadMagicNumber));
    let only_magic = vec![0x44u8, 0x44, 0x53, 0x21];
    assert_eq!(Dds::read(&only_magic).err().map(|e| e.kind()), Some(ErrorKind::BadMagicNumber));
    assert_eq!(Dds::read(&[0x44u8, 0x44]).err().map(|e| e.kind()), Some(ErrorKind::ShortFile));
}

#[test]
fn truncated_and_invalid_headers() {
    let bytes = bytes_of(&sample_d3d());
    assert_eq!(Dds::read(&bytes[..100]).err().map(|e| e.kind()), Some(ErrorKind::ShortFile));
    assert_eq!(Dds::read(&bytes[..4]).err().map(|e| e.kind()), Some(ErrorKind::ShortFile));
    let mut wrong_size = bytes.clone();
    wrong_size[4] = 120;
    assert_eq!(Dds::read(&wrong_size).err().map(|e| e.kind()), Some(ErrorKind::InvalidField));
    let mut wrong_pf = bytes.clone();
    wrong_pf[76] = 31;
    assert_eq!(Dds::read(&wrong_pf).err().map(|e| e.kind()), Some(ErrorKind::InvalidField));
    let header_only = &bytes[..128];
    let back = Dds::read(header_only).unwrap();
    assert!(back.data.is_empty());
    assert_eq!(back.get_data(0).unwrap_err().kind(), ErrorKind::OutOfBounds);
}

#[test]
fn extended_header_errors() {
    let bytes = bytes_of(&sample_dxgi());
    assert_eq!(Dds::read(&bytes[..140]).err().map(|e| e.kind()), Some(ErrorKind::ShortFile));
    let mut bad_format = bytes.clone();
    bad_format[128..132].copy_from_slice(&200u32.to_le_bytes());
    assert_eq!(Dds::read(&bad_format).err().map(|e| e.kind()), Some(ErrorKind::InvalidField));
    let mut bad_dimension = bytes.clone();
    bad_dimension[132..136].copy_from_slice(&5u32.to_le_bytes());
    assert_eq!(Dds::read(&bad_dimension).err().map(|e| e.kind()), Some(ErrorKind::InvalidField));
    let mut bad_alpha = bytes.clone();
    bad_alpha[144..148].copy_from_slice(&9u32.to_le_bytes());
    assert_eq!(Dds::read(&bad_alpha).err().map(|e| e.kind()), Some(ErrorKind::InvalidField));
    assert!(Header10::read(&bytes[128..140]).is_err());
    let h10 = Header10::read(&bytes[128..]).unwrap();
    assert_eq!(h10.dxgi_format, DxgiFormat::BC7_UNorm);
    assert_eq!(h10.alpha_mode, AlphaMode::Straight);
    assert_eq!(h10.array_size, 2);
}

#[test]
fn extension_only_with_its_code() {
    let mut dds = sample_d3d();
    dds.header10 = Some(Header10::new(
        DxgiFormat::BC7_UNorm,
        false,
        D3D10ResourceDimension::Texture2D,
        4,
        AlphaMode::Opaque,
    ));
    let bytes = bytes_of(&dds);
    assert_eq!(bytes.len(), 128 + dds.data.len());
    let back = Dds::read(&bytes).unwrap();
    assert!(back.header10.is_none());
    assert_eq!(back.data, dds.data);

    let mut dds = sample_dxgi();
    dds.header.spf.fourcc = Some(FourCC(FourCC::DXT1));
    let bytes = bytes_of(&dds);
    assert_eq!(bytes.len(), 128 + dds.data.len());
}

#[test]
fn legacy_inference_from_masks() {
    let mut pf = PixelFormat::default();
    pf.flags = PixelFormatFlags::from_bits_truncate(PixelFormatFlags::RGB | PixelFormatFlags::ALPHA_PIXELS);
    pf.rgb_bit_count = Some(32);
    pf.r_bit_mask = Some(0x00ff_0000);
    pf.g_bit_mask = Some(0x0000_ff00);
    pf.b_bit_mask = Some(0x0000_00ff);
    pf.a_bit_mask = Some(0xff00_0000);
    assert_eq!(D3DFormat::try_from_pixel_format(&pf), Some(D3DFormat::A8R8G8B8));
    pf.a_bit_mask = Some(0x0f00_0000);
    assert_eq!(D3DFormat::try_from_pixel_format(&pf), None);
    pf.a_bit_mask = None;
    pf.flags = PixelFormatFlags::from_bits_truncate(PixelFormatFlags::RGB);
    assert_eq!(D3DFormat::try_from_pixel_format(&pf), Some(D3DFormat::X8R8G8B8));
    let mut a8 = PixelFormat::default();
    a8.flags = PixelFormatFlags::from_bits_truncate(PixelFormatFlags::ALPHA);
    a8.a_bit_mask = Some(0xff);
    assert_eq!(D3DFormat::try_from_pixel_format(&a8), Some(D3DFormat::A8));
    a8.rgb_bit_count = Some(8);
    assert_eq!(D3DFormat::try_from_pixel_format(&a8), Some(D3DFormat::A8));
    a8.rgb_bit_count = Some(16);
    assert_eq!(D3DFormat::try_from_pixel_format(&a8), None);
}

#[test]
fn inference_from_fourcc() {
    let mut pf = PixelFormat::default();
    pf.flags = PixelFormatFlags::from_bits_truncate(PixelFormatFlags::FOURCC);
    pf.fourcc = Some(FourCC(FourCC::DXT3));
    assert_eq!(D3DFormat::try_from_pixel_format(&pf), Some(D3DFormat::DXT3));
    assert_eq!(DxgiFormat::try_from_pixel_format(&pf), Some(DxgiFormat::BC2_UNorm));
    pf.fourcc = Some(FourCC(FourCC::DX10));
    assert_eq!(D3DFormat::try_from_pixel_format(&pf), None);
    assert_eq!(DxgiFormat::try_from_pixel_format(&pf), None);
    pf.fourcc = Some(FourCC(FourCC::BC5_UNORM));
    assert_eq!(D3DFormat::try_from_pixel_format(&pf), None);
    assert_eq!(DxgiFormat::try_from_pixel_format(&pf), Some(DxgiFormat::BC5_UNorm));
}

#[test]
fn descriptor_of_a_format() {
    let pf = PixelFormat::from(D3DFormat::DXT5);
    assert_eq!(pf.fourcc, Some(FourCC(FourCC::DXT5)));
    assert_eq!(pf.rgb_bit_count, None);
    assert!(pf.flags.contains(PixelFormatFlags::FOURCC));
    let pf = PixelFormat::from(D3DFormat::R5G6B5);
    assert_eq!(pf.rgb_bit_count, Some(16));
    assert_eq!(pf.r_bit_mask, Some(0xf800));
    assert_eq!(pf.a_bit_mask, None);
    assert_eq!(D3DFormat::try_from_pixel_format(&pf), Some(D3DFormat::R5G6B5));
    let pf = PixelFormat::from(DxgiFormat::R8G8B8A8_UNorm);
    assert_eq!(pf.fourcc, Some(FourCC(FourCC::DX10)));
    assert_eq!(pf.rgb_bit_count, Some(32));
}

#[test]
fn flag_sets_drop_unknown_bits() {
    let f = PixelFormatFlags::from_bits_truncate(0xffff_ffff);
    assert_eq!(f.bits(), 0x20247);
    let mut g = PixelFormatFlags::empty();
    g.insert(PixelFormatFlags::RGB | 0x8000_0000);
    assert_eq!(g.bits(), PixelFormatFlags::RGB);
    assert!(g.contains(PixelFormatFlags::RGB));
    assert!(!g.contains(PixelFormatFlags::FOURCC));
}
