use ddsfile::{
    AlphaMode, Caps, Caps2, D3D10ResourceDimension, D3DFormat, DataFormat, Dds, DxgiFormat,
    ErrorKind, Header, Header10, HeaderFlags, MiscFlag, NewD3dParams, NewDxgiParams, PixelFormat,
    PixelFormatFlags,
};

#[test]
fn irregular_formats_have_no_bit_depth() {
    assert_eq!(DxgiFormat::R8G8B8A8_Typeless.get_bits_per_pixel(), None);
    assert_eq!(DxgiFormat::NV12.get_bits_per_pixel(), None);
    assert_eq!(DxgiFormat::YUY2.get_pitch(4), None);
    assert_eq!(DxgiFormat::Unknown.get_bits_per_pixel(), None);
    assert_eq!(D3DFormat::UYVY.get_bits_per_pixel(), None);
    assert_eq!(D3DFormat::YUY2.get_minimum_mipmap_size_in_bytes(), None);
    assert_eq!(DxgiFormat::R8G8B8A8_UNorm.get_bits_per_pixel(), Some(32));
    assert_eq!(DxgiFormat::R9G9B9E5_SharedExp.get_bits_per_pixel(), Some(32));
}

#[test]
fn header_of_new_legacy_texture() {
    let h = Header::new_d3d(8, 4, Some(2), D3DFormat::A8R8G8B8, Some(1), None).unwrap();
    assert_eq!(h.size, 124);
    assert_eq!(h.pitch, Some(16));
    assert_eq!(h.linear_size, None);
    assert_eq!(h.depth, Some(2));
    assert_eq!(h.mip_map_count, Some(1));
    assert!(h.flags.contains(HeaderFlags::PITCH));
    assert!(h.flags.contains(HeaderFlags::DEPTH));
    assert!(h.flags.contains(HeaderFlags::MIPMAPCOUNT));
    assert!(!h.flags.contains(HeaderFlags::LINEARSIZE));
    assert!(h.caps.contains(Caps::TEXTURE));
    assert!(h.caps.contains(Caps::COMPLEX));
    assert!(!h.caps.contains(Caps::MIPMAP));
    assert_eq!(h.caps2.bits(), 0);
}

#[test]
fn header_of_new_compressed_texture() {
    let h = Header::new_d3d(10, 10, Some(3), D3DFormat::DXT5, Some(4), Some(Caps2 { bits: Caps2::VOLUME }))
        .unwrap();
    assert_eq!(h.pitch, None);
    assert_eq!(h.linear_size, Some(48 * 3 * 3));
    assert!(h.flags.contains(HeaderFlags::LINEARSIZE));
    assert!(h.caps.contains(Caps::MIPMAP | Caps::COMPLEX));
    assert_eq!(h.caps2.bits(), Caps2::VOLUME);
    assert_eq!(h.spf.fourcc.map(|c| c.0), Some(0x35545844));
    let e = Header::new_d3d(4, 4, None, D3DFormat::UYVY, None, None).unwrap_err();
    assert_eq!(e.kind(), ErrorKind::UnsupportedFormat);
}

#[test]
fn header_of_new_extended_texture() {
    let h = Header::new_dxgi(4, 4, None, DxgiFormat::BC1_UNorm, None, Some(2), None).unwrap();
    assert_eq!(h.linear_size, Some(8));
    assert!(h.caps.contains(Caps::COMPLEX));
    assert_eq!(h.spf.fourcc.map(|c| c.0), Some(0x30315844));
    assert!(h.spf.flags.contains(PixelFormatFlags::FOURCC));
    let e = Header::new_dxgi(4, 4, None, DxgiFormat::Unknown, None, None, None).unwrap_err();
    assert_eq!(e.kind(), ErrorKind::UnsupportedFormat);
}

#[test]
fn header_round_trip_alone() {
    let h = Header::new_d3d(3, 5, None, D3DFormat::R5G6B5, Some(3), None).unwrap();
    let mut bytes = Vec::new();
    h.write(&mut bytes);
    assert_eq!(bytes.len(), 124);
    let back = Header::read(&bytes).unwrap();
    assert_eq!(back.pitch, Some(10));
    assert_eq!(back.mip_map_count, Some(3));
    assert_eq!(back.spf.r_bit_mask, Some(0xf800));
    assert_eq!(back.flags, h.flags);
    assert_eq!(Header::read(&bytes[..123]).unwrap_err().kind(), ErrorKind::ShortFile);
    assert_eq!(Header::read(&bytes[..2]).unwrap_err().kind(), ErrorKind::ShortFile);
}

#[test]
fn pixel_format_round_trip_alone() {
    let pf = PixelFormat::from(D3DFormat::A4L4);
    let mut bytes = Vec::new();
    pf.write(&mut bytes);
    assert_eq!(bytes.len(), 32);
    let back = PixelFormat::read(&bytes).unwrap();
    assert_eq!(back.flags, pf.flags);
    assert_eq!(back.rgb_bit_count, Some(8));
    assert_eq!(back.r_bit_mask, Some(0x0f));
    assert_eq!(back.g_bit_mask, Some(0));
    assert_eq!(back.a_bit_mask, Some(0xf0));
    assert_eq!(PixelFormat::read(&bytes[..31]).unwrap_err().kind(), ErrorKind::ShortFile);
    let mut wrong = bytes.clone();
    wrong[0] = 33;
    assert_eq!(PixelFormat::read(&wrong).unwrap_err().kind(), ErrorKind::InvalidField);
}

#[test]
fn luminance_masks_are_read_with_their_flag() {
    let mut bytes = vec![0u8; 32];
    bytes[0] = 32;
    bytes[4..8].copy_from_slice(&PixelFormatFlags::LUMINANCE.to_le_bytes());
    bytes[12] = 8;
    bytes[16] = 0xff;
    let pf = PixelFormat::read(&bytes).unwrap();
    assert_eq!(pf.rgb_bit_count, Some(8));
    assert_eq!(pf.r_bit_mask, Some(0xff));
    assert_eq!(pf.g_bit_mask, Some(0));
    assert_eq!(pf.a_bit_mask, None);
    assert_eq!(pf.fourcc, None);
}

#[test]
fn extended_header_values() {
    let d = Header10::default();
    assert_eq!(d.dxgi_format, DxgiFormat::Unknown);
    assert_eq!(d.array_size, 0);
    let h = Header10::new(DxgiFormat::BC3_UNorm, true, D3D10ResourceDimension::Texture2D, 1, AlphaMode::PreMultiplied);
    assert!(h.misc_flag.contains(MiscFlag::TEXTURECUBE));
    let mut bytes = Vec::new();
    h.write(&mut bytes);
    assert_eq!(bytes, vec![77, 0, 0, 0, 3, 0, 0, 0, 4, 0, 0, 0, 1, 0, 0, 0, 2, 0, 0, 0]);
    assert_eq!(Header10::read(&bytes).unwrap(), h);
    assert_eq!(D3D10ResourceDimension::from_u32(4), Some(D3D10ResourceDimension::Texture3D));
    assert_eq!(D3D10ResourceDimension::from_u32(5), None);
    assert_eq!(AlphaMode::from_u32(4), Some(AlphaMode::Custom));
    assert_eq!(AlphaMode::Opaque.to_u32(), 3);
}

#[test]
fn default_header_values() {
    let h = Header::default();
    assert_eq!(h.size, 124);
    assert_eq!(
        h.flags.bits(),
        HeaderFlags::CAPS | HeaderFlags::HEIGHT | HeaderFlags::WIDTH | HeaderFlags::PIXELFORMAT
    );
    assert_eq!(h.caps.bits(), Caps::TEXTURE);
    assert_eq!(h.reserved1, [0; 11]);
    assert_eq!(h.spf.size, 32);
}

#[test]
fn cubemap_array_records_sixth() {
    let dds = Dds::new_dxgi(NewDxgiParams {
        height: 1,
        width: 1,
        depth: None,
        format: DxgiFormat::R8G8B8A8_UNorm,
        mipmap_levels: None,
        array_layers: Some(12),
        caps2: Some(Caps2 { bits: Caps2::CUBEMAP }),
        is_cubemap: true,
        resource_dimension: D3D10ResourceDimension::Texture2D,
        alpha_mode: AlphaMode::Unknown,
    })
    .unwrap();
    assert_eq!(dds.data.len(), 48);
    assert_eq!(dds.header10.unwrap().array_size, 2);
    assert_eq!(dds.get_num_array_layers(), 2);
}

#[test]
fn layout_falls_back_to_header_fields() {
    let mut dds = Dds::new_d3d(NewD3dParams {
        height: 2,
        width: 3,
        depth: None,
        format: D3DFormat::A8R8G8B8,
        mipmap_levels: None,
        caps2: None,
    })
    .unwrap();
    dds.header.spf = PixelFormat::default();
    dds.header.spf.flags = PixelFormatFlags::from_bits_truncate(PixelFormatFlags::RGB);
    dds.header.spf.rgb_bit_count = Some(24);
    dds.header.spf.r_bit_mask = Some(0x1);
    dds.header.spf.g_bit_mask = Some(0x2);
    dds.header.spf.b_bit_mask = Some(0x4);
    assert_eq!(dds.get_format(), None);
    assert_eq!(dds.get_bits_per_pixel(), Some(24));
    assert_eq!(dds.get_pitch(), Some(12));
    dds.header.pitch = None;
    assert_eq!(dds.get_pitch(), Some(9));
    assert_eq!(dds.get_min_mipmap_size_in_bytes(), 3);
    assert_eq!(dds.get_pitch_height(), 1);
    assert_eq!(dds.get_main_texture_size(), Some(18));
    assert_eq!(dds.get_depth(), 1);
    assert_eq!(dds.get_width(), 3);
    assert_eq!(dds.get_height(), 2);
}
