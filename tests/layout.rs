use ddsfile::{
    get_array_stride, get_texture_size, AlphaMode, Caps2, D3D10ResourceDimension, D3DFormat,
    DataFormat, Dds, DxgiFormat, ErrorKind, Format, NewD3dParams, NewDxgiParams,
};

fn d3d_params(format: D3DFormat, width: u32, height: u32) -> NewD3dParams {
    NewD3dParams {
        height,
        width,
        depth: None,
        format,
        mipmap_levels: None,
        caps2: None,
    }
}

fn dxgi_params(format: DxgiFormat, width: u32, height: u32, layers: Option<u32>) -> NewDxgiParams {
    NewDxgiParams {
        height,
        width,
        depth: None,
        format,
        mipmap_levels: None,
        array_layers: layers,
        caps2: None,
        is_cubemap: false,
        resource_dimension: D3D10ResourceDimension::Texture2D,
        alpha_mode: AlphaMode::Unknown,
    }
}

#[test]
fn packed_pitch_ignores_bit_depth() {
    for width in [0u32, 1, 2, 3, 7, 100, 1023] {
        let expected = ((width + 1) >> 1) * 4;
        let generic_d3d = (width * 32 + 7) / 8;
        let generic_dxgi = (width * 16 + 7) / 8;
        assert_eq!(D3DFormat::R8G8_B8G8.get_pitch(width), Some(expected));
        assert_eq!(D3DFormat::G8R8_G8B8.get_pitch(width), Some(expected));
        assert_eq!(DxgiFormat::R8G8_B8G8_UNorm.get_pitch(width), Some(expected));
        assert_eq!(DxgiFormat::G8R8_G8B8_UNorm.get_pitch(width), Some(expected));
        if width % 2 == 1 {
            assert_ne!(DxgiFormat::R8G8_B8G8_UNorm.get_pitch(width), Some(generic_dxgi));
        }
        if width > 1 {
            assert_ne!(D3DFormat::R8G8_B8G8.get_pitch(width), Some(generic_d3d));
        }
    }
    assert_eq!(D3DFormat::R8G8_B8G8.get_pitch(0), Some(0));
    assert_eq!(D3DFormat::R8G8_B8G8.get_pitch(1), Some(4));
}

#[test]
fn pitch_from_bits_and_blocks() {
    assert_eq!(D3DFormat::A8R8G8B8.get_pitch(10), Some(40));
    assert_eq!(D3DFormat::R8G8B8.get_pitch(3), Some(9));
    assert_eq!(DxgiFormat::R1_UNorm.get_pitch(9), Some(2));
    assert_eq!(D3DFormat::DXT1.get_pitch(1), Some(8));
    assert_eq!(D3DFormat::DXT1.get_pitch(0), Some(8));
    assert_eq!(D3DFormat::DXT5.get_pitch(16), Some(64));
    assert_eq!(DxgiFormat::BC7_UNorm.get_pitch(17), Some(80));
    assert_eq!(DxgiFormat::Unknown.get_pitch(16), None);
    assert_eq!(D3DFormat::A32B32G32R32F.get_pitch(u32::MAX), None);
}

#[test]
fn pitch_height_and_minimum_mip() {
    assert_eq!(D3DFormat::DXT3.get_pitch_height(), 4);
    assert_eq!(D3DFormat::L8.get_pitch_height(), 1);
    assert_eq!(D3DFormat::A8R8G8B8.get_minimum_mipmap_size_in_bytes(), Some(4));
    assert_eq!(D3DFormat::R8G8B8.get_minimum_mipmap_size_in_bytes(), Some(3));
    assert_eq!(D3DFormat::DXT1.get_minimum_mipmap_size_in_bytes(), Some(8));
    assert_eq!(DxgiFormat::R1_UNorm.get_minimum_mipmap_size_in_bytes(), Some(1));
    assert_eq!(DxgiFormat::BC5_UNorm.get_minimum_mipmap_size_in_bytes(), Some(16));
    assert_eq!(DxgiFormat::Unknown.get_minimum_mipmap_size_in_bytes(), None);
}

#[test]
fn format_properties() {
    assert_eq!(D3DFormat::A8R8G8B8.get_bits_per_pixel(), Some(32));
    assert_eq!(D3DFormat::DXT1.get_bits_per_pixel(), None);
    assert_eq!(D3DFormat::DXT1.get_block_size(), Some(8));
    assert_eq!(D3DFormat::DXT4.get_block_size(), Some(16));
    assert_eq!(D3DFormat::DXT5.get_fourcc().map(|c| c.0), Some(0x35545844));
    assert_eq!(D3DFormat::L8.get_fourcc(), None);
    assert!(!D3DFormat::A32B32G32R32F.requires_extension());
    assert!(DxgiFormat::R32G32B32A32_Float.requires_extension());
    assert!(DxgiFormat::BC7_UNorm_sRGB.requires_extension());
    assert!(DxgiFormat::R1_UNorm.requires_extension());
    assert!(!DxgiFormat::BC7_UNorm.requires_extension());
    assert!(!DxgiFormat::R8G8B8A8_UNorm.requires_extension());
    assert_eq!(DxgiFormat::R32G32B32_Float.get_bits_per_pixel(), Some(96));
    assert_eq!(DxgiFormat::BC4_SNorm.get_fourcc().map(|c| c.0), Some(0x53344342));
    assert_eq!(D3DFormat::A8R8G8B8.r_bit_mask(), Some(0x00ff_0000));
    assert_eq!(D3DFormat::A8R8G8B8.g_bit_mask(), Some(0x0000_ff00));
    assert_eq!(D3DFormat::A8R8G8B8.b_bit_mask(), Some(0x0000_00ff));
    assert_eq!(D3DFormat::A8R8G8B8.a_bit_mask(), Some(0xff00_0000));
    assert_eq!(D3DFormat::X8R8G8B8.a_bit_mask(), None);
    assert_eq!(Format::D3d(D3DFormat::DXT1).get_block_size(), Some(8));
    assert_eq!(Format::Dxgi(DxgiFormat::R8_UNorm).get_pitch(5), Some(5));
}

#[test]
fn dxgi_numbers() {
    assert_eq!(DxgiFormat::BC7_UNorm.to_u32(), 98);
    assert_eq!(DxgiFormat::V408.to_u32(), 132);
    assert_eq!(DxgiFormat::Force_UInt.to_u32(), 0xffff_ffff);
    assert_eq!(DxgiFormat::from_u32(98), Some(DxgiFormat::BC7_UNorm));
    assert_eq!(DxgiFormat::from_u32(0xffff_ffff), Some(DxgiFormat::Force_UInt));
    assert_eq!(DxgiFormat::from_u32(116), None);
    assert_eq!(DxgiFormat::from_u32(133), None);
}

#[test]
fn mip_chain_floor_recurrence() {
    assert_eq!(get_array_stride(100, 4, 5), Some(139));
    assert_eq!(get_array_stride(100, 4, 1), Some(100));
    assert_eq!(get_array_stride(100, 4, 0), Some(0));
    assert_eq!(get_array_stride(64, 8, 4), Some(64 + 16 + 8 + 8));
    assert_eq!(get_array_stride(u32::MAX, 1, 2), None);
}

#[test]
fn texture_size_rules() {
    assert_eq!(get_texture_size(Some(40), None, 1, 10, None), Some(400));
    assert_eq!(get_texture_size(Some(16), None, 4, 10, Some(2)), Some(16 * 3 * 2));
    assert_eq!(get_texture_size(Some(16), Some(100), 4, 10, Some(2)), Some(200));
    assert_eq!(get_texture_size(None, Some(100), 4, 10, None), Some(100));
    assert_eq!(get_texture_size(None, None, 1, 10, None), None);
    assert_eq!(get_texture_size(Some(u32::MAX), None, 1, 2, None), None);
}

#[test]
fn new_d3d_sizes_one_layer() {
    let dds = Dds::new_d3d(d3d_params(D3DFormat::A8R8G8B8, 4, 4)).unwrap();
    assert_eq!(dds.data.len(), 64);
    assert!(dds.header10.is_none());
    assert_eq!(dds.header.pitch, Some(16));
    assert_eq!(dds.header.linear_size, None);
    assert_eq!(dds.get_pitch(), Some(16));
    assert_eq!(dds.get_array_stride().unwrap(), 64);
    assert_eq!(dds.get_data(0).unwrap().len(), 64);
    assert_eq!(dds.get_data(1).unwrap_err().kind(), ErrorKind::OutOfBounds);
    assert_eq!(dds.get_d3d_format(), Some(D3DFormat::A8R8G8B8));
    assert_eq!(dds.get_format(), Some(Format::D3d(D3DFormat::A8R8G8B8)));
}

#[test]
fn new_d3d_compressed_with_mips() {
    let mut params = d3d_params(D3DFormat::DXT1, 16, 16);
    params.mipmap_levels = Some(5);
    let dds = Dds::new_d3d(params).unwrap();
    assert_eq!(dds.header.linear_size, Some(128));
    assert_eq!(dds.header.pitch, None);
    assert_eq!(dds.get_num_mipmap_levels(), 5);
    assert_eq!(dds.get_pitch_height(), 4);
    assert_eq!(dds.get_main_texture_size(), Some(128));
    assert_eq!(dds.get_min_mipmap_size_in_bytes(), 8);
    assert_eq!(dds.data.len(), 128 + 32 + 8 + 8 + 8);
    assert_eq!(dds.get_array_stride().unwrap(), 184);
}

#[test]
fn new_d3d_unsupported_format() {
    let r = Dds::new_d3d(d3d_params(D3DFormat::A32B32G32R32F, u32::MAX, 1));
    assert_eq!(r.err().map(|e| e.kind()), Some(ErrorKind::UnsupportedFormat));
}

#[test]
fn new_dxgi_layers_are_contiguous() {
    let dds = Dds::new_dxgi(dxgi_params(DxgiFormat::R8G8B8A8_UNorm, 2, 2, Some(3))).unwrap();
    assert_eq!(dds.get_num_array_layers(), 3);
    assert_eq!(dds.data.len(), 48);
    assert_eq!(dds.get_dxgi_format(), Some(DxgiFormat::R8G8B8A8_UNorm));
    assert_eq!(dds.get_format(), Some(Format::Dxgi(DxgiFormat::R8G8B8A8_UNorm)));
    for k in 0..3 {
        assert_eq!(dds.get_data(k).unwrap().len(), 16);
    }
    for k in 3..6 {
        assert_eq!(dds.get_data(k).unwrap_err().kind(), ErrorKind::OutOfBounds);
    }
}

#[test]
fn layer_ranges_follow_each_other() {
    let mut dds = Dds::new_dxgi(dxgi_params(DxgiFormat::R8_UNorm, 2, 2, Some(3))).unwrap();
    for (i, b) in dds.data.iter_mut().enumerate() {
        *b = i as u8;
    }
    assert_eq!(dds.get_data(0).unwrap(), &[0, 1, 2, 3]);
    assert_eq!(dds.get_data(1).unwrap(), &[4, 5, 6, 7]);
    assert_eq!(dds.get_data(2).unwrap(), &[8, 9, 10, 11]);
    let layer = dds.get_mut_data(1).unwrap();
    layer[0] = 200;
    assert_eq!(dds.data[4], 200);
    assert_eq!(dds.get_mut_data(3).unwrap_err().kind(), ErrorKind::OutOfBounds);
}

#[test]
fn short_buffer_is_out_of_bounds() {
    let mut dds = Dds::new_d3d(d3d_params(D3DFormat::A8R8G8B8, 4, 4)).unwrap();
    dds.data.truncate(10);
    assert_eq!(dds.get_data(0).unwrap_err().kind(), ErrorKind::OutOfBounds);
}

#[test]
fn cubemap_without_extension_has_six_layers() {
    let mut params = d3d_params(D3DFormat::A8R8G8B8, 1, 1);
    params.caps2 = Some(Caps2 { bits: Caps2::CUBEMAP });
    let mut dds = Dds::new_d3d(params).unwrap();
    assert_eq!(dds.get_num_array_layers(), 6);
    assert_eq!(dds.get_data(0).unwrap().len(), 4);
    assert_eq!(dds.get_data(5).unwrap_err().kind(), ErrorKind::OutOfBounds);
    dds.data = vec![0; 24];
    assert_eq!(dds.get_data(5).unwrap().len(), 4);
    assert_eq!(dds.get_data(6).unwrap_err().kind(), ErrorKind::OutOfBounds);
}

#[test]
fn unknown_format_is_unsupported() {
    let mut dds = Dds::new_d3d(d3d_params(D3DFormat::A8R8G8B8, 4, 4)).unwrap();
    dds.header.pitch = None;
    dds.header.spf = ddsfile::PixelFormat::default();
    assert_eq!(dds.get_format(), None);
    assert_eq!(dds.get_pitch(), None);
    assert_eq!(dds.get_array_stride().unwrap_err().kind(), ErrorKind::UnsupportedFormat);
    assert_eq!(dds.get_data(0).unwrap_err().kind(), ErrorKind::UnsupportedFormat);
}

#[test]
fn explicit_pitch_comes_before_derived_pitch() {
    let mut dds = Dds::new_d3d(d3d_params(D3DFormat::R16F, 10, 1)).unwrap();
    assert_eq!(dds.header.pitch, Some(20));
    dds.header.spf = ddsfile::PixelFormat::default();
    dds.header.spf.flags = ddsfile::PixelFormatFlags::from_bits_truncate(ddsfile::PixelFormatFlags::FOURCC);
    dds.header.spf.fourcc = Some(ddsfile::FourCC(ddsfile::FourCC::R16F));
    assert_eq!(dds.get_format(), Some(Format::D3d(D3DFormat::R16F)));
    dds.header.pitch = Some(24);
    assert_eq!(dds.get_main_texture_size(), Some(24));
    assert_eq!(dds.get_array_stride().unwrap(), 24);
    assert_eq!(dds.get_pitch(), Some(20));
    dds.header.pitch = None;
    assert_eq!(dds.get_main_texture_size(), Some(20));
    dds.header.linear_size = Some(30);
    dds.header.pitch = Some(24);
    assert_eq!(dds.get_main_texture_size(), Some(30));
}

#[test]
fn errors_from_text() {
    let e = ddsfile::Error::from("bad thing");
    assert_eq!(e.kind(), ErrorKind::General);
    assert!(matches!(e, ddsfile::Error::General(ref m) if m == "bad thing"));
    let e = ddsfile::Error::from(String::from("other"));
    assert!(matches!(e, ddsfile::Error::General(ref m) if m == "other"));
}
