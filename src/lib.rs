//! Reading, writing and laying out DirectDraw Surface (DDS) texture files.
//!
//! The main entry point for this library is the `Dds` type.
pub mod wire;
pub mod error;
pub mod pixel_format;
pub mod format;
pub mod d3d;
pub mod dxgi;
pub mod header;
pub mod header10;
pub mod dds;

pub use error::{Error, ErrorKind};
pub use format::{DataFormat, Format};
pub use d3d::D3DFormat;
pub use dxgi::DxgiFormat;
pub use pixel_format::{FourCC, PixelFormat, PixelFormatFlags};
pub use header::{Caps, Caps2, Header, HeaderFlags};
pub use header10::{AlphaMode, D3D10ResourceDimension, Header10, MiscFlag};
pub use dds::{get_array_stride, get_texture_size, Dds, NewD3dParams, NewDxgiParams, MAGIC};
