//! Pixel formats and the layout of image data.

use vstd::prelude::*;

verus! {

/// The pixel formats that the playground renders to or reads from.
#[derive(Debug, Copy, Clone, PartialEq, Eq, Structural)]
pub enum TextureFormat {
    /// Four 8-bit channels, linear.
    Rgba8Unorm,
    /// Four 8-bit channels, sRGB encoded.
    Rgba8UnormSrgb,
    /// Four 8-bit channels in the order blue, green, red, alpha, sRGB encoded.
    Bgra8UnormSrgb,
    /// Four half-precision channels.
    Rgba16Float,
    /// One single-precision channel.
    R32Float,
}

impl TextureFormat {
    /// Number of bytes that one pixel takes.
    pub open spec fn spec_bytes_per_pixel(self) -> nat {
        match self {
            TextureFormat::Rgba8Unorm => 4,
            TextureFormat::Rgba8UnormSrgb => 4,
            TextureFormat::Bgra8UnormSrgb => 4,
            TextureFormat::Rgba16Float => 8,
            TextureFormat::R32Float => 4,
        }
    }

    /// Number of bytes that one pixel takes.
    pub fn bytes_per_pixel(self) -> (bytes: u32)
        ensures
            bytes == self.spec_bytes_per_pixel(),
    {
        match self {
            TextureFormat::Rgba8Unorm => 4,
            TextureFormat::Rgba8UnormSrgb => 4,
            TextureFormat::Bgra8UnormSrgb => 4,
            TextureFormat::Rgba16Float => 8,
            TextureFormat::R32Float => 4,
        }
    }
}

/// The format of the images that are bound to a shader as textures.
pub const ASSET_TEXTURE_FORMAT: TextureFormat = TextureFormat::Rgba8UnormSrgb;

/// How the pixels of an image lie in a buffer: row after row without gaps.
#[derive(Debug, Copy, Clone, PartialEq, Eq, Structural)]
pub struct ImageLayout {
    /// Number of bytes from the start of one row to the start of the next.
    pub bytes_per_row: u32,
    /// Number of rows.
    pub rows_per_image: u32,
    /// Number of bytes of the whole image.
    pub size: u64,
}

/// The layout of an image of `width` by `height` pixels of format `format`
/// without gaps, or `None` where a row is longer than a `u32` can say.
pub open spec fn spec_image_layout(width: u32, height: u32, format: TextureFormat) -> Option<
    ImageLayout,
> {
    if width * format.spec_bytes_per_pixel() <= u32::MAX {
        Some(
            ImageLayout {
                bytes_per_row: (width * format.spec_bytes_per_pixel()) as u32,
                rows_per_image: height,
                size: (width * format.spec_bytes_per_pixel() * height) as u64,
            },
        )
    } else {
        None
    }
}

/// The layout of an image of `width` by `height` pixels of format `format`
/// without gaps, or `None` where a row is longer than a `u32` can say.
pub fn image_layout(width: u32, height: u32, format: TextureFormat) -> (layout: Option<ImageLayout>)
    ensures
        layout == spec_image_layout(width, height, format),
{
    match width.checked_mul(format.bytes_per_pixel()) {
        Some(bytes_per_row) => {
            assert(bytes_per_row as u64 * height as u64 <= u64::MAX) by (nonlinear_arith)
                requires
                    bytes_per_row <= u32::MAX,
                    height <= u32::MAX,
            ;
            assert(width * format.spec_bytes_per_pixel() * height == bytes_per_row as u64
                * height as u64);
            Some(
                ImageLayout {
                    bytes_per_row,
                    rows_per_image: height,
                    size: bytes_per_row as u64 * height as u64,
                },
            )
        },
        None => None,
    }
}

/// An image that is bound to a shader as a 2D texture.
#[derive(Debug, Copy, Clone, PartialEq, Eq, Structural)]
pub struct AssetTexture {
    pub width: u32,
    pub height: u32,
    pub format: TextureFormat,
}

/// A view of a texture: the format it is read as and the first mip level it
/// shows.
#[derive(Debug, Copy, Clone, PartialEq, Eq, Structural)]
pub struct TextureViewDescriptor {
    pub format: TextureFormat,
    pub base_mip_level: u32,
}

impl AssetTexture {
    /// The texture for an image of `width` by `height` pixels with four 8-bit
    /// channels.
    pub fn new_with_image(width: u32, height: u32) -> (texture: AssetTexture)
        ensures
            texture == (AssetTexture { width, height, format: ASSET_TEXTURE_FORMAT }),
    {
        AssetTexture { width, height, format: ASSET_TEXTURE_FORMAT }
    }

    /// How the image data lies in the buffer that is copied into the texture.
    pub fn data_layout(&self) -> (layout: Option<ImageLayout>)
        ensures
            layout == spec_image_layout(self.width, self.height, self.format),
    {
        image_layout(self.width, self.height, self.format)
    }

    /// The view of the texture that starts at `mip_level`.
    pub fn get_view(&self, mip_level: u32) -> (view: TextureViewDescriptor)
        ensures
            view == (TextureViewDescriptor { format: self.format, base_mip_level: mip_level }),
    {
        TextureViewDescriptor { format: self.format, base_mip_level: mip_level }
    }
}

} // verus!
