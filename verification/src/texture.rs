use crate::gl_consts::{
    GL_BGR, GL_BGRA, GL_BYTE, GL_CLAMP_TO_EDGE, GL_FLOAT, GL_INT, GL_LINEAR,
    GL_LINEAR_MIPMAP_LINEAR, GL_LINEAR_MIPMAP_NEAREST, GL_MIRRORED_REPEAT, GL_NEAREST,
    GL_NEAREST_MIPMAP_LINEAR, GL_NEAREST_MIPMAP_NEAREST, GL_RED, GL_REPEAT, GL_RG, GL_RGB, GL_RGBA,
    GL_SHORT, GL_SRGB, GL_SRGB_ALPHA, GL_UNSIGNED_BYTE, GL_UNSIGNED_INT, GL_UNSIGNED_SHORT,
};
use vstd::prelude::*;

verus! {

/// Filtering mode to use when increasing the size of a texture
#[derive(Debug, Clone, Copy, PartialEq, Eq, Structural, PartialOrd, Ord, Hash)]
pub enum MagFilter {
    /// uses the weighted linear blend between nearest adjacent samples
    Linear,
    /// uses the texel closest to the texture coordinate provided
    Nearest,
}

impl Default for MagFilter {
    fn default() -> (r: Self)
        ensures
            r == MagFilter::Nearest,
    {
        Self::Nearest
    }
}

/// The filtering settings for decreasing the size of an image
#[derive(Debug, Clone, Copy, PartialEq, Eq, Structural, PartialOrd, Ord, Hash)]
pub enum MinFilter {
    /// Take the value of the nearest texel
    Nearest,
    /// linearly filter several adjacent texels
    Linear,
    /// Use the mipmap with the closest size, then use the nearest texel
    NearestMipmapNearest,
    /// Linearly filter the between the nearest mipmaps' nearest texels
    LinearMipmapNearest,
    /// Use the mipmap with the closest size, then linearly filter several adjacent texels
    NearestMipmapLinear,
    /// Linearly filter the between the nearest mipmaps, then linearly filter several adjacent texels
    LinearMipmapLinear,
}

impl Default for MinFilter {
    fn default() -> (r: Self)
        ensures
            r == MinFilter::Nearest,
    {
        Self::Nearest
    }
}

/// Description of what should be done if sampling outside of [0, 1]
#[derive(Debug, Clone, Copy, PartialEq, Eq, Structural, PartialOrd, Ord, Hash)]
pub enum WrappingMode {
    /// The texture coordinate wraps around the texture.
    Repeat,
    /// The texture coordinate wraps around, but mirrored.
    MirroredRepeat,
    /// Clamps the provided texture coordinates to the range [0, 1]
    ClampToEdge,
}

impl Default for WrappingMode {
    fn default() -> (r: Self)
        ensures
            r == WrappingMode::Repeat,
    {
        Self::Repeat
    }
}

/// Description of the pixel data provided
#[derive(Debug, Clone, Copy, PartialEq, Eq, Structural, PartialOrd, Ord, Hash)]
pub enum TextureSourceFormat {
    /// A single color component (red)
    R,
    /// Two color components (red/green)
    RG,
    /// Three color components (red/green/blue)
    RGB,
    /// Three color components (blue/green/red)
    BGR,
    /// Four color components (red/green/blue/alpha)
    RGBA,
    /// Four color components (blue/green/red/alpha)
    BGRA,
}

impl Default for TextureSourceFormat {
    fn default() -> (r: Self)
        ensures
            r == TextureSourceFormat::RGBA,
    {
        Self::RGBA
    }
}

/// The type of each component in the provided pixel data.
#[derive(Debug, Clone, Copy, PartialEq, Eq, Structural, PartialOrd, Ord, Hash)]
pub enum TextureSourceType {
    U8,
    I8,
    U16,
    I16,
    U32,
    I32,
    F32,
}

impl Default for TextureSourceType {
    fn default() -> (r: Self)
        ensures
            r == TextureSourceType::U8,
    {
        Self::U8
    }
}

/// The format of the GPU storage buffer requested
#[derive(Debug, Clone, Copy, PartialEq, Eq, Structural, PartialOrd, Ord, Hash)]
pub enum TextureStorageType {
    /// Single component red texture
    R,
    /// Two component red/green texture
    RG,
    /// Three component red/green/blue texture
    RGB,
    /// Three component texture in the sRGB color space
    SRGB,
    /// Four component red/green/blue/alpha texture
    RGBA,
    /// Four component texture in the sRGB color space
    SRGBA,
}

impl Default for TextureStorageType {
    fn default() -> (r: Self)
        ensures
            r == TextureStorageType::RGBA,
    {
        Self::RGBA
    }
}

/// The options related to texture loading
#[derive(Debug, Clone, Copy, PartialEq, Eq, Structural, PartialOrd, Ord, Hash)]
pub struct TextureOptions {
    /// How the 's' uv coordinate wraps
    pub wrap_s: WrappingMode,
    /// How the 't' uv coordinate wraps
    pub wrap_t: WrappingMode,
    /// Minification filtering setting
    pub min_filter: MinFilter,
    /// Magnification filtering setting
    pub mag_filter: MagFilter,
    /// The layout of the data provided
    pub source_format: TextureSourceFormat,
    /// The type of the data provided
    pub source_type: TextureSourceType,
    /// The pixel width of the image
    pub width: u32,
    /// The pixel height of the image
    pub height: u32,
    /// the format to store the texture as on the GPU
    pub storage: TextureStorageType,
}

/// The options every field of which takes its default.
pub open spec fn spec_default_options() -> TextureOptions {
    TextureOptions {
        wrap_s: WrappingMode::Repeat,
        wrap_t: WrappingMode::Repeat,
        min_filter: MinFilter::Nearest,
        mag_filter: MagFilter::Nearest,
        source_format: TextureSourceFormat::RGBA,
        source_type: TextureSourceType::U8,
        width: 0,
        height: 0,
        storage: TextureStorageType::RGBA,
    }
}

impl Default for TextureOptions {
    fn default() -> (r: Self)
        ensures
            r == spec_default_options(),
    {
        TextureOptions {
            wrap_s: WrappingMode::default(),
            wrap_t: WrappingMode::default(),
            min_filter: MinFilter::default(),
            mag_filter: MagFilter::default(),
            source_format: TextureSourceFormat::default(),
            source_type: TextureSourceType::default(),
            width: 0,
            height: 0,
            storage: TextureStorageType::default(),
        }
    }
}

/// The OpenGL wrapping parameter of a wrapping mode.
pub fn wrap_gl(wrap: WrappingMode) -> (r: i32)
    ensures
        r == match wrap {
            WrappingMode::Repeat => GL_REPEAT as i32,
            WrappingMode::MirroredRepeat => GL_MIRRORED_REPEAT as i32,
            WrappingMode::ClampToEdge => GL_CLAMP_TO_EDGE as i32,
        },
{
    match wrap {
        WrappingMode::Repeat => GL_REPEAT as i32,
        WrappingMode::MirroredRepeat => GL_MIRRORED_REPEAT as i32,
        WrappingMode::ClampToEdge => GL_CLAMP_TO_EDGE as i32,
    }
}

/// The OpenGL minification filter parameter of a filter setting.
pub fn min_filter_gl(min: MinFilter) -> (r: i32)
    ensures
        r == match min {
            MinFilter::Nearest => GL_NEAREST as i32,
            MinFilter::Linear => GL_LINEAR as i32,
            MinFilter::NearestMipmapNearest => GL_NEAREST_MIPMAP_NEAREST as i32,
            MinFilter::LinearMipmapNearest => GL_LINEAR_MIPMAP_NEAREST as i32,
            MinFilter::NearestMipmapLinear => GL_NEAREST_MIPMAP_LINEAR as i32,
            MinFilter::LinearMipmapLinear => GL_LINEAR_MIPMAP_LINEAR as i32,
        },
{
    match min {
        MinFilter::Nearest => GL_NEAREST as i32,
        MinFilter::Linear => GL_LINEAR as i32,
        MinFilter::NearestMipmapNearest => GL_NEAREST_MIPMAP_NEAREST as i32,
        MinFilter::LinearMipmapNearest => GL_LINEAR_MIPMAP_NEAREST as i32,
        MinFilter::NearestMipmapLinear => GL_NEAREST_MIPMAP_LINEAR as i32,
        MinFilter::LinearMipmapLinear => GL_LINEAR_MIPMAP_LINEAR as i32,
    }
}

/// The OpenGL magnification filter parameter of a filter setting.
pub fn mag_filter_gl(mag: MagFilter) -> (r: i32)
    ensures
        r == match mag {
            MagFilter::Linear => GL_LINEAR as i32,
            MagFilter::Nearest => GL_NEAREST as i32,
        },
{
    match mag {
        MagFilter::Linear => GL_LINEAR as i32,
        MagFilter::Nearest => GL_NEAREST as i32,
    }
}

/// The OpenGL internal format of a storage type.
pub fn internal_format_gl(source: TextureStorageType) -> (r: i32)
    ensures
        r == match source {
            TextureStorageType::R => GL_RED as i32,
            TextureStorageType::RG => GL_RG as i32,
            TextureStorageType::RGB => GL_RGB as i32,
            TextureStorageType::SRGB => GL_SRGB as i32,
            TextureStorageType::RGBA => GL_RGBA as i32,
            TextureStorageType::SRGBA => GL_SRGB_ALPHA as i32,
        },
{
    match source {
        TextureStorageType::R => GL_RED as i32,
        TextureStorageType::RG => GL_RG as i32,
        TextureStorageType::RGB => GL_RGB as i32,
        TextureStorageType::SRGB => GL_SRGB as i32,
        TextureStorageType::RGBA => GL_RGBA as i32,
        TextureStorageType::SRGBA => GL_SRGB_ALPHA as i32,
    }
}

/// The OpenGL pixel format of a source layout.
pub fn format_gl(format: TextureSourceFormat) -> (r: u32)
    ensures
        r == match format {
            TextureSourceFormat::R => GL_RED,
            TextureSourceFormat::RG => GL_RG,
            TextureSourceFormat::RGB => GL_RGB,
            TextureSourceFormat::BGR => GL_BGR,
            TextureSourceFormat::RGBA => GL_RGBA,
            TextureSourceFormat::BGRA => GL_BGRA,
        },
{
    match format {
        TextureSourceFormat::R => GL_RED,
        TextureSourceFormat::RG => GL_RG,
        TextureSourceFormat::RGB => GL_RGB,
        TextureSourceFormat::BGR => GL_BGR,
        TextureSourceFormat::RGBA => GL_RGBA,
        TextureSourceFormat::BGRA => GL_BGRA,
    }
}

/// The OpenGL component type of a source type.
pub fn texture_type_gl(ty: TextureSourceType) -> (r: u32)
    ensures
        r == match ty {
            TextureSourceType::U8 => GL_UNSIGNED_BYTE,
            TextureSourceType::I8 => GL_BYTE,
            TextureSourceType::U16 => GL_UNSIGNED_SHORT,
            TextureSourceType::I16 => GL_SHORT,
            TextureSourceType::U32 => GL_UNSIGNED_INT,
            TextureSourceType::I32 => GL_INT,
            TextureSourceType::F32 => GL_FLOAT,
        },
{
    match ty {
        TextureSourceType::U8 => GL_UNSIGNED_BYTE,
        TextureSourceType::I8 => GL_BYTE,
        TextureSourceType::U16 => GL_UNSIGNED_SHORT,
        TextureSourceType::I16 => GL_SHORT,
        TextureSourceType::U32 => GL_UNSIGNED_INT,
        TextureSourceType::I32 => GL_INT,
        TextureSourceType::F32 => GL_FLOAT,
    }
}

// ======== //
// textures //
// ======== //

#[verifier::external_type_specification]
#[verifier::external_body]
pub struct ExImageError(image::ImageError);

/// Errors representing issues loading and decoding images
#[derive(Debug)]
pub enum TextureError {
    /// wrapper error from engine's resource loader
    ResourceLoad { name: String, source: crate::resources::Error },
    /// image decoding errors
    Decode { source: image::ImageError },
    /// The decoded image cannot be given as pixels of this type
    BadDecodeFormat { ty: TextureSourceType },
}

/// Whether `image::load_from_memory` decodes the bytes.
pub uninterp spec fn image_loads(data: Seq<u8>) -> bool;

/// The width, height and RGBA pixels, eight bits a channel, of the image
/// that `image::load_from_memory` decodes from the bytes.
pub uninterp spec fn rgba8_pixels(data: Seq<u8>) -> (u32, u32, Seq<u8>);

/// The width, height and RGBA pixels, sixteen bits a channel, of the image
/// that `image::load_from_memory` decodes from the bytes.
pub uninterp spec fn rgba16_pixels(data: Seq<u8>) -> (u32, u32, Seq<u16>);

/// Calls `image::load_from_memory`, then converts the image to RGBA with
/// eight bits a channel (`into_rgba8`) and takes its size and raw pixels.
/// The contract names the success by `image_loads` and the result by
/// `rgba8_pixels`.
#[verifier::external_body]
fn decode_rgba8(data: &[u8]) -> (r: Result<(u32, u32, Vec<u8>), image::ImageError>)
    ensures
        r is Ok <==> image_loads(data@),
        r matches Ok(x) ==> rgba8_pixels(data@) == (x.0, x.1, x.2@),
{
    let image = image::load_from_memory(data)?;
    let (w, h) = (image.width(), image.height());
    Ok((w, h, image.into_rgba8().into_raw()))
}

/// Calls `image::load_from_memory`, then converts the image to RGBA with
/// sixteen bits a channel (`into_rgba16`) and takes its size and raw
/// pixels.  The contract names the success by `image_loads` and the result
/// by `rgba16_pixels`.
#[verifier::external_body]
fn decode_rgba16(data: &[u8]) -> (r: Result<(u32, u32, Vec<u16>), image::ImageError>)
    ensures
        r is Ok <==> image_loads(data@),
        r matches Ok(x) ==> rgba16_pixels(data@) == (x.0, x.1, x.2@),
{
    let image = image::load_from_memory(data)?;
    let (w, h) = (image.width(), image.height());
    Ok((w, h, image.into_rgba16().into_raw()))
}

/// The pixels of a texture, eight or sixteen bits a channel.
#[derive(Debug, Clone, PartialEq, Eq)]
pub enum TextureData {
    U8(Vec<u8>),
    U16(Vec<u16>),
}

/// The pixels of a texture as a value.
pub enum TextureDataView {
    U8(Seq<u8>),
    U16(Seq<u16>),
}

impl View for TextureData {
    type V = TextureDataView;

    open spec fn view(&self) -> TextureDataView {
        match self {
            TextureData::U8(v) => TextureDataView::U8(v@),
            TextureData::U16(v) => TextureDataView::U16(v@),
        }
    }
}

/// An image and settings about how to interpret the data
#[derive(Debug, Clone)]
pub struct Texture {
    image: TextureData,
    config: TextureOptions,
}

impl Texture {
    /// The pixels of the texture.
    pub closed spec fn spec_image(&self) -> TextureDataView {
        self.image@
    }

    /// The settings of the texture.
    pub closed spec fn spec_config(&self) -> TextureOptions {
        self.config
    }

    /// Loads an encoded image file, tries to detect what sort of file it
    /// is.  This ignores the width, height and source format of the options
    /// and takes them from the image (RGBA); the pixels are given with the
    /// source type asked for, which must be 8 or 16 bit unsigned.
    pub fn from_encoding_config(data: &[u8], config: TextureOptions) -> (r: Result<Texture, TextureError>)
        ensures
            !image_loads(data@) ==> (r matches Err(e) && e is Decode),
            image_loads(data@) ==> match config.source_type {
                TextureSourceType::U8 => r matches Ok(t) && ({
                    let p = rgba8_pixels(data@);
                    &&& t.spec_image() == TextureDataView::U8(p.2)
                    &&& t.spec_config() == (TextureOptions {
                        width: p.0,
                        height: p.1,
                        source_format: TextureSourceFormat::RGBA,
                        ..config
                    })
                }),
                TextureSourceType::U16 => r matches Ok(t) && ({
                    let p = rgba16_pixels(data@);
                    &&& t.spec_image() == TextureDataView::U16(p.2)
                    &&& t.spec_config() == (TextureOptions {
                        width: p.0,
                        height: p.1,
                        source_format: TextureSourceFormat::RGBA,
                        ..config
                    })
                }),
                _ => r matches Err(e) && e is BadDecodeFormat && e->ty == config.source_type,
            },
    {
        let mut config = config;
        match config.source_type {
            TextureSourceType::U8 => match decode_rgba8(data) {
                Ok((w, h, pixels)) => {
                    config.width = w;
                    config.height = h;
                    config.source_format = TextureSourceFormat::RGBA;
                    Ok(Texture { image: TextureData::U8(pixels), config })
                },
                Err(e) => Err(TextureError::Decode { source: e }),
            },
            TextureSourceType::U16 => match decode_rgba16(data) {
                Ok((w, h, pixels)) => {
                    config.width = w;
                    config.height = h;
                    config.source_format = TextureSourceFormat::RGBA;
                    Ok(Texture { image: TextureData::U16(pixels), config })
                },
                Err(e) => Err(TextureError::Decode { source: e }),
            },
            _ => match decode_rgba8(data) {
                Ok(_) => Err(TextureError::BadDecodeFormat { ty: config.source_type }),
                Err(e) => Err(TextureError::Decode { source: e }),
            },
        }
    }

    /// Loads an image from a slice of raw 8 bit pixel data using the
    /// provided settings; the pixels are copied.
    pub fn from_raw_config(data: &[u8], config: TextureOptions) -> (r: Result<Texture, TextureError>)
        ensures
            r matches Ok(t) && t.spec_image() == TextureDataView::U8(data@) && t.spec_config()
                == config,
    {
        let mut pixels: Vec<u8> = Vec::new();
        let n = data.len();
        let mut i: usize = 0;
        while i < n
            invariant
                n == data@.len(),
                i <= n,
                pixels@ == data@.take(i as int),
            decreases n - i,
        {
            pixels.push(data[i]);
            proof {
                assert(pixels@ =~= data@.take(i + 1));
            }
            i = i + 1;
        }
        proof {
            assert(data@.take(n as int) =~= data@);
        }
        Self::from_raw_owned_config(pixels, config)
    }

    /// Loads an image from raw 8 bit pixel data using the provided settings
    pub fn from_raw_owned_config(data: Vec<u8>, config: TextureOptions) -> (r: Result<Texture, TextureError>)
        ensures
            r matches Ok(t) && t.spec_image() == TextureDataView::U8(data@) && t.spec_config()
                == config,
    {
        Ok(Texture { image: TextureData::U8(data), config })
    }

    /// Loads an image from a slice of raw 16 bit pixel data using the
    /// provided settings; the pixels are copied.
    pub fn from_raw_config16(data: &[u16], config: TextureOptions) -> (r: Result<Texture, TextureError>)
        ensures
            r matches Ok(t) && t.spec_image() == TextureDataView::U16(data@) && t.spec_config()
                == config,
    {
        let mut pixels: Vec<u16> = Vec::new();
        let n = data.len();
        let mut i: usize = 0;
        while i < n
            invariant
                n == data@.len(),
                i <= n,
                pixels@ == data@.take(i as int),
            decreases n - i,
        {
            pixels.push(data[i]);
            proof {
                assert(pixels@ =~= data@.take(i + 1));
            }
            i = i + 1;
        }
        proof {
            assert(data@.take(n as int) =~= data@);
        }
        Self::from_raw_owned_config16(pixels, config)
    }

    /// Loads an image from raw 16 bit pixel data using the provided settings
    pub fn from_raw_owned_config16(data: Vec<u16>, config: TextureOptions) -> (r: Result<
        Texture,
        TextureError,
    >)
        ensures
            r matches Ok(t) && t.spec_image() == TextureDataView::U16(data@) && t.spec_config()
                == config,
    {
        Ok(Texture { image: TextureData::U16(data), config })
    }

    /// get the width of the image in pixels
    pub fn width(&self) -> (w: u32)
        ensures
            w == self.spec_config().width,
    {
        self.config.width
    }

    /// get the height of the image in pixels
    pub fn height(&self) -> (h: u32)
        ensures
            h == self.spec_config().height,
    {
        self.config.height
    }

    /// get the configuration settings used when creating the image
    pub fn config(&self) -> (c: TextureOptions)
        ensures
            c == self.spec_config(),
    {
        self.config
    }

    /// The pixels of the texture.
    pub fn image(&self) -> (d: &TextureData)
        ensures
            d@ == self.spec_image(),
    {
        &self.image
    }
}

} // verus!
