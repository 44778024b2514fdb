use engine::gl_consts::{GL_LINEAR, GL_NEAREST, GL_REPEAT};
use engine::render::texture::{
    Error as RenderTextureError, Sampler, TextureCache, TextureData as Decoded, TextureRender,
};
use engine::texture::{
    mag_filter_gl, min_filter_gl, wrap_gl, MagFilter, MinFilter, Texture, TextureData,
    TextureError, TextureOptions, TextureSourceFormat, TextureSourceType, WrappingMode,
};
use image::{ImageBuffer, ImageFormat, Rgba};
use std::io::Cursor;

fn png_2x1() -> Vec<u8> {
    let img: ImageBuffer<Rgba<u8>, Vec<u8>> =
        ImageBuffer::from_raw(2, 1, vec![255, 0, 0, 255, 0, 255, 0, 128]).unwrap();
    let mut out = Cursor::new(Vec::new());
    img.write_to(&mut out, ImageFormat::Png).unwrap();
    out.into_inner()
}

#[test]
fn default_options() {
    let o = TextureOptions::default();
    assert_eq!(o.wrap_s, WrappingMode::Repeat);
    assert_eq!(o.min_filter, MinFilter::Nearest);
    assert_eq!(o.mag_filter, MagFilter::Nearest);
    assert_eq!(o.source_format, TextureSourceFormat::RGBA);
    assert_eq!(o.source_type, TextureSourceType::U8);
    assert_eq!((o.width, o.height), (0, 0));
}

#[test]
fn gl_parameters() {
    assert_eq!(wrap_gl(WrappingMode::Repeat), GL_REPEAT as i32);
    assert_eq!(min_filter_gl(MinFilter::Linear), GL_LINEAR as i32);
    assert_eq!(mag_filter_gl(MagFilter::Nearest), GL_NEAREST as i32);
}

#[test]
fn encoded_images_decode_to_rgba8() {
    let tex = Texture::from_encoding_config(&png_2x1(), TextureOptions::default()).unwrap();
    assert_eq!(tex.width(), 2);
    assert_eq!(tex.height(), 1);
    assert_eq!(tex.config().source_format, TextureSourceFormat::RGBA);
    assert_eq!(tex.image(), &TextureData::U8(vec![255, 0, 0, 255, 0, 255, 0, 128]));
}

#[test]
fn encoded_images_decode_to_rgba16() {
    let config = TextureOptions { source_type: TextureSourceType::U16, ..TextureOptions::default() };
    let tex = Texture::from_encoding_config(&png_2x1(), config).unwrap();
    assert_eq!(tex.image(), &TextureData::U16(vec![65535, 0, 0, 65535, 0, 65535, 0, 32896]));
}

#[test]
fn other_pixel_types_are_refused() {
    let config = TextureOptions { source_type: TextureSourceType::F32, ..TextureOptions::default() };
    assert!(matches!(
        Texture::from_encoding_config(&png_2x1(), config),
        Err(TextureError::BadDecodeFormat { ty: TextureSourceType::F32 })
    ));
}

#[test]
fn undecodable_bytes_are_refused() {
    assert!(matches!(
        Texture::from_encoding_config(b"not an image", TextureOptions::default()),
        Err(TextureError::Decode { .. })
    ));
}

#[test]
fn raw_pixels_are_kept() {
    let config = TextureOptions { width: 1, height: 1, ..TextureOptions::default() };
    let tex = Texture::from_raw_config(&[1, 2, 3, 4], config).unwrap();
    assert_eq!(tex.image(), &TextureData::U8(vec![1, 2, 3, 4]));
    assert_eq!(tex.config(), config);
    let tex = Texture::from_raw_config16(&[7, 8], config).unwrap();
    assert_eq!(tex.image(), &TextureData::U16(vec![7, 8]));
    let tex = Texture::from_raw_owned_config(vec![5], config).unwrap();
    assert_eq!(tex.image(), &TextureData::U8(vec![5]));
}

#[test]
fn images_decode_to_rgb_for_the_renderer() {
    let s = Sampler::default();
    let t = Decoded::load_from_bytes(&png_2x1(), "img.png", s, 3, 1).unwrap();
    assert_eq!((t.width(), t.height()), (2, 1));
    assert_eq!(t.pixels(), &vec![255, 0, 0, 0, 255, 0]);
    assert_eq!(t.sampler(), &s);
    assert_eq!(t.id(), 3);
    assert_eq!(t.index(), 1);
    assert!(matches!(
        Decoded::load_from_bytes(b"??", "bad.png", s, 0, 0),
        Err(RenderTextureError::Decode { name, .. }) if name == "bad.png"
    ));
}

#[test]
fn texture_cache_keeps_one_texture_per_id() {
    let mut cache = TextureCache::new();
    assert_eq!(cache.get(1), None);
    assert_eq!(cache.load(1, TextureRender::new(0, 11)), None);
    assert_eq!(cache.load(1, TextureRender::new(0, 12)), Some(TextureRender::new(0, 11)));
    assert_eq!(cache.get(1).unwrap().id(), 12);
    assert_eq!(cache.unload(1), Some(TextureRender::new(0, 12)));
    assert_eq!(cache.unload(1), None);
    assert_eq!(Sampler::default().wrap_s, GL_REPEAT as i32);
}
