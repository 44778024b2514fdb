//! Decoded images waiting to be loaded, the textures loaded in video
//! memory, and the cache of loaded textures by id.
use crate::gl_consts::{GL_NEAREST, GL_REPEAT};
use crate::texture::image_loads;
use std::collections::HashMap;
use vstd::prelude::*;

verus! {

broadcast use vstd::std_specs::hash::group_hash_axioms;

/// Errors representing issues loading and decoding images
#[derive(Debug)]
pub enum Error {
    /// wrapper error from engine's resource loader
    ResourceLoad { name: String, inner: crate::resources::Error },
    /// image decoding errors
    Decode { name: String, inner: image::ImageError },
}

/// OpenGL filtering and wrapping properties
#[derive(Debug, Clone, Copy, PartialEq, Eq, Structural)]
pub struct Sampler {
    pub wrap_s: i32,
    pub wrap_t: i32,
    pub min_filter: i32,
    pub mag_filter: i32,
}

impl Default for Sampler {
    /// Repeat in both directions, nearest filtering.
    fn default() -> (s: Sampler)
        ensures
            s == (Sampler {
                wrap_s: GL_REPEAT as i32,
                wrap_t: GL_REPEAT as i32,
                min_filter: GL_NEAREST as i32,
                mag_filter: GL_NEAREST as i32,
            }),
    {
        Sampler {
            wrap_s: GL_REPEAT as i32,
            wrap_t: GL_REPEAT as i32,
            min_filter: GL_NEAREST as i32,
            mag_filter: GL_NEAREST as i32,
        }
    }
}

/// The width, height and RGB pixels of the image that
/// `image::load_from_memory` decodes from the bytes.
pub uninterp spec fn rgb8_pixels(data: Seq<u8>) -> (u32, u32, Seq<u8>);

/// Calls `image::load_from_memory`, then converts the image to RGB with
/// eight bits a channel (`into_rgb8`) and takes its size and raw pixels.
/// The contract names the success by `image_loads` and the result by
/// `rgb8_pixels`.
#[verifier::external_body]
fn decode_rgb8(data: &[u8]) -> (r: Result<(u32, u32, Vec<u8>), image::ImageError>)
    ensures
        r is Ok <==> image_loads(data@),
        r matches Ok(x) ==> rgb8_pixels(data@) == (x.0, x.1, x.2@),
{
    let image = image::load_from_memory(data)?.into_rgb8();
    let (w, h) = image.dimensions();
    Ok((w, h, image.into_raw()))
}

/// A decoded image, ready to be loaded into video memory.
pub struct TextureData {
    width: u32,
    height: u32,
    pixels: Vec<u8>,
    sampler: Sampler,
    id: u64,
    index: u32,
}

impl TextureData {
    /// The width in pixels.
    pub closed spec fn spec_width(&self) -> u32 {
        self.width
    }

    /// The height in pixels.
    pub closed spec fn spec_height(&self) -> u32 {
        self.height
    }

    /// The RGB pixels.
    pub closed spec fn spec_pixels(&self) -> Seq<u8> {
        self.pixels@
    }

    /// The sampler settings.
    pub closed spec fn spec_sampler(&self) -> Sampler {
        self.sampler
    }

    /// The id the texture will have.
    pub closed spec fn spec_id(&self) -> u64 {
        self.id
    }

    /// The texture unit used to load and bind it.
    pub closed spec fn spec_index(&self) -> u32 {
        self.index
    }

    /// Decode an image file held in memory.
    pub fn load_from_bytes(data: &[u8], name: &str, sampler: Sampler, id: u64, index: u32) -> (r: Result<
        TextureData,
        Error,
    >)
        ensures
            !image_loads(data@) ==> (r matches Err(e) && e matches Error::Decode { name: n, .. }
                && n@ == name@),
            image_loads(data@) ==> (r matches Ok(t) && ({
                let p = rgb8_pixels(data@);
                &&& t.spec_width() == p.0
                &&& t.spec_height() == p.1
                &&& t.spec_pixels() == p.2
                &&& t.spec_sampler() == sampler
                &&& t.spec_id() == id
                &&& t.spec_index() == index
            })),
    {
        match decode_rgb8(data) {
            Ok((width, height, pixels)) => Ok(TextureData { width, height, pixels, sampler, id, index }),
            Err(e) => Err(Error::Decode { name: name.to_owned(), inner: e }),
        }
    }

    /// The width in pixels.
    pub fn width(&self) -> (w: u32)
        ensures
            w == self.spec_width(),
    {
        self.width
    }

    /// The height in pixels.
    pub fn height(&self) -> (h: u32)
        ensures
            h == self.spec_height(),
    {
        self.height
    }

    /// The RGB pixels.
    pub fn pixels(&self) -> (p: &Vec<u8>)
        ensures
            p@ == self.spec_pixels(),
    {
        &self.pixels
    }

    /// The sampler settings.
    pub fn sampler(&self) -> (s: &Sampler)
        ensures
            *s == self.spec_sampler(),
    {
        &self.sampler
    }

    /// The id the texture will have.
    pub fn id(&self) -> (i: u64)
        ensures
            i == self.spec_id(),
    {
        self.id
    }

    /// The texture unit used to load and bind it.
    pub fn index(&self) -> (i: u32)
        ensures
            i == self.spec_index(),
    {
        self.index
    }
}

/// A texture loaded in video memory: the texture unit it binds to and its
/// OpenGL name.
#[derive(Debug, Clone, Copy, PartialEq, Eq, Structural)]
pub struct TextureRender {
    index: u32,
    id: u32,
}

impl TextureRender {
    /// A texture with OpenGL name `id`, bound to texture unit `index`.
    pub fn new(index: u32, id: u32) -> (t: TextureRender)
        ensures
            t.spec_index() == index,
            t.spec_id() == id,
    {
        TextureRender { index, id }
    }

    /// The texture unit it binds to.
    pub closed spec fn spec_index(self) -> u32 {
        self.index
    }

    /// Its OpenGL name.
    pub closed spec fn spec_id(self) -> u32 {
        self.id
    }

    /// The texture unit it binds to.
    pub fn index(&self) -> (i: u32)
        ensures
            i == self.spec_index(),
    {
        self.index
    }

    /// Its OpenGL name.
    pub fn id(&self) -> (i: u32)
        ensures
            i == self.spec_id(),
    {
        self.id
    }
}

/// The loaded textures, by id.
pub struct TextureCache {
    texures: HashMap<u64, TextureRender>,
}

impl View for TextureCache {
    type V = Map<u64, TextureRender>;

    closed spec fn view(&self) -> Map<u64, TextureRender> {
        self.texures@
    }
}

impl TextureCache {
    /// An empty cache.
    pub fn new() -> (c: TextureCache)
        ensures
            c@ == Map::<u64, TextureRender>::empty(),
    {
        TextureCache { texures: HashMap::new() }
    }

    /// Keep a texture loaded under `id`; gives back the texture it replaces,
    /// which is to be deleted.
    pub fn load(&mut self, id: u64, texture: TextureRender) -> (r: Option<TextureRender>)
        ensures
            final(self)@ == old(self)@.insert(id, texture),
            r == old(self)@.get(id),
    {
        self.texures.insert(id, texture)
    }

    /// Forget the texture loaded under `id`; gives it back, to be deleted.
    pub fn unload(&mut self, id: u64) -> (r: Option<TextureRender>)
        ensures
            final(self)@ == old(self)@.remove(id),
            r == old(self)@.get(id),
    {
        let r = self.texures.remove(&id);
        proof {
            assert(self@ =~= old(self)@.remove(id));
        }
        r
    }

    /// The texture loaded under `id`.
    pub fn get(&self, id: u64) -> (r: Option<TextureRender>)
        ensures
            r == self@.get(id),
    {
        match self.texures.get(&id) {
            Some(t) => Some(*t),
            None => None,
        }
    }
}

} // verus!
