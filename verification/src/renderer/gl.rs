//! The bookkeeping of the OpenGL renderer: resource ids, loaded textures,
//! the texture units each bound pipeline holds, the cached culling state,
//! and the vertex attribute layout of a pipeline.  The OpenGL calls
//! themselves are made by the caller, as these functions direct.
use crate::gl_consts::{GL_BACK, GL_FRONT, GL_FRONT_AND_BACK};
use crate::renderer::shader::{vars_view, Type, Variable, VariableView};
use crate::renderer::{CullingMode, PipelineId, TextureId};
use std::collections::HashMap;
use vstd::prelude::*;
use vstd::std_specs::iter::IteratorSpec;

verus! {

broadcast use vstd::std_specs::hash::group_hash_axioms;

/// Possible errors encounted in OpenGl
#[derive(Debug)]
pub enum GlError {
    /// Error compiling shader
    ShaderCompilation { message: String },
    /// Error linking shaders
    ShaderLink { message: String },
    /// Shader code contained a nul byte at this position, unable to compile it
    ShaderNullByte { position: usize },
    /// Error getting buffer for error message, unable to display error
    ErrorBuffer,
    /// Unable to find a free active texture unit
    TextureUnitsFull,
    /// Cannot bind texture to unbound pipeline
    PipelineNotBound,
    /// Texture is not currently loaded, cannot bind it to a pipeline
    TextureUnloaded,
    /// Unable to load opaque type as vertex array
    OpaqueVerticies,
}

/// A texture in video memory: its OpenGL name and the texture unit it was
/// last bound to.
#[derive(Debug, Clone, Copy, PartialEq, Eq, Structural)]
pub struct GlTexture {
    pub id: u32,
    pub active_index: u32,
}

/// A texture bound to a texture unit.
#[derive(Debug, Clone, Copy, PartialEq, Eq, Structural)]
pub struct BoundGlTexture {
    tex: u32,
    index: u32,
}

impl GlTexture {
    /// A texture with OpenGL name `id`, bound to unit `index` while it is
    /// loaded.
    pub fn new(id: u32, index: u32) -> (t: GlTexture)
        ensures
            t == (GlTexture { id, active_index: index }),
    {
        GlTexture { id, active_index: index }
    }

    /// Bind the texture to texture unit `index`.
    pub fn bind(&self, index: u32) -> (b: BoundGlTexture)
        ensures
            b.spec_texture() == self.id,
            b.spec_index() == index,
    {
        BoundGlTexture { tex: self.id, index }
    }

    /// Record that the texture is bound to unit `index`.
    pub fn set_bound(&mut self, index: u32)
        ensures
            *final(self) == (GlTexture { active_index: index, ..*old(self) }),
    {
        self.active_index = index;
    }

    /// Record that the texture is no longer bound.
    pub fn set_unbound(&mut self)
        ensures
            *final(self) == (GlTexture { active_index: 0, ..*old(self) }),
    {
        self.active_index = 0;
    }
}

impl BoundGlTexture {
    /// The OpenGL name of the bound texture.
    pub closed spec fn spec_texture(self) -> u32 {
        self.tex
    }

    /// The texture unit it is bound to.
    pub closed spec fn spec_index(self) -> u32 {
        self.index
    }

    /// Get the index of the texture's active texture unit.
    pub fn index(&self) -> (i: u32)
        ensures
            i == self.spec_index(),
    {
        self.index
    }

    /// The OpenGL name of the bound texture.
    pub fn texture(&self) -> (t: u32)
        ensures
            t == self.spec_texture(),
    {
        self.tex
    }
}

/// The OpenGL calls that bring face culling to a requested mode.
#[derive(Debug, Clone, Copy, PartialEq, Eq, Structural)]
pub struct CullingChange {
    /// Call `Enable(CULL_FACE)`
    pub enable: bool,
    /// Call `Disable(CULL_FACE)`
    pub disable: bool,
    /// Call `CullFace` with this mode
    pub cull_face: Option<u32>,
}

/// The renderer's record of what it has loaded and bound.
pub struct GlState {
    id: u64,
    textures: HashMap<u64, GlTexture>,
    texture_units: Vec<bool>,
    active_textures: HashMap<u64, Vec<usize>>,
    culling_enabled: bool,
    culling_mode: u32,
}

/// The renderer's record as a value.
pub struct GlStateView {
    /// The next id to hand out
    pub id: u64,
    /// The loaded textures, by id
    pub textures: Map<u64, GlTexture>,
    /// Which texture units are in use; unit 0 is kept for loading images
    pub texture_units: Seq<bool>,
    /// The texture units each bound pipeline holds, by pipeline id
    pub active_textures: Map<u64, Seq<usize>>,
    /// Whether face culling is enabled
    pub culling_enabled: bool,
    /// The faces culled when culling is enabled
    pub culling_mode: u32,
}

impl View for GlState {
    type V = GlStateView;

    closed spec fn view(&self) -> GlStateView {
        GlStateView {
            id: self.id,
            textures: self.textures@,
            texture_units: self.texture_units@,
            active_textures: self.active_textures@.map_values(|v: Vec<usize>| v@),
            culling_enabled: self.culling_enabled,
            culling_mode: self.culling_mode,
        }
    }
}

/// Every texture unit a pipeline holds exists.
pub open spec fn units_valid(s: GlStateView) -> bool {
    forall|p: u64, i: int|
        #![trigger s.active_textures[p][i]]
        s.active_textures.contains_key(p) && 0 <= i < s.active_textures[p].len()
            ==> s.active_textures[p][i] < s.texture_units.len()
}

/// The first texture unit not in use.
pub open spec fn first_free(units: Seq<bool>) -> Option<int> {
    if forall|i: int| 0 <= i < units.len() ==> units[i] {
        None
    } else {
        Some(choose|i: int| 0 <= i < units.len() && !units[i] && forall|j: int| 0 <= j < i ==> units[j])
    }
}

/// Culling brought to `mode`: it is enabled unless the mode is `Disabled`,
/// and the culled faces change only when the mode asks for others.
pub open spec fn spec_culling(enabled: bool, mode: u32, want: CullingMode) -> (CullingChange, bool, u32) {
    let enable = want != CullingMode::Disabled && !enabled;
    let enabled1 = if enable {
        true
    } else {
        enabled
    };
    match want {
        CullingMode::Disabled => if enabled1 {
            (CullingChange { enable, disable: true, cull_face: None }, false, mode)
        } else {
            (CullingChange { enable, disable: false, cull_face: None }, enabled1, mode)
        },
        CullingMode::Front => if mode != GL_FRONT {
            (CullingChange { enable, disable: false, cull_face: Some(GL_FRONT) }, enabled1, GL_FRONT)
        } else {
            (CullingChange { enable, disable: false, cull_face: None }, enabled1, mode)
        },
        CullingMode::Back => if mode != GL_BACK {
            (CullingChange { enable, disable: false, cull_face: Some(GL_BACK) }, enabled1, GL_BACK)
        } else {
            (CullingChange { enable, disable: false, cull_face: None }, enabled1, mode)
        },
        CullingMode::FrontBack => if mode != GL_FRONT_AND_BACK {
            (
                CullingChange { enable, disable: false, cull_face: Some(GL_FRONT_AND_BACK) },
                enabled1,
                GL_FRONT_AND_BACK,
            )
        } else {
            (CullingChange { enable, disable: false, cull_face: None }, enabled1, mode)
        },
    }
}

impl GlState {
    /// The record of a fresh renderer with `max_units` texture units: unit 0
    /// is kept for loading images, culling is off and set to back faces.
    pub fn new(max_units: u32) -> (s: GlState)
        requires
            max_units >= 1,
        ensures
            s@.id == 0,
            s@.textures == Map::<u64, GlTexture>::empty(),
            s@.texture_units == Seq::new(max_units as nat, |i: int| i == 0),
            s@.active_textures == Map::<u64, Seq<usize>>::empty(),
            !s@.culling_enabled,
            s@.culling_mode == GL_BACK,
            units_valid(s@),
    {
        let mut units: Vec<bool> = Vec::new();
        let mut i: u32 = 0;
        while i < max_units
            invariant
                i <= max_units,
                units@ == Seq::new(i as nat, |k: int| k == 0),
            decreases max_units - i,
        {
            units.push(i == 0);
            proof {
                assert(units@ =~= Seq::new((i + 1) as nat, |k: int| k == 0));
            }
            i = i + 1;
        }
        let s = GlState {
            id: 0,
            textures: HashMap::new(),
            texture_units: units,
            active_textures: HashMap::new(),
            culling_enabled: false,
            culling_mode: GL_BACK,
        };
        proof {
            assert(s@.active_textures =~= Map::<u64, Seq<usize>>::empty());
        }
        s
    }

    /// Hand out the next resource id.
    pub fn next_id(&mut self) -> (id: u64)
        requires
            old(self)@.id < u64::MAX,
        ensures
            id == old(self)@.id,
            final(self)@ == (GlStateView { id: (old(self)@.id + 1) as u64, ..old(self)@ }),
    {
        let id = self.id;
        self.id = self.id + 1;
        id
    }

    /// Record a texture loaded with OpenGL name `gl_id`; gives its id.
    pub fn load_texture(&mut self, gl_id: u32) -> (t: TextureId)
        requires
            old(self)@.id < u64::MAX,
        ensures
            t.0 == old(self)@.id,
            final(self)@ == (GlStateView {
                id: (old(self)@.id + 1) as u64,
                textures: old(self)@.textures.insert(t.0, GlTexture { id: gl_id, active_index: 0 }),
                ..old(self)@
            }),
    {
        let id = self.next_id();
        self.textures.insert(id, GlTexture::new(gl_id, 0));
        proof {
            assert(self@.active_textures =~= old(self)@.active_textures);
        }
        TextureId(id)
    }

    /// Forget a texture; gives it back, if it was loaded, so that it can be
    /// deleted.
    pub fn unload_texture(&mut self, texture: TextureId) -> (r: Option<GlTexture>)
        ensures
            r == old(self)@.textures.get(texture.0),
            final(self)@ == (GlStateView {
                textures: old(self)@.textures.remove(texture.0),
                ..old(self)@
            }),
    {
        let r = self.textures.remove(&texture.0);
        proof {
            assert(self@.active_textures =~= old(self)@.active_textures);
            assert(self@.textures =~= old(self)@.textures.remove(texture.0));
        }
        r
    }

    /// The loaded texture with this id.
    pub fn texture(&self, texture: TextureId) -> (r: Option<GlTexture>)
        ensures
            r == self@.textures.get(texture.0),
    {
        match self.textures.get(&texture.0) {
            Some(t) => Some(*t),
            None => None,
        }
    }

    /// Bring face culling to `mode`; gives the OpenGL calls to make, only
    /// those that change something.
    pub fn backface_culling(&mut self, mode: CullingMode) -> (c: CullingChange)
        ensures
            ({
                let t = spec_culling(old(self)@.culling_enabled, old(self)@.culling_mode, mode);
                &&& c == t.0
                &&& final(self)@ == (GlStateView {
                    culling_enabled: t.1,
                    culling_mode: t.2,
                    ..old(self)@
                })
            }),
    {
        let enable = mode != CullingMode::Disabled && !self.culling_enabled;
        if enable {
            self.culling_enabled = true;
        }
        let mut change = CullingChange { enable, disable: false, cull_face: None };
        match mode {
            CullingMode::Disabled => {
                if self.culling_enabled {
                    change.disable = true;
                    self.culling_enabled = false;
                }
            },
            CullingMode::Front => {
                if self.culling_mode != GL_FRONT {
                    change.cull_face = Some(GL_FRONT);
                    self.culling_mode = GL_FRONT;
                }
            },
            CullingMode::Back => {
                if self.culling_mode != GL_BACK {
                    change.cull_face = Some(GL_BACK);
                    self.culling_mode = GL_BACK;
                }
            },
            CullingMode::FrontBack => {
                if self.culling_mode != GL_FRONT_AND_BACK {
                    change.cull_face = Some(GL_FRONT_AND_BACK);
                    self.culling_mode = GL_FRONT_AND_BACK;
                }
            },
        }
        proof {
            assert(self@.active_textures =~= old(self)@.active_textures);
        }
        change
    }

    /// A pipeline is bound: it holds no texture unit yet.
    pub fn bind_pipeline(&mut self, pipeline: PipelineId)
        requires
            units_valid(old(self)@),
        ensures
            final(self)@ == (GlStateView {
                active_textures: old(self)@.active_textures.insert(pipeline.0, Seq::empty()),
                ..old(self)@
            }),
            units_valid(final(self)@),
    {
        self.active_textures.insert(pipeline.0, Vec::new());
        proof {
            assert(self@.active_textures =~= old(self)@.active_textures.insert(
                pipeline.0,
                Seq::empty(),
            ));
        }
    }

    /// A bound pipeline is unbound: the texture units it holds are free
    /// again.
    pub fn unbind_pipeline(&mut self, pipeline: PipelineId)
        requires
            units_valid(old(self)@),
            old(self)@.active_textures.contains_key(pipeline.0),
        ensures
            final(self)@ == (GlStateView {
                texture_units: Seq::new(
                    old(self)@.texture_units.len(),
                    |u: int|
                        if old(self)@.active_textures[pipeline.0].contains(u as usize) {
                            false
                        } else {
                            old(self)@.texture_units[u]
                        },
                ),
                active_textures: old(self)@.active_textures.remove(pipeline.0),
                ..old(self)@
            }),
            units_valid(final(self)@),
    {
        let held = match self.active_textures.remove(&pipeline.0) {
            Some(v) => v,
            None => Vec::new(),
        };
        let _len = self.texture_units.len();
        let ghost units0 = self.texture_units@;
        proof {
            assert(held@.take(0) =~= Seq::<usize>::empty());
            assert(self.texture_units@ =~= Seq::new(
                units0.len(),
                |u: int|
                    if held@.take(0).contains(u as usize) {
                        false
                    } else {
                        units0[u]
                    },
            ));
        }
        let n = held.len();
        let mut i: usize = 0;
        while i < n
            invariant
                n == held@.len(),
                i <= n,
                held@ == old(self)@.active_textures[pipeline.0],
                units_valid(old(self)@),
                old(self)@.active_textures.contains_key(pipeline.0),
                units0 == old(self)@.texture_units,
                units0.len() <= usize::MAX,
                self.texture_units@.len() == units0.len(),
                self.active_textures@ == old(self).active_textures@.remove(pipeline.0),
                self.textures@ == old(self).textures@,
                self.id == old(self).id,
                self.culling_enabled == old(self).culling_enabled,
                self.culling_mode == old(self).culling_mode,
                self.texture_units@ == Seq::new(
                    units0.len(),
                    |u: int|
                        if held@.take(i as int).contains(u as usize) {
                            false
                        } else {
                            units0[u]
                        },
                ),
            decreases n - i,
        {
            let u = held[i];
            assert(u < units0.len());
            self.texture_units.set(u, false);
            proof {
                assert forall|x: int| 0 <= x < units0.len() implies self.texture_units@[x] == (if held@.take(
                    i + 1,
                ).contains(x as usize) {
                    false
                } else {
                    units0[x]
                }) by {
                    let t0 = held@.take(i as int);
                    let t1 = held@.take(i + 1);
                    if t1.contains(x as usize) && x != u {
                        let k = choose|k: int| 0 <= k < t1.len() && #[trigger] t1[k] == x as usize;
                        if k == i {
                            assert(t1[i as int] == u);
                        }
                        assert(t0[k] == x as usize);
                    }
                    if t0.contains(x as usize) {
                        let k = choose|k: int| 0 <= k < t0.len() && #[trigger] t0[k] == x as usize;
                        assert(t1[k] == x as usize);
                    }
                    if x == u {
                        assert(t1[i as int] == u);
                    }
                }
                assert(self.texture_units@ =~= Seq::new(
                    units0.len(),
                    |x: int|
                        if held@.take(i + 1).contains(x as usize) {
                            false
                        } else {
                            units0[x]
                        },
                ));
            }
            i = i + 1;
        }
        proof {
            assert(held@.take(n as int) =~= held@);
            assert(self@.active_textures =~= old(self)@.active_textures.remove(pipeline.0));
            assert forall|p: u64, k: int|
                #![trigger self@.active_textures[p][k]]
                self@.active_textures.contains_key(p) && 0 <= k < self@.active_textures[p].len()
                    implies self@.active_textures[p][k] < self@.texture_units.len() by {
                assert(old(self)@.active_textures[p][k] < old(self)@.texture_units.len());
            }
        }
    }

    /// Give a bound pipeline the first free texture unit and bind a loaded
    /// texture to it; gives the unit.  The unit is taken before the
    /// pipeline and the texture are looked up, so a failed lookup leaves it
    /// taken.
    pub fn bind_texture_unit(&mut self, pipeline: PipelineId, texture: TextureId) -> (r: Result<usize, GlError>)
        requires
            units_valid(old(self)@),
            old(self)@.texture_units.len() <= u32::MAX,
        ensures
            units_valid(final(self)@),
            match first_free(old(self)@.texture_units) {
                None => r matches Err(e) && e is TextureUnitsFull && final(self)@ == old(self)@,
                Some(u) => {
                    let units = old(self)@.texture_units.update(u, true);
                    if !old(self)@.active_textures.contains_key(pipeline.0) {
                        r matches Err(e) && e is PipelineNotBound && final(self)@ == (GlStateView {
                            texture_units: units,
                            ..old(self)@
                        })
                    } else {
                        let held = old(self)@.active_textures.insert(
                            pipeline.0,
                            old(self)@.active_textures[pipeline.0].push(u as usize),
                        );
                        if !old(self)@.textures.contains_key(texture.0) {
                            r matches Err(e) && e is TextureUnloaded && final(self)@ == (GlStateView {
                                texture_units: units,
                                active_textures: held,
                                ..old(self)@
                            })
                        } else {
                            r == Ok::<usize, GlError>(u as usize) && final(self)@ == (GlStateView {
                                texture_units: units,
                                active_textures: held,
                                textures: old(self)@.textures.insert(
                                    texture.0,
                                    GlTexture {
                                        active_index: u as u32,
                                        ..old(self)@.textures[texture.0]
                                    },
                                ),
                                ..old(self)@
                            })
                        }
                    }
                },
            },
    {
        let n = self.texture_units.len();
        let mut u: usize = 0;
        while u < n && self.texture_units[u]
            invariant
                n == self.texture_units@.len(),
                u <= n,
                forall|j: int| 0 <= j < u ==> self.texture_units@[j],
            decreases n - u,
        {
            u = u + 1;
        }
        if u == n {
            proof {
                assert(self.texture_units@ == old(self)@.texture_units);
            }
            return Err(GlError::TextureUnitsFull);
        }
        proof {
            let units = self.texture_units@;
            assert(!(forall|i: int| 0 <= i < units.len() ==> units[i]));
            let c = choose|i: int| 0 <= i < units.len() && !units[i] && forall|j: int| 0 <= j < i ==> units[j];
            assert(c == u) by {
                if c < u {
                    assert(units[c]);
                } else if c > u {
                    assert(units[u as int]);
                }
            }
        }
        self.texture_units.set(u, true);
        let ghost units1 = self.texture_units@;
        assert(units1 == old(self)@.texture_units.update(u as int, true));
        let mut held = match self.active_textures.remove(&pipeline.0) {
            Some(v) => v,
            None => {
                proof {
                    assert(self.active_textures@ =~= old(self).active_textures@);
                    assert(self@ == (GlStateView { texture_units: units1, ..old(self)@ }));
                    assert forall|p: u64, k: int|
                        #![trigger self@.active_textures[p][k]]
                        self@.active_textures.contains_key(p) && 0 <= k < self@.active_textures[p].len()
                            implies self@.active_textures[p][k] < self@.texture_units.len() by {
                        assert(old(self)@.active_textures[p][k] < old(self)@.texture_units.len());
                    }
                }
                return Err(GlError::PipelineNotBound);
            },
        };
        held.push(u);
        self.active_textures.insert(pipeline.0, held);
        proof {
            assert(self@.active_textures =~= old(self)@.active_textures.insert(
                pipeline.0,
                old(self)@.active_textures[pipeline.0].push(u as usize),
            ));
            assert forall|p: u64, k: int|
                #![trigger self@.active_textures[p][k]]
                self@.active_textures.contains_key(p) && 0 <= k < self@.active_textures[p].len()
                    implies self@.active_textures[p][k] < self@.texture_units.len() by {
                if p != pipeline.0 || k < old(self)@.active_textures[pipeline.0].len() {
                    assert(old(self)@.active_textures[p][k] < old(self)@.texture_units.len());
                }
            }
        }
        let ghost held_view = self@.active_textures;
        let mut tex = match self.textures.remove(&texture.0) {
            Some(t) => t,
            None => {
                proof {
                    assert(self.textures@ =~= old(self).textures@);
                }
                return Err(GlError::TextureUnloaded);
            },
        };
        tex.set_bound(u as u32);
        self.textures.insert(texture.0, tex);
        proof {
            assert(self@.textures =~= old(self)@.textures.insert(
                texture.0,
                GlTexture { active_index: u as u32, ..old(self)@.textures[texture.0] },
            ));
        }
        Ok(u)
    }
}

// ================= //
// vertex attributes //
// ================= //

/// Why the vertex attributes of a pipeline cannot be laid out.
#[derive(Debug, Clone, Copy, PartialEq, Eq, Structural)]
pub enum AttributeIssue {
    /// The name of this attribute holds a nul byte
    NulInName(usize),
    /// An attribute has a type that is not numeric
    Opaque,
}

/// The number of floats in a vertex attribute of this type, if it is
/// numeric.
pub open spec fn spec_float_count(ty: Type) -> Option<int> {
    match ty {
        Type::Vector(n) => Some(n as int),
        Type::Matrix(n, m) => Some(n * m),
        Type::Floating => Some(1),
        _ => None,
    }
}

/// The bytes of a name hold a nul byte.
pub open spec fn has_nul(name: Seq<char>) -> bool {
    name.contains('\0')
}

/// The float counts of the attributes, in order, or the issue with the
/// first attribute that has one: its name is checked before its type.
pub open spec fn spec_attribute_layout(vars: Seq<VariableView>) -> Result<Seq<usize>, AttributeIssue>
    decreases vars.len(),
{
    if vars.len() == 0 {
        Ok(Seq::empty())
    } else {
        match spec_attribute_layout(vars.drop_last()) {
            Err(e) => Err(e),
            Ok(counts) => {
                let v = vars.last();
                if has_nul(v.name) {
                    Err(AttributeIssue::NulInName((vars.len() - 1) as usize))
                } else {
                    match spec_float_count(v.ty) {
                        None => Err(AttributeIssue::Opaque),
                        Some(c) => Ok(counts.push(c as usize)),
                    }
                }
            },
        }
    }
}

/// The matrices among these variables are small enough to count.
pub open spec fn counts_fit(vars: Seq<VariableView>) -> bool {
    forall|i: int|
        0 <= i < vars.len() ==> match (#[trigger] vars[i]).ty {
            Type::Matrix(n, m) => n * m <= usize::MAX,
            _ => true,
        }
}

proof fn lemma_layout_stops(vars: Seq<VariableView>, i: int, k: int)
    requires
        0 < i <= k <= vars.len(),
        spec_attribute_layout(vars.take(i)) is Err,
    ensures
        spec_attribute_layout(vars.take(k)) == spec_attribute_layout(vars.take(i)),
    decreases k - i,
{
    if k > i {
        lemma_layout_stops(vars, i, k - 1);
        assert(vars.take(k).drop_last() =~= vars.take(k - 1));
    }
}

/// The name holds a nul character.
fn name_has_nul(name: &String) -> (r: bool)
    ensures
        r == has_nul(name@),
{
    broadcast use vstd::string::group_string_axioms;

    let s = name.as_str();
    let mut chars = s.chars();
    let ghost all = s@;
    let ghost mut i: int = 0;
    proof {
        assert(all.skip(0) =~= all);
    }
    loop
        invariant
            chars.obeys_prophetic_iter_laws(),
            chars.remaining() == all.skip(i),
            all == name@,
            0 <= i <= all.len(),
            !all.take(i).contains('\0'),
        decreases all.len() - i,
    {
        match chars.next() {
            Some(c) => {
                proof {
                    assert(all.skip(i)[0] == all[i]);
                    assert(all.skip(i).drop_first() =~= all.skip(i + 1));
                    assert(all.take(i + 1) =~= all.take(i).push(c));
                }
                if c == '\0' {
                    proof {
                        assert(all[i] == '\0');
                    }
                    return true;
                }
                proof {
                    i = i + 1;
                }
            },
            None => {
                proof {
                    assert(all.skip(i).len() == 0);
                    assert(all.take(i) =~= all);
                }
                return false;
            },
        }
    }
}

/// The layout of the vertex inputs of a pipeline: the number of floats of
/// each, in order, for binding `i` of the vertex array.
pub fn attribute_layout(inputs: &Vec<Variable>) -> (r: Result<Vec<usize>, AttributeIssue>)
    requires
        counts_fit(vars_view(inputs@)),
    ensures
        match spec_attribute_layout(vars_view(inputs@)) {
            Ok(c) => r matches Ok(v) && v@ == c,
            Err(e) => r == Err::<Vec<usize>, AttributeIssue>(e),
        },
{
    let ghost vv = vars_view(inputs@);
    let mut counts: Vec<usize> = Vec::new();
    let n = inputs.len();
    let mut i: usize = 0;
    while i < n
        invariant
            n == inputs@.len(),
            vv == vars_view(inputs@),
            counts_fit(vv),
            i <= n,
            spec_attribute_layout(vv.take(i as int)) == Ok::<Seq<usize>, AttributeIssue>(counts@),
        decreases n - i,
    {
        proof {
            assert(vv.take(i + 1).drop_last() =~= vv.take(i as int));
            assert(vv.take(i + 1).last() == vv[i as int]);
        }
        let attribute = &inputs[i];
        if name_has_nul(&attribute.name) {
            proof {
                lemma_layout_stops(vv, i + 1, n as int);
                assert(vv.take(n as int) =~= vv);
            }
            return Err(AttributeIssue::NulInName(i));
        }
        let count = match attribute.ty {
            Type::Vector(k) => k,
            Type::Matrix(k, m) => {
                assert(vv[i as int].ty == Type::Matrix(k, m));
                k * m
            },
            Type::Floating => 1,
            _ => {
                proof {
                    lemma_layout_stops(vv, i + 1, n as int);
                    assert(vv.take(n as int) =~= vv);
                }
                return Err(AttributeIssue::Opaque);
            },
        };
        counts.push(count);
        i = i + 1;
    }
    proof {
        assert(vv.take(n as int) =~= vv);
    }
    Ok(counts)
}

} // verus!
