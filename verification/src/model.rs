//! The CPU side of model loading: inferring how each buffer view is used,
//! applying sparse accessors to the buffer data, and building the shader
//! program a primitive is drawn with.
use crate::gltf::{
    attribute_at, attribute_count, Accessor, BufferView, BufferViewTarget, ComponentType, Image, Material, Mesh, Primitive,
    SparseAccessor,
};
use crate::renderer::shader::{
    env_grows, expr_valid, function_env, function_valid, lemma_exprs_valid_all,
    lemma_exprs_valid_pair, lemma_exprs_view, lemma_function_valid_grows, lemma_set_builtin_valid,
    lemma_set_output_valid, lemma_variable_id, sb_input, sb_output, sb_set_builtin, sb_set_output,
    sb_uniform, spec_add_function, BuiltinFunction, BuiltinVariable, ErrorView, ExprView,
    Expression, Function, FunctionView, Program, ProgramView, ShaderCreationError, StatementView,
    Type as ShaderType, VariableView,
};
use crate::text::{decimal, parse_usize, push_decimal, spec_parse_usize, split_chars, split_str};
use vstd::prelude::*;
use vstd::string::StringExecFns;

verus! {

/// Errors found while loading a model.
#[derive(Debug)]
pub enum ModelError {
    /// Both matrix and trs properties supplied on one node
    DuplicateTransform,
    /// Error loading the named model buffer
    BufferLoad { name: String, inner: crate::resources::Error },
    /// Buffer read is too short
    BufferLength { len: usize, expected: usize },
    /// Unable to get item `got` from `array`, the maximum is `max`
    BadIndex { max: usize, got: usize, array: &'static str },
    /// Mesh does not contain position data
    NoPositions,
    /// Bad vertex attribute lengths
    AttribLen,
    /// Error loading the named image
    ImageLoad { name: String, inner: crate::resources::Error },
    /// Error loading a texture into vram
    Texture,
    /// No image provided for texture
    NoImage,
    /// Could not get internal buffer
    InternalBuffer,
    /// No buffer view or uri defined on image
    NoSource,
    /// Error while loading the model file
    Gltf,
    /// Could not get root path of scene
    RootPath { inner: String },
    /// Multiple types required for buffer view
    BufferViewType,
    /// Unable to infer bufferview type
    BufferViewNoInference,
    /// Unable to use floats as sparse indices
    SparseFloat,
    /// Malformed sparse indices
    SparseIndicies,
    /// Unmatched sparse index to value count
    SparseIndexValues,
    /// Graphics error in model
    Graphics,
    /// Trying to bind index buffer as vertex array
    IndexAsVertex,
    /// Trying to bind to an accessor without a defined buffer view
    AccessorWithoutBuffer,
    /// Shader compilation error while loading model
    ShaderCompilation { source: ShaderCreationError },
    /// Unable to convert shader to native type
    NativeShader,
}

/// The text of an error up to where the text of an outside error it
/// carries begins (inside a resource error); the whole text where it
/// carries none.
pub open spec fn error_head(e: ModelError) -> Seq<char> {
    match e {
        ModelError::BufferLoad { name, inner } => "Error loading model buffer "@ + name@ + ": \n"@
            + crate::resources::error_head(inner),
        ModelError::BufferLength { len, expected } => "Buffer read is too short: got "@ + decimal(
            len as nat,
        ) + " expected "@ + decimal(expected as nat),
        ModelError::BadIndex { max, got, array } => "Unable to get item "@ + decimal(got as nat)
            + " from "@ + array@ + ", the maximum is "@ + decimal(max as nat),
        ModelError::ImageLoad { name, inner } => "Error loading image "@ + name@ + ": "@
            + crate::resources::error_head(inner),
        ModelError::RootPath { inner } => "Could not get root path of scene: path = \""@ + inner@
            + "\""@,
        ModelError::ShaderCompilation { source } => "Shader compilation error while loading model:\n"@
            + crate::renderer::shader::spec_message(source@),
        ModelError::DuplicateTransform => "Both matrix and trs properties supplied on one node"@,
        ModelError::NoPositions => "Mesh does not contain position data"@,
        ModelError::AttribLen => "Bad vertex attribute lengths"@,
        ModelError::Texture => "Error loading texture into vram"@,
        ModelError::NoImage => "No image provided for texture"@,
        ModelError::InternalBuffer => "Could not get internal buffer"@,
        ModelError::NoSource => "No buffer view or uri defined on image"@,
        ModelError::Gltf => "Error while loading model"@,
        ModelError::BufferViewType => "Multiple types required for buffer view"@,
        ModelError::BufferViewNoInference => "Unable to infer bufferview type"@,
        ModelError::SparseFloat => "Unable to use floats as sparce indicies"@,
        ModelError::SparseIndicies => "Malformed sparse indicies"@,
        ModelError::SparseIndexValues => "Unmatched sparse index to value count"@,
        ModelError::Graphics => "Graphics error in model"@,
        ModelError::IndexAsVertex => "Trying to bind index buffer as vertex array"@,
        ModelError::AccessorWithoutBuffer => "Trying to bind to an accessor without a defined buffer view"@,
        ModelError::NativeShader => "Unable to convert shader to native type"@,
    }
}

/// The error carries no outside error, so `error_head` is its whole text.
pub open spec fn error_whole(e: ModelError) -> bool {
    match e {
        ModelError::BufferLoad { inner, .. } => crate::resources::error_whole(inner),
        ModelError::ImageLoad { inner, .. } => crate::resources::error_whole(inner),
        _ => true,
    }
}

impl ModelError {
    /// The text of the error: `error_head`, then the text of the outside
    /// error inside a resource error it carries, if any.
    pub fn message(&self) -> (r: String)
        ensures
            r@.len() >= error_head(*self).len(),
            r@.subrange(0, error_head(*self).len() as int) == error_head(*self),
            error_whole(*self) ==> r@ == error_head(*self),
    {
        let mut s = String::new();
        match self {
            ModelError::BufferLoad { name, inner } => {
                s.append("Error loading model buffer ");
                s.append(name.as_str());
                s.append(": \n");
                let t = inner.message();
                s.append(t.as_str());
            },
            ModelError::BufferLength { len, expected } => {
                s.append("Buffer read is too short: got ");
                push_decimal(&mut s, *len);
                s.append(" expected ");
                push_decimal(&mut s, *expected);
            },
            ModelError::BadIndex { max, got, array } => {
                s.append("Unable to get item ");
                push_decimal(&mut s, *got);
                s.append(" from ");
                s.append(*array);
                s.append(", the maximum is ");
                push_decimal(&mut s, *max);
            },
            ModelError::ImageLoad { name, inner } => {
                s.append("Error loading image ");
                s.append(name.as_str());
                s.append(": ");
                let t = inner.message();
                s.append(t.as_str());
            },
            ModelError::RootPath { inner } => {
                s.append("Could not get root path of scene: path = \"");
                s.append(inner.as_str());
                s.append("\"");
            },
            ModelError::ShaderCompilation { source } => {
                s.append("Shader compilation error while loading model:\n");
                let t = source.message();
                s.append(t.as_str());
            },
            ModelError::DuplicateTransform => s.append("Both matrix and trs properties supplied on one node"),
            ModelError::NoPositions => s.append("Mesh does not contain position data"),
            ModelError::AttribLen => s.append("Bad vertex attribute lengths"),
            ModelError::Texture => s.append("Error loading texture into vram"),
            ModelError::NoImage => s.append("No image provided for texture"),
            ModelError::InternalBuffer => s.append("Could not get internal buffer"),
            ModelError::NoSource => s.append("No buffer view or uri defined on image"),
            ModelError::Gltf => s.append("Error while loading model"),
            ModelError::BufferViewType => s.append("Multiple types required for buffer view"),
            ModelError::BufferViewNoInference => s.append("Unable to infer bufferview type"),
            ModelError::SparseFloat => s.append("Unable to use floats as sparce indicies"),
            ModelError::SparseIndicies => s.append("Malformed sparse indicies"),
            ModelError::SparseIndexValues => s.append("Unmatched sparse index to value count"),
            ModelError::Graphics => s.append("Graphics error in model"),
            ModelError::IndexAsVertex => s.append("Trying to bind index buffer as vertex array"),
            ModelError::AccessorWithoutBuffer => s.append("Trying to bind to an accessor without a defined buffer view"),
            ModelError::NativeShader => s.append("Unable to convert shader to native type"),
        }
        proof {
            assert(s@.subrange(0, error_head(*self).len() as int) =~= error_head(*self));
        }
        s
    }
}

/// How a buffer view is going to be used in the model
#[derive(Debug, Clone, Copy, PartialEq, Eq, Structural, PartialOrd, Ord, Hash)]
pub enum BufferViewType {
    /// No usage found for the buffer view
    NoUsage,
    /// The buffer view is needed on the CPU, possibly a texture to decode
    CPUBuffer,
    /// The buffer view is needed as a vertex attribute buffer
    ArrayBuffer,
    /// The buffer view is needed as an index buffer
    ElementArrayBuffer,
}

/// Giving a view the usage `set`: an unused view takes it, a view with the
/// same usage keeps it, and any other usage is a conflict.
pub open spec fn spec_set_view(cur: BufferViewType, set: BufferViewType) -> Result<
    BufferViewType,
    ModelError,
> {
    if cur == BufferViewType::NoUsage {
        Ok(set)
    } else if cur == set {
        Ok(cur)
    } else {
        Err(ModelError::BufferViewType)
    }
}

/// Giving view `view` of the usage list the usage `set`.
pub open spec fn spec_set_view_at(types: Seq<BufferViewType>, view: int, set: BufferViewType) -> Result<
    Seq<BufferViewType>,
    ModelError,
> {
    if 0 <= view < types.len() {
        match spec_set_view(types[view], set) {
            Ok(t) => Ok(types.update(view, t)),
            Err(e) => Err(e),
        }
    } else {
        Err(ModelError::BadIndex { array: "buffer views", got: view as usize, max: types.len() as usize })
    }
}

/// The views an accessor reads take the usage `set`; the views of its
/// sparse indices and values are needed on the CPU.
pub open spec fn spec_set_accessor(
    types: Seq<BufferViewType>,
    accessor: Accessor,
    set: BufferViewType,
) -> Result<Seq<BufferViewType>, ModelError> {
    let first = match accessor.buffer_view {
        Some(v) => spec_set_view_at(types, v as int, set),
        None => Ok(types),
    };
    match first {
        Err(e) => Err(e),
        Ok(t1) => match accessor.sparse {
            None => Ok(t1),
            Some(sparse) => match spec_set_view_at(
                t1,
                sparse.indices.buffer_view as int,
                BufferViewType::CPUBuffer,
            ) {
                Err(e) => Err(e),
                Ok(t2) => spec_set_view_at(
                    t2,
                    sparse.values.buffer_view as int,
                    BufferViewType::CPUBuffer,
                ),
            },
        },
    }
}

/// The accessor with index `id` is used with usage `set`.
pub open spec fn spec_use_accessor(
    types: Seq<BufferViewType>,
    id: usize,
    accessors: Seq<Accessor>,
    set: BufferViewType,
) -> Result<Seq<BufferViewType>, ModelError> {
    if id < accessors.len() {
        spec_set_accessor(types, accessors[id as int], set)
    } else {
        Err(ModelError::BadIndex { array: "accessors", got: id, max: accessors.len() as usize })
    }
}

/// The attribute accessors of a primitive, in order, are vertex buffers.
pub open spec fn spec_use_attributes(
    types: Seq<BufferViewType>,
    attributes: Seq<(String, i32)>,
    accessors: Seq<Accessor>,
) -> Result<Seq<BufferViewType>, ModelError>
    decreases attributes.len(),
{
    if attributes.len() == 0 {
        Ok(types)
    } else {
        match spec_use_accessor(
            types,
            attributes[0].1 as usize,
            accessors,
            BufferViewType::ArrayBuffer,
        ) {
            Err(e) => Err(e),
            Ok(t) => spec_use_attributes(t, attributes.drop_first(), accessors),
        }
    }
}

/// The index accessor of a primitive, if any, is an index buffer.
pub open spec fn spec_use_indices(
    types: Seq<BufferViewType>,
    prim: Primitive,
    accessors: Seq<Accessor>,
) -> Result<Seq<BufferViewType>, ModelError> {
    match prim.indices {
        None => Ok(types),
        Some(i) => spec_use_accessor(types, i, accessors, BufferViewType::ElementArrayBuffer),
    }
}

/// The usages a primitive asks for: its attributes, then its indices.
pub open spec fn spec_derive_prim(
    types: Seq<BufferViewType>,
    prim: Primitive,
    accessors: Seq<Accessor>,
) -> Result<Seq<BufferViewType>, ModelError> {
    match spec_use_attributes(types, prim.spec_attributes(), accessors) {
        Err(e) => Err(e),
        Ok(t) => spec_use_indices(t, prim, accessors),
    }
}

/// The usages the primitives ask for, in order.
pub open spec fn spec_derive_prims(
    types: Seq<BufferViewType>,
    prims: Seq<Primitive>,
    accessors: Seq<Accessor>,
) -> Result<Seq<BufferViewType>, ModelError>
    decreases prims.len(),
{
    if prims.len() == 0 {
        Ok(types)
    } else {
        match spec_derive_prim(types, prims[0], accessors) {
            Err(e) => Err(e),
            Ok(t) => spec_derive_prims(t, prims.drop_first(), accessors),
        }
    }
}

/// The usages the meshes ask for, in order.
pub open spec fn spec_derive_meshes(
    types: Seq<BufferViewType>,
    meshes: Seq<Mesh>,
    accessors: Seq<Accessor>,
) -> Result<Seq<BufferViewType>, ModelError>
    decreases meshes.len(),
{
    if meshes.len() == 0 {
        Ok(types)
    } else {
        match spec_derive_prims(types, meshes[0].primitives@, accessors) {
            Err(e) => Err(e),
            Ok(t) => spec_derive_meshes(t, meshes.drop_first(), accessors),
        }
    }
}

/// Images stored in buffer views need those views on the CPU.
pub open spec fn spec_derive_images(types: Seq<BufferViewType>, images: Seq<Image>) -> Result<
    Seq<BufferViewType>,
    ModelError,
>
    decreases images.len(),
{
    if images.len() == 0 {
        Ok(types)
    } else {
        let first = match images[0].buffer_view {
            None => Ok(types),
            Some(v) => spec_set_view_at(types, v as int, BufferViewType::CPUBuffer),
        };
        match first {
            Err(e) => Err(e),
            Ok(t) => spec_derive_images(t, images.drop_first()),
        }
    }
}

/// The usage a declared buffer view target stands for.
pub open spec fn target_usage(target: BufferViewTarget) -> BufferViewType {
    match target {
        BufferViewTarget::ElementArrayBuffer => BufferViewType::ElementArrayBuffer,
        BufferViewTarget::ArrayBuffer => BufferViewType::ArrayBuffer,
    }
}

/// The buffer views from the `k`-th on take the usage their declared
/// target asks for.
pub open spec fn spec_derive_targets(types: Seq<BufferViewType>, views: Seq<BufferView>, k: int) -> Result<
    Seq<BufferViewType>,
    ModelError,
>
    decreases views.len() - k,
{
    if k >= views.len() || k < 0 {
        Ok(types)
    } else {
        let first = match views[k].target {
            None => Ok(types),
            Some(target) => spec_set_view_at(types, k, target_usage(target)),
        };
        match first {
            Err(e) => Err(e),
            Ok(t) => spec_derive_targets(t, views, k + 1),
        }
    }
}

/// A view that nothing uses is an error.
pub open spec fn spec_check_all_used(types: Seq<BufferViewType>) -> Result<
    Seq<BufferViewType>,
    ModelError,
> {
    if exists|i: int| 0 <= i < types.len() && types[i] == BufferViewType::NoUsage {
        Err(ModelError::BufferViewNoInference)
    } else {
        Ok(types)
    }
}

/// What remains once the images have been handled.
pub open spec fn spec_after_images(types: Seq<BufferViewType>, model: crate::gltf::Model) -> Result<
    Seq<BufferViewType>,
    ModelError,
> {
    match spec_derive_targets(types, model.buffer_views@, 0) {
        Err(e) => Err(e),
        Ok(t) => spec_check_all_used(t),
    }
}

/// What remains once the meshes have been handled.
pub open spec fn spec_after_meshes(types: Seq<BufferViewType>, model: crate::gltf::Model) -> Result<
    Seq<BufferViewType>,
    ModelError,
> {
    match spec_derive_images(types, model.images@) {
        Err(e) => Err(e),
        Ok(t) => spec_after_images(t, model),
    }
}

/// All buffer view usages of a model: meshes first, then images, then the
/// declared targets; a view that nothing uses is an error.
pub open spec fn spec_derive_types(model: crate::gltf::Model) -> Result<
    Seq<BufferViewType>,
    ModelError,
> {
    let init = Seq::new(model.buffer_views@.len(), |i: int| BufferViewType::NoUsage);
    match spec_derive_meshes(init, model.meshes@, model.accessors@) {
        Err(e) => Err(e),
        Ok(t) => spec_after_meshes(t, model),
    }
}

impl BufferViewType {
    /// Try to set a view to have a provided type, if it already has a different
    /// type, it will error.
    pub fn set_view(view: &mut Self, set: Self) -> (r: Result<(), ModelError>)
        ensures
            match spec_set_view(*old(view), set) {
                Ok(t) => r is Ok && *final(view) == t,
                Err(e) => r == Err::<(), ModelError>(e) && *final(view) == *old(view),
            },
    {
        match *view {
            BufferViewType::NoUsage => {
                *view = set;
            },
            _ => {
                if *view != set {
                    return Err(ModelError::BufferViewType);
                }
            },
        }
        Ok(())
    }

    /// Give view `view` of the usage list the usage `set`.
    fn set_view_at(types: &mut Vec<Self>, view: usize, set: Self) -> (r: Result<(), ModelError>)
        ensures
            match spec_set_view_at(old(types)@, view as int, set) {
                Ok(t) => r is Ok && final(types)@ == t,
                Err(e) => r == Err::<(), ModelError>(e),
            },
    {
        let type_len = types.len();
        if view >= type_len {
            return Err(ModelError::BadIndex { array: "buffer views", got: view, max: type_len });
        }
        let mut cur = types[view];
        let r = Self::set_view(&mut cur, set);
        if r.is_ok() {
            types.set(view, cur);
        }
        r
    }

    /// Set the buffer views referenced by an accessor to have the buffer view
    /// type passed in, or to be CPU buffers if referenced as part of a sparse
    /// accessor.
    pub fn set_accessor(accessor: &Accessor, types: &mut Vec<Self>, set: Self) -> (r: Result<
        (),
        ModelError,
    >)
        ensures
            match spec_set_accessor(old(types)@, *accessor, set) {
                Ok(t) => r is Ok && final(types)@ == t,
                Err(e) => r == Err::<(), ModelError>(e),
            },
    {
        if let Some(view) = accessor.buffer_view {
            if let Err(e) = Self::set_view_at(types, view, set) {
                return Err(e);
            }
        }
        if let Some(sparse) = &accessor.sparse {
            if let Err(e) = Self::set_view_at(types, sparse.indices.buffer_view, Self::CPUBuffer) {
                return Err(e);
            }
            if let Err(e) = Self::set_view_at(types, sparse.values.buffer_view, Self::CPUBuffer) {
                return Err(e);
            }
        }
        Ok(())
    }

    /// The accessor with index `id` is used with usage `set`.
    fn use_accessor(accessors: &Vec<Accessor>, id: usize, types: &mut Vec<Self>, set: Self) -> (r:
        Result<(), ModelError>)
        ensures
            match spec_use_accessor(old(types)@, id, accessors@, set) {
                Ok(t) => r is Ok && final(types)@ == t,
                Err(e) => r == Err::<(), ModelError>(e),
            },
    {
        if id >= accessors.len() {
            return Err(ModelError::BadIndex { array: "accessors", got: id, max: accessors.len() });
        }
        Self::set_accessor(&accessors[id], types, set)
    }

    /// Derive the types of buffer for a mesh primitive
    pub fn derive_prim(prim: &Primitive, model: &crate::gltf::Model, types: &mut Vec<Self>) -> (r:
        Result<(), ModelError>)
        ensures
            match spec_derive_prim(old(types)@, *prim, model.accessors@) {
                Ok(t) => r is Ok && final(types)@ == t,
                Err(e) => r == Err::<(), ModelError>(e),
            },
    {
        let ghost total = spec_derive_prim(types@, *prim, model.accessors@);
        let n = attribute_count(&prim.attributes);
        assert(prim.spec_attributes().skip(0) == prim.spec_attributes());
        for i in 0..n
            invariant
                n == prim.spec_attributes().len(),
                total == spec_derive_prim(old(types)@, *prim, model.accessors@),
                total == match spec_use_attributes(
                    types@,
                    prim.spec_attributes().skip(i as int),
                    model.accessors@,
                ) {
                    Err(e) => Err(e),
                    Ok(t) => spec_use_indices(t, *prim, model.accessors@),
                },
        {
            assert(prim.spec_attributes().skip(i as int).drop_first() == prim.spec_attributes().skip(i + 1));
            assert(prim.spec_attributes().skip(i as int)[0] == prim.spec_attributes()[i as int]);
            if let Some((_, attr_id)) = attribute_at(&prim.attributes, i) {
                let r = Self::use_accessor(&model.accessors, attr_id as usize, types, Self::ArrayBuffer);
                if let Err(e) = r {
                    return Err(e);
                }
            }
        }
        assert(prim.spec_attributes().skip(n as int) == Seq::<(String, i32)>::empty());
        if let Some(indicies) = prim.indices {
            if let Err(e) = Self::use_accessor(&model.accessors, indicies, types, Self::ElementArrayBuffer) {
                return Err(e);
            }
        }
        Ok(())
    }

    /// Attempt to derive all the buffer view types for a gltf model.
    /// Errors if multiple types are derived for one buffer view or if no type
    /// is derived for the buffer view.
    pub fn derive_types(model: &crate::gltf::Model) -> (r: Result<Vec<Self>, ModelError>)
        ensures
            match spec_derive_types(*model) {
                Ok(t) => r matches Ok(v) && v@ == t,
                Err(e) => r == Err::<Vec<BufferViewType>, ModelError>(e),
            },
    {
        let ghost total = spec_derive_types(*model);
        let nviews = model.buffer_views.len();
        let mut types: Vec<Self> = Vec::new();
        for i in 0..nviews
            invariant
                types@ == Seq::new(i as nat, |j: int| BufferViewType::NoUsage),
        {
            types.push(Self::NoUsage);
        }
        assert(types@ == Seq::new(model.buffer_views@.len(), |j: int| BufferViewType::NoUsage));

        // derive mesh primitive types
        let nmeshes = model.meshes.len();
        assert(model.meshes@.skip(0) == model.meshes@);
        for m in 0..nmeshes
            invariant
                nmeshes == model.meshes@.len(),
                total == spec_derive_types(*model),
                total == match spec_derive_meshes(
                    types@,
                    model.meshes@.skip(m as int),
                    model.accessors@,
                ) {
                    Err(e) => Err(e),
                    Ok(t) => spec_after_meshes(t, *model),
                },
        {
            assert(model.meshes@.skip(m as int).drop_first() == model.meshes@.skip(m + 1));
            assert(model.meshes@.skip(m as int)[0] == model.meshes@[m as int]);
            let mesh = &model.meshes[m];
            let nprims = mesh.primitives.len();
            assert(mesh.primitives@.skip(0) == mesh.primitives@);
            for p in 0..nprims
                invariant
                    nprims == mesh.primitives@.len(),
                total == spec_derive_types(*model),
                    *mesh == model.meshes@[m as int],
                    total == match spec_derive_prims(
                        types@,
                        mesh.primitives@.skip(p as int),
                        model.accessors@,
                    ) {
                        Err(e) => Err(e),
                        Ok(t) => match spec_derive_meshes(
                            t,
                            model.meshes@.skip(m + 1),
                            model.accessors@,
                        ) {
                            Err(e) => Err(e),
                            Ok(t1) => spec_after_meshes(t1, *model),
                        },
                    },
            {
                assert(mesh.primitives@.skip(p as int).drop_first() == mesh.primitives@.skip(
                    p + 1,
                ));
                assert(mesh.primitives@.skip(p as int)[0] == mesh.primitives@[p as int]);
                if let Err(e) = Self::derive_prim(&mesh.primitives[p], model, &mut types) {
                    return Err(e);
                }
            }
            assert(mesh.primitives@.skip(nprims as int) == Seq::<Primitive>::empty());
        }
        assert(model.meshes@.skip(nmeshes as int) == Seq::<Mesh>::empty());

        // Set image buffers to CPU usage only
        let nimages = model.images.len();
        assert(model.images@.skip(0) == model.images@);
        for k in 0..nimages
            invariant
                nimages == model.images@.len(),
                total == spec_derive_types(*model),
                total == match spec_derive_images(types@, model.images@.skip(k as int)) {
                    Err(e) => Err(e),
                    Ok(t) => spec_after_images(t, *model),
                },
        {
            assert(model.images@.skip(k as int).drop_first() == model.images@.skip(k + 1));
            assert(model.images@.skip(k as int)[0] == model.images@[k as int]);
            if let Some(view) = model.images[k].buffer_view {
                if let Err(e) = Self::set_view_at(&mut types, view, Self::CPUBuffer) {
                    return Err(e);
                }
            }
        }
        assert(model.images@.skip(nimages as int) == Seq::<Image>::empty());

        // Buffer views may declare their target
        for idx in 0..nviews
            invariant
                nviews == model.buffer_views@.len(),
                total == spec_derive_types(*model),
                total == match spec_derive_targets(types@, model.buffer_views@, idx as int) {
                    Err(e) => Err(e),
                    Ok(t) => spec_check_all_used(t),
                },
        {
            if let Some(target) = model.buffer_views[idx].target {
                let view_type = match target {
                    BufferViewTarget::ElementArrayBuffer => Self::ElementArrayBuffer,
                    BufferViewTarget::ArrayBuffer => Self::ArrayBuffer,
                };
                if let Err(e) = Self::set_view_at(&mut types, idx, view_type) {
                    return Err(e);
                }
            }
        }

        // count the number of not-inferred buffers
        let n = types.len();
        for i in 0..n
            invariant
                n == types@.len(),
                total == spec_derive_types(*model),
                total == spec_check_all_used(types@),
                forall|j: int| 0 <= j < i ==> types@[j] != BufferViewType::NoUsage,
        {
            if types[i] == Self::NoUsage {
                assert(types@[i as int] == BufferViewType::NoUsage);
                return Err(ModelError::BufferViewNoInference);
            }
        }
        Ok(types)
    }
}

// ----------------------------------------------------------------------
// Sparse accessors
// ----------------------------------------------------------------------

/// A loaded buffer of a model.
#[derive(Debug)]
pub struct Buffer {
    pub data: Vec<u8>,
}

/// The CPU side of a loaded model: its buffers and its glTF description.
#[derive(Debug)]
pub struct Model {
    pub buffers: Vec<Buffer>,
    pub gltf: crate::gltf::Model,
    pub buffer_view_types: Vec<BufferViewType>,
}

/// `a + b`, or the largest `usize` where that overflows.
pub open spec fn sat_add(a: int, b: int) -> int {
    if a + b > usize::MAX {
        usize::MAX as int
    } else {
        a + b
    }
}

/// `a * b`, or the largest `usize` where that overflows.
pub open spec fn sat_mul(a: int, b: int) -> int {
    if a * b > usize::MAX {
        usize::MAX as int
    } else {
        a * b
    }
}

fn saturating_add(a: usize, b: usize) -> (r: usize)
    ensures
        r == sat_add(a as int, b as int),
{
    match a.checked_add(b) {
        Some(v) => v,
        None => usize::MAX,
    }
}

fn saturating_mul(a: usize, b: usize) -> (r: usize)
    ensures
        r == sat_mul(a as int, b as int),
{
    match a.checked_mul(b) {
        Some(v) => v,
        None => usize::MAX,
    }
}

/// The byte contents of the buffers.
pub open spec fn buffer_bytes(buffers: Seq<Buffer>) -> Seq<Seq<u8>> {
    buffers.map_values(|b: Buffer| b.data@)
}

/// The bytes a buffer view covers, as (buffer, start, end), or the error of
/// looking them up.
pub open spec fn spec_view_window(bufs: Seq<Seq<u8>>, views: Seq<BufferView>, view: int) -> Result<
    (int, int, int),
    ModelError,
> {
    if !(0 <= view < views.len()) {
        Err(ModelError::BadIndex { array: "Buffer views", got: view as usize, max: views.len() as usize })
    } else {
        let v = views[view];
        if v.buffer >= bufs.len() {
            Err(ModelError::BadIndex { array: "Buffers", got: v.buffer, max: bufs.len() as usize })
        } else {
            let end = sat_add(v.byte_offset as int, v.byte_length as int);
            if end > bufs[v.buffer as int].len() {
                Err(
                    ModelError::BadIndex {
                        array: "Buffer get",
                        got: end as usize,
                        max: bufs[v.buffer as int].len() as usize,
                    },
                )
            } else {
                Ok((v.buffer as int, v.byte_offset as int, end))
            }
        }
    }
}

/// The value of a sparse index stored in `bytes` with integer type `t`,
/// converted to `usize` the way `as` does.
pub open spec fn index_value(bytes: Seq<u8>, t: ComponentType) -> int {
    match t {
        ComponentType::Byte => ((bytes[0] as i8) as usize) as int,
        ComponentType::UnsignedByte => bytes[0] as int,
        ComponentType::Short => (((bytes[0] as u16 + 256 * (bytes[1] as u16)) as u16 as i16) as usize) as int,
        ComponentType::UnsignedShort => bytes[0] + 256 * bytes[1],
        ComponentType::UnsignedInt => bytes[0] + 256 * bytes[1] + 65536 * bytes[2] + 16777216 * bytes[3],
        ComponentType::Float => 0,
    }
}

/// `d` with the bytes of `src` written from position `at` on.
pub open spec fn write_block(d: Seq<u8>, at: int, src: Seq<u8>) -> Seq<u8> {
    Seq::new(d.len(), |p: int| if at <= p < at + src.len() { src[p - at] } else { d[p] })
}

/// The sparse substitutions from the `k`-th on, applied to the window of
/// `wlen` bytes that starts at `base` in `d`: each index picks the element
/// at `stride * index` in the window, which takes the next `vs` bytes of
/// `vals`; an element that does not fit in the window stops the pass.
pub open spec fn spec_sparse_writes(
    d: Seq<u8>,
    base: int,
    wlen: int,
    idx: Seq<u8>,
    vals: Seq<u8>,
    t: ComponentType,
    vs: int,
    stride: int,
    k: int,
) -> (Seq<u8>, Option<ModelError>)
    decreases idx.len() - k,
{
    let isz = t.spec_size() as int;
    if k < 0 || (k + 1) * isz > idx.len() || isz <= 0 {
        (d, None)
    } else {
        proof {
            assert(k + 1 <= idx.len()) by (nonlinear_arith)
                requires
                    (k + 1) * isz <= idx.len(),
                    isz >= 1,
                    k >= 0,
            ;
        }
        let i = index_value(idx.subrange(k * isz, (k + 1) * isz), t);
        let end = sat_add(sat_mul(stride, i), vs);
        if end > wlen {
            (d, Some(ModelError::BadIndex { array: "Sparse data", got: end as usize, max: wlen as usize }))
        } else {
            spec_sparse_writes(
                write_block(d, base + end - vs, vals.subrange(k * vs, (k + 1) * vs)),
                base,
                wlen,
                idx,
                vals,
                t,
                vs,
                stride,
                k + 1,
            )
        }
    }
}

/// The whole sparse substitution of one accessor on the bytes `d`.
pub open spec fn spec_process_accessor(
    d: Seq<u8>,
    base: int,
    wlen: int,
    idx: Seq<u8>,
    vals: Seq<u8>,
    t: ComponentType,
    vs: int,
    stride: int,
) -> (Seq<u8>, Option<ModelError>) {
    let isz = t.spec_size() as int;
    if (idx.len() as int) % isz != 0 {
        (d, Some(ModelError::SparseIndicies))
    } else if (idx.len() as int) / isz != (vals.len() as int) / vs {
        (d, Some(ModelError::SparseIndexValues))
    } else {
        spec_sparse_writes(d, base, wlen, idx, vals, t, vs, stride, 0)
    }
}

/// Entry `k` of the sparse indices `idx` (of integer type `t`) exists.
pub open spec fn sparse_entry(idx: Seq<u8>, t: ComponentType, k: int) -> bool {
    0 <= k && (k + 1) * (t.spec_size() as int) <= idx.len()
}

/// Where entry `k` of a sparse substitution writes its `vs` bytes: the
/// element at `stride * index` of the window that starts at `base`.
pub open spec fn sparse_start(base: int, idx: Seq<u8>, t: ComponentType, vs: int, stride: int, k: int) -> int {
    let isz = t.spec_size() as int;
    base + sat_add(sat_mul(stride, index_value(idx.subrange(k * isz, (k + 1) * isz), t)), vs) - vs
}

/// No entry of the sparse substitution from the `k0`-th on writes byte `p`.
pub open spec fn uncovered_from(
    base: int,
    idx: Seq<u8>,
    t: ComponentType,
    vs: int,
    stride: int,
    k0: int,
    p: int,
) -> bool {
    forall|k: int|
        k0 <= k && #[trigger] sparse_entry(idx, t, k) ==> !(sparse_start(base, idx, t, vs, stride, k) <= p
            < sparse_start(base, idx, t, vs, stride, k) + vs)
}

proof fn lemma_entries_stop(idx: Seq<u8>, t: ComponentType, k0: int, k: int)
    requires
        k0 <= k,
        !sparse_entry(idx, t, k0),
        k0 >= 0,
    ensures
        !sparse_entry(idx, t, k),
{
    let isz = t.spec_size() as int;
    assert((k + 1) * isz >= (k0 + 1) * isz) by (nonlinear_arith)
        requires
            k0 <= k,
            isz > 0,
            k0 >= 0,
    ;
}

/// The substitutions from the `k0`-th on, where none fails: the bytes an
/// entry writes hold its value unless a later entry writes them again,
/// and bytes that no entry writes are unchanged.
proof fn lemma_sparse_writes_law(
    d: Seq<u8>,
    base: int,
    wlen: int,
    idx: Seq<u8>,
    vals: Seq<u8>,
    t: ComponentType,
    vs: int,
    stride: int,
    k0: int,
)
    requires
        k0 >= 0,
        vs > 0,
        forall|k: int| #[trigger] sparse_entry(idx, t, k) ==> (k + 1) * vs <= vals.len(),
        spec_sparse_writes(d, base, wlen, idx, vals, t, vs, stride, k0).1 is None,
    ensures
        ({
            let r = spec_sparse_writes(d, base, wlen, idx, vals, t, vs, stride, k0).0;
            &&& r.len() == d.len()
            &&& forall|k: int, j: int|
                k0 <= k && #[trigger] sparse_entry(idx, t, k) && 0 <= j < vs && 0 <= sparse_start(
                    base,
                    idx,
                    t,
                    vs,
                    stride,
                    k,
                ) + j < d.len() && uncovered_from(
                    base,
                    idx,
                    t,
                    vs,
                    stride,
                    k + 1,
                    sparse_start(base, idx, t, vs, stride, k) + j,
                ) ==> r[sparse_start(base, idx, t, vs, stride, k) + j] == #[trigger] vals[k * vs + j]
            &&& forall|p: int|
                0 <= p < d.len() && #[trigger] uncovered_from(base, idx, t, vs, stride, k0, p) ==> r[p]
                    == d[p]
        }),
    decreases idx.len() - k0,
{
    let isz = t.spec_size() as int;
    if !sparse_entry(idx, t, k0) {
        assert forall|k: int| k0 <= k implies !#[trigger] sparse_entry(idx, t, k) by {
            lemma_entries_stop(idx, t, k0, k);
        }
    } else {
        assert(sparse_entry(idx, t, k0));
        let s0 = sparse_start(base, idx, t, vs, stride, k0);
        let src = vals.subrange(k0 * vs, (k0 + 1) * vs);
        assert(k0 * vs + vs == (k0 + 1) * vs) by (nonlinear_arith);
        assert(0 <= k0 * vs) by (nonlinear_arith)
            requires
                k0 >= 0,
                vs > 0,
        ;
        let d1 = write_block(d, s0, src);
        assert(k0 + 1 <= idx.len()) by (nonlinear_arith)
            requires
                (k0 + 1) * isz <= idx.len(),
                isz >= 1,
                k0 >= 0,
        ;
        assert(spec_sparse_writes(d, base, wlen, idx, vals, t, vs, stride, k0) == spec_sparse_writes(
            d1,
            base,
            wlen,
            idx,
            vals,
            t,
            vs,
            stride,
            k0 + 1,
        ));
        lemma_sparse_writes_law(d1, base, wlen, idx, vals, t, vs, stride, k0 + 1);
        let r = spec_sparse_writes(d, base, wlen, idx, vals, t, vs, stride, k0).0;
        assert forall|k: int, j: int|
            k0 <= k && #[trigger] sparse_entry(idx, t, k) && 0 <= j < vs && 0 <= sparse_start(
                base,
                idx,
                t,
                vs,
                stride,
                k,
            ) + j < d.len() && uncovered_from(
                base,
                idx,
                t,
                vs,
                stride,
                k + 1,
                sparse_start(base, idx, t, vs, stride, k) + j,
            ) implies r[sparse_start(base, idx, t, vs, stride, k) + j] == #[trigger] vals[k * vs + j] by {
            if k == k0 {
                let p = s0 + j;
                assert(uncovered_from(base, idx, t, vs, stride, k0 + 1, p));
                assert(r[p] == d1[p]);
                assert(d1[p] == src[j]);
            }
        }
        assert forall|p: int|
            0 <= p < d.len() && #[trigger] uncovered_from(base, idx, t, vs, stride, k0, p) implies r[p]
                == d[p] by {
            assert(!(s0 <= p < s0 + vs));
            assert(uncovered_from(base, idx, t, vs, stride, k0 + 1, p));
            assert(r[p] == d1[p]);
        }
    }
}

/// The sparse substitution of one accessor, where it succeeds: each entry
/// writes its value (the next `vs` bytes of `vals`) over the element its
/// index picks, a later entry winning over an earlier one that writes the
/// same bytes, and every byte that no entry writes keeps its value.
pub proof fn lemma_sparse_substitution(
    d: Seq<u8>,
    base: int,
    wlen: int,
    idx: Seq<u8>,
    vals: Seq<u8>,
    t: ComponentType,
    vs: int,
    stride: int,
)
    requires
        vs > 0,
    ensures
        spec_process_accessor(d, base, wlen, idx, vals, t, vs, stride) matches (r, None) ==> {
            &&& r.len() == d.len()
            &&& forall|k: int, j: int|
                #[trigger] sparse_entry(idx, t, k) && 0 <= j < vs && 0 <= sparse_start(
                    base,
                    idx,
                    t,
                    vs,
                    stride,
                    k,
                ) + j < d.len() && uncovered_from(
                    base,
                    idx,
                    t,
                    vs,
                    stride,
                    k + 1,
                    sparse_start(base, idx, t, vs, stride, k) + j,
                ) ==> r[sparse_start(base, idx, t, vs, stride, k) + j] == #[trigger] vals[k * vs + j]
            &&& forall|p: int|
                0 <= p < d.len() && #[trigger] uncovered_from(base, idx, t, vs, stride, 0, p) ==> r[p]
                    == d[p]
        },
{
    let isz = t.spec_size() as int;
    let res = spec_process_accessor(d, base, wlen, idx, vals, t, vs, stride);
    if res.1 is None {
        let l = idx.len() as int;
        let v = vals.len() as int;
        assert(l % isz == 0 && l / isz == v / vs);
        assert forall|k: int| #[trigger] sparse_entry(idx, t, k) implies (k + 1) * vs <= vals.len() by {
            assert((k + 1) * vs <= v) by (nonlinear_arith)
                requires
                    (k + 1) * isz <= l,
                    isz > 0,
                    vs > 0,
                    k >= 0,
                    l / isz == v / vs,
                    v >= 0,
            {
                assert(k + 1 <= l / isz) by {
                    vstd::arithmetic::div_mod::lemma_div_is_ordered((k + 1) * isz, l, isz);
                    vstd::arithmetic::div_mod::lemma_div_by_multiple(k + 1, isz);
                }
                vstd::arithmetic::mul::lemma_mul_inequality(k + 1, v / vs, vs);
                vstd::arithmetic::div_mod::lemma_fundamental_div_mod(v, vs);
            }
        }
        lemma_sparse_writes_law(d, base, wlen, idx, vals, t, vs, stride, 0);
    }
}

/// Read the sparse index stored at byte `at` of `indicies`.
fn read_index(indicies: &Vec<u8>, at: usize, t: ComponentType) -> (r: usize)
    requires
        t != ComponentType::Float,
        at + t.spec_size() <= indicies@.len(),
    ensures
        r == index_value(indicies@.subrange(at as int, at + t.spec_size()), t),
{
    let _len = indicies.len();
    match t {
        ComponentType::Byte => (indicies[at] as i8) as usize,
        ComponentType::UnsignedByte => indicies[at] as usize,
        ComponentType::Short => {
            assert(at + 2 <= indicies@.len());
            let lo = indicies[at] as u16;
            let hi = indicies[at + 1] as u16;
            assert(lo < 256 && hi < 256 ==> lo | (hi << 8u16) == lo + 256 * hi) by (bit_vector);
            let v = lo | (hi << 8u16);
            (v as i16) as usize
        },
        ComponentType::UnsignedShort => {
            assert(at + 2 <= indicies@.len());
            let lo = indicies[at] as u16;
            let hi = indicies[at + 1] as u16;
            assert(lo < 256 && hi < 256 ==> lo | (hi << 8u16) == lo + 256 * hi) by (bit_vector);
            (lo | (hi << 8u16)) as usize
        },
        ComponentType::UnsignedInt => {
            let v = crate::gltf::read_u32_le(indicies.as_slice(), at);
            v as usize
        },
        ComponentType::Float => 0,
    }
}

/// Apply one sparse accessor: for each index, the element at
/// `stride * index` of the data window (`wlen` bytes from `base` in `data`)
/// is replaced by the next value.
pub fn process_accessor(
    index_type: ComponentType,
    value_size: usize,
    data: &mut Vec<u8>,
    base: usize,
    wlen: usize,
    indicies: &Vec<u8>,
    values: &Vec<u8>,
    stride: usize,
) -> (r: Result<(), ModelError>)
    requires
        index_type != ComponentType::Float,
        value_size > 0,
        base + wlen <= old(data)@.len(),
    ensures
        final(data)@ == spec_process_accessor(
            old(data)@,
            base as int,
            wlen as int,
            indicies@,
            values@,
            index_type,
            value_size as int,
            stride as int,
        ).0,
        match spec_process_accessor(
            old(data)@,
            base as int,
            wlen as int,
            indicies@,
            values@,
            index_type,
            value_size as int,
            stride as int,
        ).1 {
            None => r is Ok,
            Some(e) => r == Err::<(), ModelError>(e),
        },
{
    let idx_size = index_type.size();
    if indicies.len() % idx_size != 0 {
        return Err(ModelError::SparseIndicies);
    }
    if indicies.len() / idx_size != values.len() / value_size {
        return Err(ModelError::SparseIndexValues);
    }
    let n = indicies.len() / idx_size;
    let _dlen = data.len();
    let _vlen = values.len();
    let ghost total = spec_process_accessor(
        data@,
        base as int,
        wlen as int,
        indicies@,
        values@,
        index_type,
        value_size as int,
        stride as int,
    );
    proof {
        let il = indicies@.len() as int;
        let vl = values@.len() as int;
        vstd::arithmetic::div_mod::lemma_fundamental_div_mod(il, idx_size as int);
        vstd::arithmetic::div_mod::lemma_fundamental_div_mod(vl, value_size as int);
        assert(n * idx_size == il) by (nonlinear_arith)
            requires
                il == idx_size * (il / idx_size as int) + il % (idx_size as int),
                il % (idx_size as int) == 0,
                n == il / idx_size as int,
        ;
        assert(n * value_size <= vl) by (nonlinear_arith)
            requires
                vl == value_size * (vl / value_size as int) + vl % (value_size as int),
                vl % (value_size as int) >= 0,
                n == vl / value_size as int,
        ;
    }
    let mut k: usize = 0;
    while k < n
        invariant
            n * idx_size == indicies@.len(),
            n * value_size <= values@.len(),
            data@.len() <= usize::MAX,
            values@.len() <= usize::MAX,
            indicies@.len() <= usize::MAX,
            idx_size == index_type.spec_size(),
            idx_size > 0,
            value_size > 0,
            k <= n,
            index_type != ComponentType::Float,
            base + wlen <= data@.len(),
            total == spec_process_accessor(
                old(data)@,
                base as int,
                wlen as int,
                indicies@,
                values@,
                index_type,
                value_size as int,
                stride as int,
            ),
            total == spec_sparse_writes(
                data@,
                base as int,
                wlen as int,
                indicies@,
                values@,
                index_type,
                value_size as int,
                stride as int,
                k as int,
            ),
        decreases n - k,
    {
        proof {
            assert((k + 1) * idx_size <= n * idx_size) by (nonlinear_arith)
                requires
                    k < n,
            ;
            assert((k + 1) * value_size <= n * value_size) by (nonlinear_arith)
                requires
                    k < n,
            ;
            assert((k + 1) * idx_size == k * idx_size + idx_size) by (nonlinear_arith);
            assert((k + 1) * value_size == k * value_size + value_size) by (nonlinear_arith);
        }
        assert(k * idx_size + idx_size <= indicies@.len());
        assert(k * value_size + value_size <= values@.len());
        let idx = read_index(indicies, k * idx_size, index_type);
        let end = saturating_add(saturating_mul(stride, idx), value_size);
        assert(end >= value_size);
        if end > wlen {
            return Err(ModelError::BadIndex { array: "Sparse data", got: end, max: wlen });
        }
        let start = base + (end - value_size);
        let vstart = k * value_size;
        let ghost d0 = data@;
        let ghost src = values@.subrange(vstart as int, vstart + value_size);
        let mut j: usize = 0;
        while j < value_size
            invariant
                j <= value_size,
                data@.len() <= usize::MAX,
                values@.len() <= usize::MAX,
                start + value_size <= data@.len(),
                vstart + value_size <= values@.len(),
                src == values@.subrange(vstart as int, vstart + value_size),
                data@ == write_block(d0, start as int, src.take(j as int)),
            decreases value_size - j,
        {
            data.set(start + j, values[vstart + j]);
            proof {
                assert(data@ =~= write_block(d0, start as int, src.take(j + 1)));
            }
            j = j + 1;
        }
        assert(src.take(value_size as int) == src);
        k = k + 1;
    }
    Ok(())
}

/// The number of bytes in one element of an accessor.
pub open spec fn spec_value_size(acc: Accessor) -> int {
    (acc.component_type.spec_size() * acc.accessor_type.spec_component_count()) as int
}

/// Where a sparse accessor writes: its own buffer view, or, for an accessor
/// without one, a new buffer of zeros of the accessor's size and a view of
/// all of it, added at the end.  Gives the buffers, the views and the index
/// of the view.
pub open spec fn spec_sparse_target(bufs: Seq<Seq<u8>>, views: Seq<BufferView>, acc: Accessor) -> (
    Seq<Seq<u8>>,
    Seq<BufferView>,
    int,
) {
    match acc.buffer_view {
        Some(i) => (bufs, views, i as int),
        None => {
            let size = spec_value_size(acc) * acc.count;
            (
                bufs.push(Seq::new(size as nat, |j: int| 0u8)),
                views.push(
                    BufferView {
                        buffer: bufs.len() as usize,
                        byte_offset: 0,
                        byte_length: size as usize,
                        byte_stride: None,
                        target: None,
                    },
                ),
                views.len() as int,
            )
        },
    }
}

/// The index bytes and the value bytes of a sparse accessor whose values
/// are `vs` bytes long, each read from its view after its offset.
pub open spec fn spec_sparse_inputs(
    bufs: Seq<Seq<u8>>,
    views: Seq<BufferView>,
    sp: SparseAccessor,
    vs: int,
) -> Result<(Seq<u8>, Seq<u8>), ModelError> {
    match spec_view_window(bufs, views, sp.indices.buffer_view as int) {
        Err(e) => Err(e),
        Ok(iw) => {
            let iview = bufs[iw.0].subrange(iw.1, iw.2);
            let ioff = sp.indices.byte_offset as int;
            let iend = sat_add(ioff, sat_mul(sp.count as int, sp.indices.component_type.spec_size() as int));
            if iend > iview.len() {
                Err(
                    ModelError::BadIndex {
                        array: "Sparse indicies",
                        got: sat_add(ioff, sp.count as int) as usize,
                        max: iview.len() as usize,
                    },
                )
            } else {
                let idx = iview.subrange(ioff, iend);
                match spec_view_window(bufs, views, sp.values.buffer_view as int) {
                    Err(e) => Err(e),
                    Ok(vw) => {
                        let vview = bufs[vw.0].subrange(vw.1, vw.2);
                        let voff = sp.values.byte_offset as int;
                        let vend = sat_add(voff, sat_mul(sp.count as int, vs));
                        if vend > vview.len() {
                            Err(
                                ModelError::BadIndex {
                                    array: "Sparse values",
                                    got: sat_add(voff, sp.count as int) as usize,
                                    max: idx.len() as usize,
                                },
                            )
                        } else {
                            Ok((idx, vview.subrange(voff, vend)))
                        }
                    },
                }
            }
        },
    }
}

/// The substitutions of a sparse accessor made in the data window of view
/// `view` (the accessor's `count` elements after its offset), with the
/// view's stride, or the element size where it has none.  Gives the
/// buffers and the error that stopped it, if any.
pub open spec fn spec_sparse_apply(
    bufs: Seq<Seq<u8>>,
    views: Seq<BufferView>,
    view: int,
    acc: Accessor,
    idx: Seq<u8>,
    vals: Seq<u8>,
) -> (Seq<Seq<u8>>, Option<ModelError>) {
    let vs = spec_value_size(acc);
    match spec_view_window(bufs, views, view) {
        Err(e) => (bufs, Some(e)),
        Ok(dw) => {
            let dlen = dw.2 - dw.1;
            let aoff = acc.byte_offset as int;
            let aend = sat_add(aoff, sat_mul(acc.count as int, vs));
            if aend > dlen {
                (
                    bufs,
                    Some(
                        ModelError::BadIndex {
                            array: "Sparse accessor data",
                            got: sat_add(aoff, acc.count as int) as usize,
                            max: dlen as usize,
                        },
                    ),
                )
            } else {
                let stride = match views[view].byte_stride {
                    Some(st) => (st as usize) as int,
                    None => vs,
                };
                let t = acc.sparse.unwrap().indices.component_type;
                if t == ComponentType::Float {
                    (bufs, Some(ModelError::SparseFloat))
                } else {
                    let res = spec_process_accessor(
                        bufs[dw.0],
                        dw.1 + aoff,
                        aend - aoff,
                        idx,
                        vals,
                        t,
                        vs,
                        stride,
                    );
                    (bufs.update(dw.0, res.0), res.1)
                }
            }
        },
    }
}

/// The bytes `new` are `old` after the sparse entries of `idx` wrote their
/// values: each entry's `vs` bytes of `vals` stand at its element of the
/// window at `base`, whose elements are `stride` bytes apart, unless a
/// later entry wrote there too; bytes that no entry writes are unchanged.
pub open spec fn substituted(
    old: Seq<u8>,
    new: Seq<u8>,
    base: int,
    idx: Seq<u8>,
    vals: Seq<u8>,
    t: ComponentType,
    vs: int,
    stride: int,
) -> bool {
    &&& new.len() == old.len()
    &&& forall|k: int, j: int|
        #[trigger] sparse_entry(idx, t, k) && 0 <= j < vs && 0 <= sparse_start(
            base,
            idx,
            t,
            vs,
            stride,
            k,
        ) + j < old.len() && uncovered_from(
            base,
            idx,
            t,
            vs,
            stride,
            k + 1,
            sparse_start(base, idx, t, vs, stride, k) + j,
        ) ==> new[sparse_start(base, idx, t, vs, stride, k) + j] == #[trigger] vals[k * vs + j]
    &&& forall|p: int|
        0 <= p < old.len() && #[trigger] uncovered_from(base, idx, t, vs, stride, 0, p) ==> new[p]
            == old[p]
}

/// A sparse accessor applied to view `view`, where it succeeds: only the
/// buffer under the view changes, and in it the entries are written into
/// the accessor's data (from its byte offset in the view) with the view's
/// byte stride between elements, or with the element size where the view
/// has no stride.
pub proof fn lemma_sparse_apply_law(
    bufs: Seq<Seq<u8>>,
    views: Seq<BufferView>,
    view: int,
    acc: Accessor,
    idx: Seq<u8>,
    vals: Seq<u8>,
)
    requires
        acc.sparse is Some,
        spec_value_size(acc) > 0,
    ensures
        spec_sparse_apply(bufs, views, view, acc, idx, vals) matches (nb, None) ==> {
            &&& spec_view_window(bufs, views, view) matches Ok(dw)
            &&& nb.len() == bufs.len()
            &&& forall|b: int| 0 <= b < bufs.len() && b != dw.0 ==> #[trigger] nb[b] == bufs[b]
            &&& views[view].byte_stride matches Some(st) ==> substituted(
                bufs[dw.0],
                nb[dw.0],
                dw.1 + acc.byte_offset,
                idx,
                vals,
                acc.sparse.unwrap().indices.component_type,
                spec_value_size(acc),
                (st as usize) as int,
            )
            &&& views[view].byte_stride is None ==> substituted(
                bufs[dw.0],
                nb[dw.0],
                dw.1 + acc.byte_offset,
                idx,
                vals,
                acc.sparse.unwrap().indices.component_type,
                spec_value_size(acc),
                spec_value_size(acc),
            )
        },
{
    let r = spec_sparse_apply(bufs, views, view, acc, idx, vals);
    if r.1 is None {
        let dw = spec_view_window(bufs, views, view).unwrap();
        let vs = spec_value_size(acc);
        let aoff = acc.byte_offset as int;
        let aend = sat_add(aoff, sat_mul(acc.count as int, vs));
        let stride = match views[view].byte_stride {
            Some(st) => (st as usize) as int,
            None => vs,
        };
        let t = acc.sparse.unwrap().indices.component_type;
        lemma_sparse_substitution(bufs[dw.0], dw.1 + aoff, aend - aoff, idx, vals, t, vs, stride);
    }
}

/// One sparse accessor applied to the buffers (`bufs`, their bytes) and
/// buffer views: the target view is found or made, the index and value
/// bytes are read, and the substitutions are made.  The third part is the
/// error that stopped the step, if any; the buffers and views are those at
/// that point.  An accessor that is not sparse changes nothing.
pub open spec fn spec_sparse_step(bufs: Seq<Seq<u8>>, views: Seq<BufferView>, acc: Accessor) -> (
    Seq<Seq<u8>>,
    Seq<BufferView>,
    Option<ModelError>,
) {
    match acc.sparse {
        None => (bufs, views, None),
        Some(sp) => {
            let t = spec_sparse_target(bufs, views, acc);
            match spec_sparse_inputs(t.0, t.1, sp, spec_value_size(acc)) {
                Err(e) => (t.0, t.1, Some(e)),
                Ok(iv) => {
                    let r = spec_sparse_apply(t.0, t.1, t.2, acc, iv.0, iv.1);
                    (r.0, t.1, r.1)
                },
            }
        },
    }
}

/// An accessor after its sparse substitutions were applied, with `views`
/// the buffer views before that: a sparse accessor without a buffer view
/// refers to the view made for it, the one added at index `views.len()`;
/// any other accessor is unchanged.
pub open spec fn spec_sparse_accessor(views: Seq<BufferView>, acc: Accessor) -> Accessor {
    if acc.sparse is Some && acc.buffer_view is None {
        Accessor { buffer_view: Some(views.len() as usize), ..acc }
    } else {
        acc
    }
}

/// The sparse accessors from the `k`-th on, applied in order until one
/// fails.  Gives the buffers, the views, the accessors (each applied one as
/// `spec_sparse_accessor` gives it) and the error that stopped it, if any.
pub open spec fn spec_sparse_from(
    bufs: Seq<Seq<u8>>,
    views: Seq<BufferView>,
    accs: Seq<Accessor>,
    k: int,
) -> (Seq<Seq<u8>>, Seq<BufferView>, Seq<Accessor>, Option<ModelError>)
    decreases accs.len() - k,
{
    if k < 0 || k >= accs.len() {
        (bufs, views, accs, None)
    } else {
        let r = spec_sparse_step(bufs, views, accs[k]);
        let accs2 = accs.update(k, spec_sparse_accessor(views, accs[k]));
        if r.2 is Some {
            (r.0, r.1, accs2, r.2)
        } else {
            spec_sparse_from(r.0, r.1, accs2, k + 1)
        }
    }
}

/// Accessor `b` is accessor `a` after the sparse step: where `a` is sparse
/// and has no buffer view, `b` is `a` referring to a view with an index in
/// `lo..hi` (one of the views made during the step); otherwise `b` is `a`.
pub open spec fn linked_one(a: Accessor, b: Accessor, lo: int, hi: int) -> bool {
    if a.sparse is Some && a.buffer_view is None {
        &&& b.buffer_view matches Some(v) && lo <= v < hi
        &&& b == Accessor { buffer_view: b.buffer_view, ..a }
    } else {
        b == a
    }
}

/// Every accessor of `new` is the one of `old` after the sparse step, with
/// the made views between `lo` and `hi`.
pub open spec fn sparse_linked(old: Seq<Accessor>, new: Seq<Accessor>, lo: int, hi: int) -> bool {
    &&& new.len() == old.len()
    &&& forall|i: int| 0 <= i < old.len() ==> linked_one(#[trigger] old[i], new[i], lo, hi)
}

proof fn lemma_sparse_step_views(bufs: Seq<Seq<u8>>, views: Seq<BufferView>, acc: Accessor)
    ensures
        views.len() <= spec_sparse_step(bufs, views, acc).1.len(),
        acc.sparse is Some && acc.buffer_view is None ==> views.len() < spec_sparse_step(
            bufs,
            views,
            acc,
        ).1.len(),
{
}

/// Applying the sparse accessors from the `k`-th on changes only those
/// accessors, and, where nothing fails, links each that had no view to a
/// view made on the way.
proof fn lemma_sparse_from_linked(
    bufs: Seq<Seq<u8>>,
    views: Seq<BufferView>,
    accs: Seq<Accessor>,
    k: int,
)
    requires
        0 <= k <= accs.len(),
    ensures
        ({
            let t = spec_sparse_from(bufs, views, accs, k);
            &&& t.2.len() == accs.len()
            &&& views.len() <= t.1.len()
            &&& forall|i: int| 0 <= i < k ==> t.2[i] == accs[i]
            &&& t.3 is None && t.1.len() <= usize::MAX ==> forall|i: int|
                k <= i < accs.len() ==> linked_one(#[trigger] accs[i], t.2[i], views.len() as int, t.1.len() as int)
        }),
    decreases accs.len() - k,
{
    if k < accs.len() {
        let r = spec_sparse_step(bufs, views, accs[k]);
        let accs2 = accs.update(k, spec_sparse_accessor(views, accs[k]));
        lemma_sparse_step_views(bufs, views, accs[k]);
        let t = spec_sparse_from(bufs, views, accs, k);
        if r.2 is Some {
            assert(t == (r.0, r.1, accs2, r.2));
        } else {
            lemma_sparse_from_linked(r.0, r.1, accs2, k + 1);
            assert(t == spec_sparse_from(r.0, r.1, accs2, k + 1));
            assert(t.2[k] == accs2[k]);
            assert forall|i: int| 0 <= i < k implies t.2[i] == accs[i] by {
                assert(t.2[i] == accs2[i]);
            }
            assert forall|i: int| t.3 is None && t.1.len() <= usize::MAX && k <= i < accs.len() implies linked_one(
                #[trigger] accs[i],
                t.2[i],
                views.len() as int,
                t.1.len() as int,
            ) by {
                if i > k {
                    let t2 = spec_sparse_from(r.0, r.1, accs2, k + 1);
                    assert(accs2.len() == accs.len());
                    assert(k + 1 <= i < accs2.len());
                    assert(linked_one(accs2[i], t2.2[i], r.1.len() as int, t2.1.len() as int));
                    assert(accs2[i] == accs[i]);
                } else {
                    assert(t.2[i] == spec_sparse_accessor(views, accs[k]));
                }
            }
        }
    }
}

/// The new buffers of zeros that sparse accessors without a buffer view ask
/// for fit in memory.
pub open spec fn zero_buffers_fit(accs: Seq<Accessor>) -> bool {
    forall|i: int|
        0 <= i < accs.len() && (#[trigger] accs[i]).sparse is Some && accs[i].buffer_view is None
            ==> spec_value_size(accs[i]) * accs[i].count <= usize::MAX
}

/// A copy of bytes `start..end` of `v`.
fn copy_range(v: &Vec<u8>, start: usize, end: usize) -> (r: Vec<u8>)
    requires
        start <= end <= v@.len(),
    ensures
        r@ == v@.subrange(start as int, end as int),
{
    let mut r: Vec<u8> = Vec::new();
    let mut i = start;
    while i < end
        invariant
            start <= i <= end <= v@.len(),
            r@ == v@.subrange(start as int, i as int),
        decreases end - i,
    {
        r.push(v[i]);
        i = i + 1;
    }
    r
}

impl Model {
    /// The buffer bytes a buffer view covers, as (buffer, start, end).
    pub fn buffer_data(&self, buffer_view: usize) -> (r: Result<(usize, usize, usize), ModelError>)
        ensures
            match spec_view_window(
                buffer_bytes(self.buffers@),
                self.gltf.buffer_views@,
                buffer_view as int,
            ) {
                Ok(w) => r matches Ok(x) && x.0 == w.0 && x.1 == w.1 && x.2 == w.2,
                Err(e) => r == Err::<(usize, usize, usize), ModelError>(e),
            },
    {
        if buffer_view >= self.gltf.buffer_views.len() {
            return Err(
                ModelError::BadIndex {
                    array: "Buffer views",
                    got: buffer_view,
                    max: self.gltf.buffer_views.len(),
                },
            );
        }
        let view = self.gltf.buffer_views[buffer_view];
        if view.buffer >= self.buffers.len() {
            return Err(
                ModelError::BadIndex { array: "Buffers", got: view.buffer, max: self.buffers.len() },
            );
        }
        let len = self.buffers[view.buffer].data.len();
        let end = saturating_add(view.byte_offset, view.byte_length);
        if end > len {
            return Err(ModelError::BadIndex { array: "Buffer get", got: end, max: len });
        }
        Ok((view.buffer, view.byte_offset, end))
    }

    /// Try to apply all the sparse accessors to the model data, so the
    /// graphics backend doesn't have to handle them.  A sparse accessor
    /// without a buffer view gets a new buffer of zeros and a view of it,
    /// and refers to that view from then on.
    pub fn check_load_accessors(&mut self) -> (r: Result<(), ModelError>)
        requires
            zero_buffers_fit(old(self).gltf.accessors@),
        ensures
            ({
                let t = spec_sparse_from(
                    buffer_bytes(old(self).buffers@),
                    old(self).gltf.buffer_views@,
                    old(self).gltf.accessors@,
                    0,
                );
                &&& buffer_bytes(final(self).buffers@) == t.0
                &&& final(self).gltf.buffer_views@ == t.1
                &&& final(self).gltf.accessors@ == t.2
                &&& match t.3 {
                    None => r is Ok,
                    Some(e) => r == Err::<(), ModelError>(e),
                }
            }),
            r is Ok ==> sparse_linked(
                old(self).gltf.accessors@,
                final(self).gltf.accessors@,
                old(self).gltf.buffer_views@.len() as int,
                final(self).gltf.buffer_views@.len() as int,
            ),
            final(self).gltf.meshes@ == old(self).gltf.meshes@,
            final(self).gltf.images@ == old(self).gltf.images@,
            final(self).buffer_view_types@ == old(self).buffer_view_types@,
    {
        let ghost total = spec_sparse_from(
            buffer_bytes(self.buffers@),
            self.gltf.buffer_views@,
            self.gltf.accessors@,
            0,
        );
        proof {
            lemma_sparse_from_linked(
                buffer_bytes(self.buffers@),
                self.gltf.buffer_views@,
                self.gltf.accessors@,
                0,
            );
        }
        let n = self.gltf.accessors.len();
        let mut k: usize = 0;
        while k < n
            invariant
                n == self.gltf.accessors@.len(),
                k <= n,
                self.gltf.meshes@ == old(self).gltf.meshes@,
                self.gltf.images@ == old(self).gltf.images@,
                self.buffer_view_types@ == old(self).buffer_view_types@,
                zero_buffers_fit(self.gltf.accessors@),
                total == spec_sparse_from(
                    buffer_bytes(old(self).buffers@),
                    old(self).gltf.buffer_views@,
                    old(self).gltf.accessors@,
                    0,
                ),
                total == spec_sparse_from(
                    buffer_bytes(self.buffers@),
                    self.gltf.buffer_views@,
                    self.gltf.accessors@,
                    k as int,
                ),
            decreases n - k,
        {
            let accessor = self.gltf.accessors[k];
            let ghost step = spec_sparse_step(
                buffer_bytes(self.buffers@),
                self.gltf.buffer_views@,
                accessor,
            );
            let ghost accs2 = self.gltf.accessors@.update(
                k as int,
                spec_sparse_accessor(self.gltf.buffer_views@, accessor),
            );
            let r = self.sparse_step(k);
            proof {
                assert(buffer_bytes(self.buffers@) == step.0);
                assert(self.gltf.buffer_views@ == step.1);
                assert(self.gltf.accessors@ == accs2);
            }
            if let Err(e) = r {
                return Err(e);
            }
            k = k + 1;
        }
        // the number of views is a `usize`, so the indices of the views made
        // here are too
        let views_len = self.gltf.buffer_views.len();
        assert(self.gltf.buffer_views@.len() == views_len);
        Ok(())
    }

    /// Apply the sparse accessor at index `k`; see `spec_sparse_step` and
    /// `spec_sparse_accessor`.
    fn sparse_step(&mut self, k: usize) -> (r: Result<(), ModelError>)
        requires
            k < old(self).gltf.accessors@.len(),
            zero_buffers_fit(old(self).gltf.accessors@),
        ensures
            ({
                let acc = old(self).gltf.accessors@[k as int];
                let t = spec_sparse_step(
                    buffer_bytes(old(self).buffers@),
                    old(self).gltf.buffer_views@,
                    acc,
                );
                &&& buffer_bytes(final(self).buffers@) == t.0
                &&& final(self).gltf.buffer_views@ == t.1
                &&& final(self).gltf.accessors@ == old(self).gltf.accessors@.update(
                    k as int,
                    spec_sparse_accessor(old(self).gltf.buffer_views@, acc),
                )
                &&& match t.2 {
                    None => r is Ok,
                    Some(e) => r == Err::<(), ModelError>(e),
                }
            }),
            zero_buffers_fit(final(self).gltf.accessors@),
            final(self).gltf.meshes@ == old(self).gltf.meshes@,
            final(self).gltf.images@ == old(self).gltf.images@,
            final(self).buffer_view_types@ == old(self).buffer_view_types@,
    {
        let accessor = self.gltf.accessors[k];
        let sparse = match accessor.sparse {
            Some(s) => s,
            None => return Ok(()),
        };
        let sz = accessor.component_type.size();
        let cc = accessor.accessor_type.component_count();
        assert(sz * cc <= 64) by (nonlinear_arith)
            requires
                sz <= 4,
                cc <= 16,
        ;
        let value_size = sz * cc;
        let buffer_view = self.sparse_target(&accessor);
        if accessor.buffer_view.is_none() {
            let linked = Accessor { buffer_view: Some(buffer_view), ..accessor };
            self.gltf.accessors.set(k, linked);
        }
        proof {
            assert(self.gltf.accessors@ =~= old(self).gltf.accessors@.update(
                k as int,
                spec_sparse_accessor(old(self).gltf.buffer_views@, accessor),
            ));
        }
        let (indicies, values) = match self.sparse_inputs(&sparse, value_size) {
            Ok(iv) => iv,
            Err(e) => return Err(e),
        };
        self.sparse_apply(buffer_view, &accessor, &indicies, &values)
    }

    /// The view a sparse accessor writes to; see `spec_sparse_target`.
    fn sparse_target(&mut self, accessor: &Accessor) -> (view: usize)
        requires
            accessor.buffer_view is None ==> spec_value_size(*accessor) * accessor.count
                <= usize::MAX,
        ensures
            ({
                let t = spec_sparse_target(
                    buffer_bytes(old(self).buffers@),
                    old(self).gltf.buffer_views@,
                    *accessor,
                );
                &&& buffer_bytes(final(self).buffers@) == t.0
                &&& final(self).gltf.buffer_views@ == t.1
                &&& view == t.2
            }),
            final(self).gltf.accessors@ == old(self).gltf.accessors@,
            final(self).gltf.meshes@ == old(self).gltf.meshes@,
            final(self).gltf.images@ == old(self).gltf.images@,
            final(self).buffer_view_types@ == old(self).buffer_view_types@,
    {
        match accessor.buffer_view {
            Some(idx) => idx,
            None => {
                let value_size = accessor.component_type.size()
                    * accessor.accessor_type.component_count();
                let size = value_size * accessor.count;
                let nbuf = self.buffers.len();
                let nview = self.gltf.buffer_views.len();
                let zeros = zero_bytes(size);
                self.buffers.push(Buffer { data: zeros });
                let view = BufferView {
                    buffer: nbuf,
                    byte_length: size,
                    byte_stride: None,
                    byte_offset: 0,
                    target: None,
                };
                self.gltf.buffer_views.push(view);
                proof {
                    assert(buffer_bytes(self.buffers@) =~= buffer_bytes(old(self).buffers@).push(
                        Seq::new(size as nat, |j: int| 0u8),
                    ));
                }
                nview
            },
        }
    }

    /// The index and value bytes of a sparse accessor; see
    /// `spec_sparse_inputs`.
    fn sparse_inputs(&self, sparse: &SparseAccessor, value_size: usize) -> (r: Result<
        (Vec<u8>, Vec<u8>),
        ModelError,
    >)
        ensures
            match spec_sparse_inputs(
                buffer_bytes(self.buffers@),
                self.gltf.buffer_views@,
                *sparse,
                value_size as int,
            ) {
                Ok(iv) => r matches Ok(x) && x.0@ == iv.0 && x.1@ == iv.1,
                Err(e) => r == Err::<(Vec<u8>, Vec<u8>), ModelError>(e),
            },
    {
        let (ib, istart, iend) = match self.buffer_data(sparse.indices.buffer_view) {
            Ok(w) => w,
            Err(e) => return Err(e),
        };
        let ilen = iend - istart;
        let ioff = sparse.indices.byte_offset;
        let itake = saturating_add(
            ioff,
            saturating_mul(sparse.count, sparse.indices.component_type.size()),
        );
        if itake > ilen {
            return Err(
                ModelError::BadIndex {
                    array: "Sparse indicies",
                    got: saturating_add(ioff, sparse.count),
                    max: ilen,
                },
            );
        }
        let indicies = copy_range(&self.buffers[ib].data, istart + ioff, istart + itake);
        proof {
            assert(indicies@ =~= buffer_bytes(self.buffers@)[ib as int].subrange(
                istart as int,
                iend as int,
            ).subrange(ioff as int, itake as int));
        }
        let (vb, vstart, vend) = match self.buffer_data(sparse.values.buffer_view) {
            Ok(w) => w,
            Err(e) => return Err(e),
        };
        let vlen = vend - vstart;
        let voff = sparse.values.byte_offset;
        let vtake = saturating_add(voff, saturating_mul(sparse.count, value_size));
        if vtake > vlen {
            return Err(
                ModelError::BadIndex {
                    array: "Sparse values",
                    got: saturating_add(voff, sparse.count),
                    max: indicies.len(),
                },
            );
        }
        let values = copy_range(&self.buffers[vb].data, vstart + voff, vstart + vtake);
        proof {
            assert(values@ =~= buffer_bytes(self.buffers@)[vb as int].subrange(
                vstart as int,
                vend as int,
            ).subrange(voff as int, vtake as int));
        }
        Ok((indicies, values))
    }

    /// The substitutions of a sparse accessor in view `buffer_view`; see
    /// `spec_sparse_apply`.
    fn sparse_apply(
        &mut self,
        buffer_view: usize,
        accessor: &Accessor,
        indicies: &Vec<u8>,
        values: &Vec<u8>,
    ) -> (r: Result<(), ModelError>)
        requires
            accessor.sparse is Some,
        ensures
            ({
                let t = spec_sparse_apply(
                    buffer_bytes(old(self).buffers@),
                    old(self).gltf.buffer_views@,
                    buffer_view as int,
                    *accessor,
                    indicies@,
                    values@,
                );
                &&& buffer_bytes(final(self).buffers@) == t.0
                &&& match t.1 {
                    None => r is Ok,
                    Some(e) => r == Err::<(), ModelError>(e),
                }
            }),
            final(self).gltf == old(self).gltf,
            final(self).buffer_view_types@ == old(self).buffer_view_types@,
    {
        let value_size = accessor.component_type.size() * accessor.accessor_type.component_count();
        let (db, dstart, dend) = match self.buffer_data(buffer_view) {
            Ok(w) => w,
            Err(e) => return Err(e),
        };
        let dlen = dend - dstart;
        let aoff = accessor.byte_offset;
        let atake = saturating_add(aoff, saturating_mul(accessor.count, value_size));
        if atake > dlen {
            return Err(
                ModelError::BadIndex {
                    array: "Sparse accessor data",
                    got: saturating_add(aoff, accessor.count),
                    max: dlen,
                },
            );
        }
        let stride = match self.gltf.buffer_views[buffer_view].byte_stride {
            Some(v) => v as usize,
            None => value_size,
        };
        let index_type = match accessor.sparse {
            Some(s) => s.indices.component_type,
            None => return Ok(()),
        };
        if index_type == ComponentType::Float {
            return Err(ModelError::SparseFloat);
        }
        let ghost before = self.buffers@;
        let mut data: Vec<u8> = Vec::new();
        std::mem::swap(&mut data, &mut self.buffers[db].data);
        let r = process_accessor(
            index_type,
            value_size,
            &mut data,
            dstart + aoff,
            atake - aoff,
            indicies,
            values,
            stride,
        );
        std::mem::swap(&mut data, &mut self.buffers[db].data);
        proof {
            assert(buffer_bytes(self.buffers@) =~= buffer_bytes(before).update(
                db as int,
                self.buffers@[db as int].data@,
            ));
        }
        r
    }
}

/// `n` zero bytes.
fn zero_bytes(n: usize) -> (r: Vec<u8>)
    ensures
        r@ == Seq::new(n as nat, |j: int| 0u8),
{
    let mut r: Vec<u8> = Vec::new();
    let mut i: usize = 0;
    while i < n
        invariant
            i <= n,
            r@ == Seq::new(i as nat, |j: int| 0u8),
        decreases n - i,
    {
        r.push(0u8);
        proof {
            assert(r@ =~= Seq::new((i + 1) as nat, |j: int| 0u8));
        }
        i = i + 1;
    }
    r
}

// ==================== //
// a primitive's shader //
// ==================== //

/// The bits of the `f32` one.
pub const F32_ONE: u32 = 0x3f80_0000;

/// The bits of the `f32` one half.
pub const F32_HALF: u32 = 0x3f00_0000;

/// A part of a primitive's look, from one of its vertex attributes or from
/// its material.
#[derive(Debug, Clone, Copy)]
pub enum Attribute {
    Position,
    Normal { accessor: usize },
    Tangent { accessor: usize },
    TexCoord { idx: usize },
    VertexColor { accessor: usize, idx: usize },
    Joints { accessor: usize, idx: usize },
    Weights { accessor: usize, idx: usize },
    /// A constant color, rgba, each given by the bits of an `f32`
    BaseColor { color: [u32; 4] },
}

/// The attribute a vertex attribute name stands for: `POSITION`,
/// `NORMAL` and `TANGENT`, or `TEXCOORD`, `COLOR`, `JOINTS` and `WEIGHTS`
/// followed by `_` and a set number.
pub open spec fn spec_attribute_from(value: Seq<char>, accessor: usize) -> Option<Attribute> {
    let c = split_chars(value, '_');
    if c.len() == 1 && c[0] == "POSITION"@ {
        Some(Attribute::Position)
    } else if c.len() == 1 && c[0] == "NORMAL"@ {
        Some(Attribute::Normal { accessor })
    } else if c.len() == 1 && c[0] == "TANGENT"@ {
        Some(Attribute::Tangent { accessor })
    } else if c.len() == 2 && c[0] == "TEXCOORD"@ {
        match spec_parse_usize(c[1]) {
            Some(idx) => Some(Attribute::TexCoord { idx }),
            None => None,
        }
    } else if c.len() == 2 && c[0] == "COLOR"@ {
        match spec_parse_usize(c[1]) {
            Some(idx) => Some(Attribute::VertexColor { accessor, idx }),
            None => None,
        }
    } else if c.len() == 2 && c[0] == "JOINTS"@ {
        match spec_parse_usize(c[1]) {
            Some(idx) => Some(Attribute::Joints { accessor, idx }),
            None => None,
        }
    } else if c.len() == 2 && c[0] == "WEIGHTS"@ {
        match spec_parse_usize(c[1]) {
            Some(idx) => Some(Attribute::Weights { accessor, idx }),
            None => None,
        }
    } else {
        None
    }
}

/// The text is this literal.
fn text_is(s: &String, lit: &str) -> (r: bool)
    ensures
        r == (s@ == lit@),
{
    *s == lit.to_owned()
}

impl Attribute {
    /// The attribute a vertex attribute name stands for; see
    /// `spec_attribute_from`.
    pub fn from(value: &str, accessor: usize) -> (r: Option<Attribute>)
        ensures
            r == spec_attribute_from(value@, accessor),
    {
        let c = split_str(value, '_');
        let ghost cv = c@.map_values(|p: String| p@);
        assert(cv == split_chars(value@, '_'));
        if c.len() == 1 {
            assert(c@[0]@ == cv[0]);
            if text_is(&c[0], "POSITION") {
                return Some(Attribute::Position);
            } else if text_is(&c[0], "NORMAL") {
                return Some(Attribute::Normal { accessor });
            } else if text_is(&c[0], "TANGENT") {
                return Some(Attribute::Tangent { accessor });
            }
            return None;
        }
        if c.len() == 2 {
            assert(c@[0]@ == cv[0]);
            assert(c@[1]@ == cv[1]);
            if text_is(&c[0], "TEXCOORD") {
                return match parse_usize(c[1].as_str()) {
                    Some(idx) => Some(Attribute::TexCoord { idx }),
                    None => None,
                };
            } else if text_is(&c[0], "COLOR") {
                return match parse_usize(c[1].as_str()) {
                    Some(idx) => Some(Attribute::VertexColor { accessor, idx }),
                    None => None,
                };
            } else if text_is(&c[0], "JOINTS") {
                return match parse_usize(c[1].as_str()) {
                    Some(idx) => Some(Attribute::Joints { accessor, idx }),
                    None => None,
                };
            } else if text_is(&c[0], "WEIGHTS") {
                return match parse_usize(c[1].as_str()) {
                    Some(idx) => Some(Attribute::Weights { accessor, idx }),
                    None => None,
                };
            }
        }
        None
    }
}

/// The parts of a material's look: its base color, unless that is white.
pub open spec fn spec_material_attributes(mat: Material) -> Seq<Attribute> {
    match mat.pbr_metallic_roughness {
        Some(pbr) => if pbr.base_color_factor@ != seq![F32_ONE, F32_ONE, F32_ONE, F32_ONE] {
            seq![Attribute::BaseColor { color: pbr.base_color_factor }]
        } else {
            Seq::empty()
        },
        None => Seq::empty(),
    }
}

impl Attribute {
    /// The parts of a material's look; see `spec_material_attributes`.
    pub fn material(mat: &Material) -> (r: Vec<Attribute>)
        ensures
            r@ == spec_material_attributes(*mat),
    {
        let mut ret: Vec<Attribute> = Vec::new();
        if let Some(pbr) = &mat.pbr_metallic_roughness {
            let f = pbr.base_color_factor;
            if !(f[0] == F32_ONE && f[1] == F32_ONE && f[2] == F32_ONE && f[3] == F32_ONE) {
                proof {
                    if f@ == seq![F32_ONE, F32_ONE, F32_ONE, F32_ONE] {
                        assert(f@[0] == F32_ONE && f@[1] == F32_ONE && f@[2] == F32_ONE && f@[3]
                            == F32_ONE);
                    }
                }
                ret.push(Attribute::BaseColor { color: f });
                proof {
                    assert(ret@ =~= seq![Attribute::BaseColor { color: f }]);
                }
            } else {
                proof {
                    assert(f@ =~= seq![F32_ONE, F32_ONE, F32_ONE, F32_ONE]);
                }
            }
        }
        proof {
            if ret@.len() == 0 {
                assert(ret@ =~= Seq::<Attribute>::empty());
            }
        }
        ret
    }
}

/// The texture coordinates `idx` are those of the primitive's base color
/// texture.
pub open spec fn spec_is_base_color(prim: Primitive, materials: Seq<Material>, idx: usize) -> bool {
    match prim.material {
        Some(m) => match materials[m as int].pbr_metallic_roughness {
            Some(pbr) => match pbr.base_color_texture {
                Some(c) => c.tex_coord == idx,
                None => false,
            },
            None => false,
        },
        None => false,
    }
}

/// The primitive's material, if it has one, exists.
pub open spec fn material_exists(prim: Primitive, materials: Seq<Material>) -> bool {
    prim.material matches Some(m) ==> m < materials.len()
}

/// The texture coordinates `idx` are those of the primitive's base color
/// texture.
pub fn is_base_color(prim: &Primitive, materials: &Vec<Material>, idx: usize) -> (r: bool)
    requires
        material_exists(*prim, materials@),
    ensures
        r == spec_is_base_color(*prim, materials@, idx),
{
    match prim.material {
        Some(m) => match &materials[m].pbr_metallic_roughness {
            Some(pbr) => match &pbr.base_color_texture {
                Some(c) => c.tex_coord == idx,
                None => false,
            },
            None => false,
        },
        None => false,
    }
}

/// The parts of a primitive's look from its vertex attributes, in order;
/// names that stand for no attribute are passed over.
pub open spec fn spec_attrs_from(attrs: Seq<(String, i32)>) -> Seq<Attribute>
    decreases attrs.len(),
{
    if attrs.len() == 0 {
        Seq::empty()
    } else {
        let prev = spec_attrs_from(attrs.drop_last());
        match spec_attribute_from(attrs.last().0@, attrs.last().1 as usize) {
            Some(a) => prev.push(a),
            None => prev,
        }
    }
}

/// The parts of a primitive's look: from its vertex attributes, then from
/// its material.
pub open spec fn spec_components(prim: Primitive, materials: Seq<Material>) -> Seq<Attribute> {
    spec_attrs_from(prim.spec_attributes()) + match prim.material {
        Some(m) => spec_material_attributes(materials[m as int]),
        None => Seq::empty(),
    }
}

/// The parts of a primitive's look; see `spec_components`.
fn components(prim: &Primitive, materials: &Vec<Material>) -> (r: Vec<Attribute>)
    requires
        material_exists(*prim, materials@),
    ensures
        r@ == spec_components(*prim, materials@),
{
    let mut comps: Vec<Attribute> = Vec::new();
    let n = attribute_count(&prim.attributes);
    let mut i: usize = 0;
    while i < n
        invariant
            n == prim.spec_attributes().len(),
            i <= n,
            comps@ == spec_attrs_from(prim.spec_attributes().take(i as int)),
        decreases n - i,
    {
        proof {
            assert(prim.spec_attributes().take(i + 1).drop_last() =~= prim.spec_attributes().take(i as int));
        }
        if let Some((name, accessor)) = attribute_at(&prim.attributes, i) {
            if let Some(a) = Attribute::from(name.as_str(), accessor as usize) {
                comps.push(a);
            }
        }
        i = i + 1;
    }
    proof {
        assert(prim.spec_attributes().take(n as int) =~= prim.spec_attributes());
    }
    if let Some(m) = prim.material {
        let mut extra = Attribute::material(&materials[m]);
        comps.append(&mut extra);
    } else {
        proof {
            assert(comps@ + Seq::<Attribute>::empty() =~= comps@);
        }
    }
    comps
}

/// The accessors an attribute reads exist.
pub open spec fn attribute_readable(a: Attribute, accessors: Seq<Accessor>) -> bool {
    match a {
        Attribute::Normal { accessor } => accessor < accessors.len(),
        Attribute::Tangent { accessor } => accessor < accessors.len(),
        Attribute::VertexColor { accessor, .. } => accessor < accessors.len(),
        Attribute::Joints { accessor, .. } => accessor < accessors.len(),
        Attribute::Weights { accessor, .. } => accessor < accessors.len(),
        _ => true,
    }
}

/// A name made of a word, a set number and a suffix.
pub open spec fn indexed_name(word: Seq<char>, idx: usize, suffix: Seq<char>) -> Seq<char> {
    word + decimal(idx as nat) + suffix
}

/// A name made of a word, a set number and a suffix.
fn make_name(word: &str, idx: usize, suffix: &str) -> (r: String)
    ensures
        r@ == indexed_name(word@, idx, suffix@),
{
    let mut s = String::new();
    s.append(word);
    push_decimal(&mut s, idx);
    s.append(suffix);
    proof {
        assert(s@ =~= indexed_name(word@, idx, suffix@));
    }
    s
}

/// What an attribute adds to the vertex shader: the position is
/// transformed by the projection, view and model uniforms into the vertex
/// position; colors and texture coordinates are passed on to the fragment
/// shader; normals, tangents, joints and weights are only declared as
/// inputs.
pub open spec fn spec_attr_vertex(a: Attribute, f: FunctionView, p: ProgramView, accessors: Seq<Accessor>) -> (
    FunctionView,
    ProgramView,
) {
    match a {
        Attribute::Position => {
            let (p1, view) = sb_uniform(p, "view"@, ShaderType::Matrix(4, 4));
            let (p2, model) = sb_uniform(p1, "model"@, ShaderType::Matrix(4, 4));
            let (p3, projection) = sb_uniform(p2, "projection"@, ShaderType::Matrix(4, 4));
            let (f1, position) = sb_input(f, "Position_in"@, ShaderType::Vector(3));
            let value = ExprView::Call {
                function: BuiltinFunction::Mul,
                arguments: seq![
                    ExprView::Call {
                        function: BuiltinFunction::Mul,
                        arguments: seq![
                            ExprView::Call {
                                function: BuiltinFunction::Mul,
                                arguments: seq![projection, view],
                            },
                            model,
                        ],
                    },
                    ExprView::Call {
                        function: BuiltinFunction::MakeVec,
                        arguments: seq![position, ExprView::Float { value: F32_ONE }],
                    },
                ],
            };
            (sb_set_builtin(f1, BuiltinVariable::VertexPosition, value), p3)
        },
        Attribute::VertexColor { accessor, idx } => {
            let ty = accessors[accessor as int].accessor_type.spec_shader_type();
            let (f1, color) = sb_input(f, indexed_name("Color"@, idx, "_in"@), ty);
            let (f2, output) = sb_output(f1, indexed_name("Color"@, idx, ""@), ty);
            (sb_set_output(f2, output, color), p)
        },
        Attribute::TexCoord { idx } => {
            let (f1, coord) = sb_input(f, indexed_name("TexCoord"@, idx, "_in"@), ShaderType::Vector(2));
            let (f2, output) = sb_output(f1, indexed_name("TexCoord"@, idx, ""@), ShaderType::Vector(2));
            (sb_set_output(f2, output, coord), p)
        },
        Attribute::Normal { accessor } => (
            sb_input(f, "Normal_in"@, accessors[accessor as int].accessor_type.spec_shader_type()).0,
            p,
        ),
        Attribute::Tangent { accessor } => (
            sb_input(f, "Tangent_in"@, accessors[accessor as int].accessor_type.spec_shader_type()).0,
            p,
        ),
        Attribute::Joints { accessor, idx } => (
            sb_input(
                f,
                indexed_name("Joints"@, idx, "_in"@),
                accessors[accessor as int].accessor_type.spec_shader_type(),
            ).0,
            p,
        ),
        Attribute::Weights { accessor, idx } => (
            sb_input(
                f,
                indexed_name("Weights"@, idx, "_in"@),
                accessors[accessor as int].accessor_type.spec_shader_type(),
            ).0,
            p,
        ),
        Attribute::BaseColor { .. } => (f, p),
    }
}

/// A function being built: one block, whose statements name variables
/// that exist.
pub open spec fn building(f: FunctionView, p: ProgramView) -> bool {
    f.blocks.len() == 1 && function_valid(function_env(f, p), f)
}

impl Attribute {
    /// Add this attribute's part to the vertex shader; see
    /// `spec_attr_vertex`.
    fn vertex(&self, f: &mut Function, prog: &mut Program, accessors: &Vec<Accessor>)
        requires
            building(old(f)@, old(prog)@),
            attribute_readable(*self, accessors@),
        ensures
            (final(f)@, final(prog)@) == spec_attr_vertex(*self, old(f)@, old(prog)@, accessors@),
            building(final(f)@, final(prog)@),
    {
        broadcast use lemma_variable_id;

        let ghost f0 = f@;
        let ghost p0 = prog@;
        match *self {
            Attribute::Position => {
                let view = prog.uniform("view", ShaderType::Matrix(4, 4));
                let model = prog.uniform("model", ShaderType::Matrix(4, 4));
                let projection = prog.uniform("projection", ShaderType::Matrix(4, 4));
                let position = f.input("Position_in", ShaderType::Vector(3));
                let ghost f1 = f@;
                let ghost p3 = prog@;
                let pv = Expression::binary(BuiltinFunction::Mul, projection, view);
                let pvm = Expression::binary(BuiltinFunction::Mul, pv, model);
                let mut parts: Vec<Expression> = Vec::new();
                parts.push(position);
                parts.push(Expression::float(F32_ONE));
                proof {
                    lemma_exprs_view(parts@);
                    assert(crate::renderer::shader::exprs_view(parts@) =~= seq![
                        position@,
                        ExprView::Float { value: F32_ONE },
                    ]);
                }
                let v = Expression::vec(parts);
                let value = Expression::binary(BuiltinFunction::Mul, pvm, v);
                proof {
                    let env = function_env(f1, p3);
                    lemma_function_valid_grows(f0, p0, f1, p3);
                    lemma_exprs_valid_pair(env, projection@, view@);
                    lemma_exprs_valid_pair(env, pv@, model@);
                    lemma_exprs_valid_pair(env, position@, ExprView::Float { value: F32_ONE });
                    lemma_exprs_valid_pair(env, pvm@, v@);
                    lemma_set_builtin_valid(f1, p3, BuiltinVariable::VertexPosition, value@);
                }
                f.set_builtin(BuiltinVariable::VertexPosition, value);
            },
            Attribute::VertexColor { accessor, idx } => {
                let ty = accessors[accessor].accessor_type.to_shader_type();
                let in_name = make_name("Color", idx, "_in");
                let color = f.input(in_name.as_str(), ty);
                let out_name = make_name("Color", idx, "");
                let output = f.output(out_name.as_str(), ty);
                proof {
                    lemma_function_valid_grows(f0, p0, f@, prog@);
                    lemma_set_output_valid(f@, prog@, output@, color@);
                }
                f.set_output(output, color);
            },
            Attribute::TexCoord { idx } => {
                let in_name = make_name("TexCoord", idx, "_in");
                let coord = f.input(in_name.as_str(), ShaderType::Vector(2));
                let out_name = make_name("TexCoord", idx, "");
                let output = f.output(out_name.as_str(), ShaderType::Vector(2));
                proof {
                    lemma_function_valid_grows(f0, p0, f@, prog@);
                    lemma_set_output_valid(f@, prog@, output@, coord@);
                }
                f.set_output(output, coord);
            },
            Attribute::Normal { accessor } => {
                let ty = accessors[accessor].accessor_type.to_shader_type();
                f.input("Normal_in", ty);
                proof {
                    lemma_function_valid_grows(f0, p0, f@, prog@);
                }
            },
            Attribute::Tangent { accessor } => {
                let ty = accessors[accessor].accessor_type.to_shader_type();
                f.input("Tangent_in", ty);
                proof {
                    lemma_function_valid_grows(f0, p0, f@, prog@);
                }
            },
            Attribute::Joints { accessor, idx } => {
                let ty = accessors[accessor].accessor_type.to_shader_type();
                let name = make_name("Joints", idx, "_in");
                f.input(name.as_str(), ty);
                proof {
                    lemma_function_valid_grows(f0, p0, f@, prog@);
                }
            },
            Attribute::Weights { accessor, idx } => {
                let ty = accessors[accessor].accessor_type.to_shader_type();
                let name = make_name("Weights", idx, "_in");
                f.input(name.as_str(), ty);
                proof {
                    lemma_function_valid_grows(f0, p0, f@, prog@);
                }
            },
            Attribute::BaseColor { .. } => {},
        }
    }
}

/// What an attribute adds to the fragment shader, and the color it gives:
/// a vertex color is read from the vertex shader; the texture coordinates
/// of the base color texture look up that texture; a base color is a
/// constant.
pub open spec fn spec_attr_frag(
    a: Attribute,
    f: FunctionView,
    p: ProgramView,
    prim: Primitive,
    materials: Seq<Material>,
    accessors: Seq<Accessor>,
) -> (FunctionView, ProgramView, Option<ExprView>) {
    match a {
        Attribute::VertexColor { accessor, idx } => {
            let ty = accessors[accessor as int].accessor_type.spec_shader_type();
            let (f1, color) = sb_input(f, indexed_name("Color"@, idx, ""@), ty);
            (f1, p, Some(color))
        },
        Attribute::TexCoord { idx } => if spec_is_base_color(prim, materials, idx) {
            let (p1, base_color) = sb_uniform(p, "base_color"@, ShaderType::Sampler2D);
            let (f1, uv) = sb_input(f, indexed_name("TexCoord"@, idx, ""@), ShaderType::Vector(2));
            (
                f1,
                p1,
                Some(
                    ExprView::Call {
                        function: BuiltinFunction::Texture,
                        arguments: seq![base_color, uv],
                    },
                ),
            )
        } else {
            (f, p, None)
        },
        Attribute::BaseColor { color } => (
            f,
            p,
            Some(
                ExprView::Call {
                    function: BuiltinFunction::MakeVec,
                    arguments: seq![
                        ExprView::Float { value: color@[0] },
                        ExprView::Float { value: color@[1] },
                        ExprView::Float { value: color@[2] },
                        ExprView::Float { value: color@[3] },
                    ],
                },
            ),
        ),
        _ => (f, p, None),
    }
}

/// Expression `e` reads the input of `f` with the given name and type.
pub open spec fn reads_input(f: FunctionView, e: ExprView, name: Seq<char>, ty: ShaderType) -> bool {
    &&& e matches ExprView::Get { variable }
    &&& e->variable.spec_kind() == crate::renderer::shader::VariableAllocationContext::Input
    &&& e->variable.spec_id() < f.inputs.len()
    &&& f.inputs[e->variable.spec_id() as int] == (VariableView { name, ty })
}

/// The fragment part of a vertex color `COLOR_<idx>`: it declares a new
/// input named `Color<idx>` with the shader type of the color's accessor,
/// changes nothing else, and gives that input as its color.
pub proof fn lemma_vertex_color_frag(
    accessor: usize,
    idx: usize,
    f: FunctionView,
    p: ProgramView,
    prim: Primitive,
    materials: Seq<Material>,
    accessors: Seq<Accessor>,
)
    requires
        f.inputs.len() <= usize::MAX,
    ensures
        ({
            let s = spec_attr_frag(
                Attribute::VertexColor { accessor, idx },
                f,
                p,
                prim,
                materials,
                accessors,
            );
            let name = "Color"@ + decimal(idx as nat);
            let ty = accessors[accessor as int].accessor_type.spec_shader_type();
            &&& s.1 == p
            &&& s.0.blocks == f.blocks
            &&& s.0.locals == f.locals
            &&& s.0.outputs == f.outputs
            &&& s.0.inputs == f.inputs.push(VariableView { name, ty })
            &&& s.2 matches Some(c) && reads_input(s.0, c, name, ty)
        }),
{
    broadcast use crate::renderer::shader::lemma_variable_id;

    reveal_strlit("");
    let name = "Color"@ + decimal(idx as nat);
    let ty = accessors[accessor as int].accessor_type.spec_shader_type();
    assert(indexed_name("Color"@, idx, ""@) =~= name);
    let s = spec_attr_frag(Attribute::VertexColor { accessor, idx }, f, p, prim, materials, accessors);
    assert(s.0.inputs == f.inputs.push(VariableView { name, ty }));
    let c = s.2.unwrap();
}

/// The fragment part of any attribute only adds inputs after the ones
/// already there.
proof fn lemma_attr_frag_keeps_inputs(
    a: Attribute,
    f: FunctionView,
    p: ProgramView,
    prim: Primitive,
    materials: Seq<Material>,
    accessors: Seq<Accessor>,
)
    ensures
        ({
            let s = spec_attr_frag(a, f, p, prim, materials, accessors);
            &&& s.0.inputs.len() >= f.inputs.len()
            &&& forall|i: int| 0 <= i < f.inputs.len() ==> s.0.inputs[i] == f.inputs[i]
        }),
{
}

/// Building the fragment shader from its parts gives, for every vertex
/// color `COLOR_<idx>` among them, a color that reads the fragment input
/// `Color<idx>` of the color's shader type: no vertex color is left out of
/// the colors that make `frag_color`.
pub proof fn lemma_frag_fold_vertex_colors(
    comps: Seq<Attribute>,
    f: FunctionView,
    p: ProgramView,
    prim: Primitive,
    materials: Seq<Material>,
    accessors: Seq<Accessor>,
)
    requires
        spec_frag_fold(comps, f, p, prim, materials, accessors).0.inputs.len() <= usize::MAX,
    ensures
        ({
            let fr = spec_frag_fold(comps, f, p, prim, materials, accessors);
            &&& fr.0.inputs.len() >= f.inputs.len()
            &&& forall|i: int| 0 <= i < f.inputs.len() ==> fr.0.inputs[i] == f.inputs[i]
            &&& forall|i: int|
                0 <= i < comps.len() && (#[trigger] comps[i]) is VertexColor ==> exists|j: int|
                    0 <= j < fr.2.len() && reads_input(
                        fr.0,
                        #[trigger] fr.2[j],
                        "Color"@ + decimal(comps[i]->VertexColor_idx as nat),
                        accessors[comps[i]->VertexColor_accessor as int].accessor_type.spec_shader_type(),
                    )
        }),
    decreases comps.len(),
{
    if comps.len() > 0 {
        let prev_comps = comps.drop_last();
        let prev = spec_frag_fold(prev_comps, f, p, prim, materials, accessors);
        let last = comps.last();
        let s = spec_attr_frag(last, prev.0, prev.1, prim, materials, accessors);
        lemma_attr_frag_keeps_inputs(last, prev.0, prev.1, prim, materials, accessors);
        lemma_frag_fold_vertex_colors(prev_comps, f, p, prim, materials, accessors);
        let fr = spec_frag_fold(comps, f, p, prim, materials, accessors);
        assert(fr.0 == s.0);
        assert forall|i: int|
            0 <= i < comps.len() && (#[trigger] comps[i]) is VertexColor implies exists|j: int|
                0 <= j < fr.2.len() && reads_input(
                    fr.0,
                    #[trigger] fr.2[j],
                    "Color"@ + decimal(comps[i]->VertexColor_idx as nat),
                    accessors[comps[i]->VertexColor_accessor as int].accessor_type.spec_shader_type(),
                ) by {
            let name = "Color"@ + decimal(comps[i]->VertexColor_idx as nat);
            let ty = accessors[comps[i]->VertexColor_accessor as int].accessor_type.spec_shader_type();
            if i == comps.len() - 1 {
                lemma_vertex_color_frag(
                    last->VertexColor_accessor,
                    last->VertexColor_idx,
                    prev.0,
                    prev.1,
                    prim,
                    materials,
                    accessors,
                );
                let j = fr.2.len() - 1;
                assert(reads_input(fr.0, fr.2[j], name, ty));
            } else {
                assert(prev_comps[i] == comps[i]);
                let j = choose|j: int|
                    0 <= j < prev.2.len() && reads_input(prev.0, #[trigger] prev.2[j], name, ty);
                assert(fr.2[j] == prev.2[j]);
                assert(reads_input(fr.0, fr.2[j], name, ty));
            }
        }
    }
}

impl Attribute {
    /// Add this attribute's part to the fragment shader; gives its color,
    /// if it has one.  See `spec_attr_frag`.
    fn frag(
        &self,
        f: &mut Function,
        prog: &mut Program,
        prim: &Primitive,
        materials: &Vec<Material>,
        accessors: &Vec<Accessor>,
    ) -> (r: Option<Expression>)
        requires
            building(old(f)@, old(prog)@),
            attribute_readable(*self, accessors@),
            material_exists(*prim, materials@),
        ensures
            ({
                let s = spec_attr_frag(*self, old(f)@, old(prog)@, *prim, materials@, accessors@);
                &&& final(f)@ == s.0
                &&& final(prog)@ == s.1
                &&& match (r, s.2) {
                    (Some(e), Some(v)) => e@ == v,
                    (None, None) => true,
                    _ => false,
                }
            }),
            building(final(f)@, final(prog)@),
            r matches Some(e) ==> expr_valid(function_env(final(f)@, final(prog)@), e@),
    {
        broadcast use lemma_variable_id;

        let ghost f0 = f@;
        let ghost p0 = prog@;
        match *self {
            Attribute::VertexColor { accessor, idx } => {
                let ty = accessors[accessor].accessor_type.to_shader_type();
                let name = make_name("Color", idx, "");
                let color = f.input(name.as_str(), ty);
                proof {
                    lemma_function_valid_grows(f0, p0, f@, prog@);
                }
                Some(color)
            },
            Attribute::TexCoord { idx } => {
                if is_base_color(prim, materials, idx) {
                    let base_color = prog.uniform("base_color", ShaderType::Sampler2D);
                    let name = make_name("TexCoord", idx, "");
                    let uv = f.input(name.as_str(), ShaderType::Vector(2));
                    let e = Expression::texture(base_color, uv);
                    proof {
                        lemma_function_valid_grows(f0, p0, f@, prog@);
                        lemma_exprs_valid_pair(function_env(f@, prog@), base_color@, uv@);
                    }
                    Some(e)
                } else {
                    None
                }
            },
            Attribute::BaseColor { color } => {
                let mut parts: Vec<Expression> = Vec::new();
                parts.push(Expression::float(color[0]));
                parts.push(Expression::float(color[1]));
                parts.push(Expression::float(color[2]));
                parts.push(Expression::float(color[3]));
                let ghost want = seq![
                    ExprView::Float { value: color@[0] },
                    ExprView::Float { value: color@[1] },
                    ExprView::Float { value: color@[2] },
                    ExprView::Float { value: color@[3] },
                ];
                proof {
                    lemma_exprs_view(parts@);
                    assert(crate::renderer::shader::exprs_view(parts@) =~= want);
                    lemma_exprs_valid_all(function_env(f@, prog@), want);
                }
                Some(Expression::vec(parts))
            },
            _ => None,
        }
    }
}

/// Building the vertex shader from the parts in order.
pub open spec fn spec_vertex_fold(
    comps: Seq<Attribute>,
    f: FunctionView,
    p: ProgramView,
    accessors: Seq<Accessor>,
) -> (FunctionView, ProgramView)
    decreases comps.len(),
{
    if comps.len() == 0 {
        (f, p)
    } else {
        let prev = spec_vertex_fold(comps.drop_last(), f, p, accessors);
        spec_attr_vertex(comps.last(), prev.0, prev.1, accessors)
    }
}

/// Building the fragment shader from the parts in order, collecting their
/// colors.
pub open spec fn spec_frag_fold(
    comps: Seq<Attribute>,
    f: FunctionView,
    p: ProgramView,
    prim: Primitive,
    materials: Seq<Material>,
    accessors: Seq<Accessor>,
) -> (FunctionView, ProgramView, Seq<ExprView>)
    decreases comps.len(),
{
    if comps.len() == 0 {
        (f, p, Seq::empty())
    } else {
        let prev = spec_frag_fold(comps.drop_last(), f, p, prim, materials, accessors);
        let s = spec_attr_frag(comps.last(), prev.0, prev.1, prim, materials, accessors);
        (
            s.0,
            s.1,
            match s.2 {
                Some(c) => prev.2.push(c),
                None => prev.2,
            },
        )
    }
}

/// The product of colors, multiplied from the first on.
pub open spec fn spec_product(colors: Seq<ExprView>) -> Option<ExprView>
    decreases colors.len(),
{
    if colors.len() == 0 {
        None
    } else if colors.len() == 1 {
        Some(colors[0])
    } else {
        match spec_product(colors.drop_last()) {
            Some(p) => Some(
                ExprView::Call { function: BuiltinFunction::Mul, arguments: seq![p, colors.last()] },
            ),
            None => None,
        }
    }
}

/// Expression `e` is `c` or has `c` inside it.
pub open spec fn mentions(e: ExprView, c: ExprView) -> bool
    decreases e,
{
    e == c || match e {
        ExprView::Call { arguments, .. } => mentions_any(arguments, c),
        _ => false,
    }
}

/// One of the expressions `args` mentions `c`.
pub open spec fn mentions_any(args: Seq<ExprView>, c: ExprView) -> bool
    decreases args,
{
    if args.len() == 0 {
        false
    } else {
        mentions_any(args.subrange(0, args.len() - 1), c) || mentions(args[args.len() - 1], c)
    }
}

/// The product of colors has every one of them inside it, so a color
/// given by any part reaches the value it is used for.
pub proof fn lemma_product_mentions(colors: Seq<ExprView>)
    ensures
        spec_product(colors) matches Some(pr) ==> forall|j: int|
            0 <= j < colors.len() ==> mentions(pr, #[trigger] colors[j]),
        colors.len() > 0 ==> spec_product(colors) is Some,
    decreases colors.len(),
{
    if colors.len() > 1 {
        let prev = colors.drop_last();
        lemma_product_mentions(prev);
        let pp = spec_product(prev).unwrap();
        let args = seq![pp, colors.last()];
        assert(args.subrange(0, 1) =~= seq![pp]);
        assert(seq![pp].subrange(0, 0) =~= Seq::<ExprView>::empty());
        assert forall|j: int| 0 <= j < colors.len() implies mentions(
            ExprView::Call { function: BuiltinFunction::Mul, arguments: args },
            #[trigger] colors[j],
        ) by {
            if j == colors.len() - 1 {
                assert(mentions(args[1], colors[j]));
            } else {
                assert(prev[j] == colors[j]);
                assert(mentions(pp, colors[j]));
                assert(mentions_any(seq![pp], colors[j]));
            }
            assert(mentions_any(args, colors[j]));
        }
    }
}

/// The function a shader is built in, empty.
pub open spec fn empty_function() -> FunctionView {
    FunctionView {
        blocks: seq![Seq::<StatementView>::empty()],
        locals: Seq::empty(),
        inputs: Seq::empty(),
        outputs: Seq::empty(),
    }
}

/// The color of a primitive without colors: mid grey.
pub open spec fn grey() -> ExprView {
    ExprView::Call {
        function: BuiltinFunction::MakeVec,
        arguments: seq![
            ExprView::Float { value: F32_HALF },
            ExprView::Float { value: F32_HALF },
            ExprView::Float { value: F32_HALF },
            ExprView::Float { value: F32_ONE },
        ],
    }
}

/// The shader program a primitive is drawn with: the vertex shader made
/// by its parts; the fragment shader made by its parts, whose output
/// `frag_color` is the product of the parts' colors, or grey.
pub open spec fn spec_create_program(prim: Primitive, model: crate::gltf::Model) -> ProgramView {
    let comps = spec_components(prim, model.materials@);
    let empty = ProgramView {
        functions: Seq::empty(),
        vertex: None,
        frag: None,
        uniforms: Seq::empty(),
        errors: Seq::empty(),
    };
    let v = spec_vertex_fold(comps, empty_function(), empty, model.accessors@);
    let p1 = ProgramView { vertex: Some(v.1.functions.len() as usize), ..spec_add_function(v.1, v.0) };
    let fr = spec_frag_fold(comps, empty_function(), p1, prim, model.materials@, model.accessors@);
    let (f2, out) = sb_output(fr.0, "frag_color"@, ShaderType::Vector(4));
    let value = match spec_product(fr.2) {
        Some(c) => c,
        None => grey(),
    };
    ProgramView {
        frag: Some(fr.1.functions.len() as usize),
        ..spec_add_function(fr.1, sb_set_output(f2, out, value))
    }
}

/// Every attribute of the primitive that reads an accessor reads one that
/// exists, and its material, if any, exists.
pub open spec fn primitive_readable(prim: Primitive, model: crate::gltf::Model) -> bool {
    &&& material_exists(prim, model.materials@)
    &&& forall|i: int|
        0 <= i < spec_components(prim, model.materials@).len() ==> attribute_readable(
            #[trigger] spec_components(prim, model.materials@)[i],
            model.accessors@,
        )
}

proof fn lemma_product_valid(env: crate::renderer::shader::TcEnv, colors: Seq<ExprView>)
    requires
        forall|i: int| 0 <= i < colors.len() ==> expr_valid(env, #[trigger] colors[i]),
    ensures
        spec_product(colors) matches Some(c) ==> expr_valid(env, c),
        colors.len() > 0 ==> spec_product(colors) is Some,
    decreases colors.len(),
{
    if colors.len() > 1 {
        let init = colors.drop_last();
        assert forall|i: int| 0 <= i < init.len() implies expr_valid(env, #[trigger] init[i]) by {
            assert(init[i] == colors[i]);
        }
        lemma_product_valid(env, init);
        let p = spec_product(init)->0;
        lemma_exprs_valid_pair(env, p, colors.last());
    }
}

/// The product of colors, multiplied from the first on.
fn product(colors: Vec<Expression>) -> (r: Option<Expression>)
    ensures
        match (r, spec_product(crate::renderer::shader::exprs_view(colors@))) {
            (Some(e), Some(v)) => e@ == v,
            (None, None) => true,
            _ => false,
        },
{
    let ghost cv = crate::renderer::shader::exprs_view(colors@);
    proof {
        lemma_exprs_view(colors@);
    }
    let mut colors = colors;
    if colors.len() == 0 {
        return None;
    }
    let n = colors.len();
    let mut acc = colors.remove(0);
    let mut k: usize = 1;
    proof {
        assert(cv.take(1).len() == 1);
    }
    while colors.len() > 0
        invariant
            cv.len() == n,
            1 <= k <= n,
            colors@.len() == n - k,
            forall|i: int| 0 <= i < colors@.len() ==> #[trigger] colors@[i]@ == cv[k + i],
            spec_product(cv.take(k as int)) == Some(acc@),
        decreases colors@.len(),
    {
        let x = colors.remove(0);
        proof {
            assert(x@ == cv[k as int]);
            assert(cv.take(k + 1).drop_last() =~= cv.take(k as int));
            assert(cv.take(k + 1).last() == cv[k as int]);
        }
        acc = Expression::binary(BuiltinFunction::Mul, acc, x);
        k = k + 1;
    }
    proof {
        assert(cv.take(n as int) =~= cv);
    }
    Some(acc)
}

/// Build the shader program a primitive is drawn with; see
/// `spec_create_program`.  A program with type errors is refused.
pub fn create_shader(prim: &Primitive, model: &crate::gltf::Model) -> (r: Result<Program, ModelError>)
    requires
        primitive_readable(*prim, *model),
    ensures
        ({
            let p = spec_create_program(*prim, *model);
            &&& p.errors.len() == 0 ==> (r matches Ok(x) && x@ == p)
            &&& p.errors.len() > 0 ==> (r matches Err(ModelError::ShaderCompilation { source })
                && source@ == (ErrorView::ErrorList { errors: p.errors }))
        }),
{
    let comps = components(prim, &model.materials);
    let ghost cv = comps@;
    let mut prog = Program::new();
    let ghost empty = prog@;
    let mut f = Function::new_empty();
    let n = comps.len();
    let mut i: usize = 0;
    while i < n
        invariant
            n == comps@.len(),
            cv == comps@,
            cv == spec_components(*prim, model.materials@),
            primitive_readable(*prim, *model),
            i <= n,
            (f@, prog@) == spec_vertex_fold(cv.take(i as int), empty_function(), empty, model.accessors@),
            building(f@, prog@),
        decreases n - i,
    {
        proof {
            assert(cv.take(i + 1).drop_last() =~= cv.take(i as int));
            assert(attribute_readable(cv[i as int], model.accessors@));
        }
        comps[i].vertex(&mut f, &mut prog, &model.accessors);
        i = i + 1;
    }
    proof {
        assert(cv.take(n as int) =~= cv);
    }
    prog.vertex(f);
    let ghost p1 = prog@;
    let mut f = Function::new_empty();
    let mut colors: Vec<Expression> = Vec::new();
    let mut i: usize = 0;
    proof {
        lemma_exprs_view(colors@);
        assert(crate::renderer::shader::exprs_view(colors@) =~= Seq::<ExprView>::empty());
    }
    while i < n
        invariant
            n == comps@.len(),
            cv == comps@,
            cv == spec_components(*prim, model.materials@),
            primitive_readable(*prim, *model),
            i <= n,
            ({
                let s = spec_frag_fold(
                    cv.take(i as int),
                    empty_function(),
                    p1,
                    *prim,
                    model.materials@,
                    model.accessors@,
                );
                &&& f@ == s.0
                &&& prog@ == s.1
                &&& crate::renderer::shader::exprs_view(colors@) == s.2
            }),
            building(f@, prog@),
            forall|k: int|
                0 <= k < colors@.len() ==> expr_valid(function_env(f@, prog@), #[trigger] colors@[k]@),
        decreases n - i,
    {
        proof {
            assert(cv.take(i + 1).drop_last() =~= cv.take(i as int));
            assert(attribute_readable(cv[i as int], model.accessors@));
        }
        let ghost before = (f@, prog@);
        let c = comps[i].frag(&mut f, &mut prog, prim, &model.materials, &model.accessors);
        proof {
            assert forall|k: int| 0 <= k < colors@.len() implies expr_valid(
                function_env(f@, prog@),
                #[trigger] colors@[k]@,
            ) by {
                crate::renderer::shader::lemma_expr_valid_grows(
                    function_env(before.0, before.1),
                    function_env(f@, prog@),
                    colors@[k]@,
                );
            }
        }
        if let Some(c) = c {
            let ghost old_colors = colors@;
            colors.push(c);
            proof {
                lemma_exprs_view(colors@);
                lemma_exprs_view(old_colors);
                assert(crate::renderer::shader::exprs_view(colors@) =~= crate::renderer::shader::exprs_view(
                    old_colors,
                ).push(c@));
            }
        }
        i = i + 1;
    }
    proof {
        assert(cv.take(n as int) =~= cv);
        lemma_exprs_view(colors@);
        lemma_product_valid(function_env(f@, prog@), crate::renderer::shader::exprs_view(colors@));
    }
    let ghost colors_view = crate::renderer::shader::exprs_view(colors@);
    let ghost f1 = f@;
    let output = product(colors);
    let out = f.output("frag_color", ShaderType::Vector(4));
    let ghost f2 = f@;
    let value = match output {
        Some(o) => o,
        None => {
            let mut parts: Vec<Expression> = Vec::new();
            parts.push(Expression::float(F32_HALF));
            parts.push(Expression::float(F32_HALF));
            parts.push(Expression::float(F32_HALF));
            parts.push(Expression::float(F32_ONE));
            proof {
                lemma_exprs_view(parts@);
                assert(crate::renderer::shader::exprs_view(parts@) =~= grey()->arguments);
            }
            Expression::vec(parts)
        },
    };
    proof {
        broadcast use lemma_variable_id;

        let env1 = function_env(f1, prog@);
        let env2 = function_env(f2, prog@);
        lemma_function_valid_grows(f1, prog@, f2, prog@);
        match spec_product(colors_view) {
            Some(c) => {
                crate::renderer::shader::lemma_expr_valid_grows(env1, env2, c);
            },
            None => {
                lemma_exprs_valid_all(env2, grey()->arguments);
            },
        }
        lemma_set_output_valid(f2, prog@, out@, value@);
    }
    f.set_output(out, value);
    prog.frag(f);
    match prog.ok() {
        Ok(()) => Ok(prog),
        Err(e) => Err(ModelError::ShaderCompilation { source: e }),
    }
}

// ============================= //
// a primitive on the graphics card //
// ============================= //

/// A buffer view as loaded on the graphics card.
#[derive(Debug, Clone, Copy, PartialEq, Eq, Structural)]
pub enum GPUBuffer {
    Index(crate::renderer::IndexBufferId),
    Vertex(crate::renderer::VertexBufferId),
    /// The view is not loaded on the graphics card
    NoBuffer,
}

/// The index buffer a primitive is drawn with.
#[derive(Debug, Clone, Copy, PartialEq, Eq, Structural)]
pub struct GPUPrimitiveIndexInfo {
    pub buffer: crate::renderer::IndexBufferId,
    pub item_type: crate::renderer::IndexType,
    pub count: usize,
    pub offset: usize,
}

/// What drawing a primitive takes: its pipeline, its vertex arrays, its
/// indices, its mode, its culling and its base color texture.
#[derive(Debug, Clone)]
pub struct GPUPrimitive {
    pub pipeline: crate::renderer::PipelineId,
    pub vertex_count: usize,
    pub base_color_texidx: Option<crate::renderer::TextureId>,
    pub indicies: Option<GPUPrimitiveIndexInfo>,
    pub draw_mode: crate::renderer::DrawingMode,
    pub culling: bool,
    pub vertex_buffers: Vec<crate::renderer::VertexBufferId>,
    pub vertex_strides: Vec<i32>,
    pub vertex_offsets: Vec<usize>,
}

/// The drawing mode of a glTF primitive mode.
pub open spec fn spec_draw_mode(mode: crate::gltf::PrimitiveMode) -> crate::renderer::DrawingMode {
    match mode {
        crate::gltf::PrimitiveMode::LineLoop => crate::renderer::DrawingMode::LineLoop,
        crate::gltf::PrimitiveMode::LineStrip => crate::renderer::DrawingMode::LineStrip,
        crate::gltf::PrimitiveMode::Lines => crate::renderer::DrawingMode::Lines,
        crate::gltf::PrimitiveMode::Points => crate::renderer::DrawingMode::Points,
        crate::gltf::PrimitiveMode::TriangleFan => crate::renderer::DrawingMode::TriangleFan,
        crate::gltf::PrimitiveMode::TriangleStrip => crate::renderer::DrawingMode::TriangleStrip,
        crate::gltf::PrimitiveMode::Triangles => crate::renderer::DrawingMode::Triangles,
    }
}

/// The drawing mode of a glTF primitive mode.
pub fn draw_mode(mode: crate::gltf::PrimitiveMode) -> (r: crate::renderer::DrawingMode)
    ensures
        r == spec_draw_mode(mode),
{
    match mode {
        crate::gltf::PrimitiveMode::LineLoop => crate::renderer::DrawingMode::LineLoop,
        crate::gltf::PrimitiveMode::LineStrip => crate::renderer::DrawingMode::LineStrip,
        crate::gltf::PrimitiveMode::Lines => crate::renderer::DrawingMode::Lines,
        crate::gltf::PrimitiveMode::Points => crate::renderer::DrawingMode::Points,
        crate::gltf::PrimitiveMode::TriangleFan => crate::renderer::DrawingMode::TriangleFan,
        crate::gltf::PrimitiveMode::TriangleStrip => crate::renderer::DrawingMode::TriangleStrip,
        crate::gltf::PrimitiveMode::Triangles => crate::renderer::DrawingMode::Triangles,
    }
}

/// The index buffer of a primitive: its indices accessor must have a
/// buffer view loaded as an index buffer, and an unsigned integer type.
pub open spec fn spec_index_info(
    prim: Primitive,
    accessors: Seq<Accessor>,
    gpu_buffers: Seq<GPUBuffer>,
) -> Option<GPUPrimitiveIndexInfo> {
    match prim.indices {
        None => None,
        Some(idx) => {
            let accessor = accessors[idx as int];
            match accessor.buffer_view {
                None => None,
                Some(view) => match gpu_buffers[view as int] {
                    GPUBuffer::Index(buf) => match accessor.component_type.spec_index_type() {
                        Some(ty) => Some(
                            GPUPrimitiveIndexInfo {
                                buffer: buf,
                                count: accessor.count,
                                item_type: ty,
                                offset: accessor.byte_offset,
                            },
                        ),
                        None => None,
                    },
                    _ => None,
                },
            }
        },
    }
}

/// A primitive draws from an index buffer exactly when its indices
/// accessor has a view loaded as an index buffer and an unsigned integer
/// type; the draw then reads that buffer with the accessor's type, from the
/// accessor's byte offset, for the accessor's count of indices.
pub proof fn lemma_index_info_law(prim: Primitive, accessors: Seq<Accessor>, gpu_buffers: Seq<GPUBuffer>)
    ensures
        spec_index_info(prim, accessors, gpu_buffers) matches Some(info) ==> {
            &&& prim.indices matches Some(i)
            &&& accessors[i as int].buffer_view matches Some(v)
            &&& gpu_buffers[v as int] == GPUBuffer::Index(info.buffer)
            &&& accessors[i as int].component_type.spec_index_type() == Some(info.item_type)
            &&& info.offset == accessors[i as int].byte_offset
            &&& info.count == accessors[i as int].count
        },
        (prim.indices matches Some(i) && accessors[i as int].buffer_view matches Some(v)
            && gpu_buffers[v as int] is Index && accessors[i as int].component_type.spec_index_type()
            is Some) ==> spec_index_info(prim, accessors, gpu_buffers) is Some,
        prim.indices is None ==> spec_index_info(prim, accessors, gpu_buffers) is None,
{
}

/// The lookups of a primitive's index buffer are in range.
pub open spec fn index_info_readable(prim: Primitive, accessors: Seq<Accessor>, gpu_buffers: Seq<GPUBuffer>) -> bool {
    match prim.indices {
        None => true,
        Some(idx) => idx < accessors.len() && match accessors[idx as int].buffer_view {
            None => true,
            Some(view) => view < gpu_buffers.len(),
        },
    }
}

/// The index buffer of a primitive; see `spec_index_info`.
pub fn index_info(prim: &Primitive, accessors: &Vec<Accessor>, gpu_buffers: &Vec<GPUBuffer>) -> (r: Option<
    GPUPrimitiveIndexInfo,
>)
    requires
        index_info_readable(*prim, accessors@, gpu_buffers@),
    ensures
        r == spec_index_info(*prim, accessors@, gpu_buffers@),
{
    let idx = match prim.indices {
        Some(i) => i,
        None => return None,
    };
    let accessor = accessors[idx];
    let view = match accessor.buffer_view {
        Some(v) => v,
        None => return None,
    };
    let buf = match gpu_buffers[view] {
        GPUBuffer::Index(b) => b,
        _ => return None,
    };
    match accessor.component_type.index_type() {
        Some(ty) => Some(
            GPUPrimitiveIndexInfo {
                buffer: buf,
                count: accessor.count,
                item_type: ty,
                offset: accessor.byte_offset,
            },
        ),
        None => None,
    }
}

/// The vertex arrays of a primitive so far: buffers, offsets and strides,
/// and the vertex count, or the error that stopped them.
pub open spec fn spec_vertex_arrays(
    attrs: Seq<(String, i32)>,
    accessors: Seq<Accessor>,
    views: Seq<BufferView>,
    gpu_buffers: Seq<GPUBuffer>,
) -> Result<
    (Seq<crate::renderer::VertexBufferId>, Seq<usize>, Seq<i32>, usize),
    ModelError,
>
    decreases attrs.len(),
{
    if attrs.len() == 0 {
        Ok((Seq::empty(), Seq::empty(), Seq::empty(), 0))
    } else {
        match spec_vertex_arrays(attrs.drop_last(), accessors, views, gpu_buffers) {
            Err(e) => Err(e),
            Ok(prev) => {
                let accessor = accessors[(attrs.last().1 as usize) as int];
                match accessor.buffer_view {
                    None => Err(ModelError::AccessorWithoutBuffer),
                    Some(view_idx) => match gpu_buffers[view_idx as int] {
                        GPUBuffer::Vertex(buf) => if prev.3 != 0 && prev.3 != accessor.count {
                            Err(ModelError::AttribLen)
                        } else {
                            Ok(
                                (
                                    prev.0.push(buf),
                                    prev.1.push(accessor.byte_offset),
                                    prev.2.push(
                                        match views[view_idx as int].byte_stride {
                                            Some(s) => s,
                                            None => 0,
                                        },
                                    ),
                                    accessor.count,
                                ),
                            )
                        },
                        _ => Err(ModelError::IndexAsVertex),
                    },
                }
            },
        }
    }
}

/// The lookups of a primitive's vertex arrays are in range: each
/// attribute's accessor, the loaded buffer of its view, and the view itself
/// where that buffer is a vertex buffer.
pub open spec fn vertex_arrays_readable(
    attrs: Seq<(String, i32)>,
    accessors: Seq<Accessor>,
    views: Seq<BufferView>,
    gpu_buffers: Seq<GPUBuffer>,
) -> bool {
    forall|i: int|
        0 <= i < attrs.len() ==> {
            let a = (#[trigger] attrs[i]).1 as usize;
            &&& a < accessors.len()
            &&& (accessors[a as int].buffer_view matches Some(v) ==> v < gpu_buffers.len() && (
            gpu_buffers[v as int] is Vertex ==> v < views.len()))
        }
}

proof fn lemma_vertex_arrays_stop(
    attrs: Seq<(String, i32)>,
    accessors: Seq<Accessor>,
    views: Seq<BufferView>,
    gpu_buffers: Seq<GPUBuffer>,
    i: int,
    k: int,
)
    requires
        0 < i <= k <= attrs.len(),
        spec_vertex_arrays(attrs.take(i), accessors, views, gpu_buffers) is Err,
    ensures
        spec_vertex_arrays(attrs.take(k), accessors, views, gpu_buffers) == spec_vertex_arrays(
            attrs.take(i),
            accessors,
            views,
            gpu_buffers,
        ),
    decreases k - i,
{
    if k > i {
        lemma_vertex_arrays_stop(attrs, accessors, views, gpu_buffers, i, k - 1);
        assert(attrs.take(k).drop_last() =~= attrs.take(k - 1));
    }
}

/// The vertex buffers, offsets and strides of a primitive, and its vertex
/// count; see `spec_vertex_arrays`.
pub fn get_vertex_array_data(prim: &Primitive, model: &crate::gltf::Model, gpu_buffers: &Vec<GPUBuffer>) -> (r: Result<
    (Vec<crate::renderer::VertexBufferId>, Vec<usize>, Vec<i32>, usize),
    ModelError,
>)
    requires
        vertex_arrays_readable(
            prim.spec_attributes(),
            model.accessors@,
            model.buffer_views@,
            gpu_buffers@,
        ),
    ensures
        match spec_vertex_arrays(
            prim.spec_attributes(),
            model.accessors@,
            model.buffer_views@,
            gpu_buffers@,
        ) {
            Ok(v) => r matches Ok(x) && x.0@ == v.0 && x.1@ == v.1 && x.2@ == v.2 && x.3 == v.3,
            Err(e) => r matches Err(x) && x == e,
        },
{
    let ghost attrs = prim.spec_attributes();
    let ghost acc = model.accessors@;
    let ghost views = model.buffer_views@;
    let ghost gb = gpu_buffers@;
    let mut buffers: Vec<crate::renderer::VertexBufferId> = Vec::new();
    let mut offsets: Vec<usize> = Vec::new();
    let mut strides: Vec<i32> = Vec::new();
    let mut vertex_count: usize = 0;
    let n = attribute_count(&prim.attributes);
    let mut i: usize = 0;
    while i < n
        invariant
            n == attrs.len(),
            attrs == prim.spec_attributes(),
            acc == model.accessors@,
            views == model.buffer_views@,
            gb == gpu_buffers@,
            vertex_arrays_readable(attrs, acc, views, gb),
            i <= n,
            spec_vertex_arrays(attrs.take(i as int), acc, views, gb) == Ok::<
                (Seq<crate::renderer::VertexBufferId>, Seq<usize>, Seq<i32>, usize),
                ModelError,
            >((buffers@, offsets@, strides@, vertex_count)),
        decreases n - i,
    {
        proof {
            assert(attrs.take(i + 1).drop_last() =~= attrs.take(i as int));
            assert(attrs.take(i + 1).last() == attrs[i as int]);
        }
        let attr = match attribute_at(&prim.attributes, i) {
            Some((_, a)) => a,
            None => 0,
        };
        let accessor = model.accessors[attr as usize];
        match accessor.buffer_view {
            Some(view_idx) => {
                match gpu_buffers[view_idx] {
                    GPUBuffer::Vertex(buf) => {
                        if vertex_count != 0 && vertex_count != accessor.count {
                            proof {
                                lemma_vertex_arrays_stop(attrs, acc, views, gb, i + 1, n as int);
                                assert(attrs.take(n as int) =~= attrs);
                            }
                            return Err(ModelError::AttribLen);
                        }
                        vertex_count = accessor.count;
                        buffers.push(buf);
                        offsets.push(accessor.byte_offset);
                        let stride = match model.buffer_views[view_idx].byte_stride {
                            Some(s) => s,
                            None => 0,
                        };
                        strides.push(stride);
                    },
                    _ => {
                        proof {
                            lemma_vertex_arrays_stop(attrs, acc, views, gb, i + 1, n as int);
                            assert(attrs.take(n as int) =~= attrs);
                        }
                        return Err(ModelError::IndexAsVertex);
                    },
                }
            },
            None => {
                proof {
                    lemma_vertex_arrays_stop(attrs, acc, views, gb, i + 1, n as int);
                    assert(attrs.take(n as int) =~= attrs);
                }
                return Err(ModelError::AccessorWithoutBuffer);
            },
        }
        i = i + 1;
    }
    proof {
        assert(attrs.take(n as int) =~= attrs);
    }
    Ok((buffers, offsets, strides, vertex_count))
}

/// The base color texture of a primitive, as loaded on the graphics card.
pub open spec fn spec_base_color_texture(
    prim: Primitive,
    materials: Seq<Material>,
    gpu_textures: Seq<crate::renderer::TextureId>,
) -> Option<crate::renderer::TextureId> {
    match prim.material {
        Some(m) => match materials[m as int].pbr_metallic_roughness {
            Some(pbr) => match pbr.base_color_texture {
                Some(c) => Some(gpu_textures[c.index as int]),
                None => None,
            },
            None => None,
        },
        None => None,
    }
}

/// Back faces are culled unless the primitive's material is double sided.
pub open spec fn spec_culling(prim: Primitive, materials: Seq<Material>) -> bool {
    match prim.material {
        Some(m) => !materials[m as int].double_sided,
        None => true,
    }
}

/// The lookups of a primitive's base color texture are in range.
pub open spec fn base_color_readable(
    prim: Primitive,
    materials: Seq<Material>,
    gpu_textures: Seq<crate::renderer::TextureId>,
) -> bool {
    &&& material_exists(prim, materials)
    &&& (prim.material matches Some(m) ==> (materials[m as int].pbr_metallic_roughness matches Some(
        pbr,
    ) ==> (pbr.base_color_texture matches Some(c) ==> c.index < gpu_textures.len())))
}

impl GPUPrimitive {
    /// What drawing a primitive takes, once its pipeline is loaded: the
    /// base color texture, the drawing mode, the index buffer and the
    /// vertex arrays, and culling unless the material is double sided.
    pub fn new(
        prim: &Primitive,
        model: &crate::gltf::Model,
        gpu_buffers: &Vec<GPUBuffer>,
        gpu_textures: &Vec<crate::renderer::TextureId>,
        pipeline: crate::renderer::PipelineId,
    ) -> (r: Result<GPUPrimitive, ModelError>)
        requires
            base_color_readable(*prim, model.materials@, gpu_textures@),
            index_info_readable(*prim, model.accessors@, gpu_buffers@),
            vertex_arrays_readable(
                prim.spec_attributes(),
                model.accessors@,
                model.buffer_views@,
                gpu_buffers@,
            ),
        ensures
            match spec_vertex_arrays(
                prim.spec_attributes(),
                model.accessors@,
                model.buffer_views@,
                gpu_buffers@,
            ) {
                Err(e) => r matches Err(x) && x == e,
                Ok(v) => r matches Ok(g) && g.pipeline == pipeline && g.vertex_count == v.3
                    && g.vertex_buffers@ == v.0 && g.vertex_offsets@ == v.1 && g.vertex_strides@
                    == v.2 && g.base_color_texidx == spec_base_color_texture(
                    *prim,
                    model.materials@,
                    gpu_textures@,
                ) && g.indicies == spec_index_info(*prim, model.accessors@, gpu_buffers@)
                    && g.draw_mode == spec_draw_mode(prim.mode) && g.culling == spec_culling(
                    *prim,
                    model.materials@,
                ),
            },
    {
        let base_color = match prim.material {
            Some(m) => match &model.materials[m].pbr_metallic_roughness {
                Some(pbr) => match &pbr.base_color_texture {
                    Some(c) => Some(gpu_textures[c.index]),
                    None => None,
                },
                None => None,
            },
            None => None,
        };
        let mode = draw_mode(prim.mode);
        let indicies = index_info(prim, &model.accessors, gpu_buffers);
        let (vertex_buffers, vertex_offsets, vertex_strides, vertex_count) = match get_vertex_array_data(
            prim,
            model,
            gpu_buffers,
        ) {
            Ok(v) => v,
            Err(e) => return Err(e),
        };
        let culling = match prim.material {
            Some(m) => !model.materials[m].double_sided,
            None => true,
        };
        Ok(
            GPUPrimitive {
                pipeline,
                vertex_count,
                draw_mode: mode,
                indicies,
                vertex_buffers,
                vertex_offsets,
                vertex_strides,
                base_color_texidx: base_color,
                culling,
            },
        )
    }
}

// ----------------------------------------------------------------------
// Loading buffers and images
// ----------------------------------------------------------------------

/// `d` as a buffer of `expected` bytes: shorter data is refused.
pub open spec fn spec_length_checked(d: Seq<u8>, expected: usize) -> Result<Seq<u8>, ModelError> {
    if d.len() < expected {
        Err(ModelError::BufferLength { len: d.len() as usize, expected })
    } else {
        Ok(d)
    }
}

/// `r` is the buffer holding `want`'s bytes, or `want`'s error.
pub open spec fn buffer_result(r: Result<Buffer, ModelError>, want: Result<Seq<u8>, ModelError>) -> bool {
    match want {
        Ok(d) => r matches Ok(b) && b.data@ == d,
        Err(e) => r == Err::<Buffer, ModelError>(e),
    }
}

impl Buffer {
    /// Loads the data of `buffer`: `load` reads the file its uri names; a
    /// buffer without a uri takes the binary chunk out of `default`.
    pub fn new<L>(buffer: &crate::gltf::Buffer, load: L, default: &mut Option<Vec<u8>>) -> (r: Result<
        Buffer,
        ModelError,
    >) where L: FnOnce(&str) -> Result<Vec<u8>, crate::resources::Error>
        requires
            forall|p: &str| call_requires(load, (p,)),
        ensures
            buffer.uri is Some ==> *final(default) == *old(default),
            buffer.uri is None ==> *final(default) == None::<Vec<u8>>,
            match buffer.uri {
                Some(uri) => exists|p: &str, loaded: Result<Vec<u8>, crate::resources::Error>|
                    #![trigger call_ensures(load, (p,), loaded)]
                    p@ == uri@ && call_ensures(load, (p,), loaded) && match loaded {
                        Err(e) => r == Err::<Buffer, ModelError>(
                            ModelError::BufferLoad { name: uri, inner: e },
                        ),
                        Ok(d) => buffer_result(r, spec_length_checked(d@, buffer.byte_length)),
                    },
                None => match *old(default) {
                    None => r == Err::<Buffer, ModelError>(ModelError::InternalBuffer),
                    Some(d) => buffer_result(r, spec_length_checked(d@, buffer.byte_length)),
                },
            },
    {
        let bytes = match &buffer.uri {
            Some(uri) => {
                let loaded = load(uri.as_str());
                match loaded {
                    Ok(d) => d,
                    Err(e) => {
                        return Err(ModelError::BufferLoad { name: uri.clone(), inner: e });
                    },
                }
            },
            None => match default.take() {
                Some(data) => data,
                None => {
                    return Err(ModelError::InternalBuffer);
                },
            },
        };
        if bytes.len() < buffer.byte_length {
            return Err(ModelError::BufferLength { len: bytes.len(), expected: buffer.byte_length });
        }
        Ok(Buffer { data: bytes })
    }
}

/// The bytes of an image stored in buffer view `bv`: the view and its
/// buffer must exist and the view must lie inside the buffer.
pub open spec fn spec_view_bytes(views: Seq<BufferView>, bufs: Seq<Seq<u8>>, bv: usize) -> Result<
    Seq<u8>,
    ModelError,
> {
    if bv >= views.len() {
        Err(ModelError::BadIndex { array: "buffer views", got: bv, max: views.len() as usize })
    } else {
        let view = views[bv as int];
        if view.buffer >= bufs.len() {
            Err(ModelError::BadIndex { array: "buffers", got: view.buffer, max: bufs.len() as usize })
        } else if view.byte_offset + view.byte_length > bufs[view.buffer as int].len() {
            Err(ModelError::BadIndex { array: "buffers", got: view.buffer, max: bufs.len() as usize })
        } else {
            Ok(
                bufs[view.buffer as int].subrange(
                    view.byte_offset as int,
                    view.byte_offset + view.byte_length,
                ),
            )
        }
    }
}

/// No buffer view ends past the largest `usize`.
pub open spec fn views_fit(views: Seq<BufferView>) -> bool {
    forall|i: int| 0 <= i < views.len() ==> #[trigger] views[i].byte_offset + views[i].byte_length <= usize::MAX
}

impl Model {
    /// Loads the encoded bytes of image `img`: `load` reads the file its uri
    /// names; an image without a uri is cut out of its buffer view.
    pub fn load_image<L>(
        img: &Image,
        load: L,
        gltf: &crate::gltf::Model,
        buffers: &Vec<Buffer>,
    ) -> (r: Result<Vec<u8>, ModelError>) where L: FnOnce(&str) -> Result<Vec<u8>, crate::resources::Error>
        requires
            forall|p: &str| call_requires(load, (p,)),
            views_fit(gltf.buffer_views@),
        ensures
            match img.uri {
                Some(uri) => exists|p: &str, loaded: Result<Vec<u8>, crate::resources::Error>|
                    #![trigger call_ensures(load, (p,), loaded)]
                    p@ == uri@ && call_ensures(load, (p,), loaded) && match loaded {
                        Ok(d) => r == Ok::<Vec<u8>, ModelError>(d),
                        Err(e) => r == Err::<Vec<u8>, ModelError>(
                            ModelError::ImageLoad { name: uri, inner: e },
                        ),
                    },
                None => match img.buffer_view {
                    None => r == Err::<Vec<u8>, ModelError>(ModelError::NoSource),
                    Some(bv) => match spec_view_bytes(
                        gltf.buffer_views@,
                        buffer_bytes(buffers@),
                        bv,
                    ) {
                        Ok(d) => r matches Ok(v) && v@ == d,
                        Err(e) => r == Err::<Vec<u8>, ModelError>(e),
                    },
                },
            },
    {
        match &img.uri {
            Some(uri) => {
                let loaded = load(uri.as_str());
                match loaded {
                    Ok(d) => Ok(d),
                    Err(e) => Err(ModelError::ImageLoad { name: uri.clone(), inner: e }),
                }
            },
            None => {
                let bv = match img.buffer_view {
                    Some(bv) => bv,
                    None => {
                        return Err(ModelError::NoSource);
                    },
                };
                if bv >= gltf.buffer_views.len() {
                    return Err(
                        ModelError::BadIndex {
                            array: "buffer views",
                            got: bv,
                            max: gltf.buffer_views.len(),
                        },
                    );
                }
                let view = gltf.buffer_views[bv];
                if view.buffer >= buffers.len() {
                    return Err(
                        ModelError::BadIndex { array: "buffers", got: view.buffer, max: buffers.len() },
                    );
                }
                let data = &buffers[view.buffer].data;
                let end = view.byte_offset + view.byte_length;
                if end > data.len() {
                    return Err(
                        ModelError::BadIndex { array: "buffers", got: view.buffer, max: buffers.len() },
                    );
                }
                let out = copy_range(data, view.byte_offset, end);
                proof {
                    assert(buffer_bytes(buffers@)[view.buffer as int] == buffers@[view.buffer as int].data@);
                }
                Ok(out)
            },
        }
    }
}

/// The draw call of a primitive.
#[derive(Debug, Clone, Copy, PartialEq, Eq, Structural)]
pub enum DrawCall {
    /// Draw `count` indices of type `item_type` from `offset` bytes into
    /// the index buffer `buffer`
    Indexed {
        mode: crate::renderer::DrawingMode,
        buffer: crate::renderer::IndexBufferId,
        item_type: crate::renderer::IndexType,
        offset: usize,
        count: usize,
    },
    /// Draw `count` vertices from the first one
    Arrays { mode: crate::renderer::DrawingMode, first: usize, count: usize },
}

impl GPUPrimitive {
    /// The faces culled while drawing the primitive: back faces, unless
    /// its material is double sided.
    pub fn culling_mode(&self) -> (r: crate::renderer::CullingMode)
        ensures
            r == if self.culling {
                crate::renderer::CullingMode::Back
            } else {
                crate::renderer::CullingMode::Disabled
            },
    {
        if self.culling {
            crate::renderer::CullingMode::Back
        } else {
            crate::renderer::CullingMode::Disabled
        }
    }

    /// The draw call of the primitive: from its index buffer where it has
    /// one, otherwise all its vertices in order.
    pub fn draw_call(&self) -> (r: DrawCall)
        ensures
            r == match self.indicies {
                Some(i) => DrawCall::Indexed {
                    mode: self.draw_mode,
                    buffer: i.buffer,
                    item_type: i.item_type,
                    offset: i.offset,
                    count: i.count,
                },
                None => DrawCall::Arrays { mode: self.draw_mode, first: 0, count: self.vertex_count },
            },
    {
        match self.indicies {
            Some(i) => DrawCall::Indexed {
                mode: self.draw_mode,
                buffer: i.buffer,
                item_type: i.item_type,
                offset: i.offset,
                count: i.count,
            },
            None => DrawCall::Arrays { mode: self.draw_mode, first: 0, count: self.vertex_count },
        }
    }
}

} // verus!
