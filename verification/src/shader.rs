//! Shaders loaded from resource files: the stage a file holds, known by
//! its extension, and the compiled shader's OpenGL name.
use crate::gl_consts::{GL_FRAGMENT_SHADER, GL_VERTEX_SHADER};
use vstd::prelude::*;
use vstd::string::StringExecFns;
use vstd::string::StringSliceAdditionalSpecFns;

verus! {

/// Errors of loading a shader.
#[derive(Debug)]
pub enum Error {
    /// Error loading the named resource
    ResourceLoad { name: String, inner: crate::resources::Error },
    /// Unable to infer shader type for the named file
    NoShaderType { name: String },
    /// Shader compilation error in the named file
    CompileError { name: String, message: String },
    /// Shader link error in the named program
    LinkError { name: String, message: String },
}

/// An OpenGL error: the driver's log of what went wrong.
#[derive(Debug)]
pub struct GLError(pub String);

impl GLError {
    /// The text of the error: `GLError: ` and the log.
    pub fn message(&self) -> (r: String)
        ensures
            r@ == "GLError: "@ + self.0@,
    {
        let mut s = String::new();
        s.append("GLError: ");
        s.append(self.0.as_str());
        s
    }
}

/// The bytes of `.vert`.
pub open spec fn vert_ext() -> Seq<u8> {
    seq![46u8, 118u8, 101u8, 114u8, 116u8]
}

/// The bytes of `.frag`.
pub open spec fn frag_ext() -> Seq<u8> {
    seq![46u8, 102u8, 114u8, 97u8, 103u8]
}

/// `s` ends with `suffix`.
pub open spec fn ends_with(s: Seq<u8>, suffix: Seq<u8>) -> bool {
    s.len() >= suffix.len() && s.subrange(s.len() - suffix.len(), s.len() as int) == suffix
}

/// The shader stage of a file, by its extension: `.vert` for the vertex
/// stage, `.frag` for the fragment stage.
pub open spec fn spec_shader_kind(name: Seq<u8>) -> Option<u32> {
    if ends_with(name, vert_ext()) {
        Some(GL_VERTEX_SHADER)
    } else if ends_with(name, frag_ext()) {
        Some(GL_FRAGMENT_SHADER)
    } else {
        None
    }
}

/// The last five bytes of `s` are these.
fn ends_with5(s: &[u8], a: u8, b: u8, c: u8, d: u8, e: u8) -> (r: bool)
    ensures
        r == ends_with(s@, seq![a, b, c, d, e]),
{
    let n = s.len();
    if n < 5 {
        return false;
    }
    let r = s[n - 5] == a && s[n - 4] == b && s[n - 3] == c && s[n - 2] == d && s[n - 1] == e;
    proof {
        let t = s@.subrange(n - 5, n as int);
        if r {
            assert(t =~= seq![a, b, c, d, e]);
        } else if t == seq![a, b, c, d, e] {
            assert(t[0] == a && t[1] == b && t[2] == c && t[3] == d && t[4] == e);
        }
    }
    r
}

/// The shader stage of the file `name`, by its extension.
pub fn shader_kind(name: &str) -> (r: Result<u32, Error>)
    ensures
        match spec_shader_kind(name.spec_bytes()) {
            Some(k) => r matches Ok(x) && x == k,
            None => r matches Err(Error::NoShaderType { name: n }) && n@ == name@,
        },
{
    let bytes = name.as_bytes();
    if ends_with5(bytes, 46u8, 118u8, 101u8, 114u8, 116u8) {
        proof {
            assert(seq![46u8, 118u8, 101u8, 114u8, 116u8] =~= vert_ext());
        }
        return Ok(GL_VERTEX_SHADER);
    }
    proof {
        assert(seq![46u8, 118u8, 101u8, 114u8, 116u8] =~= vert_ext());
    }
    if ends_with5(bytes, 46u8, 102u8, 114u8, 97u8, 103u8) {
        proof {
            assert(seq![46u8, 102u8, 114u8, 97u8, 103u8] =~= frag_ext());
        }
        return Ok(GL_FRAGMENT_SHADER);
    }
    proof {
        assert(seq![46u8, 102u8, 114u8, 97u8, 103u8] =~= frag_ext());
    }
    Err(Error::NoShaderType { name: name.to_owned() })
}

/// A compiled shader, by its OpenGL name.
#[derive(Debug)]
pub struct Shader {
    id: u32,
}

impl Shader {
    /// The shader with OpenGL name `id`.
    pub fn new(id: u32) -> (s: Shader)
        ensures
            s.spec_id() == id,
    {
        Shader { id }
    }

    /// Loads and compiles the shader in the resource file `name`: its stage
    /// comes from the file's extension, then `load` reads the file and
    /// `compile` compiles its source for that stage into an OpenGL name.
    /// Each failure names the file.
    pub fn from_res<L, C>(name: &str, load: L, compile: C) -> (r: Result<Shader, Error>) where
        L: FnOnce(&str) -> Result<Vec<u8>, crate::resources::Error>,
        C: FnOnce(Vec<u8>, u32) -> Result<u32, String>,

        requires
            spec_shader_kind(name.spec_bytes()) is Some ==> call_requires(load, (name,)),
            forall|src: Vec<u8>, kind: u32| call_requires(compile, (src, kind)),
        ensures
            match spec_shader_kind(name.spec_bytes()) {
                None => r matches Err(Error::NoShaderType { name: n }) && n@ == name@,
                Some(kind) => exists|loaded: Result<Vec<u8>, crate::resources::Error>|
                    #![trigger call_ensures(load, (name,), loaded)]
                    call_ensures(load, (name,), loaded) && match loaded {
                        Err(e) => r matches Err(Error::ResourceLoad { name: n, inner })
                            && n@ == name@ && inner == e,
                        Ok(src) => exists|compiled: Result<u32, String>|
                            #![trigger call_ensures(compile, (src, kind), compiled)]
                            call_ensures(compile, (src, kind), compiled) && match compiled {
                                Err(m) => r matches Err(Error::CompileError { name: n, message })
                                    && n@ == name@ && message == m,
                                Ok(id) => r matches Ok(s) && s.spec_id() == id,
                            },
                    },
            },
    {
        let kind = shader_kind(name)?;
        let loaded = load(name);
        match loaded {
            Err(e) => Err(Error::ResourceLoad { name: name.to_owned(), inner: e }),
            Ok(src) => {
                let compiled = compile(src, kind);
                match compiled {
                    Err(m) => Err(Error::CompileError { name: name.to_owned(), message: m }),
                    Ok(id) => Ok(Shader { id }),
                }
            },
        }
    }

    /// Its OpenGL name.
    pub closed spec fn spec_id(&self) -> u32 {
        self.id
    }

    /// Its OpenGL name.
    pub fn id(&self) -> (i: u32)
        ensures
            i == self.spec_id(),
    {
        self.id
    }
}

/// A vertex array object, by its OpenGL name.
#[derive(Debug)]
pub struct VertexArray {
    vao: u32,
}

impl VertexArray {
    /// The vertex array with OpenGL name `vao`.
    pub fn new(vao: u32) -> (v: VertexArray)
        ensures
            v.spec_vao() == vao,
    {
        VertexArray { vao }
    }

    /// Its OpenGL name.
    pub closed spec fn spec_vao(&self) -> u32 {
        self.vao
    }

    /// Its OpenGL name.
    pub fn vao(&self) -> (i: u32)
        ensures
            i == self.spec_vao(),
    {
        self.vao
    }
}

} // verus!
