use engine::gl_consts::{GL_FRAGMENT_SHADER, GL_VERTEX_SHADER};
use engine::shader::{shader_kind, Error, Shader, VertexArray};

#[test]
fn shader_stage_from_extension() {
    assert_eq!(shader_kind("basic.vert").unwrap(), GL_VERTEX_SHADER);
    assert_eq!(shader_kind("basic.frag").unwrap(), GL_FRAGMENT_SHADER);
    assert!(matches!(shader_kind("basic.glsl"), Err(Error::NoShaderType { name }) if name == "basic.glsl"));
    assert!(matches!(shader_kind("vert"), Err(Error::NoShaderType { .. })));
}

#[test]
fn from_res_loads_then_compiles_for_the_stage() {
    let shader = Shader::from_res(
        "shaders/basic.frag",
        |name: &str| {
            assert_eq!(name, "shaders/basic.frag");
            Ok(b"void main() {}".to_vec())
        },
        |src: Vec<u8>, kind: u32| {
            assert_eq!(src, b"void main() {}".to_vec());
            assert_eq!(kind, GL_FRAGMENT_SHADER);
            Ok(17)
        },
    )
    .unwrap();
    assert_eq!(shader.id(), 17);
}

#[test]
fn from_res_without_a_stage_loads_nothing() {
    let r = Shader::from_res(
        "shaders/basic.txt",
        |_name: &str| -> Result<Vec<u8>, engine::resources::Error> { panic!("not loaded") },
        |_src: Vec<u8>, _kind: u32| -> Result<u32, String> { panic!("not compiled") },
    );
    assert!(matches!(r, Err(Error::NoShaderType { name }) if name == "shaders/basic.txt"));
}

#[test]
fn from_res_names_the_file_of_a_failure() {
    let r = Shader::from_res(
        "a.vert",
        |_name: &str| Err(engine::resources::Error::FileContainsNil),
        |_src: Vec<u8>, _kind: u32| Ok(1),
    );
    assert!(matches!(r, Err(Error::ResourceLoad { name, .. }) if name == "a.vert"));
    let r = Shader::from_res(
        "a.vert",
        |_name: &str| Ok(vec![]),
        |_src: Vec<u8>, _kind: u32| Err(String::from("syntax error")),
    );
    assert!(matches!(r, Err(Error::CompileError { name, message }) if name == "a.vert" && message == "syntax error"));
}

#[test]
fn gl_names_are_kept() {
    assert_eq!(Shader::new(3).id(), 3);
    assert_eq!(VertexArray::new(9).vao(), 9);
}

#[test]
fn gl_error_message() {
    let e = engine::shader::GLError(String::from("0:1: syntax error"));
    assert_eq!(e.message(), "GLError: 0:1: syntax error");
}
