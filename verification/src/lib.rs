//! A small game-engine core: the lock-free triple buffer protocol, input
//! state tracking, resource and data-uri parsing, the glTF binary container,
//! a shader intermediate representation with its type checker and GLSL
//! writer, and the bookkeeping of the renderer front end.

pub mod triple_buffer;
pub mod scancode;
pub mod input;
pub mod gl_consts;
pub mod texture;
pub mod renderer;
pub mod gltf;
pub mod model;
pub mod text;
pub mod data_uri;
pub mod window;
pub mod main_loop;
pub mod resources;
pub mod render;
pub mod shader;
pub mod dynamic_shader;
pub mod imgui_layer;
