# engine

The core of a small OpenGL game engine, written in Verus.

- `src/` is the verified library: the triple-buffer lock protocol, keyboard
  and mouse state, scancode tables, resource names and data URIs, the glTF
  document model with its buffer, accessor and image checks, the shader
  intermediate representation with its type checker, GLSL writer and
  listing, the shaders generated for a model's primitives, and the
  bookkeeping of the renderer (pipelines, textures, bound state, layer
  order of the main loop).  Verus proves every function there against
  its contract.  Releasing the triple buffer's locks has none: it only
  updates the shared atomic word, which is not modelled; the update it
  applies is a verified function with a contract of its own.  Calls into
  `base64`, `image`, `indexmap` and a few std functions go through small
  trusted wrappers whose contracts are stated next to them.
- `tests/` runs the library on concrete values.
- `app/` is the program around it: the SDL2 window and events, OpenGL
  calls, file reading, JSON parsing with serde, imgui, and the floating
  point camera and scene code.
