//! A verified model of a small image-viewer graphics stack.
//!
//! The library models the graphics driver as explicit state: a handle
//! allocator plus a log of driver commands. Every wrapper (buffers, vertex
//! arrays, shaders, textures), the mesh/material layer, and the drawing
//! context are verified against that model; an unverified front end can
//! replay the command log against a real driver.

pub mod buffers;
pub mod command;
pub mod draw;
pub mod ebo;
pub mod gl_model;
pub mod imdrip;
pub mod loading;
pub mod material;
pub mod mesh;
pub mod named_texture_bindings;
pub mod mesh_builder;
pub mod mesh_factory;
pub mod raw_image;
pub mod registry;
pub mod shader;
pub mod shader_part;
pub mod shader_program;
pub mod texture;
pub mod texture_2d;
pub mod textured;
pub mod vao;
pub mod vbo;
pub mod vec2;

pub use vec2::Vec2i;
