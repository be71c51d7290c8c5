//! Render instruction assembly and dynamic pipeline compilation.
//!
//! A host draws through an immediate-mode interface: it selects matrices,
//! switches capabilities, binds client arrays of vertex attributes, and
//! asks for draw calls. This library takes these calls in as instructions,
//! keeps the state that they build up, and turns each draw call into two
//! commands for a recorder: one that binds a pipeline, named by a
//! specification that serves as the key of a cache, and one that draws a
//! buffer into which the enabled arrays were packed, vertex after vertex.
//!
//! Numbers of single and double precision are held as their bits. The
//! library converts integers and narrows double precision in integer
//! arithmetic; arithmetic on matrices and the graphics device are its
//! caller's, to whom it hands out tasks and plans.

pub mod arrays;
pub mod assembler;
pub mod cache_key;
pub mod client_array;
pub mod commands;
pub mod compiler;
pub mod convert;
pub mod decode;
pub mod flags;
pub mod float_bits;
pub mod float_laws;
pub mod gl;
pub mod instruction;
pub mod layout;
pub mod matrix;
pub mod packer;
pub mod pipeline;
pub mod pipeline_table;
pub mod plan;
pub mod pointer;
pub mod recorder;
pub mod sandbox;
pub mod shader;
pub mod shader_cache;
pub mod spinlock;
pub mod textures;
pub mod utils;
pub mod vertex_layout;
pub mod warning;
