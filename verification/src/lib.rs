//! Rendering core of a voxel-world client, built over an OpenGL-style
//! graphics API.
//!
//! The crate models the GPU driver explicitly: a [`gpu::Gpu`] value stands for
//! the driver reached through the loaded entry-point table.  Every
//! state-changing driver call the core issues is recorded in the `Gpu`'s call
//! log, the driver's error queue is drained after each such call, and the
//! allocation and release of every GPU handle is tracked.  The contracts state
//! exactly which calls each operation issues, when it succeeds, and that no
//! construction path leaks a handle.
//!
//! The host program owns the real driver: it replays the call log through the
//! actual entry points, feeding any error codes the driver reports back into
//! the model.  Matrix values ride through the core untouched; the
//! floating-point evaluation they call for (products, translations) happens at
//! the driver edge, outside the verified core.

pub mod generic;
pub mod gl_buffer;
pub mod gl_consts;
pub mod gl_debug;
pub mod gl_error;
pub mod gl_program;
pub mod gl_shader;
pub mod gl_uniform;
pub mod glam_types;
pub mod gpu;
pub mod input;
pub mod math;
pub mod state;
pub mod trivial_block;
