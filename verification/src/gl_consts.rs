//! Enumerant values of the OpenGL API, as fixed by the API registry.
//!
//! The call log speaks of driver arguments through these values, and the host
//! passes them to the real entry points unchanged.

use vstd::prelude::*;

verus! {

/// No error has been recorded.
pub const NO_ERROR: u32 = 0;

/// An enum argument was out of range for the call.
pub const INVALID_ENUM: u32 = 0x0500;

/// A numeric argument was out of range for the call.
pub const INVALID_VALUE: u32 = 0x0501;

/// The call is not allowed in the current state.
pub const INVALID_OPERATION: u32 = 0x0502;

/// The command would overflow an internal stack.
pub const STACK_OVERFLOW: u32 = 0x0503;

/// The command would underflow an internal stack.
pub const STACK_UNDERFLOW: u32 = 0x0504;

/// The driver could not allocate enough memory.
pub const OUT_OF_MEMORY: u32 = 0x0505;

/// The framebuffer object is not complete.
pub const INVALID_FRAMEBUFFER_OPERATION: u32 = 0x0506;

/// Shader stage: vertex.
pub const VERTEX_SHADER: u32 = 0x8B31;

/// Shader stage: fragment.
pub const FRAGMENT_SHADER: u32 = 0x8B30;

/// Binary shader format: SPIR-V intermediate representation.
pub const SHADER_BINARY_FORMAT_SPIR_V: u32 = 0x9551;

/// Primitive mode: independent triangles.
pub const TRIANGLES: u32 = 0x0004;

/// Primitive mode: triangle fan.
pub const TRIANGLE_FAN: u32 = 0x0006;

/// Attribute component type: unsigned 8-bit integer.
pub const UNSIGNED_BYTE: u32 = 0x1401;

/// Attribute component type: unsigned 16-bit integer.
pub const UNSIGNED_SHORT: u32 = 0x1403;

/// Attribute component type: unsigned 32-bit integer.
pub const UNSIGNED_INT: u32 = 0x1405;

/// Attribute component type: 32-bit floating point.
pub const FLOAT: u32 = 0x1406;

/// Buffer bind target for index buffers.
pub const ELEMENT_ARRAY_BUFFER: u32 = 0x8893;

/// Usage hint: written once, drawn many times.
pub const STATIC_DRAW: u32 = 0x88E4;

/// Usage hint: rewritten about every frame.
pub const STREAM_DRAW: u32 = 0x88E0;

/// Capability: face culling.
pub const CULL_FACE: u32 = 0x0B44;

/// Cull target: back faces.
pub const BACK: u32 = 0x0405;

/// Winding order: counter-clockwise front faces.
pub const CCW: u32 = 0x0901;

} // verus!
