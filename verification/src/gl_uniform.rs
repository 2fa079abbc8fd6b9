//! The uniform binding protocol.
//!
//! A value that implements [`GlUniform`] can write itself to a numbered
//! uniform slot.  Both pipelines bind uniforms only through this capability,
//! so the slot-number contract between host and shaders has a single home.
//!
//! A bound matrix is written column-major, untransposed; an array of matrices
//! is written with a single driver call starting at its slot.  The records
//! carry the values the call's arguments are computed from; the
//! floating-point evaluation (the matrix product, the integer-to-float
//! conversion) happens at the driver edge.

use vstd::prelude::*;
use crate::gl_error::{try_gl, GraphicsApiError};
use crate::gpu::{fault_batch, faults_after, Gpu, GlCall};
use crate::math::{IVec2, IVec3};

verus! {

/// Trait for objects that can be specified as uniforms.
pub trait GlUniform {
    /// The call record that binding this value to `location` issues.
    spec fn uniform_call(&self, location: i32) -> GlCall;

    /// Specify the uniform value for the given uniform slot.
    fn gl_uniform(&self, gpu: &mut Gpu, location: i32) -> (r: Result<(), GraphicsApiError>)
        requires
            old(gpu).ready(),
        ensures
            final(gpu).ready(),
            final(gpu).log@ == old(gpu).log@.push(self.uniform_call(location)),
            final(gpu).faults() == faults_after(old(gpu).faults(), 1),
            final(gpu).live@ == old(gpu).live@,
            final(gpu).next_handle == old(gpu).next_handle,
            r is Ok <==> fault_batch(old(gpu).faults(), 0).len() == 0,
            r matches Err(e) ==> e.errors.codes() == fault_batch(old(gpu).faults(), 0),
    ;
}

/// An integer 2-vector is bound as two floats, as a texture-atlas size is.
impl GlUniform for IVec2 {
    open spec fn uniform_call(&self, location: i32) -> GlCall {
        GlCall::Uniform2F { location, x: self.x, y: self.y }
    }

    fn gl_uniform(&self, gpu: &mut Gpu, location: i32) -> (r: Result<(), GraphicsApiError>) {
        try_gl(gpu, GlCall::Uniform2F { location, x: self.x, y: self.y }, "glUniform2f")
    }
}

/// A model-view-projection matrix: the product of the view-projection matrix
/// and a model matrix, evaluated at the driver edge.
pub struct MvpUniform {
    /// The view-projection matrix.
    pub vp: glam::Mat4,
    /// The instance's model matrix.
    pub model: glam::Mat4,
}

impl GlUniform for MvpUniform {
    open spec fn uniform_call(&self, location: i32) -> GlCall {
        GlCall::UniformMvp { location, vp: self.vp, model: self.model }
    }

    fn gl_uniform(&self, gpu: &mut Gpu, location: i32) -> (r: Result<(), GraphicsApiError>) {
        try_gl(
            gpu,
            GlCall::UniformMvp { location, vp: self.vp, model: self.model },
            "glUniformMatrix4fv",
        )
    }
}

/// A per-chunk model-view-projection matrix: the product of the
/// view-projection matrix and the translation by a chunk's world offset,
/// evaluated at the driver edge.
pub struct ChunkMvpUniform {
    /// The view-projection matrix.
    pub vp: glam::Mat4,
    /// The chunk's world-space translation, in world units.
    pub translation: IVec3,
}

impl GlUniform for ChunkMvpUniform {
    open spec fn uniform_call(&self, location: i32) -> GlCall {
        GlCall::UniformChunkMvp { location, vp: self.vp, translation: self.translation }
    }

    fn gl_uniform(&self, gpu: &mut Gpu, location: i32) -> (r: Result<(), GraphicsApiError>) {
        try_gl(
            gpu,
            GlCall::UniformChunkMvp { location, vp: self.vp, translation: self.translation },
            "glUniformMatrix4fv",
        )
    }
}

/// A contiguous array of bone matrices, written with a single driver call.
impl GlUniform for [glam::Mat4; 6] {
    open spec fn uniform_call(&self, location: i32) -> GlCall {
        GlCall::UniformBones { location, matrices: *self }
    }

    fn gl_uniform(&self, gpu: &mut Gpu, location: i32) -> (r: Result<(), GraphicsApiError>) {
        try_gl(gpu, GlCall::UniformBones { location, matrices: *self }, "glUniformMatrix4fv")
    }
}

} // verus!
