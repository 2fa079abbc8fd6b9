//! The fragment shader shared by both pipelines.

use vstd::prelude::*;
use crate::gl_consts::{FRAGMENT_SHADER, SHADER_BINARY_FORMAT_SPIR_V};
use crate::gl_error::GraphicsApiError;
use crate::gl_shader::GlShader;
use crate::gpu::{fault_batch, faults_after, faults_clear, handles_preserved, Gpu, GlCall};

verus! {

/// Fragment shader used by most pipelines.
///
/// One compiled fragment-stage module is created once and then shared by
/// every pipeline that links a program from it.
pub struct FragmentShader {
    /// The underlying shader module.
    pub inner: GlShader,
}

impl FragmentShader {
    /// Compile the shader from its SPIR-V binary.
    ///
    /// No specialization constants are applied.  On failure no handle stays
    /// allocated.
    pub fn new(gpu: &mut Gpu, shader_binary: &[u8]) -> (r: Result<
        FragmentShader,
        GraphicsApiError,
    >)
        requires
            old(gpu).ready(),
            old(gpu).can_allocate(1),
        ensures
            final(gpu).ready(),
            final(gpu).next_handle == old(gpu).next_handle + 1,
            r is Ok <==> faults_clear(old(gpu).faults(), 3),
            r is Ok ==> final(gpu).faults() == faults_after(old(gpu).faults(), 3),
            r matches Ok(s) ==> {
                &&& s.inner.raw == old(gpu).next_handle
                &&& !old(gpu).owns(s.inner.raw)
                &&& forall|x: u64|
                    final(gpu).owns(x) <==> (old(gpu).owns(x) || x == s.inner.raw)
                &&& final(gpu).live@ == old(gpu).live@.push(s.inner.raw)
                &&& final(gpu).log@.len() == old(gpu).log@.len() + 3
                &&& final(gpu).log@.subrange(0, old(gpu).log@.len() as int) == old(gpu).log@
                &&& final(gpu).log@[old(gpu).log@.len() as int] == (GlCall::CreateShader {
                    shader: s.inner.raw,
                    shader_type: FRAGMENT_SHADER,
                })
                &&& (final(gpu).log@[old(gpu).log@.len() as int + 1] matches GlCall::ShaderBinary {
                    shader,
                    format,
                    binary,
                } && shader == s.inner.raw && format == SHADER_BINARY_FORMAT_SPIR_V && binary@
                    == shader_binary@)
                &&& (final(gpu).log@[old(gpu).log@.len() as int + 2]
                    matches GlCall::SpecializeShader {
                    shader,
                    constant_indices: ci,
                    constant_values: cv,
                } && shader == s.inner.raw && ci@.len() == 0 && cv@.len() == 0)
            },
            r matches Err(e) ==> {
                &&& handles_preserved(*old(gpu), *final(gpu))
                &&& exists|k: int|
                    0 <= k < 3 && faults_clear(old(gpu).faults(), k) && e.errors.codes()
                        == #[trigger] fault_batch(old(gpu).faults(), k) && fault_batch(
                        old(gpu).faults(),
                        k,
                    ).len() > 0
            },
    {
        let constants: [u32; 0] = [];
        match GlShader::new(gpu, FRAGMENT_SHADER, shader_binary, &constants, &constants) {
            Ok(inner) => Ok(FragmentShader { inner }),
            Err(e) => Err(e),
        }
    }

    /// The underlying shader.
    pub fn as_shader(&self) -> (r: &GlShader)
        ensures
            *r == self.inner,
    {
        &self.inner
    }

    /// Release the shader's handle.
    pub fn release(self, gpu: &mut Gpu)
        requires
            old(gpu).wf(),
            old(gpu).owns(self.inner.raw),
        ensures
            final(gpu).wf(),
            final(gpu).error_queue@ == old(gpu).error_queue@,
            forall|x: u64| final(gpu).owns(x) <==> (old(gpu).owns(x) && x != self.inner.raw),
            final(gpu).log@ == old(gpu).log@.push(
                GlCall::DeleteShader { shader: self.inner.raw },
            ),
            final(gpu).call_faults@ == old(gpu).call_faults@,
            final(gpu).next_handle == old(gpu).next_handle,
    {
        self.inner.release(gpu);
    }
}

} // verus!
