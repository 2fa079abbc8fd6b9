//! Owned handle to an OpenGL shader.

use vstd::prelude::*;
use crate::gl_consts::SHADER_BINARY_FORMAT_SPIR_V;
use crate::gl_error::{check_gl, try_gl, GraphicsApiError};
use crate::gpu::{
    fault_batch, faults_after, faults_clear, handles_preserved, lemma_fault_batch_after,
    lemma_faults_clear_split, lemma_owns_after_push, Gpu, GlCall,
};

verus! {

/// Copy a slice into a fresh vector.
fn copy_slice<T: Copy>(data: &[T]) -> (r: Vec<T>)
    ensures
        r@ == data@,
{
    let mut out: Vec<T> = Vec::new();
    let mut i: usize = 0;
    while i < data.len()
        invariant
            i <= data@.len(),
            out@ == data@.take(i as int),
        decreases data@.len() - i,
    {
        out.push(data[i]);
        proof {
            assert(data@.take(i + 1) =~= data@.take(i as int).push(data@[i as int]));
        }
        i += 1;
    }
    proof {
        assert(data@.take(data@.len() as int) =~= data@);
    }
    out
}

/// Owned handle to an OpenGL shader.
///
/// A shader module is immutable once created: the binary blob and the
/// specialization constants are applied as part of creation and never change.
/// The handle must be released exactly once with [`GlShader::release`]; the
/// constructor releases it itself on every failure path.
#[derive(Debug)]
pub struct GlShader {
    /// The OpenGL name of the shader.
    pub raw: u64,
}

impl GlShader {
    /// Create and specialize a shader.
    ///
    /// The creation makes three checked driver calls: allocate the shader
    /// object, supply the SPIR-V binary, and apply the specialization
    /// constants.  A failure of any of the three releases the handle before
    /// returning, so no handle leaks.
    pub fn new(
        gpu: &mut Gpu,
        shader_type: u32,
        shader_binary: &[u8],
        constant_indices: &[u32],
        constant_values: &[u32],
    ) -> (r: Result<GlShader, GraphicsApiError>)
        requires
            old(gpu).ready(),
            old(gpu).can_allocate(1),
            constant_indices@.len() == constant_values@.len(),
        ensures
            final(gpu).ready(),
            final(gpu).next_handle == old(gpu).next_handle + 1,
            r is Ok <==> faults_clear(old(gpu).faults(), 3),
            r is Ok ==> final(gpu).faults() == faults_after(old(gpu).faults(), 3),
            r matches Ok(s) ==> {
                &&& s.raw == old(gpu).next_handle
                &&& !old(gpu).owns(s.raw)
                &&& forall|x: u64| final(gpu).owns(x) <==> (old(gpu).owns(x) || x == s.raw)
                &&& final(gpu).live@ == old(gpu).live@.push(s.raw)
                &&& final(gpu).log@.len() == old(gpu).log@.len() + 3
                &&& final(gpu).log@.subrange(0, old(gpu).log@.len() as int) == old(gpu).log@
                &&& final(gpu).log@[old(gpu).log@.len() as int] == (GlCall::CreateShader {
                    shader: s.raw,
                    shader_type,
                })
                &&& (final(gpu).log@[old(gpu).log@.len() as int + 1] matches GlCall::ShaderBinary {
                    shader,
                    format,
                    binary,
                } && shader == s.raw && format == SHADER_BINARY_FORMAT_SPIR_V && binary@
                    == shader_binary@)
                &&& (final(gpu).log@[old(gpu).log@.len() as int + 2] matches GlCall::SpecializeShader {
                    shader,
                    constant_indices: ci,
                    constant_values: cv,
                } && shader == s.raw && ci@ == constant_indices@ && cv@ == constant_values@)
            },
            r matches Err(e) ==> {
                &&& handles_preserved(*old(gpu), *final(gpu))
                &&& exists|k: int|
                    0 <= k < 3 && faults_clear(old(gpu).faults(), k) && e.errors.codes()
                        == #[trigger] fault_batch(old(gpu).faults(), k) && fault_batch(
                        old(gpu).faults(),
                        k,
                    ).len() > 0
            },
    {
        let ghost f = old(gpu).faults();
        let ghost g0 = *old(gpu);

        // Create shader object.
        let raw = gpu.create_shader(shader_type);
        proof {
            lemma_owns_after_push(g0, *gpu, raw);
        }
        if let Err(e) = check_gl(gpu, "glCreateShader") {
            gpu.delete_shader(raw);
            proof {
                assert(faults_clear(f, 0));
                assert(fault_batch(f, 0).len() > 0);
            }
            return Err(e);
        }
        proof {
            lemma_faults_clear_split(f, 1, 1);
            lemma_fault_batch_after(f, 1, 0);
        }

        // Supply shader SPIR-V code.
        let binary = copy_slice(shader_binary);
        if let Err(e) = try_gl(
            gpu,
            GlCall::ShaderBinary { shader: raw, format: SHADER_BINARY_FORMAT_SPIR_V, binary },
            "glShaderBinary",
        ) {
            gpu.delete_shader(raw);
            proof {
                assert(faults_clear(f, 1));
                assert(fault_batch(f, 1).len() > 0);
            }
            return Err(e);
        }
        proof {
            lemma_faults_clear_split(f, 1, 1);
            assert(faults_clear(f, 2)) by {
                lemma_faults_clear_split(f, 1, 1);
            }
            assert(gpu.faults() =~= faults_after(f, 2));
            lemma_fault_batch_after(f, 2, 0);
        }

        // Supply specialization constants.
        let constant_indices = copy_slice(constant_indices);
        let constant_values = copy_slice(constant_values);
        if let Err(e) = try_gl(
            gpu,
            GlCall::SpecializeShader { shader: raw, constant_indices, constant_values },
            "glSpecializeShader",
        ) {
            gpu.delete_shader(raw);
            proof {
                assert(fault_batch(f, 2).len() > 0);
            }
            return Err(e);
        }
        proof {
            lemma_faults_clear_split(f, 2, 1);
            assert(gpu.faults() =~= faults_after(f, 3));
        }
        Ok(GlShader { raw })
    }

    /// The OpenGL name of the shader.
    pub fn as_raw(&self) -> (r: u64)
        ensures
            r == self.raw,
    {
        self.raw
    }

    /// Release the shader's handle.
    pub fn release(self, gpu: &mut Gpu)
        requires
            old(gpu).wf(),
            old(gpu).owns(self.raw),
        ensures
            final(gpu).wf(),
            final(gpu).error_queue@ == old(gpu).error_queue@,
            forall|x: u64| final(gpu).owns(x) <==> (old(gpu).owns(x) && x != self.raw),
            final(gpu).log@ == old(gpu).log@.push(GlCall::DeleteShader { shader: self.raw }),
            final(gpu).call_faults@ == old(gpu).call_faults@,
            final(gpu).next_handle == old(gpu).next_handle,
    {
        gpu.delete_shader(self.raw);
    }
}

} // verus!
