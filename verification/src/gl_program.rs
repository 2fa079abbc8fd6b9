//! Owned handle to an OpenGL program.

use vstd::prelude::*;
use crate::gl_error::{check_gl, try_gl, GraphicsApiError};
use crate::gl_shader::GlShader;
use crate::gpu::{
    fault_batch, faults_after, faults_clear, handles_preserved, lemma_fault_batch_after,
    lemma_faults_clear_split, lemma_owns_after_push, Gpu, GlCall,
};

verus! {

/// The attach calls a program creation issues, one per shader, in order.
pub open spec fn attach_calls(program: u64, shaders: Seq<u64>) -> Seq<GlCall> {
    Seq::new(shaders.len(), |i: int| GlCall::AttachShader { program, shader: shaders[i] })
}

/// The detach calls a program creation issues, one per shader, in order.
pub open spec fn detach_calls(program: u64, shaders: Seq<u64>) -> Seq<GlCall> {
    Seq::new(shaders.len(), |i: int| GlCall::DetachShader { program, shader: shaders[i] })
}

/// Every checked call of a successful program creation, in order: create,
/// attach each shader, link, detach each shader.
pub open spec fn program_calls(program: u64, shaders: Seq<u64>) -> Seq<GlCall> {
    seq![GlCall::CreateProgram { program }] + attach_calls(program, shaders) + seq![
        GlCall::LinkProgram { program },
    ] + detach_calls(program, shaders)
}

/// Owned handle to an OpenGL program.
///
/// The handle must be released exactly once with [`GlProgram::release`]; the
/// constructor releases it itself on every failure path.
#[derive(Debug)]
pub struct GlProgram {
    /// The OpenGL name of the program.
    pub raw: u64,
}

impl GlProgram {
    /// Create and link a program.
    ///
    /// Every given shader is attached, the program is linked, and the shaders
    /// are detached again, so each stays independently destructible by its
    /// owner.  Link failure surfaces as the error of the failing call; the
    /// partially constructed program handle is released on every failure
    /// path, and the given shaders' handles are never touched.
    pub fn new(gpu: &mut Gpu, shaders: &[&GlShader]) -> (r: Result<GlProgram, GraphicsApiError>)
        requires
            old(gpu).ready(),
            old(gpu).can_allocate(1),
        ensures
            final(gpu).ready(),
            final(gpu).next_handle == old(gpu).next_handle + 1,
            r is Ok <==> faults_clear(
                old(gpu).faults(),
                2 * shaders@.len() as int + 2,
            ),
            r is Ok ==> final(gpu).faults() == faults_after(
                old(gpu).faults(),
                2 * shaders@.len() as int + 2,
            ),
            r matches Ok(p) ==> {
                &&& p.raw == old(gpu).next_handle
                &&& !old(gpu).owns(p.raw)
                &&& forall|x: u64| final(gpu).owns(x) <==> (old(gpu).owns(x) || x == p.raw)
                &&& final(gpu).live@ == old(gpu).live@.push(p.raw)
                &&& final(gpu).log@ == old(gpu).log@ + program_calls(
                    p.raw,
                    shaders@.map_values(|s: &GlShader| s.raw),
                )
            },
            r matches Err(e) ==> {
                &&& handles_preserved(*old(gpu), *final(gpu))
                &&& exists|k: int|
                    0 <= k < 2 * shaders@.len() as int + 2 && faults_clear(old(gpu).faults(), k)
                        && e.errors.codes() == #[trigger] fault_batch(old(gpu).faults(), k)
                        && fault_batch(old(gpu).faults(), k).len() > 0
            },
    {
        let ghost f = old(gpu).faults();
        let ghost g0 = *old(gpu);
        let ghost raws = shaders@.map_values(|s: &GlShader| s.raw);
        let n = shaders.len();

        // Create program object.
        let raw = gpu.create_program();
        proof {
            lemma_owns_after_push(g0, *gpu, raw);
        }
        if let Err(e) = check_gl(gpu, "glCreateProgram") {
            gpu.delete_program(raw);
            proof {
                assert(faults_clear(f, 0));
                assert(fault_batch(f, 0).len() > 0);
            }
            return Err(e);
        }
        proof {
            lemma_faults_clear_split(f, 1, 1);
            assert(gpu.log@ =~= g0.log@ + seq![GlCall::CreateProgram { program: raw }]
                + attach_calls(raw, raws.take(0)));
        }

        // Attach shaders.
        let mut i: usize = 0;
        while i < n
            invariant
                gpu.ready(),
                i <= n,
                n == shaders@.len(),
                raws == shaders@.map_values(|s: &GlShader| s.raw),
                g0 == *old(gpu),
                raw == g0.next_handle,
                !g0.owns(raw),
                g0.ready(),
                gpu.next_handle == g0.next_handle + 1,
                gpu.live@ == g0.live@.push(raw),
                f == g0.faults(),
                faults_clear(f, 1 + i),
                gpu.faults() == faults_after(f, 1 + i),
                gpu.log@ == g0.log@ + seq![GlCall::CreateProgram { program: raw }] + attach_calls(
                    raw,
                    raws.take(i as int),
                ),
            decreases n - i,
        {
            let shader = shaders[i];
            if let Err(e) = try_gl(
                gpu,
                GlCall::AttachShader { program: raw, shader: shader.raw },
                "glAttachShader",
            ) {
                proof {
                    lemma_owns_after_push(g0, *gpu, raw);
                }
                gpu.delete_program(raw);
                proof {
                    lemma_fault_batch_after(f, 1 + i as int, 0);
                    assert(fault_batch(f, 1 + i as int).len() > 0);
                }
                return Err(e);
            }
            proof {
                lemma_fault_batch_after(f, 1 + i as int, 0);
                lemma_faults_clear_split(f, 1 + i as int, 1);
                assert(faults_clear(faults_after(f, 1 + i as int), 1)) by {
                    assert(fault_batch(faults_after(f, 1 + i as int), 0).len() == 0);
                }
                assert(gpu.faults() =~= faults_after(f, 2 + i as int));
                assert(raws[i as int] == shader.raw);
                assert(attach_calls(raw, raws.take(i + 1)) =~= attach_calls(
                    raw,
                    raws.take(i as int),
                ).push(GlCall::AttachShader { program: raw, shader: shader.raw }));
                assert(gpu.log@ =~= g0.log@ + seq![GlCall::CreateProgram { program: raw }]
                    + attach_calls(raw, raws.take(i + 1)));
            }
            i += 1;
        }
        proof {
            assert(raws.take(n as int) =~= raws);
        }

        // Link program.
        if let Err(e) = try_gl(gpu, GlCall::LinkProgram { program: raw }, "glLinkProgram") {
            proof {
                lemma_owns_after_push(g0, *gpu, raw);
            }
            gpu.delete_program(raw);
            proof {
                lemma_fault_batch_after(f, 1 + n as int, 0);
                assert(fault_batch(f, 1 + n as int).len() > 0);
            }
            return Err(e);
        }
        proof {
            lemma_fault_batch_after(f, 1 + n as int, 0);
            lemma_faults_clear_split(f, 1 + n as int, 1);
            assert(faults_clear(faults_after(f, 1 + n as int), 1)) by {
                assert(fault_batch(faults_after(f, 1 + n as int), 0).len() == 0);
            }
            assert(gpu.faults() =~= faults_after(f, 2 + n as int));
            assert(gpu.log@ =~= g0.log@ + seq![GlCall::CreateProgram { program: raw }]
                + attach_calls(raw, raws) + seq![GlCall::LinkProgram { program: raw }]
                + detach_calls(raw, raws.take(0)));
        }

        // Detach shaders.
        let mut i: usize = 0;
        while i < n
            invariant
                gpu.ready(),
                i <= n,
                n == shaders@.len(),
                raws == shaders@.map_values(|s: &GlShader| s.raw),
                g0 == *old(gpu),
                raw == g0.next_handle,
                !g0.owns(raw),
                g0.ready(),
                gpu.next_handle == g0.next_handle + 1,
                gpu.live@ == g0.live@.push(raw),
                f == g0.faults(),
                faults_clear(f, 2 + n + i),
                gpu.faults() == faults_after(f, 2 + n + i),
                gpu.log@ == g0.log@ + seq![GlCall::CreateProgram { program: raw }] + attach_calls(
                    raw,
                    raws,
                ) + seq![GlCall::LinkProgram { program: raw }] + detach_calls(
                    raw,
                    raws.take(i as int),
                ),
            decreases n - i,
        {
            let shader = shaders[i];
            if let Err(e) = try_gl(
                gpu,
                GlCall::DetachShader { program: raw, shader: shader.raw },
                "glDetachShader",
            ) {
                proof {
                    lemma_owns_after_push(g0, *gpu, raw);
                }
                gpu.delete_program(raw);
                proof {
                    lemma_fault_batch_after(f, 2 + n as int + i as int, 0);
                    assert(fault_batch(f, 2 + n as int + i as int).len() > 0);
                }
                return Err(e);
            }
            proof {
                lemma_fault_batch_after(f, 2 + n as int + i as int, 0);
                lemma_faults_clear_split(f, 2 + n as int + i as int, 1);
                assert(faults_clear(faults_after(f, 2 + n as int + i as int), 1)) by {
                    assert(fault_batch(faults_after(f, 2 + n as int + i as int), 0).len() == 0);
                }
                assert(gpu.faults() =~= faults_after(f, 3 + n as int + i as int));
                assert(raws[i as int] == shader.raw);
                assert(detach_calls(raw, raws.take(i + 1)) =~= detach_calls(
                    raw,
                    raws.take(i as int),
                ).push(GlCall::DetachShader { program: raw, shader: shader.raw }));
                assert(gpu.log@ =~= g0.log@ + seq![GlCall::CreateProgram { program: raw }]
                    + attach_calls(raw, raws) + seq![GlCall::LinkProgram { program: raw }]
                    + detach_calls(raw, raws.take(i + 1)));
            }
            i += 1;
        }
        proof {
            assert(raws.take(n as int) =~= raws);
            assert(gpu.log@ =~= g0.log@ + program_calls(raw, raws));
        }
        Ok(GlProgram { raw })
    }

    /// The OpenGL name of the program.
    pub fn as_raw(&self) -> (r: u64)
        ensures
            r == self.raw,
    {
        self.raw
    }

    /// Release the program's handle.
    pub fn release(self, gpu: &mut Gpu)
        requires
            old(gpu).wf(),
            old(gpu).owns(self.raw),
        ensures
            final(gpu).wf(),
            final(gpu).error_queue@ == old(gpu).error_queue@,
            forall|x: u64| final(gpu).owns(x) <==> (old(gpu).owns(x) && x != self.raw),
            final(gpu).log@ == old(gpu).log@.push(GlCall::DeleteProgram { program: self.raw }),
            final(gpu).call_faults@ == old(gpu).call_faults@,
            final(gpu).next_handle == old(gpu).next_handle,
    {
        gpu.delete_program(self.raw);
    }
}

} // verus!
