//! Collecting errors from the GPU's error queue.
//!
//! After every state-changing driver call the queue is drained in FIFO order
//! until empty.  A non-empty drain fails the call that preceded it, carrying
//! the drained codes in order, tagged with the name of that call.
//!
//! The query can, per the API reference, fail in a way that returns a zero
//! code.  That condition means the error-reporting mechanism itself is broken;
//! the host aborts the process on it, so a zero code never reaches the core
//! and [`Gpu::wf`] excludes it.

use vstd::prelude::*;
use crate::gpu::{fault_batch, faults_after, faults_clear, lemma_clear_extend, lemma_consume_one, Gpu, GlCall};

verus! {

/// Individual OpenGL error.
#[derive(Clone, Copy, Debug)]
pub struct GlError {
    /// The drained error code, never zero.
    pub error: u32,
}

/// Collection of OpenGL errors, in the order in which they occurred.
#[derive(Debug)]
pub struct GlErrors {
    /// The drained errors, oldest first.
    pub errors: Vec<GlError>,
}

impl GlErrors {
    /// The drained codes, oldest first.
    pub open spec fn codes(&self) -> Seq<u32> {
        self.errors@.map_values(|e: GlError| e.error)
    }

    /// Collect all OpenGL errors.
    ///
    /// If there are no errors, this method returns [`Ok`].
    /// Otherwise it returns the errors in the order in which they occurred.
    /// The error queue will be left empty when this method returns.
    pub fn get_gl_errors(gpu: &mut Gpu) -> (r: Result<(), GlErrors>)
        requires
            old(gpu).wf(),
        ensures
            final(gpu).wf(),
            final(gpu).error_queue@.len() == 0,
            final(gpu).log@ == old(gpu).log@,
            final(gpu).call_faults@ == old(gpu).call_faults@,
            final(gpu).live@ == old(gpu).live@,
            final(gpu).next_handle == old(gpu).next_handle,
            r is Ok <==> old(gpu).error_queue@.len() == 0,
            r matches Err(e) ==> e.codes() == old(gpu).error_queue@ && e.errors@.len() > 0,
    {
        let mut errors: Vec<GlError> = Vec::new();
        loop
            invariant
                gpu.wf(),
                gpu.log@ == old(gpu).log@,
                gpu.call_faults@ == old(gpu).call_faults@,
                gpu.live@ == old(gpu).live@,
                gpu.next_handle == old(gpu).next_handle,
                errors@.map_values(|e: GlError| e.error) + gpu.error_queue@ == old(
                    gpu,
                ).error_queue@,
            ensures
                gpu.wf(),
                gpu.log@ == old(gpu).log@,
                gpu.call_faults@ == old(gpu).call_faults@,
                gpu.live@ == old(gpu).live@,
                gpu.next_handle == old(gpu).next_handle,
                gpu.error_queue@.len() == 0,
                errors@.map_values(|e: GlError| e.error) == old(gpu).error_queue@,
            decreases gpu.error_queue@.len(),
        {
            let error = gpu.poll_error();
            if error == 0 {
                proof {
                    assert(errors@.map_values(|e: GlError| e.error) + gpu.error_queue@ =~= errors@
                        .map_values(|e: GlError| e.error));
                }
                break ;
            }
            let ghost prior = errors@;
            errors.push(GlError { error });
            proof {
                assert(errors@.map_values(|e: GlError| e.error) =~= prior.map_values(
                    |e: GlError| e.error,
                ).push(error));
                assert(errors@.map_values(|e: GlError| e.error) + gpu.error_queue@ =~= old(
                    gpu,
                ).error_queue@);
            }
        }
        if errors.len() == 0 {
            proof {
                assert(errors@.map_values(|e: GlError| e.error) =~= Seq::<u32>::empty());
                assert(old(gpu).error_queue@ =~= Seq::<u32>::empty());
            }
            Ok(())
        } else {
            Err(GlErrors { errors })
        }
    }
}

/// A failed driver call: one or more queue-drained error codes attributed to
/// the named call.
#[derive(Debug)]
pub struct GraphicsApiError {
    /// The name of the driver call that the errors are attributed to.
    pub call: &'static str,
    /// The drained errors, in the order in which they occurred.
    pub errors: GlErrors,
}

/// Annotate a drain result with the name of the OpenGL call that failed.
pub fn context(result: Result<(), GlErrors>, call_name: &'static str) -> (r: Result<
    (),
    GraphicsApiError,
>)
    ensures
        r is Ok <==> result is Ok,
        r matches Err(e) ==> result matches Err(g) && e.errors == g && e.call@ == call_name@,
{
    match result {
        Ok(()) => Ok(()),
        Err(errors) => Err(GraphicsApiError { call: call_name, errors }),
    }
}

/// Drain the error queue and attribute any errors to the named call.
pub fn check_gl(gpu: &mut Gpu, call_name: &'static str) -> (r: Result<(), GraphicsApiError>)
    requires
        old(gpu).wf(),
    ensures
        final(gpu).wf(),
        final(gpu).error_queue@.len() == 0,
        final(gpu).log@ == old(gpu).log@,
        final(gpu).call_faults@ == old(gpu).call_faults@,
        final(gpu).live@ == old(gpu).live@,
        final(gpu).next_handle == old(gpu).next_handle,
        r is Ok <==> old(gpu).error_queue@.len() == 0,
        r matches Err(e) ==> e.errors.codes() == old(gpu).error_queue@ && e.call@ == call_name@,
{
    context(GlErrors::get_gl_errors(gpu), call_name)
}

/// Evaluate one checked call to OpenGL: issue it, then drain and check the
/// error queue, attributing any errors to the given call name.
pub fn try_gl(gpu: &mut Gpu, call: GlCall, call_name: &'static str) -> (r: Result<
    (),
    GraphicsApiError,
>)
    requires
        old(gpu).ready(),
    ensures
        final(gpu).ready(),
        final(gpu).log@ == old(gpu).log@.push(call),
        final(gpu).faults() == faults_after(old(gpu).faults(), 1),
        final(gpu).live@ == old(gpu).live@,
        final(gpu).next_handle == old(gpu).next_handle,
        r is Ok <==> fault_batch(old(gpu).faults(), 0).len() == 0,
        r matches Err(e) ==> e.errors.codes() == fault_batch(old(gpu).faults(), 0) && e.call@
            == call_name@,
{
    gpu.issue(call);
    let r = check_gl(gpu, call_name);
    proof {
        assert(old(gpu).error_queue@ + fault_batch(old(gpu).faults(), 0) =~= fault_batch(
            old(gpu).faults(),
            0,
        ));
    }
    r
}

/// One checked call at a known position in the fault script: like [`try_gl`],
/// but with the script position tracked against the script `f` that a larger
/// operation started from, after `m` checked calls already made.
pub(crate) fn try_gl_at(
    gpu: &mut Gpu,
    Ghost(f): Ghost<Seq<Seq<u32>>>,
    Ghost(m): Ghost<int>,
    call: GlCall,
    call_name: &'static str,
) -> (r: Result<(), GraphicsApiError>)
    requires
        old(gpu).ready(),
        0 <= m,
        old(gpu).faults() == faults_after(f, m),
        faults_clear(f, m),
    ensures
        final(gpu).ready(),
        final(gpu).log@ == old(gpu).log@.push(call),
        final(gpu).live@ == old(gpu).live@,
        final(gpu).next_handle == old(gpu).next_handle,
        final(gpu).faults() == faults_after(f, m + 1),
        r is Ok <==> fault_batch(f, m).len() == 0,
        r is Ok ==> faults_clear(f, m + 1),
        r matches Err(e) ==> e.errors.codes() == fault_batch(f, m) && fault_batch(f, m).len() > 0
            && e.call@ == call_name@,
{
    let ghost pre_faults = gpu.faults();
    let r = try_gl(gpu, call, call_name);
    proof {
        lemma_consume_one(f, m, pre_faults, gpu.faults());
        if fault_batch(f, m).len() == 0 {
            lemma_clear_extend(f, m);
        }
    }
    r
}

} // verus!
