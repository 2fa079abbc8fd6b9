//! Owned handle to an OpenGL buffer.

use vstd::prelude::*;
use core::marker::PhantomData;
use crate::gl_error::{check_gl, try_gl, GraphicsApiError};
use crate::gpu::{fault_batch, faults_after, faults_clear, handles_preserved, Gpu, GlCall};

verus! {

/// Owned handle to an OpenGL buffer holding elements of type `T`.
///
/// The handle is allocated by [`GlBuffer::new`] and must be released exactly
/// once with [`GlBuffer::release`] before the wrapper is dropped; the
/// constructors release it themselves on every failure path.
#[derive(Debug)]
pub struct GlBuffer<T> {
    /// Marks the buffer's element type; carries no data.
    pub element: PhantomData<T>,
    /// The OpenGL name of the buffer.
    pub raw: u64,
    /// The element count of the most recent upload.
    pub len: usize,
}

impl<T: Copy> GlBuffer<T> {
    /// Create an empty buffer.
    pub fn new(gpu: &mut Gpu) -> (r: Result<GlBuffer<T>, GraphicsApiError>)
        requires
            old(gpu).ready(),
            old(gpu).can_allocate(1),
        ensures
            final(gpu).ready(),
            final(gpu).next_handle == old(gpu).next_handle + 1,
            final(gpu).faults() == faults_after(old(gpu).faults(), 1),
            r is Ok <==> fault_batch(old(gpu).faults(), 0).len() == 0,
            r matches Ok(b) ==> {
                &&& b.raw == old(gpu).next_handle
                &&& b.len == 0
                &&& !old(gpu).owns(b.raw)
                &&& forall|x: u64| final(gpu).owns(x) <==> (old(gpu).owns(x) || x == b.raw)
                &&& final(gpu).live@ == old(gpu).live@.push(b.raw)
                &&& final(gpu).log@ == old(gpu).log@.push(
                    GlCall::CreateBuffers { buffer: b.raw },
                )
            },
            r matches Err(e) ==> {
                &&& handles_preserved(*old(gpu), *final(gpu))
                &&& e.errors.codes() == fault_batch(old(gpu).faults(), 0)
                &&& e.call@ == "glCreateBuffers"@
            },
    {
        let raw = gpu.create_buffer();
        proof {
            crate::gpu::lemma_owns_after_push(*old(gpu), *gpu, raw);
            assert(gpu.owns(raw));
        }
        match check_gl(gpu, "glCreateBuffers") {
            Ok(()) => Ok(GlBuffer { element: PhantomData, raw, len: 0 }),
            Err(e) => {
                gpu.delete_buffer(raw);
                Err(e)
            },
        }
    }

    /// Create a buffer and upload data for it.
    pub fn new_upload(gpu: &mut Gpu, data: &[T], usage: u32) -> (r: Result<
        GlBuffer<T>,
        GraphicsApiError,
    >)
        requires
            old(gpu).ready(),
            old(gpu).can_allocate(1),
        ensures
            final(gpu).ready(),
            final(gpu).next_handle == old(gpu).next_handle + 1,
            r is Ok <==> faults_clear(old(gpu).faults(), 2),
            r is Ok ==> final(gpu).faults() == faults_after(old(gpu).faults(), 2),
            r matches Ok(b) ==> {
                &&& b.raw == old(gpu).next_handle
                &&& b.len == data@.len()
                &&& !old(gpu).owns(b.raw)
                &&& forall|x: u64| final(gpu).owns(x) <==> (old(gpu).owns(x) || x == b.raw)
                &&& final(gpu).live@ == old(gpu).live@.push(b.raw)
                &&& final(gpu).log@ == old(gpu).log@ + seq![
                    GlCall::CreateBuffers { buffer: b.raw },
                    GlCall::NamedBufferData { buffer: b.raw, len: data@.len() as usize, usage },
                ]
            },
            r matches Err(e) ==> {
                &&& handles_preserved(*old(gpu), *final(gpu))
                &&& exists|k: int|
                    0 <= k < 2 && faults_clear(old(gpu).faults(), k) && e.errors.codes()
                        == #[trigger] fault_batch(old(gpu).faults(), k) && fault_batch(
                        old(gpu).faults(),
                        k,
                    ).len() > 0
            },
    {
        let ghost f = old(gpu).faults();
        let ghost g0 = *old(gpu);
        let mut this = match Self::new(gpu) {
            Ok(b) => b,
            Err(e) => {
                proof {
                    crate::gpu::lemma_faults_clear_split(f, 1, 1);
                    assert(fault_batch(f, 0).len() > 0);
                    assert(faults_clear(f, 0));
                }
                return Err(e);
            },
        };
        match this.upload(gpu, data, usage) {
            Ok(()) => {
                proof {
                    crate::gpu::lemma_faults_clear_split(f, 1, 1);
                    crate::gpu::lemma_fault_batch_after(f, 1, 0);
                    assert(final(gpu).faults() == faults_after(faults_after(f, 1), 1));
                    assert(faults_after(faults_after(f, 1), 1) =~= faults_after(f, 2));
                }
                Ok(this)
            },
            Err(e) => {
                proof {
                    crate::gpu::lemma_owns_after_push(g0, *gpu, this.raw);
                    assert(gpu.owns(this.raw));
                }
                gpu.delete_buffer(this.raw);
                proof {
                    crate::gpu::lemma_faults_clear_split(f, 1, 1);
                    crate::gpu::lemma_fault_batch_after(f, 1, 0);
                    assert(faults_clear(f, 1));
                    assert(fault_batch(f, 1).len() > 0);
                    assert(e.errors.codes() == fault_batch(f, 1));
                }
                Err(e)
            },
        }
    }

    /// Upload data to the buffer, replacing its entire contents.
    ///
    /// On success the buffer's length is the element count of `data` alone:
    /// nothing of any earlier upload remains observable.  On failure the
    /// recorded length is unchanged.
    pub fn upload(&mut self, gpu: &mut Gpu, data: &[T], usage: u32) -> (r: Result<
        (),
        GraphicsApiError,
    >)
        requires
            old(gpu).ready(),
        ensures
            final(gpu).ready(),
            final(gpu).next_handle == old(gpu).next_handle,
            final(gpu).live@ == old(gpu).live@,
            final(gpu).faults() == faults_after(old(gpu).faults(), 1),
            final(gpu).log@ == old(gpu).log@.push(
                GlCall::NamedBufferData {
                    buffer: old(self).raw,
                    len: data@.len() as usize,
                    usage,
                },
            ),
            final(self).raw == old(self).raw,
            r is Ok <==> fault_batch(old(gpu).faults(), 0).len() == 0,
            r is Ok ==> final(self).len == data@.len(),
            r matches Err(e) ==> {
                &&& *final(self) == *old(self)
                &&& e.errors.codes() == fault_batch(old(gpu).faults(), 0)
                &&& e.call@ == "glNamedBufferData"@
            },
    {
        let r = try_gl(
            gpu,
            GlCall::NamedBufferData { buffer: self.raw, len: data.len(), usage },
            "glNamedBufferData",
        );
        match r {
            Ok(()) => {
                self.len = data.len();
                Ok(())
            },
            Err(e) => Err(e),
        }
    }

    /// The OpenGL name of the buffer.
    pub fn as_raw(&self) -> (r: u64)
        ensures
            r == self.raw,
    {
        self.raw
    }

    /// The number of elements passed to `upload`.
    pub fn len(&self) -> (r: usize)
        ensures
            r == self.len,
    {
        self.len
    }

    /// Release the buffer's handle.
    pub fn release(self, gpu: &mut Gpu)
        requires
            old(gpu).wf(),
            old(gpu).owns(self.raw),
        ensures
            final(gpu).wf(),
            final(gpu).error_queue@ == old(gpu).error_queue@,
            forall|x: u64| final(gpu).owns(x) <==> (old(gpu).owns(x) && x != self.raw),
            final(gpu).log@ == old(gpu).log@.push(GlCall::DeleteBuffers { buffer: self.raw }),
            final(gpu).call_faults@ == old(gpu).call_faults@,
            final(gpu).next_handle == old(gpu).next_handle,
    {
        gpu.delete_buffer(self.raw);
    }
}

} // verus!
