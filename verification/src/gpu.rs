//! Explicit model of the GPU driver behind the loaded entry-point table.
//!
//! A [`Gpu`] value stands for the driver as the core sees it: the set of live
//! object handles, the FIFO error queue, and the ordered log of state-changing
//! calls issued so far.  The driver's behaviour that the core cannot predict —
//! which calls will report errors — is held in [`Gpu::call_faults`]: the codes
//! that each upcoming checked call will enqueue.  The host fills that in from
//! the real driver; a test scripts it.
//!
//! Handle-release calls (`glDelete*`) are modelled as error-free: the core
//! only ever releases handles it owns, with arguments it built itself, and
//! the error-checking discipline never drains errors after them.

use vstd::prelude::*;
use crate::math::IVec3;

verus! {

/// One state-changing call through the entry-point table.
///
/// Records that bind a uniform carry the values the call's arguments are
/// computed from; the floating-point evaluation (matrix products, integer to
/// float conversion) happens at the driver edge, outside the core.
#[derive(Debug)]
pub enum GlCall {
    /// `glCreateBuffers(1, &buffer)`.
    CreateBuffers { buffer: u64 },
    /// `glNamedBufferData(buffer, ..)` with `len` elements and a usage hint.
    NamedBufferData { buffer: u64, len: usize, usage: u32 },
    /// `glDeleteBuffers(1, &buffer)`.
    DeleteBuffers { buffer: u64 },
    /// `glCreateShader(shader_type)`, returning `shader`.
    CreateShader { shader: u64, shader_type: u32 },
    /// `glShaderBinary(1, &shader, format, binary, len)`.
    ShaderBinary { shader: u64, format: u32, binary: Vec<u8> },
    /// `glSpecializeShader(shader, "main", n, indices, values)`.
    SpecializeShader { shader: u64, constant_indices: Vec<u32>, constant_values: Vec<u32> },
    /// `glDeleteShader(shader)`.
    DeleteShader { shader: u64 },
    /// `glCreateProgram()`, returning `program`.
    CreateProgram { program: u64 },
    /// `glAttachShader(program, shader)`.
    AttachShader { program: u64, shader: u64 },
    /// `glLinkProgram(program)`.
    LinkProgram { program: u64 },
    /// `glDetachShader(program, shader)`.
    DetachShader { program: u64, shader: u64 },
    /// `glDeleteProgram(program)`.
    DeleteProgram { program: u64 },
    /// `glCreateVertexArrays(1, &vertex_array)`.
    CreateVertexArrays { vertex_array: u64 },
    /// `glEnableVertexArrayAttrib(vertex_array, attrib)`.
    EnableVertexArrayAttrib { vertex_array: u64, attrib: u32 },
    /// `glVertexArrayAttribBinding(vertex_array, attrib, binding)`.
    VertexArrayAttribBinding { vertex_array: u64, attrib: u32, binding: u32 },
    /// `glVertexArrayAttribFormat(vertex_array, attrib, size, component_type, normalized, offset)`.
    VertexArrayAttribFormat {
        vertex_array: u64,
        attrib: u32,
        size: u32,
        component_type: u32,
        normalized: bool,
        offset: u32,
    },
    /// `glVertexArrayAttribIFormat(vertex_array, attrib, size, component_type, offset)`.
    VertexArrayAttribIFormat {
        vertex_array: u64,
        attrib: u32,
        size: u32,
        component_type: u32,
        offset: u32,
    },
    /// `glVertexArrayBindingDivisor(vertex_array, binding, divisor)`.
    VertexArrayBindingDivisor { vertex_array: u64, binding: u32, divisor: u32 },
    /// `glDeleteVertexArrays(1, &vertex_array)`.
    DeleteVertexArrays { vertex_array: u64 },
    /// `glUseProgram(program)`.
    UseProgram { program: u64 },
    /// `glBindVertexArray(vertex_array)`.
    BindVertexArray { vertex_array: u64 },
    /// `glEnable(capability)`.
    Enable { capability: u32 },
    /// `glCullFace(mode)`.
    CullFace { mode: u32 },
    /// `glFrontFace(mode)`.
    FrontFace { mode: u32 },
    /// `glUniform2f(location, x as f32, y as f32)`.
    Uniform2F { location: i32, x: i32, y: i32 },
    /// `glUniformMatrix4fv(location, 1, false, vp * model)`: the product of
    /// the view-projection matrix and a model matrix, column-major,
    /// untransposed.
    UniformMvp { location: i32, vp: glam::Mat4, model: glam::Mat4 },
    /// `glUniformMatrix4fv(location, 1, false, vp * T)` where `T` translates
    /// by `translation` world units: the per-chunk model-view-projection
    /// matrix, column-major, untransposed.
    UniformChunkMvp { location: i32, vp: glam::Mat4, translation: IVec3 },
    /// `glUniformMatrix4fv(location, 6, false, matrices)`: a whole bone
    /// matrix array written in one call, column-major, untransposed.
    UniformBones { location: i32, matrices: [glam::Mat4; 6] },
    /// `glBindVertexBuffer(binding, buffer, offset, stride)`.
    BindVertexBuffer { binding: u32, buffer: u64, offset: usize, stride: u32 },
    /// `glBindBuffer(target, buffer)`.
    BindBuffer { target: u32, buffer: u64 },
    /// `glDrawElements(mode, count, index_type, null)`.
    DrawElements { mode: u32, count: usize, index_type: u32 },
    /// `glDrawArraysInstanced(mode, first, count, instance_count)`.
    DrawArraysInstanced { mode: u32, first: u32, count: u32, instance_count: usize },
}

/// Every code in the sequence is non-zero.
pub open spec fn nonzero_codes(s: Seq<u32>) -> bool {
    forall|j: int| 0 <= j < s.len() ==> s[j] != 0
}

/// Every code in every batch is non-zero.
pub open spec fn nonzero_batches(faults: Seq<Seq<u32>>) -> bool {
    forall|i: int| 0 <= i < faults.len() ==> nonzero_codes(#[trigger] faults[i])
}

/// The codes that the `i`-th upcoming checked call will enqueue; empty when
/// the script says nothing about it.
pub open spec fn fault_batch(faults: Seq<Seq<u32>>, i: int) -> Seq<u32> {
    if 0 <= i < faults.len() {
        faults[i]
    } else {
        Seq::empty()
    }
}

/// The first `n` upcoming checked calls all succeed.
pub open spec fn faults_clear(faults: Seq<Seq<u32>>, n: int) -> bool {
    forall|i: int| 0 <= i < n ==> fault_batch(faults, i).len() == 0
}

/// The fault script once `n` checked calls have been made.
pub open spec fn faults_after(faults: Seq<Seq<u32>>, n: int) -> Seq<Seq<u32>> {
    if n <= faults.len() {
        faults.skip(n)
    } else {
        Seq::empty()
    }
}

/// Reading the script `a + i` calls ahead is reading it `i` calls ahead once
/// `a` calls have been made.
pub proof fn lemma_fault_batch_after(faults: Seq<Seq<u32>>, a: int, i: int)
    requires
        0 <= a,
        0 <= i,
    ensures
        fault_batch(faults_after(faults, a), i) == fault_batch(faults, a + i),
{
}

/// Success of `a + k` calls splits into success of the first `a` and of the
/// `k` that follow.
pub proof fn lemma_faults_clear_split(faults: Seq<Seq<u32>>, a: int, k: int)
    requires
        0 <= a,
        0 <= k,
    ensures
        faults_clear(faults, a + k) <==> (faults_clear(faults, a) && faults_clear(
            faults_after(faults, a),
            k,
        )),
{
    assert forall|i: int| 0 <= i < k implies fault_batch(faults_after(faults, a), i) == fault_batch(
        faults,
        a + i,
    ) by {
        lemma_fault_batch_after(faults, a, i);
    }
    if faults_clear(faults, a + k) {
        assert(faults_clear(faults, a));
        assert forall|i: int| 0 <= i < k implies fault_batch(faults_after(faults, a), i).len()
            == 0 by {
            assert(fault_batch(faults, a + i).len() == 0);
        }
    }
    if faults_clear(faults, a) && faults_clear(faults_after(faults, a), k) {
        assert forall|i: int| 0 <= i < a + k implies fault_batch(faults, i).len() == 0 by {
            if i >= a {
                assert(fault_batch(faults_after(faults, a), i - a).len() == 0);
            }
        }
    }
}

/// The GPU driver as seen through the entry-point table.
pub struct Gpu {
    /// Codes the driver has enqueued and the core has not yet drained, FIFO.
    pub error_queue: Vec<u32>,
    /// Codes that each upcoming checked call will enqueue, in call order.
    /// Calls beyond the end of the script succeed.
    pub call_faults: Vec<Vec<u32>>,
    /// The next unused handle name.
    pub next_handle: u64,
    /// Handles currently allocated and not yet released.
    pub live: Vec<u64>,
    /// Every state-changing call issued so far, in order.
    pub log: Vec<GlCall>,
}

impl Gpu {
    /// The fault script as a sequence of code batches.
    pub open spec fn faults(&self) -> Seq<Seq<u32>> {
        self.call_faults@.map_values(|b: Vec<u32>| b@)
    }

    /// Basic well-formedness: handles are distinct and below the allocation
    /// cursor, and no scripted or queued code is zero.  A zero code would mean
    /// the error query itself failed, which the host treats as fatal and
    /// which therefore never reaches the core.
    pub open spec fn wf(&self) -> bool {
        &&& self.live@.no_duplicates()
        &&& forall|i: int| 0 <= i < self.live@.len() ==> self.live@[i] < self.next_handle
        &&& nonzero_codes(self.error_queue@)
        &&& nonzero_batches(self.faults())
    }

    /// Well-formed with a drained error queue: the state between checked
    /// calls.
    pub open spec fn ready(&self) -> bool {
        &&& self.wf()
        &&& self.error_queue@.len() == 0
    }

    /// The handle is currently allocated.
    pub open spec fn owns(&self, h: u64) -> bool {
        self.live@.contains(h)
    }

    /// At least `n` more handles can be allocated.
    pub open spec fn can_allocate(&self, n: int) -> bool {
        self.next_handle + n <= u64::MAX
    }

    /// A fresh driver with nothing allocated, an empty queue, an empty log,
    /// and a script on which every call succeeds.
    pub fn new() -> (gpu: Gpu)
        ensures
            gpu.ready(),
            gpu.live@.len() == 0,
            gpu.log@.len() == 0,
            gpu.call_faults@.len() == 0,
            gpu.next_handle == 1,
    {
        Gpu {
            error_queue: Vec::new(),
            call_faults: Vec::new(),
            next_handle: 1,
            live: Vec::new(),
            log: Vec::new(),
        }
    }

    /// Issue one checked state-changing call: log it and let the driver
    /// enqueue whatever the script holds for it.
    pub(crate) fn issue(&mut self, call: GlCall)
        requires
            old(self).wf(),
        ensures
            final(self).wf(),
            final(self).log@ == old(self).log@.push(call),
            final(self).error_queue@ == old(self).error_queue@ + fault_batch(
                old(self).faults(),
                0,
            ),
            final(self).faults() == faults_after(old(self).faults(), 1),
            final(self).live@ == old(self).live@,
            final(self).next_handle == old(self).next_handle,
    {
        self.log.push(call);
        if self.call_faults.len() > 0 {
            let batch = self.call_faults.remove(0);
            proof {
                assert(self.call_faults@ =~= old(self).call_faults@.skip(1));
                assert(self.faults() =~= old(self).faults().skip(1));
                assert(self.faults() =~= faults_after(old(self).faults(), 1));
                assert(batch@ == old(self).faults()[0]);
                assert(nonzero_codes(batch@));
                assert(nonzero_batches(self.faults())) by {
                    assert forall|i: int| 0 <= i < self.faults().len() implies nonzero_codes(
                        #[trigger] self.faults()[i],
                    ) by {
                        assert(self.faults()[i] == old(self).faults()[i + 1]);
                    }
                }
            }
            let ghost shifted = self.faults();
            let mut k: usize = 0;
            while k < batch.len()
                invariant
                    k <= batch.len(),
                    self.error_queue@ == old(self).error_queue@ + batch@.take(k as int),
                    self.faults() == shifted,
                    shifted == faults_after(old(self).faults(), 1),
                    self.live@ == old(self).live@,
                    self.next_handle == old(self).next_handle,
                    self.log@ == old(self).log@.push(call),
                    batch@ == fault_batch(old(self).faults(), 0),
                    nonzero_codes(batch@),
                    old(self).wf(),
                    self.live@.no_duplicates(),
                    forall|i: int| 0 <= i < self.live@.len() ==> self.live@[i] < self.next_handle,
                    nonzero_codes(self.error_queue@),
                    nonzero_batches(self.faults()),
                decreases batch.len() - k,
            {
                let code = batch[k];
                self.error_queue.push(code);
                proof {
                    assert(batch@.take(k + 1) =~= batch@.take(k as int).push(batch@[k as int]));
                    assert(self.error_queue@ =~= old(self).error_queue@ + batch@.take(k + 1));
                }
                k += 1;
            }
            proof {
                assert(batch@.take(batch@.len() as int) =~= batch@);
            }
        } else {
            proof {
                assert(self.error_queue@ =~= old(self).error_queue@ + fault_batch(
                    old(self).faults(),
                    0,
                ));
                assert(faults_after(old(self).faults(), 1) =~= old(self).faults());
            }
        }
    }

    /// Pop the oldest undrained error code, or zero when the queue is empty.
    pub(crate) fn poll_error(&mut self) -> (code: u32)
        requires
            old(self).wf(),
        ensures
            final(self).wf(),
            old(self).error_queue@.len() == 0 ==> code == 0 && *final(self) == *old(self),
            old(self).error_queue@.len() > 0 ==> code == old(self).error_queue@[0] && code != 0
                && final(self).error_queue@ == old(self).error_queue@.skip(1),
            final(self).call_faults@ == old(self).call_faults@,
            final(self).live@ == old(self).live@,
            final(self).log@ == old(self).log@,
            final(self).next_handle == old(self).next_handle,
    {
        if self.error_queue.len() == 0 {
            0
        } else {
            let code = self.error_queue.remove(0);
            proof {
                assert(final(self).error_queue@ =~= old(self).error_queue@.skip(1));
            }
            code
        }
    }

    /// Allocate a fresh handle name.
    fn alloc_handle(&mut self) -> (h: u64)
        requires
            old(self).wf(),
            old(self).can_allocate(1),
        ensures
            final(self).wf(),
            h == old(self).next_handle,
            !old(self).owns(h),
            final(self).next_handle == old(self).next_handle + 1,
            final(self).live@ == old(self).live@.push(h),
            final(self).error_queue@ == old(self).error_queue@,
            final(self).call_faults@ == old(self).call_faults@,
            final(self).log@ == old(self).log@,
    {
        let h = self.next_handle;
        proof {
            if old(self).live@.contains(h) {
                let i = choose|i: int| 0 <= i < old(self).live@.len() && old(self).live@[i] == h;
                assert(old(self).live@[i] < h);
            }
        }
        self.live.push(h);
        self.next_handle = self.next_handle + 1;
        h
    }

    /// Remove a handle from the live set.
    fn remove_live(&mut self, h: u64)
        requires
            old(self).wf(),
            old(self).owns(h),
        ensures
            final(self).wf(),
            forall|x: u64| final(self).owns(x) <==> (old(self).owns(x) && x != h),
            final(self).live@.len() == old(self).live@.len() - 1,
            final(self).error_queue@ == old(self).error_queue@,
            final(self).call_faults@ == old(self).call_faults@,
            final(self).log@ == old(self).log@,
            final(self).next_handle == old(self).next_handle,
    {
        let ghost pre = self.live@;
        let mut i: usize = 0;
        while i < self.live.len() && self.live[i] != h
            invariant
                i <= self.live@.len(),
                self.live@ == pre,
                forall|j: int| 0 <= j < i ==> self.live@[j] != h,
            decreases self.live@.len() - i,
        {
            i += 1;
        }
        proof {
            if i == self.live@.len() {
                let j = choose|j: int| 0 <= j < pre.len() && pre[j] == h;
                assert(pre[j] != h);
            }
        }
        self.live.remove(i);
        proof {
            let post = self.live@;
            assert(post =~= pre.subrange(0, i as int) + pre.subrange(i + 1, pre.len() as int));
            assert forall|j: int| 0 <= j < post.len() implies post[j] == (if j < i {
                pre[j]
            } else {
                pre[j + 1]
            }) by {
                if j < i {
                    assert(post[j] == pre.subrange(0, i as int)[j]);
                } else {
                    assert(post[j] == pre.subrange(i + 1, pre.len() as int)[j - i]);
                }
            }
            assert forall|x: u64| post.contains(x) implies (pre.contains(x) && x != h) by {
                let j = choose|j: int| 0 <= j < post.len() && post[j] == x;
                if j < i {
                    assert(pre[j] == x);
                } else {
                    assert(pre[j + 1] == x);
                    assert(pre[i as int] == h);
                    assert(pre.no_duplicates());
                    assert(pre[j + 1] != pre[i as int]);
                }
            }
            assert forall|x: u64| (pre.contains(x) && x != h) implies post.contains(x) by {
                let j = choose|j: int| 0 <= j < pre.len() && pre[j] == x;
                if j < i {
                    assert(post[j] == x);
                } else {
                    assert(j != i);
                    assert(post[j - 1] == pre[j]);
                }
            }
            assert(post.no_duplicates()) by {
                assert forall|p: int, q: int| 0 <= p < q < post.len() implies post[p] != post[q] by {
                    let pp: int = if p < i { p } else { p + 1 };
                    let qq: int = if q < i { q } else { q + 1 };
                    assert(post[p] == pre[pp]);
                    assert(post[q] == pre[qq]);
                    assert(pp < qq);
                }
            }
        }
    }

    /// `glCreateBuffers`: allocate a buffer handle.
    pub(crate) fn create_buffer(&mut self) -> (h: u64)
        requires
            old(self).wf(),
            old(self).can_allocate(1),
        ensures
            final(self).wf(),
            h == old(self).next_handle,
            !old(self).owns(h),
            final(self).next_handle == old(self).next_handle + 1,
            final(self).live@ == old(self).live@.push(h),
            final(self).log@ == old(self).log@.push(GlCall::CreateBuffers { buffer: h }),
            final(self).error_queue@ == old(self).error_queue@ + fault_batch(
                old(self).faults(),
                0,
            ),
            final(self).faults() == faults_after(old(self).faults(), 1),
    {
        let h = self.alloc_handle();
        self.issue(GlCall::CreateBuffers { buffer: h });
        h
    }

    /// `glCreateShader`: allocate a shader handle for the given stage.
    pub(crate) fn create_shader(&mut self, shader_type: u32) -> (h: u64)
        requires
            old(self).wf(),
            old(self).can_allocate(1),
        ensures
            final(self).wf(),
            h == old(self).next_handle,
            !old(self).owns(h),
            final(self).next_handle == old(self).next_handle + 1,
            final(self).live@ == old(self).live@.push(h),
            final(self).log@ == old(self).log@.push(GlCall::CreateShader { shader: h, shader_type }),
            final(self).error_queue@ == old(self).error_queue@ + fault_batch(
                old(self).faults(),
                0,
            ),
            final(self).faults() == faults_after(old(self).faults(), 1),
    {
        let h = self.alloc_handle();
        self.issue(GlCall::CreateShader { shader: h, shader_type });
        h
    }

    /// `glCreateProgram`: allocate a program handle.
    pub(crate) fn create_program(&mut self) -> (h: u64)
        requires
            old(self).wf(),
            old(self).can_allocate(1),
        ensures
            final(self).wf(),
            h == old(self).next_handle,
            !old(self).owns(h),
            final(self).next_handle == old(self).next_handle + 1,
            final(self).live@ == old(self).live@.push(h),
            final(self).log@ == old(self).log@.push(GlCall::CreateProgram { program: h }),
            final(self).error_queue@ == old(self).error_queue@ + fault_batch(
                old(self).faults(),
                0,
            ),
            final(self).faults() == faults_after(old(self).faults(), 1),
    {
        let h = self.alloc_handle();
        self.issue(GlCall::CreateProgram { program: h });
        h
    }

    /// `glCreateVertexArrays`: allocate a vertex array handle.
    pub(crate) fn create_vertex_array(&mut self) -> (h: u64)
        requires
            old(self).wf(),
            old(self).can_allocate(1),
        ensures
            final(self).wf(),
            h == old(self).next_handle,
            !old(self).owns(h),
            final(self).next_handle == old(self).next_handle + 1,
            final(self).live@ == old(self).live@.push(h),
            final(self).log@ == old(self).log@.push(GlCall::CreateVertexArrays { vertex_array: h }),
            final(self).error_queue@ == old(self).error_queue@ + fault_batch(
                old(self).faults(),
                0,
            ),
            final(self).faults() == faults_after(old(self).faults(), 1),
    {
        let h = self.alloc_handle();
        self.issue(GlCall::CreateVertexArrays { vertex_array: h });
        h
    }

    /// `glDeleteBuffers`: release a buffer handle.
    pub(crate) fn delete_buffer(&mut self, h: u64)
        requires
            old(self).wf(),
            old(self).owns(h),
        ensures
            final(self).wf(),
            forall|x: u64| final(self).owns(x) <==> (old(self).owns(x) && x != h),
            final(self).live@.len() == old(self).live@.len() - 1,
            final(self).log@ == old(self).log@.push(GlCall::DeleteBuffers { buffer: h }),
            final(self).error_queue@ == old(self).error_queue@,
            final(self).call_faults@ == old(self).call_faults@,
            final(self).next_handle == old(self).next_handle,
    {
        self.remove_live(h);
        self.log.push(GlCall::DeleteBuffers { buffer: h });
    }

    /// `glDeleteShader`: release a shader handle.
    pub(crate) fn delete_shader(&mut self, h: u64)
        requires
            old(self).wf(),
            old(self).owns(h),
        ensures
            final(self).wf(),
            forall|x: u64| final(self).owns(x) <==> (old(self).owns(x) && x != h),
            final(self).live@.len() == old(self).live@.len() - 1,
            final(self).log@ == old(self).log@.push(GlCall::DeleteShader { shader: h }),
            final(self).error_queue@ == old(self).error_queue@,
            final(self).call_faults@ == old(self).call_faults@,
            final(self).next_handle == old(self).next_handle,
    {
        self.remove_live(h);
        self.log.push(GlCall::DeleteShader { shader: h });
    }

    /// `glDeleteProgram`: release a program handle.
    pub(crate) fn delete_program(&mut self, h: u64)
        requires
            old(self).wf(),
            old(self).owns(h),
        ensures
            final(self).wf(),
            forall|x: u64| final(self).owns(x) <==> (old(self).owns(x) && x != h),
            final(self).live@.len() == old(self).live@.len() - 1,
            final(self).log@ == old(self).log@.push(GlCall::DeleteProgram { program: h }),
            final(self).error_queue@ == old(self).error_queue@,
            final(self).call_faults@ == old(self).call_faults@,
            final(self).next_handle == old(self).next_handle,
    {
        self.remove_live(h);
        self.log.push(GlCall::DeleteProgram { program: h });
    }

    /// `glDeleteVertexArrays`: release a vertex array handle.
    pub(crate) fn delete_vertex_array(&mut self, h: u64)
        requires
            old(self).wf(),
            old(self).owns(h),
        ensures
            final(self).wf(),
            forall|x: u64| final(self).owns(x) <==> (old(self).owns(x) && x != h),
            final(self).live@.len() == old(self).live@.len() - 1,
            final(self).log@ == old(self).log@.push(GlCall::DeleteVertexArrays { vertex_array: h }),
            final(self).error_queue@ == old(self).error_queue@,
            final(self).call_faults@ == old(self).call_faults@,
            final(self).next_handle == old(self).next_handle,
    {
        self.remove_live(h);
        self.log.push(GlCall::DeleteVertexArrays { vertex_array: h });
    }
}

/// Consuming one batch at position `m` of a script advances it to `m + 1`.
pub proof fn lemma_consume_one(
    f: Seq<Seq<u32>>,
    m: int,
    pre_faults: Seq<Seq<u32>>,
    post_faults: Seq<Seq<u32>>,
)
    requires
        0 <= m,
        pre_faults == faults_after(f, m),
        post_faults == faults_after(pre_faults, 1),
    ensures
        post_faults == faults_after(f, m + 1),
        fault_batch(pre_faults, 0) == fault_batch(f, m),
{
    lemma_fault_batch_after(f, m, 0);
    assert(post_faults =~= faults_after(f, m + 1));
}

/// A clear prefix grows by one empty batch.
pub proof fn lemma_clear_extend(f: Seq<Seq<u32>>, m: int)
    requires
        0 <= m,
        faults_clear(f, m),
        fault_batch(f, m).len() == 0,
    ensures
        faults_clear(f, m + 1),
{
    assert forall|i: int| 0 <= i < m + 1 implies fault_batch(f, i).len() == 0 by {
        if i < m {
            assert(fault_batch(f, i).len() == 0);
        }
    }
}

/// A witness that a sub-sequence of calls failed, stated against the suffix
/// of the script, shifts to a witness against the whole script.
pub proof fn lemma_fault_witness_shift(f: Seq<Seq<u32>>, base: int, bound: int, codes: Seq<u32>)
    requires
        0 <= base,
        0 <= bound,
        faults_clear(f, base),
        exists|k: int|
            0 <= k < bound && faults_clear(faults_after(f, base), k) && codes
                == #[trigger] fault_batch(faults_after(f, base), k) && fault_batch(
                faults_after(f, base),
                k,
            ).len() > 0,
    ensures
        exists|k: int|
            0 <= k < base + bound && faults_clear(f, k) && codes == #[trigger] fault_batch(f, k)
                && fault_batch(f, k).len() > 0,
{
    let k0 = choose|k: int|
        0 <= k < bound && faults_clear(faults_after(f, base), k) && codes == #[trigger] fault_batch(
            faults_after(f, base),
            k,
        ) && fault_batch(faults_after(f, base), k).len() > 0;
    lemma_faults_clear_split(f, base, k0);
    lemma_fault_batch_after(f, base, k0);
    assert(faults_clear(f, base + k0));
    assert(codes == fault_batch(f, base + k0));
    assert(fault_batch(f, base + k0).len() > 0);
}

/// After pushing a fresh handle onto the live list, a handle is owned
/// exactly when it was owned before or is the new one.
pub proof fn lemma_owns_after_push(pre: Gpu, post: Gpu, h: u64)
    requires
        post.live@ == pre.live@.push(h),
    ensures
        forall|x: u64| post.owns(x) <==> (pre.owns(x) || x == h),
{
    assert forall|x: u64| post.owns(x) <==> (pre.owns(x) || x == h) by {
        if pre.owns(x) {
            let i = choose|i: int| 0 <= i < pre.live@.len() && pre.live@[i] == x;
            assert(post.live@[i] == x);
        }
        if x == h {
            assert(post.live@[pre.live@.len() as int] == x);
        }
        if post.owns(x) {
            let i = choose|i: int| 0 <= i < post.live@.len() && post.live@[i] == x;
            if i < pre.live@.len() {
                assert(pre.live@[i] == x);
            }
        }
    }
}

/// Both states own exactly the same handles.
pub open spec fn handles_preserved(pre: Gpu, post: Gpu) -> bool {
    forall|h: u64| post.owns(h) <==> pre.owns(h)
}

} // verus!
