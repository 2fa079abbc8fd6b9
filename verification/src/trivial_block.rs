//! Pipeline for rendering opaque unit cubes at integer coordinates.
//!
//! A trivial block is an opaque unit cube at integer coordinates.  The vertex
//! shader generates the four corners of each face from the packed face
//! record and the built-in vertex index, so the buffers passed to this
//! pipeline store only one 6-byte entry per face.  The vertex stream uses an
//! attribute divisor of 4: the bound face record advances once every four
//! instances, and each face is drawn as a 4-vertex triangle fan, so the
//! instance count of a draw is four times the face count.

use vstd::prelude::*;
use crate::gl_buffer::GlBuffer;
use crate::gl_consts::{
    BACK, CCW, CULL_FACE, SHADER_BINARY_FORMAT_SPIR_V, TRIANGLE_FAN, UNSIGNED_BYTE, UNSIGNED_SHORT,
    VERTEX_SHADER,
};
use crate::gl_error::{check_gl, try_gl_at, GraphicsApiError};
use crate::gl_program::{program_calls, GlProgram};
use crate::gl_shader::GlShader;
use crate::gl_uniform::{ChunkMvpUniform, GlUniform};
use crate::generic::FragmentShader;
use crate::gpu::{
    fault_batch, faults_after, faults_clear, handles_preserved, lemma_clear_extend,
    lemma_consume_one, lemma_faults_clear_split, lemma_fault_witness_shift, lemma_owns_after_push,
    Gpu, GlCall,
};
use crate::math::IVec3;

verus! {

/// Vertex buffer entry for the trivial block drawing pipeline.
///
/// Each entry represents a single face of a cube to be drawn.  Only visible
/// faces should have entries constructed for them.  X, Y, and Z are the
/// position of the block within the chunk; an increment of 1 in either
/// dimension is the adjacent block.  U and V are the position of the texture
/// within the texture atlas; an increment of 1 in either dimension is the
/// adjacent texture.
#[derive(Clone, Copy, Debug, PartialEq, Eq, Structural)]
pub struct Face {
    /// X coordinate in the 4 most significant bits, Y coordinate in the 4
    /// least significant bits.
    pub xy: u8,
    /// Z coordinate in the 4 most significant bits, face selector in the 4
    /// least significant bits.
    ///
    /// The face selector must range only from 0 through 5, as there are only
    /// six faces in a cube.
    pub zf: u8,
    /// U coordinate.
    pub u: u16,
    /// V coordinate.
    pub v: u16,
}

impl Face {
    /// Pack block coordinates, a face selector and atlas coordinates into a
    /// face record.
    pub fn new(x: u8, y: u8, z: u8, face: u8, u: u16, v: u16) -> (r: Face)
        requires
            x < 16,
            y < 16,
            z < 16,
            face < 6,
        ensures
            r.xy as int == x as int * 16 + y as int,
            r.zf as int == z as int * 16 + face as int,
            r.u == u,
            r.v == v,
    {
        proof {
            assert(((x << 4u8) | y) as int == x as int * 16 + y as int) by (bit_vector)
                requires
                    x < 16,
                    y < 16,
            ;
            assert(((z << 4u8) | face) as int == z as int * 16 + face as int) by (bit_vector)
                requires
                    z < 16,
                    face < 6,
            ;
        }
        Face { xy: (x << 4u8) | y, zf: (z << 4u8) | face, u, v }
    }

    /// The X coordinate of the block within the chunk.
    pub fn x(&self) -> (r: u8)
        ensures
            r as int == self.xy as int / 16,
    {
        proof {
            let b = self.xy;
            assert((b >> 4u8) as int == b as int / 16) by (bit_vector);
        }
        self.xy >> 4u8
    }

    /// The Y coordinate of the block within the chunk.
    pub fn y(&self) -> (r: u8)
        ensures
            r as int == self.xy as int % 16,
    {
        proof {
            let b = self.xy;
            assert((b & 0x0Fu8) as int == b as int % 16) by (bit_vector);
        }
        self.xy & 0x0Fu8
    }

    /// The Z coordinate of the block within the chunk.
    pub fn z(&self) -> (r: u8)
        ensures
            r as int == self.zf as int / 16,
    {
        proof {
            let b = self.zf;
            assert((b >> 4u8) as int == b as int / 16) by (bit_vector);
        }
        self.zf >> 4u8
    }

    /// The face selector.
    pub fn face(&self) -> (r: u8)
        ensures
            r as int == self.zf as int % 16,
    {
        proof {
            let b = self.zf;
            assert((b & 0x0Fu8) as int == b as int % 16) by (bit_vector);
        }
        self.zf & 0x0Fu8
    }
}

/// Set of trivial block faces that appear in a chunk.
pub struct FaceSet {
    /// The faces to draw for this chunk.
    pub faces: GlBuffer<Face>,
    /// The position of the chunk that contains the faces.
    ///
    /// An increment of 1 in either dimension corresponds to the adjacent
    /// chunk in that dimension.  One chunk edge is 16 world units.
    pub chunk_position: IVec3,
}

impl FaceSet {
    /// The machine bounds a face set must respect so that the driver call
    /// arguments fit their 32-bit types: the chunk's world translation fits
    /// an `i32` and four times the face count fits a `GLsizei`.
    pub open spec fn wf(&self) -> bool {
        &&& self.chunk_position.in_bounds(0x0800_0000)
        &&& self.faces.len <= 0x1FFF_FFFF
    }
}

/// A chunk's world-space translation: 16 world units per chunk-grid step on
/// every axis.
pub open spec fn chunk_translation(chunk: IVec3) -> IVec3 {
    IVec3 { x: (16 * chunk.x) as i32, y: (16 * chunk.y) as i32, z: (16 * chunk.z) as i32 }
}

/// The checked calls that build the pipeline's vertex-layout descriptor:
/// four integer attributes on one stream at the byte offsets of the packed
/// [`Face`] record, with an attribute divisor of 4 on the stream.
pub open spec fn vertex_array_calls(vao: u64) -> Seq<GlCall> {
    seq![
        GlCall::CreateVertexArrays { vertex_array: vao },
        GlCall::EnableVertexArrayAttrib { vertex_array: vao, attrib: 0 },
        GlCall::EnableVertexArrayAttrib { vertex_array: vao, attrib: 1 },
        GlCall::EnableVertexArrayAttrib { vertex_array: vao, attrib: 2 },
        GlCall::EnableVertexArrayAttrib { vertex_array: vao, attrib: 3 },
        GlCall::VertexArrayAttribBinding { vertex_array: vao, attrib: 0, binding: 0 },
        GlCall::VertexArrayAttribBinding { vertex_array: vao, attrib: 1, binding: 0 },
        GlCall::VertexArrayAttribBinding { vertex_array: vao, attrib: 2, binding: 0 },
        GlCall::VertexArrayAttribBinding { vertex_array: vao, attrib: 3, binding: 0 },
        GlCall::VertexArrayAttribIFormat {
            vertex_array: vao,
            attrib: 0,
            size: 1,
            component_type: UNSIGNED_BYTE,
            offset: 0,
        },
        GlCall::VertexArrayAttribIFormat {
            vertex_array: vao,
            attrib: 1,
            size: 1,
            component_type: UNSIGNED_BYTE,
            offset: 1,
        },
        GlCall::VertexArrayAttribIFormat {
            vertex_array: vao,
            attrib: 2,
            size: 1,
            component_type: UNSIGNED_SHORT,
            offset: 2,
        },
        GlCall::VertexArrayAttribIFormat {
            vertex_array: vao,
            attrib: 3,
            size: 1,
            component_type: UNSIGNED_SHORT,
            offset: 4,
        },
        GlCall::VertexArrayBindingDivisor { vertex_array: vao, binding: 0, divisor: 4 },
    ]
}

/// The calls that begin every render: select the program and layout, enable
/// back-face culling with counter-clockwise front faces, and bind the atlas
/// size to slot 1 once for the whole call.
pub open spec fn pre_render_calls(
    program: u64,
    vertex_array: u64,
    atlas_size: crate::math::IVec2,
) -> Seq<GlCall> {
    seq![
        GlCall::UseProgram { program },
        GlCall::BindVertexArray { vertex_array },
        GlCall::Enable { capability: CULL_FACE },
        GlCall::CullFace { mode: BACK },
        GlCall::FrontFace { mode: CCW },
        GlCall::Uniform2F { location: 1, x: atlas_size.x, y: atlas_size.y },
    ]
}

/// The calls that draw one face set: bind the chunk's model-view-projection
/// matrix to slot 2, bind the face buffer, and issue one instanced draw of a
/// 4-vertex triangle fan with instance count four times the face count.
pub open spec fn face_set_calls(vp: glam::Mat4, set: FaceSet) -> Seq<GlCall> {
    seq![
        GlCall::UniformChunkMvp {
            location: 2,
            vp,
            translation: chunk_translation(set.chunk_position),
        },
        GlCall::BindVertexBuffer { binding: 0, buffer: set.faces.raw, offset: 0, stride: 6 },
        GlCall::DrawArraysInstanced {
            mode: TRIANGLE_FAN,
            first: 0,
            count: 4,
            instance_count: (4 * set.faces.len) as usize,
        },
    ]
}

/// The calls for a list of face sets, in list order.
pub open spec fn face_sets_calls(vp: glam::Mat4, sets: Seq<FaceSet>) -> Seq<GlCall>
    decreases sets.len(),
{
    if sets.len() <= 0 {
        Seq::empty()
    } else {
        face_set_calls(vp, sets[0]) + face_sets_calls(vp, sets.skip(1))
    }
}

/// Every checked call of one whole render, in order.
pub open spec fn render_calls(
    program: u64,
    vertex_array: u64,
    atlas_size: crate::math::IVec2,
    vp: glam::Mat4,
    sets: Seq<FaceSet>,
) -> Seq<GlCall> {
    pre_render_calls(program, vertex_array, atlas_size) + face_sets_calls(vp, sets)
}

/// Taking one more face set appends exactly that set's calls.
pub proof fn lemma_face_sets_calls_snoc(vp: glam::Mat4, s: Seq<FaceSet>, i: int)
    requires
        0 <= i < s.len(),
    ensures
        face_sets_calls(vp, s.take(i + 1)) == face_sets_calls(vp, s.take(i)) + face_set_calls(
            vp,
            s[i],
        ),
    decreases i,
{
    if i == 0 {
        assert(s.take(1)[0] == s[0]);
        assert(s.take(1).skip(1) =~= Seq::<FaceSet>::empty());
        assert(s.take(0) =~= Seq::<FaceSet>::empty());
        assert(face_sets_calls(vp, s.take(1)) =~= face_sets_calls(vp, s.take(0)) + face_set_calls(
            vp,
            s[0],
        ));
    } else {
        lemma_face_sets_calls_snoc(vp, s.skip(1), i - 1);
        assert(s.take(i + 1)[0] == s[0]);
        assert(s.take(i)[0] == s[0]);
        assert(s.take(i + 1).skip(1) =~= s.skip(1).take(i));
        assert(s.take(i).skip(1) =~= s.skip(1).take(i - 1));
        assert(s.skip(1)[i - 1] == s[i]);
        assert(face_sets_calls(vp, s.take(i + 1)) == face_set_calls(vp, s[0]) + face_sets_calls(
            vp,
            s.skip(1).take(i),
        ));
        assert(face_sets_calls(vp, s.take(i)) == face_set_calls(vp, s[0]) + face_sets_calls(
            vp,
            s.skip(1).take(i - 1),
        ));
        assert(face_sets_calls(vp, s.take(i + 1)) =~= face_sets_calls(vp, s.take(i))
            + face_set_calls(vp, s[i]));
    }
}


/// The number of instanced draw calls in a call sequence.
pub open spec fn count_instanced_draws(s: Seq<GlCall>) -> int
    decreases s.len(),
{
    if s.len() <= 0 {
        0
    } else {
        (if s[0] is DrawArraysInstanced {
            1int
        } else {
            0int
        }) + count_instanced_draws(s.skip(1))
    }
}

/// Instanced-draw counts add over concatenation.
pub proof fn lemma_count_instanced_draws_concat(a: Seq<GlCall>, b: Seq<GlCall>)
    ensures
        count_instanced_draws(a + b) == count_instanced_draws(a) + count_instanced_draws(b),
    decreases a.len(),
{
    if a.len() == 0 {
        assert(a + b =~= b);
    } else {
        lemma_count_instanced_draws_concat(a.skip(1), b);
        assert((a + b)[0] == a[0]);
        assert((a + b).skip(1) =~= a.skip(1) + b);
    }
}

/// Instance-count law: the calls of one render issue exactly one instanced
/// draw per face set, in the sets' order, and the draw for the set at
/// position `i` requests an instance count of exactly four times that set's
/// face count.  A face set with no faces still gets its draw, with an
/// instance count of zero.
pub proof fn lemma_instanced_draw_per_face_set(vp: glam::Mat4, sets: Seq<FaceSet>)
    ensures
        face_sets_calls(vp, sets).len() == 3 * sets.len(),
        count_instanced_draws(face_sets_calls(vp, sets)) == sets.len(),
        forall|i: int|
            0 <= i < sets.len() ==> #[trigger] face_sets_calls(vp, sets)[3 * i + 2]
                == (GlCall::DrawArraysInstanced {
                mode: TRIANGLE_FAN,
                first: 0,
                count: 4,
                instance_count: (4 * sets[i].faces.len) as usize,
            }),
    decreases sets.len(),
{
    if sets.len() == 0 {
        assert(count_instanced_draws(face_sets_calls(vp, sets)) == 0);
    } else {
        lemma_instanced_draw_per_face_set(vp, sets.skip(1));
        let fc = face_set_calls(vp, sets[0]);
        let rest = face_sets_calls(vp, sets.skip(1));
        lemma_count_instanced_draws_concat(fc, rest);
        let s1 = fc.skip(1);
        let s2 = s1.skip(1);
        let s3 = s2.skip(1);
        assert(s1[0] == fc[1]);
        assert(s2[0] == fc[2]);
        assert(s3 =~= Seq::<GlCall>::empty());
        assert(count_instanced_draws(s3) == 0);
        assert(count_instanced_draws(s2) == 1);
        assert(count_instanced_draws(s1) == 1);
        assert(count_instanced_draws(fc) == 1);
        assert forall|i: int| 0 <= i < sets.len() implies #[trigger] face_sets_calls(
            vp,
            sets,
        )[3 * i + 2] == (GlCall::DrawArraysInstanced {
            mode: TRIANGLE_FAN,
            first: 0,
            count: 4,
            instance_count: (4 * sets[i].faces.len) as usize,
        }) by {
            if i == 0 {
                assert(face_sets_calls(vp, sets)[2] == fc[2]);
            } else {
                assert(face_sets_calls(vp, sets)[3 * i + 2] == rest[3 * (i - 1) + 2]);
                assert(sets.skip(1)[i - 1] == sets[i]);
            }
        }
    }
}

/// Specialized pipeline for rendering trivial blocks.
pub struct Pipeline {
    /// The linked program: plain vertex stage plus shared fragment stage.
    pub program: GlProgram,
    /// The vertex-layout descriptor's handle.
    pub vertex_array: u64,
}

impl Pipeline {
    /// Compile the pipeline.
    ///
    /// The vertex module is compiled with no specialization constants,
    /// linked with the shared fragment shader, and released once linked.
    /// The vertex-layout descriptor is then built.  A failure at any
    /// sub-step releases everything this call had already allocated.
    pub fn new(gpu: &mut Gpu, fragment_shader: &FragmentShader, vertex_shader_binary: &[u8]) -> (r:
        Result<Pipeline, GraphicsApiError>)
        requires
            old(gpu).ready(),
            old(gpu).can_allocate(3),
        ensures
            final(gpu).ready(),
            r is Ok <==> faults_clear(old(gpu).faults(), 23),
            r is Ok ==> final(gpu).faults() == faults_after(old(gpu).faults(), 23),
            r matches Ok(p) ==> ({
                let b = old(gpu).log@.len() as int;
                let vs = old(gpu).next_handle;
                &&& p.program.raw == old(gpu).next_handle + 1
                &&& p.vertex_array == old(gpu).next_handle + 2
                &&& !old(gpu).owns(p.program.raw)
                &&& !old(gpu).owns(p.vertex_array)
                &&& forall|x: u64|
                    final(gpu).owns(x) <==> (old(gpu).owns(x) || x == p.program.raw || x
                        == p.vertex_array)
                &&& final(gpu).next_handle == old(gpu).next_handle + 3
                &&& final(gpu).log@.len() == b + 24
                &&& final(gpu).log@.subrange(0, b) == old(gpu).log@
                &&& final(gpu).log@[b] == (GlCall::CreateShader {
                    shader: vs,
                    shader_type: VERTEX_SHADER,
                })
                &&& (final(gpu).log@[b + 1] matches GlCall::ShaderBinary { shader, format, binary }
                    && shader == vs && format == SHADER_BINARY_FORMAT_SPIR_V && binary@
                    == vertex_shader_binary@)
                &&& (final(gpu).log@[b + 2] matches GlCall::SpecializeShader {
                    shader,
                    constant_indices: ci,
                    constant_values: cv,
                } && shader == vs && ci@.len() == 0 && cv@.len() == 0)
                &&& final(gpu).log@.subrange(b + 3, b + 9) == program_calls(
                    p.program.raw,
                    seq![vs, fragment_shader.inner.raw],
                )
                &&& final(gpu).log@[b + 9] == (GlCall::DeleteShader { shader: vs })
                &&& final(gpu).log@.subrange(b + 10, b + 24) == vertex_array_calls(p.vertex_array)
            }),
            r matches Err(e) ==> {
                &&& handles_preserved(*old(gpu), *final(gpu))
                &&& exists|k: int|
                    0 <= k < 23 && faults_clear(old(gpu).faults(), k) && e.errors.codes()
                        == #[trigger] fault_batch(old(gpu).faults(), k) && fault_batch(
                        old(gpu).faults(),
                        k,
                    ).len() > 0
            },
    {
        let ghost f = old(gpu).faults();
        let ghost g0 = *old(gpu);
        let program = match Self::make_program(gpu, fragment_shader, vertex_shader_binary) {
            Ok(p) => p,
            Err(e) => {
                return Err(e);
            },
        };
        let ghost g1 = *gpu;
        match Self::make_vertex_array(gpu) {
            Ok(vertex_array) => {
                proof {
                    lemma_faults_clear_split(f, 9, 14);
                    assert(faults_after(faults_after(f, 9), 14) =~= faults_after(f, 23));
                    assert(final(gpu).log@.subrange(0, g0.log@.len() as int) =~= g0.log@);
                    assert(final(gpu).log@.subrange(g0.log@.len() as int + 3, g0.log@.len() as int
                        + 9) =~= g1.log@.subrange(g0.log@.len() as int + 3, g0.log@.len() as int
                        + 9));
                    assert(final(gpu).log@.subrange(g0.log@.len() as int + 10, g0.log@.len() as int
                        + 24) =~= vertex_array_calls(vertex_array));
                    lemma_owns_after_push(g1, *gpu, vertex_array);
                }
                Ok(Pipeline { program, vertex_array })
            },
            Err(e) => {
                proof {
                    assert(gpu.owns(program.raw));
                }
                program.release(gpu);
                proof {
                    lemma_faults_clear_split(f, 9, 14);
                    lemma_fault_witness_shift(f, 9, 14, e.errors.codes());
                }
                Err(e)
            },
        }
    }

    /// Compile the vertex module, link it with the shared fragment shader,
    /// and release the module.
    fn make_program(
        gpu: &mut Gpu,
        fragment_shader: &FragmentShader,
        vertex_shader_binary: &[u8],
    ) -> (r: Result<GlProgram, GraphicsApiError>)
        requires
            old(gpu).ready(),
            old(gpu).can_allocate(2),
        ensures
            final(gpu).ready(),
            r is Ok <==> faults_clear(old(gpu).faults(), 9),
            r is Ok ==> final(gpu).faults() == faults_after(old(gpu).faults(), 9),
            r matches Ok(p) ==> ({
                let b = old(gpu).log@.len() as int;
                let vs = old(gpu).next_handle;
                &&& p.raw == old(gpu).next_handle + 1
                &&& !old(gpu).owns(p.raw)
                &&& forall|x: u64| final(gpu).owns(x) <==> (old(gpu).owns(x) || x == p.raw)
                &&& final(gpu).next_handle == old(gpu).next_handle + 2
                &&& final(gpu).log@.len() == b + 10
                &&& final(gpu).log@.subrange(0, b) == old(gpu).log@
                &&& final(gpu).log@[b] == (GlCall::CreateShader {
                    shader: vs,
                    shader_type: VERTEX_SHADER,
                })
                &&& (final(gpu).log@[b + 1] matches GlCall::ShaderBinary { shader, format, binary }
                    && shader == vs && format == SHADER_BINARY_FORMAT_SPIR_V && binary@
                    == vertex_shader_binary@)
                &&& (final(gpu).log@[b + 2] matches GlCall::SpecializeShader {
                    shader,
                    constant_indices: ci,
                    constant_values: cv,
                } && shader == vs && ci@.len() == 0 && cv@.len() == 0)
                &&& final(gpu).log@.subrange(b + 3, b + 9) == program_calls(
                    p.raw,
                    seq![vs, fragment_shader.inner.raw],
                )
                &&& final(gpu).log@[b + 9] == (GlCall::DeleteShader { shader: vs })
            }),
            r matches Err(e) ==> {
                &&& handles_preserved(*old(gpu), *final(gpu))
                &&& exists|k: int|
                    0 <= k < 9 && faults_clear(old(gpu).faults(), k) && e.errors.codes()
                        == #[trigger] fault_batch(old(gpu).faults(), k) && fault_batch(
                        old(gpu).faults(),
                        k,
                    ).len() > 0
            },
    {
        let ghost f = old(gpu).faults();
        let ghost g0 = *old(gpu);
        let constants: [u32; 0] = [];
        let vertex_shader = match GlShader::new(
            gpu,
            VERTEX_SHADER,
            vertex_shader_binary,
            &constants,
            &constants,
        ) {
            Ok(s) => s,
            Err(e) => {
                return Err(e);
            },
        };
        let ghost g1 = *gpu;
        let program = match GlProgram::new(gpu, &[&vertex_shader, fragment_shader.as_shader()]) {
            Ok(p) => p,
            Err(e) => {
                proof {
                    lemma_owns_after_push(g0, g1, vertex_shader.raw);
                }
                vertex_shader.release(gpu);
                proof {
                    lemma_faults_clear_split(f, 3, 6);
                    lemma_fault_witness_shift(f, 3, 6, e.errors.codes());
                }
                return Err(e);
            },
        };
        let ghost g2 = *gpu;
        proof {
            lemma_owns_after_push(g0, g1, vertex_shader.raw);
            lemma_owns_after_push(g1, g2, program.raw);
        }
        let ghost vs_raw = vertex_shader.raw;
        vertex_shader.release(gpu);
        proof {
            lemma_faults_clear_split(f, 3, 6);
            assert(faults_after(faults_after(f, 3), 6) =~= faults_after(f, 9));
            let b = g0.log@.len() as int;
            assert(g2.log@.len() == b + 9);
            assert(final(gpu).log@.len() == b + 10);
            assert(final(gpu).log@.subrange(0, b) =~= g0.log@);
            assert(final(gpu).log@.subrange(b + 3, b + 9) =~= program_calls(
                program.raw,
                seq![vs_raw, fragment_shader.inner.raw],
            ));
        }
        Ok(program)
    }

    /// Build the vertex-layout descriptor.
    fn make_vertex_array(gpu: &mut Gpu) -> (r: Result<u64, GraphicsApiError>)
        requires
            old(gpu).ready(),
            old(gpu).can_allocate(1),
        ensures
            final(gpu).ready(),
            final(gpu).next_handle == old(gpu).next_handle + 1,
            r is Ok <==> faults_clear(old(gpu).faults(), 14),
            r is Ok ==> final(gpu).faults() == faults_after(old(gpu).faults(), 14),
            r matches Ok(vao) ==> {
                &&& vao == old(gpu).next_handle
                &&& !old(gpu).owns(vao)
                &&& forall|x: u64| final(gpu).owns(x) <==> (old(gpu).owns(x) || x == vao)
                &&& final(gpu).live@ == old(gpu).live@.push(vao)
                &&& final(gpu).log@ == old(gpu).log@ + vertex_array_calls(vao)
            },
            r matches Err(e) ==> {
                &&& handles_preserved(*old(gpu), *final(gpu))
                &&& exists|k: int|
                    0 <= k < 14 && faults_clear(old(gpu).faults(), k) && e.errors.codes()
                        == #[trigger] fault_batch(old(gpu).faults(), k) && fault_batch(
                        old(gpu).faults(),
                        k,
                    ).len() > 0
            },
    {
        let ghost f = old(gpu).faults();
        let ghost g0 = *old(gpu);

        // Create vertex array.
        let vao = gpu.create_vertex_array();
        proof {
            lemma_owns_after_push(g0, *gpu, vao);
        }
        if let Err(e) = check_gl(gpu, "glCreateVertexArrays") {
            gpu.delete_vertex_array(vao);
            proof {
                assert(faults_clear(f, 0));
                assert(fault_batch(f, 0).len() > 0);
            }
            return Err(e);
        }
        proof {
            lemma_faults_clear_split(f, 1, 1);
        }

        // Enable vertex attributes.
        if let Err(e) = try_gl_at(
            gpu,
            Ghost(f),
            Ghost(1),
            GlCall::EnableVertexArrayAttrib { vertex_array: vao, attrib: 0 },
            "glEnableVertexArrayAttrib",
        ) {
            proof {
                lemma_owns_after_push(g0, *gpu, vao);
            }
            gpu.delete_vertex_array(vao);
            return Err(e);
        }
        if let Err(e) = try_gl_at(
            gpu,
            Ghost(f),
            Ghost(2),
            GlCall::EnableVertexArrayAttrib { vertex_array: vao, attrib: 1 },
            "glEnableVertexArrayAttrib",
        ) {
            proof {
                lemma_owns_after_push(g0, *gpu, vao);
            }
            gpu.delete_vertex_array(vao);
            return Err(e);
        }
        if let Err(e) = try_gl_at(
            gpu,
            Ghost(f),
            Ghost(3),
            GlCall::EnableVertexArrayAttrib { vertex_array: vao, attrib: 2 },
            "glEnableVertexArrayAttrib",
        ) {
            proof {
                lemma_owns_after_push(g0, *gpu, vao);
            }
            gpu.delete_vertex_array(vao);
            return Err(e);
        }
        if let Err(e) = try_gl_at(
            gpu,
            Ghost(f),
            Ghost(4),
            GlCall::EnableVertexArrayAttrib { vertex_array: vao, attrib: 3 },
            "glEnableVertexArrayAttrib",
        ) {
            proof {
                lemma_owns_after_push(g0, *gpu, vao);
            }
            gpu.delete_vertex_array(vao);
            return Err(e);
        }

        // Associate the attributes with the sole binding.
        if let Err(e) = try_gl_at(
            gpu,
            Ghost(f),
            Ghost(5),
            GlCall::VertexArrayAttribBinding { vertex_array: vao, attrib: 0, binding: 0 },
            "glVertexArrayAttribBinding",
        ) {
            proof {
                lemma_owns_after_push(g0, *gpu, vao);
            }
            gpu.delete_vertex_array(vao);
            return Err(e);
        }
        if let Err(e) = try_gl_at(
            gpu,
            Ghost(f),
            Ghost(6),
            GlCall::VertexArrayAttribBinding { vertex_array: vao, attrib: 1, binding: 0 },
            "glVertexArrayAttribBinding",
        ) {
            proof {
                lemma_owns_after_push(g0, *gpu, vao);
            }
            gpu.delete_vertex_array(vao);
            return Err(e);
        }
        if let Err(e) = try_gl_at(
            gpu,
            Ghost(f),
            Ghost(7),
            GlCall::VertexArrayAttribBinding { vertex_array: vao, attrib: 2, binding: 0 },
            "glVertexArrayAttribBinding",
        ) {
            proof {
                lemma_owns_after_push(g0, *gpu, vao);
            }
            gpu.delete_vertex_array(vao);
            return Err(e);
        }
        if let Err(e) = try_gl_at(
            gpu,
            Ghost(f),
            Ghost(8),
            GlCall::VertexArrayAttribBinding { vertex_array: vao, attrib: 3, binding: 0 },
            "glVertexArrayAttribBinding",
        ) {
            proof {
                lemma_owns_after_push(g0, *gpu, vao);
            }
            gpu.delete_vertex_array(vao);
            return Err(e);
        }

        // Configure the formats of the attributes.
        if let Err(e) = try_gl_at(
            gpu,
            Ghost(f),
            Ghost(9),
            GlCall::VertexArrayAttribIFormat {
                vertex_array: vao,
                attrib: 0,
                size: 1,
                component_type: UNSIGNED_BYTE,
                offset: 0,
            },
            "glVertexArrayAttribIFormat",
        ) {
            proof {
                lemma_owns_after_push(g0, *gpu, vao);
            }
            gpu.delete_vertex_array(vao);
            return Err(e);
        }
        if let Err(e) = try_gl_at(
            gpu,
            Ghost(f),
            Ghost(10),
            GlCall::VertexArrayAttribIFormat {
                vertex_array: vao,
                attrib: 1,
                size: 1,
                component_type: UNSIGNED_BYTE,
                offset: 1,
            },
            "glVertexArrayAttribIFormat",
        ) {
            proof {
                lemma_owns_after_push(g0, *gpu, vao);
            }
            gpu.delete_vertex_array(vao);
            return Err(e);
        }
        if let Err(e) = try_gl_at(
            gpu,
            Ghost(f),
            Ghost(11),
            GlCall::VertexArrayAttribIFormat {
                vertex_array: vao,
                attrib: 2,
                size: 1,
                component_type: UNSIGNED_SHORT,
                offset: 2,
            },
            "glVertexArrayAttribIFormat",
        ) {
            proof {
                lemma_owns_after_push(g0, *gpu, vao);
            }
            gpu.delete_vertex_array(vao);
            return Err(e);
        }
        if let Err(e) = try_gl_at(
            gpu,
            Ghost(f),
            Ghost(12),
            GlCall::VertexArrayAttribIFormat {
                vertex_array: vao,
                attrib: 3,
                size: 1,
                component_type: UNSIGNED_SHORT,
                offset: 4,
            },
            "glVertexArrayAttribIFormat",
        ) {
            proof {
                lemma_owns_after_push(g0, *gpu, vao);
            }
            gpu.delete_vertex_array(vao);
            return Err(e);
        }

        // There is only one buffer entry for each face, and faces consist of
        // four vertices (its corners), so drawing must advance the stream
        // only once every four instances.
        if let Err(e) = try_gl_at(
            gpu,
            Ghost(f),
            Ghost(13),
            GlCall::VertexArrayBindingDivisor { vertex_array: vao, binding: 0, divisor: 4 },
            "glVertexArrayBindingDivisor",
        ) {
            proof {
                lemma_owns_after_push(g0, *gpu, vao);
            }
            gpu.delete_vertex_array(vao);
            return Err(e);
        }
        proof {
            assert(gpu.log@ =~= g0.log@ + vertex_array_calls(vao));
        }
        Ok(vao)
    }

    /// Begin a render: select the program and layout, configure culling,
    /// and bind the atlas size once for the whole call.
    fn pre_render(&self, gpu: &mut Gpu, atlas_size: &crate::math::IVec2) -> (r: Result<
        (),
        GraphicsApiError,
    >)
        requires
            old(gpu).ready(),
        ensures
            final(gpu).ready(),
            final(gpu).live@ == old(gpu).live@,
            final(gpu).next_handle == old(gpu).next_handle,
            old(gpu).log@.is_prefix_of(final(gpu).log@),
            r is Ok <==> faults_clear(old(gpu).faults(), 6),
            r is Ok ==> final(gpu).log@ == old(gpu).log@ + pre_render_calls(
                self.program.raw,
                self.vertex_array,
                *atlas_size,
            ) && final(gpu).faults() == faults_after(old(gpu).faults(), 6),
            r matches Err(e) ==> exists|k: int|
                0 <= k < 6 && faults_clear(old(gpu).faults(), k) && e.errors.codes()
                    == #[trigger] fault_batch(old(gpu).faults(), k) && fault_batch(
                    old(gpu).faults(),
                    k,
                ).len() > 0,
    {
        let ghost f = old(gpu).faults();
        let ghost g0 = *old(gpu);
        proof {
            assert(g0.faults() =~= faults_after(f, 0));
        }
        if let Err(e) = try_gl_at(
            gpu,
            Ghost(f),
            Ghost(0),
            GlCall::UseProgram { program: self.program.as_raw() },
            "glUseProgram",
        ) {
            return Err(e);
        }
        if let Err(e) = try_gl_at(
            gpu,
            Ghost(f),
            Ghost(1),
            GlCall::BindVertexArray { vertex_array: self.vertex_array },
            "glBindVertexArray",
        ) {
            return Err(e);
        }
        if let Err(e) = try_gl_at(
            gpu,
            Ghost(f),
            Ghost(2),
            GlCall::Enable { capability: CULL_FACE },
            "glEnable",
        ) {
            return Err(e);
        }
        if let Err(e) = try_gl_at(gpu, Ghost(f), Ghost(3), GlCall::CullFace { mode: BACK }, "glCullFace") {
            return Err(e);
        }
        if let Err(e) = try_gl_at(
            gpu,
            Ghost(f),
            Ghost(4),
            GlCall::FrontFace { mode: CCW },
            "glFrontFace",
        ) {
            return Err(e);
        }

        // Set uniforms common to all chunks.
        let ghost fb = gpu.faults();
        let r = atlas_size.gl_uniform(gpu, 1);
        proof {
            lemma_consume_one(f, 5, fb, gpu.faults());
            if r is Ok {
                lemma_clear_extend(f, 5);
            }
        }
        if let Err(e) = r {
            return Err(e);
        }
        proof {
            assert(gpu.log@ =~= g0.log@ + pre_render_calls(
                self.program.raw,
                self.vertex_array,
                *atlas_size,
            ));
        }
        Ok(())
    }

    /// Render a collection of sets of trivial block faces.
    ///
    /// `atlas_size` is the number of textures along each axis of the texture
    /// atlas; `vp_matrix` is the view-projection matrix to apply to each
    /// face.  For each face set, in the caller's order, the chunk's
    /// model-view-projection matrix is bound, the face buffer is bound, and
    /// one instanced draw is issued with instance count four times the face
    /// count.  Any driver error aborts the remainder of the render and
    /// surfaces the first offending call's error; draws already issued stay
    /// issued.
    #[verifier::rlimit(50)]
    pub fn render(
        &self,
        gpu: &mut Gpu,
        atlas_size: &crate::math::IVec2,
        vp_matrix: &glam::Mat4,
        models: &[FaceSet],
    ) -> (r: Result<(), GraphicsApiError>)
        requires
            old(gpu).ready(),
            forall|i: int| 0 <= i < models@.len() ==> (#[trigger] models@[i]).wf(),
        ensures
            ({
                let trace = render_calls(
                    self.program.raw,
                    self.vertex_array,
                    *atlas_size,
                    *vp_matrix,
                    models@,
                );
                &&& final(gpu).ready()
                &&& final(gpu).live@ == old(gpu).live@
                &&& final(gpu).next_handle == old(gpu).next_handle
                &&& old(gpu).log@.is_prefix_of(final(gpu).log@)
                &&& (r is Ok <==> faults_clear(old(gpu).faults(), trace.len() as int))
                &&& (r is Ok ==> final(gpu).log@ == old(gpu).log@ + trace && final(gpu).faults()
                    == faults_after(old(gpu).faults(), trace.len() as int))
                &&& (r matches Err(e) ==> exists|k: int|
                    0 <= k < trace.len() && faults_clear(old(gpu).faults(), k) && e.errors.codes()
                        == #[trigger] fault_batch(old(gpu).faults(), k) && fault_batch(
                        old(gpu).faults(),
                        k,
                    ).len() > 0)
            }),
    {
        let ghost f = old(gpu).faults();
        let ghost g0 = *old(gpu);
        let ghost vp = *vp_matrix;
        let ghost trace = render_calls(
            self.program.raw,
            self.vertex_array,
            *atlas_size,
            vp,
            models@,
        );
        let ghost pre = pre_render_calls(self.program.raw, self.vertex_array, *atlas_size);

        if let Err(e) = self.pre_render(gpu, atlas_size) {
            proof {
                assert(trace.len() >= 6);
            }
            return Err(e);
        }
        proof {
            assert(models@.take(0) =~= Seq::<FaceSet>::empty());
            assert(face_sets_calls(vp, models@.take(0)) =~= Seq::<GlCall>::empty());
            assert(gpu.log@ =~= g0.log@ + pre + face_sets_calls(vp, models@.take(0)));
            assert(models@.skip(0) =~= models@);
            assert(gpu.log@.len() as int - g0.log@.len() as int + face_sets_calls(
                vp,
                models@.skip(0),
            ).len() == trace.len());
        }

        let mut i: usize = 0;
        while i < models.len()
            invariant
                g0 == *old(gpu),
                f == g0.faults(),
                g0.ready(),
                vp == *vp_matrix,
                forall|k: int| 0 <= k < models@.len() ==> (#[trigger] models@[k]).wf(),
                trace == render_calls(
                    self.program.raw,
                    self.vertex_array,
                    *atlas_size,
                    vp,
                    models@,
                ),
                pre == pre_render_calls(self.program.raw, self.vertex_array, *atlas_size),
                i <= models@.len(),
                gpu.ready(),
                gpu.live@ == g0.live@,
                gpu.next_handle == g0.next_handle,
                gpu.log@ == g0.log@ + pre + face_sets_calls(vp, models@.take(i as int)),
                gpu.log@.len() as int - g0.log@.len() as int + face_sets_calls(
                    vp,
                    models@.skip(i as int),
                ).len() == trace.len(),
                faults_clear(f, gpu.log@.len() as int - g0.log@.len() as int),
                gpu.faults() == faults_after(f, gpu.log@.len() as int - g0.log@.len() as int),
            decreases models@.len() - i,
        {
            let model = &models[i];
            proof {
                assert(models@.skip(i as int)[0] == models@[i as int]);
                assert(models@.skip(i as int).skip(1) =~= models@.skip(i as int + 1));
                assert(face_sets_calls(vp, models@.skip(i as int)) == face_set_calls(
                    vp,
                    models@[i as int],
                ) + face_sets_calls(vp, models@.skip(i as int + 1)));
                assert(models@[i as int].wf());
            }
            let ghost m0 = gpu.log@.len() as int - g0.log@.len() as int;

            // Compute the chunk's world translation and bind the chunk's
            // model-view-projection matrix to slot 2.
            let translation = model.chunk_position.scale(16);
            let chunk_mvp = ChunkMvpUniform { vp: *vp_matrix, translation };
            let ghost fb = gpu.faults();
            let r1 = chunk_mvp.gl_uniform(gpu, 2);
            proof {
                assert(translation == chunk_translation(models@[i as int].chunk_position));
                lemma_consume_one(f, m0, fb, gpu.faults());
                if r1 is Ok {
                    lemma_clear_extend(f, m0);
                }
            }
            if let Err(e) = r1 {
                proof {
                    assert(m0 < trace.len());
                }
                return Err(e);
            }

            // Select the buffer to read faces from.
            if let Err(e) = try_gl_at(
                gpu,
                Ghost(f),
                Ghost(m0 + 1),
                GlCall::BindVertexBuffer {
                    binding: 0,
                    buffer: model.faces.as_raw(),
                    offset: 0,
                    stride: 6,
                },
                "glBindVertexBuffer",
            ) {
                proof {
                    assert(m0 + 1 < trace.len());
                }
                return Err(e);
            }

            // Draw all the faces in a single instanced draw call.  The
            // stream divisor is 4, so four instances advance the stream by
            // exactly one face record.
            if let Err(e) = try_gl_at(
                gpu,
                Ghost(f),
                Ghost(m0 + 2),
                GlCall::DrawArraysInstanced {
                    mode: TRIANGLE_FAN,
                    first: 0,
                    count: 4,
                    instance_count: 4 * model.faces.len(),
                },
                "glDrawArraysInstanced",
            ) {
                proof {
                    assert(m0 + 2 < trace.len());
                }
                return Err(e);
            }
            proof {
                lemma_face_sets_calls_snoc(vp, models@, i as int);
                assert(gpu.log@ =~= g0.log@ + pre + face_sets_calls(
                    vp,
                    models@.take(i as int + 1),
                ));
            }
            i += 1;
        }
        proof {
            assert(models@.take(models@.len() as int) =~= models@);
            assert(models@.skip(models@.len() as int) =~= Seq::<FaceSet>::empty());
            assert(face_sets_calls(vp, models@.skip(models@.len() as int)) =~= Seq::<
                GlCall,
            >::empty());
            assert(gpu.log@ =~= g0.log@ + trace);
        }
        Ok(())
    }
}

} // verus!
