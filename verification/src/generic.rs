//! Pipeline for rendering triangle meshes.
//!
//! The pipeline links a vertex stage, specialized with the bone count, with
//! the shared fragment shader, and describes one vertex stream of
//! position (3 floats at offset 0), texture coordinates (2 floats at offset
//! 12) and bone index (1 unsigned integer at offset 20), stride 24 bytes.

pub use self::fragment_shader::FragmentShader;

mod fragment_shader;

use vstd::prelude::*;
use crate::gl_buffer::GlBuffer;
use crate::gl_consts::{
    BACK, CCW, CULL_FACE, ELEMENT_ARRAY_BUFFER, FLOAT, SHADER_BINARY_FORMAT_SPIR_V, TRIANGLES,
    UNSIGNED_INT, VERTEX_SHADER,
};
use crate::gl_error::{check_gl, try_gl_at, GraphicsApiError};
use crate::gl_program::{program_calls, GlProgram};
use crate::gl_shader::GlShader;
use crate::gl_uniform::{GlUniform, MvpUniform};
use crate::gpu::{
    fault_batch, faults_after, faults_clear, handles_preserved, lemma_clear_extend,
    lemma_consume_one, lemma_faults_clear_split, lemma_fault_witness_shift,
    lemma_owns_after_push, Gpu, GlCall,
};

verus! {

/// Maximum number of bones supported.
///
/// The host-side bone array size and the shader-side specialization constant
/// are kept in lockstep through this one value: it is baked into the vertex
/// shader as specialization constant 0 at pipeline construction, and it is
/// the length of [`Instance::bone_matrices`].  No runtime check enforces the
/// coupling beyond that shared definition.
pub const BONES: usize = 6;

/// Vertex in a model's vertex buffer.
#[derive(Clone, Copy)]
pub struct Vertex {
    /// Position of the vertex in model space.
    pub position: glam::Vec3,
    /// Texture coordinates of the vertex.
    pub texcoord: glam::Vec2,
    /// Index of the bone to apply.
    ///
    /// Exactly one bone is applied to each vertex.  To apply no bone, set
    /// the bone to the identity matrix.
    pub bone: u32,
}

/// Vertex and index buffer for a model.
pub struct Model {
    /// The vertices of the model.
    pub vertices: GlBuffer<Vertex>,
    /// The vertex indices of the model.
    pub indices: GlBuffer<u32>,
}

/// Parameters for a single rendering of a model.
pub struct Instance {
    /// Model matrix for the instance.
    pub m_matrix: glam::Mat4,
    /// Bone matrices for the instance.
    pub bone_matrices: [glam::Mat4; BONES],
}

/// Pipeline for rendering triangle meshes.
pub struct Pipeline {
    /// The linked program: specialized vertex stage plus shared fragment
    /// stage.
    pub program: GlProgram,
    /// The vertex-layout descriptor's handle.
    pub vertex_array: u64,
}

/// The checked calls that build the pipeline's vertex-layout descriptor:
/// three attributes on one stream, matching the [`Vertex`] record layout.
pub open spec fn vertex_array_calls(vao: u64) -> Seq<GlCall> {
    seq![
        GlCall::CreateVertexArrays { vertex_array: vao },
        GlCall::EnableVertexArrayAttrib { vertex_array: vao, attrib: 0 },
        GlCall::EnableVertexArrayAttrib { vertex_array: vao, attrib: 1 },
        GlCall::EnableVertexArrayAttrib { vertex_array: vao, attrib: 2 },
        GlCall::VertexArrayAttribBinding { vertex_array: vao, attrib: 0, binding: 0 },
        GlCall::VertexArrayAttribBinding { vertex_array: vao, attrib: 1, binding: 0 },
        GlCall::VertexArrayAttribBinding { vertex_array: vao, attrib: 2, binding: 0 },
        GlCall::VertexArrayAttribFormat {
            vertex_array: vao,
            attrib: 0,
            size: 3,
            component_type: FLOAT,
            normalized: false,
            offset: 0,
        },
        GlCall::VertexArrayAttribFormat {
            vertex_array: vao,
            attrib: 1,
            size: 2,
            component_type: FLOAT,
            normalized: false,
            offset: 12,
        },
        GlCall::VertexArrayAttribIFormat {
            vertex_array: vao,
            attrib: 2,
            size: 1,
            component_type: UNSIGNED_INT,
            offset: 20,
        },
    ]
}

/// The calls that begin every render: select the program and layout and
/// enable back-face culling with counter-clockwise front faces.
pub open spec fn pre_render_calls(program: u64, vertex_array: u64) -> Seq<GlCall> {
    seq![
        GlCall::UseProgram { program },
        GlCall::BindVertexArray { vertex_array },
        GlCall::Enable { capability: CULL_FACE },
        GlCall::CullFace { mode: BACK },
        GlCall::FrontFace { mode: CCW },
    ]
}

/// The two calls that bind a model's buffers, issued once per (model,
/// instance-list) pair however many instances follow.
pub open spec fn model_bind_calls(model: Model) -> Seq<GlCall> {
    seq![
        GlCall::BindVertexBuffer {
            binding: 0,
            buffer: model.vertices.raw,
            offset: 0,
            stride: 24,
        },
        GlCall::BindBuffer { target: ELEMENT_ARRAY_BUFFER, buffer: model.indices.raw },
    ]
}

/// The calls that draw one instance of a model: bind the model-view-
/// projection matrix to slot 0, bind the bone matrix array to slot 1, and
/// issue an indexed triangle draw of the model's whole index buffer.
pub open spec fn instance_calls(vp: glam::Mat4, model: Model, instance: Instance) -> Seq<GlCall> {
    seq![
        GlCall::UniformMvp { location: 0, vp, model: instance.m_matrix },
        GlCall::UniformBones { location: 1, matrices: instance.bone_matrices },
        GlCall::DrawElements {
            mode: TRIANGLES,
            count: model.indices.len,
            index_type: UNSIGNED_INT,
        },
    ]
}

/// The draw calls for a list of instances of one model, in list order.
pub open spec fn instances_calls(
    vp: glam::Mat4,
    model: Model,
    instances: Seq<Instance>,
) -> Seq<GlCall>
    decreases instances.len(),
{
    if instances.len() <= 0 {
        Seq::empty()
    } else {
        instance_calls(vp, model, instances[0]) + instances_calls(vp, model, instances.skip(1))
    }
}

/// The calls for one (model, instance-list) pair: bind the model's buffers
/// once, then draw each instance.
pub open spec fn model_calls(vp: glam::Mat4, model: Model, instances: Seq<Instance>) -> Seq<
    GlCall,
> {
    model_bind_calls(model) + instances_calls(vp, model, instances)
}

/// The calls for a list of (model, instance-list) pairs, in list order.
pub open spec fn models_calls(vp: glam::Mat4, models: Seq<(Model, Vec<Instance>)>) -> Seq<GlCall>
    decreases models.len(),
{
    if models.len() <= 0 {
        Seq::empty()
    } else {
        model_calls(vp, models[0].0, models[0].1@) + models_calls(vp, models.skip(1))
    }
}

/// Every checked call of one whole render, in order.
pub open spec fn render_calls(
    program: u64,
    vertex_array: u64,
    vp: glam::Mat4,
    models: Seq<(Model, Vec<Instance>)>,
) -> Seq<GlCall> {
    pre_render_calls(program, vertex_array) + models_calls(vp, models)
}

/// Taking one more pair appends exactly that pair's calls.
pub proof fn lemma_models_calls_snoc(vp: glam::Mat4, s: Seq<(Model, Vec<Instance>)>, i: int)
    requires
        0 <= i < s.len(),
    ensures
        models_calls(vp, s.take(i + 1)) == models_calls(vp, s.take(i)) + model_calls(
            vp,
            s[i].0,
            s[i].1@,
        ),
    decreases i,
{
    if i == 0 {
        assert(s.take(1)[0] == s[0]);
        assert(s.take(1).skip(1) =~= Seq::<(Model, Vec<Instance>)>::empty());
        assert(s.take(0) =~= Seq::<(Model, Vec<Instance>)>::empty());
        assert(models_calls(vp, s.take(1)) =~= models_calls(vp, s.take(0)) + model_calls(
            vp,
            s[0].0,
            s[0].1@,
        ));
    } else {
        lemma_models_calls_snoc(vp, s.skip(1), i - 1);
        assert(s.take(i + 1)[0] == s[0]);
        assert(s.take(i)[0] == s[0]);
        assert(s.take(i + 1).skip(1) =~= s.skip(1).take(i));
        assert(s.take(i).skip(1) =~= s.skip(1).take(i - 1));
        assert(s.skip(1)[i - 1] == s[i]);
        assert(models_calls(vp, s.take(i + 1)) == model_calls(vp, s[0].0, s[0].1@) + models_calls(
            vp,
            s.skip(1).take(i),
        ));
        assert(models_calls(vp, s.take(i)) == model_calls(vp, s[0].0, s[0].1@) + models_calls(
            vp,
            s.skip(1).take(i - 1),
        ));
        assert(models_calls(vp, s.take(i + 1)) =~= models_calls(vp, s.take(i)) + model_calls(
            vp,
            s[i].0,
            s[i].1@,
        ));
    }
}

/// Taking one more instance appends exactly that instance's calls.
pub proof fn lemma_instances_calls_snoc(
    vp: glam::Mat4,
    model: Model,
    s: Seq<Instance>,
    j: int,
)
    requires
        0 <= j < s.len(),
    ensures
        instances_calls(vp, model, s.take(j + 1)) == instances_calls(vp, model, s.take(j))
            + instance_calls(vp, model, s[j]),
    decreases j,
{
    if j == 0 {
        assert(s.take(1)[0] == s[0]);
        assert(s.take(1).skip(1) =~= Seq::<Instance>::empty());
        assert(s.take(0) =~= Seq::<Instance>::empty());
        assert(instances_calls(vp, model, s.take(1)) =~= instances_calls(vp, model, s.take(0))
            + instance_calls(vp, model, s[0]));
    } else {
        lemma_instances_calls_snoc(vp, model, s.skip(1), j - 1);
        assert(s.take(j + 1)[0] == s[0]);
        assert(s.take(j)[0] == s[0]);
        assert(s.take(j + 1).skip(1) =~= s.skip(1).take(j));
        assert(s.take(j).skip(1) =~= s.skip(1).take(j - 1));
        assert(s.skip(1)[j - 1] == s[j]);
        assert(instances_calls(vp, model, s.take(j + 1)) == instance_calls(vp, model, s[0])
            + instances_calls(vp, model, s.skip(1).take(j)));
        assert(instances_calls(vp, model, s.take(j)) == instance_calls(vp, model, s[0])
            + instances_calls(vp, model, s.skip(1).take(j - 1)));
        assert(instances_calls(vp, model, s.take(j + 1)) =~= instances_calls(
            vp,
            model,
            s.take(j),
        ) + instance_calls(vp, model, s[j]));
    }
}


/// The number of vertex-stream bind calls in a call sequence.
pub open spec fn count_binds(s: Seq<GlCall>) -> int
    decreases s.len(),
{
    if s.len() <= 0 {
        0
    } else {
        (if s[0] is BindVertexBuffer {
            1int
        } else {
            0int
        }) + count_binds(s.skip(1))
    }
}

/// Bind counts add over concatenation.
pub proof fn lemma_count_binds_concat(a: Seq<GlCall>, b: Seq<GlCall>)
    ensures
        count_binds(a + b) == count_binds(a) + count_binds(b),
    decreases a.len(),
{
    if a.len() == 0 {
        assert(a + b =~= b);
    } else {
        lemma_count_binds_concat(a.skip(1), b);
        assert((a + b)[0] == a[0]);
        assert((a + b).skip(1) =~= a.skip(1) + b);
    }
}

/// The calls that draw a model's instances never bind a vertex stream.
proof fn lemma_instances_calls_no_bind(vp: glam::Mat4, model: Model, insts: Seq<Instance>)
    ensures
        count_binds(instances_calls(vp, model, insts)) == 0,
    decreases insts.len(),
{
    if insts.len() > 0 {
        lemma_instances_calls_no_bind(vp, model, insts.skip(1));
        let ic = instance_calls(vp, model, insts[0]);
        lemma_count_binds_concat(ic, instances_calls(vp, model, insts.skip(1)));
        let s1 = ic.skip(1);
        let s2 = s1.skip(1);
        let s3 = s2.skip(1);
        assert(s1[0] == ic[1]);
        assert(s2[0] == ic[2]);
        assert(s3 =~= Seq::<GlCall>::empty());
        assert(count_binds(s3) == 0);
        assert(count_binds(s2) == 0);
        assert(count_binds(s1) == 0);
        assert(count_binds(ic) == 0);
    }
}

/// Batching law: however many instances each list holds, the calls of one
/// render bind a model's vertex buffer exactly once per (model,
/// instance-list) pair supplied.  The caller controls batching by how it
/// groups instances under models.
pub proof fn lemma_model_bound_once_per_pair(vp: glam::Mat4, models: Seq<(Model, Vec<Instance>)>)
    ensures
        count_binds(models_calls(vp, models)) == models.len(),
    decreases models.len(),
{
    if models.len() == 0 {
        assert(count_binds(models_calls(vp, models)) == 0);
    } else {
        lemma_model_bound_once_per_pair(vp, models.skip(1));
        let mc = model_calls(vp, models[0].0, models[0].1@);
        lemma_count_binds_concat(mc, models_calls(vp, models.skip(1)));
        let mb = model_bind_calls(models[0].0);
        lemma_count_binds_concat(mb, instances_calls(vp, models[0].0, models[0].1@));
        lemma_instances_calls_no_bind(vp, models[0].0, models[0].1@);
        let t1 = mb.skip(1);
        let t2 = t1.skip(1);
        assert(t1[0] == mb[1]);
        assert(t2 =~= Seq::<GlCall>::empty());
        assert(count_binds(t2) == 0);
        assert(count_binds(t1) == 0);
        assert(count_binds(mb) == 1);
    }
}

impl Pipeline {
    /// Compile the pipeline.
    ///
    /// The vertex module is compiled with one specialization constant, index
    /// 0, bound to the bone count, linked with the shared fragment shader,
    /// and released once linked.  The vertex-layout descriptor is then
    /// built.  A failure at any sub-step releases everything this call had
    /// already allocated.
    pub fn new(gpu: &mut Gpu, fragment_shader: &FragmentShader, vertex_shader_binary: &[u8]) -> (r:
        Result<Pipeline, GraphicsApiError>)
        requires
            old(gpu).ready(),
            old(gpu).can_allocate(3),
        ensures
            final(gpu).ready(),
            r is Ok <==> faults_clear(old(gpu).faults(), 19),
            r is Ok ==> final(gpu).faults() == faults_after(old(gpu).faults(), 19),
            r matches Ok(p) ==> ({
                let b = old(gpu).log@.len() as int;
                let vs = old(gpu).next_handle;
                &&& p.program.raw == old(gpu).next_handle + 1
                &&& p.vertex_array == old(gpu).next_handle + 2
                &&& !old(gpu).owns(p.program.raw)
                &&& !old(gpu).owns(p.vertex_array)
                &&& forall|x: u64|
                    final(gpu).owns(x) <==> (old(gpu).owns(x) || x == p.program.raw || x
                        == p.vertex_array)
                &&& final(gpu).next_handle == old(gpu).next_handle + 3
                &&& final(gpu).log@.len() == b + 20
                &&& final(gpu).log@.subrange(0, b) == old(gpu).log@
                &&& final(gpu).log@[b] == (GlCall::CreateShader {
                    shader: vs,
                    shader_type: VERTEX_SHADER,
                })
                &&& (final(gpu).log@[b + 1] matches GlCall::ShaderBinary { shader, format, binary }
                    && shader == vs && format == SHADER_BINARY_FORMAT_SPIR_V && binary@
                    == vertex_shader_binary@)
                &&& (final(gpu).log@[b + 2] matches GlCall::SpecializeShader {
                    shader,
                    constant_indices: ci,
                    constant_values: cv,
                } && shader == vs && ci@ == seq![0u32] && cv@ == seq![BONES as u32])
                &&& final(gpu).log@.subrange(b + 3, b + 9) == program_calls(
                    p.program.raw,
                    seq![vs, fragment_shader.inner.raw],
                )
                &&& final(gpu).log@[b + 9] == (GlCall::DeleteShader { shader: vs })
                &&& final(gpu).log@.subrange(b + 10, b + 20) == vertex_array_calls(p.vertex_array)
            }),
            r matches Err(e) ==> {
                &&& handles_preserved(*old(gpu), *final(gpu))
                &&& exists|k: int|
                    0 <= k < 19 && faults_clear(old(gpu).faults(), k) && e.errors.codes()
                        == #[trigger] fault_batch(old(gpu).faults(), k) && fault_batch(
                        old(gpu).faults(),
                        k,
                    ).len() > 0
            },
    {
        let ghost f = old(gpu).faults();
        let ghost g0 = *old(gpu);
        let program = match Self::make_program(gpu, fragment_shader, vertex_shader_binary) {
            Ok(p) => p,
            Err(e) => {
                return Err(e);
            },
        };
        let ghost g1 = *gpu;
        match Self::make_vertex_array(gpu) {
            Ok(vertex_array) => {
                proof {
                    lemma_faults_clear_split(f, 9, 10);
                    assert(faults_after(faults_after(f, 9), 10) =~= faults_after(f, 19));
                    assert(final(gpu).log@.subrange(0, g0.log@.len() as int) =~= g0.log@);
                    assert(final(gpu).log@.subrange(g0.log@.len() as int + 3, g0.log@.len() as int
                        + 9) =~= g1.log@.subrange(g0.log@.len() as int + 3, g0.log@.len() as int
                        + 9));
                    assert(final(gpu).log@.subrange(g0.log@.len() as int + 10, g0.log@.len() as int
                        + 20) =~= vertex_array_calls(vertex_array));
                    lemma_owns_after_push(g1, *gpu, vertex_array);
                }
                Ok(Pipeline { program, vertex_array })
            },
            Err(e) => {
                proof {
                    assert(gpu.owns(program.raw));
                }
                program.release(gpu);
                proof {
                    lemma_faults_clear_split(f, 9, 10);
                    lemma_fault_witness_shift(f, 9, 10, e.errors.codes());
                }
                Err(e)
            },
        }
    }

    /// Compile the vertex module, link it with the shared fragment shader,
    /// and release the module.
    fn make_program(
        gpu: &mut Gpu,
        fragment_shader: &FragmentShader,
        vertex_shader_binary: &[u8],
    ) -> (r: Result<GlProgram, GraphicsApiError>)
        requires
            old(gpu).ready(),
            old(gpu).can_allocate(2),
        ensures
            final(gpu).ready(),
            r is Ok <==> faults_clear(old(gpu).faults(), 9),
            r is Ok ==> final(gpu).faults() == faults_after(old(gpu).faults(), 9),
            r matches Ok(p) ==> ({
                let b = old(gpu).log@.len() as int;
                let vs = old(gpu).next_handle;
                &&& p.raw == old(gpu).next_handle + 1
                &&& !old(gpu).owns(p.raw)
                &&& forall|x: u64| final(gpu).owns(x) <==> (old(gpu).owns(x) || x == p.raw)
                &&& final(gpu).next_handle == old(gpu).next_handle + 2
                &&& final(gpu).log@.len() == b + 10
                &&& final(gpu).log@.subrange(0, b) == old(gpu).log@
                &&& final(gpu).log@[b] == (GlCall::CreateShader {
                    shader: vs,
                    shader_type: VERTEX_SHADER,
                })
                &&& (final(gpu).log@[b + 1] matches GlCall::ShaderBinary { shader, format, binary }
                    && shader == vs && format == SHADER_BINARY_FORMAT_SPIR_V && binary@
                    == vertex_shader_binary@)
                &&& (final(gpu).log@[b + 2] matches GlCall::SpecializeShader {
                    shader,
                    constant_indices: ci,
                    constant_values: cv,
                } && shader == vs && ci@ == seq![0u32] && cv@ == seq![BONES as u32])
                &&& final(gpu).log@.subrange(b + 3, b + 9) == program_calls(
                    p.raw,
                    seq![vs, fragment_shader.inner.raw],
                )
                &&& final(gpu).log@[b + 9] == (GlCall::DeleteShader { shader: vs })
            }),
            r matches Err(e) ==> {
                &&& handles_preserved(*old(gpu), *final(gpu))
                &&& exists|k: int|
                    0 <= k < 9 && faults_clear(old(gpu).faults(), k) && e.errors.codes()
                        == #[trigger] fault_batch(old(gpu).faults(), k) && fault_batch(
                        old(gpu).faults(),
                        k,
                    ).len() > 0
            },
    {
        let ghost f = old(gpu).faults();
        let ghost g0 = *old(gpu);
        let constant_indices: [u32; 1] = [0];
        let constant_values: [u32; 1] = [BONES as u32];
        let vertex_shader = match GlShader::new(
            gpu,
            VERTEX_SHADER,
            vertex_shader_binary,
            &constant_indices,
            &constant_values,
        ) {
            Ok(s) => s,
            Err(e) => {
                return Err(e);
            },
        };
        let ghost g1 = *gpu;
        let program = match GlProgram::new(gpu, &[&vertex_shader, fragment_shader.as_shader()]) {
            Ok(p) => p,
            Err(e) => {
                proof {
                    lemma_owns_after_push(g0, g1, vertex_shader.raw);
                }
                vertex_shader.release(gpu);
                proof {
                    lemma_faults_clear_split(f, 3, 6);
                    lemma_fault_witness_shift(f, 3, 6, e.errors.codes());
                }
                return Err(e);
            },
        };
        let ghost g2 = *gpu;
        proof {
            lemma_owns_after_push(g0, g1, vertex_shader.raw);
            lemma_owns_after_push(g1, g2, program.raw);
        }
        let ghost vs_raw = vertex_shader.raw;
        vertex_shader.release(gpu);
        proof {
            lemma_faults_clear_split(f, 3, 6);
            assert(faults_after(faults_after(f, 3), 6) =~= faults_after(f, 9));
            let b = g0.log@.len() as int;
            assert(g2.log@.len() == b + 9);
            assert(final(gpu).log@.len() == b + 10);
            assert(final(gpu).log@.subrange(0, b) =~= g0.log@);
            assert(final(gpu).log@.subrange(b + 3, b + 9) =~= program_calls(
                program.raw,
                seq![vs_raw, fragment_shader.inner.raw],
            ));
        }
        Ok(program)
    }

    /// Build the vertex-layout descriptor.
    fn make_vertex_array(gpu: &mut Gpu) -> (r: Result<u64, GraphicsApiError>)
        requires
            old(gpu).ready(),
            old(gpu).can_allocate(1),
        ensures
            final(gpu).ready(),
            final(gpu).next_handle == old(gpu).next_handle + 1,
            r is Ok <==> faults_clear(old(gpu).faults(), 10),
            r is Ok ==> final(gpu).faults() == faults_after(old(gpu).faults(), 10),
            r matches Ok(vao) ==> {
                &&& vao == old(gpu).next_handle
                &&& !old(gpu).owns(vao)
                &&& forall|x: u64| final(gpu).owns(x) <==> (old(gpu).owns(x) || x == vao)
                &&& final(gpu).live@ == old(gpu).live@.push(vao)
                &&& final(gpu).log@ == old(gpu).log@ + vertex_array_calls(vao)
            },
            r matches Err(e) ==> {
                &&& handles_preserved(*old(gpu), *final(gpu))
                &&& exists|k: int|
                    0 <= k < 10 && faults_clear(old(gpu).faults(), k) && e.errors.codes()
                        == #[trigger] fault_batch(old(gpu).faults(), k) && fault_batch(
                        old(gpu).faults(),
                        k,
                    ).len() > 0
            },
    {
        let ghost f = old(gpu).faults();
        let ghost g0 = *old(gpu);

        // Create vertex array.
        let vao = gpu.create_vertex_array();
        proof {
            lemma_owns_after_push(g0, *gpu, vao);
        }
        if let Err(e) = check_gl(gpu, "glCreateVertexArrays") {
            gpu.delete_vertex_array(vao);
            proof {
                assert(faults_clear(f, 0));
                assert(fault_batch(f, 0).len() > 0);
            }
            return Err(e);
        }
        proof {
            lemma_faults_clear_split(f, 1, 1);
        }

        // Enable vertex attributes, associate them with the sole binding,
        // and configure their formats.
        if let Err(e) = try_gl_at(
            gpu,
            Ghost(f),
            Ghost(1),
            GlCall::EnableVertexArrayAttrib { vertex_array: vao, attrib: 0 },
            "glEnableVertexArrayAttrib",
        ) {
            proof {
                lemma_owns_after_push(g0, *gpu, vao);
            }
            gpu.delete_vertex_array(vao);
            return Err(e);
        }
        if let Err(e) = try_gl_at(
            gpu,
            Ghost(f),
            Ghost(2),
            GlCall::EnableVertexArrayAttrib { vertex_array: vao, attrib: 1 },
            "glEnableVertexArrayAttrib",
        ) {
            proof {
                lemma_owns_after_push(g0, *gpu, vao);
            }
            gpu.delete_vertex_array(vao);
            return Err(e);
        }
        if let Err(e) = try_gl_at(
            gpu,
            Ghost(f),
            Ghost(3),
            GlCall::EnableVertexArrayAttrib { vertex_array: vao, attrib: 2 },
            "glEnableVertexArrayAttrib",
        ) {
            proof {
                lemma_owns_after_push(g0, *gpu, vao);
            }
            gpu.delete_vertex_array(vao);
            return Err(e);
        }
        if let Err(e) = try_gl_at(
            gpu,
            Ghost(f),
            Ghost(4),
            GlCall::VertexArrayAttribBinding { vertex_array: vao, attrib: 0, binding: 0 },
            "glVertexArrayAttribBinding",
        ) {
            proof {
                lemma_owns_after_push(g0, *gpu, vao);
            }
            gpu.delete_vertex_array(vao);
            return Err(e);
        }
        if let Err(e) = try_gl_at(
            gpu,
            Ghost(f),
            Ghost(5),
            GlCall::VertexArrayAttribBinding { vertex_array: vao, attrib: 1, binding: 0 },
            "glVertexArrayAttribBinding",
        ) {
            proof {
                lemma_owns_after_push(g0, *gpu, vao);
            }
            gpu.delete_vertex_array(vao);
            return Err(e);
        }
        if let Err(e) = try_gl_at(
            gpu,
            Ghost(f),
            Ghost(6),
            GlCall::VertexArrayAttribBinding { vertex_array: vao, attrib: 2, binding: 0 },
            "glVertexArrayAttribBinding",
        ) {
            proof {
                lemma_owns_after_push(g0, *gpu, vao);
            }
            gpu.delete_vertex_array(vao);
            return Err(e);
        }
        if let Err(e) = try_gl_at(
            gpu,
            Ghost(f),
            Ghost(7),
            GlCall::VertexArrayAttribFormat {
                vertex_array: vao,
                attrib: 0,
                size: 3,
                component_type: FLOAT,
                normalized: false,
                offset: 0,
            },
            "glVertexArrayAttribFormat",
        ) {
            proof {
                lemma_owns_after_push(g0, *gpu, vao);
            }
            gpu.delete_vertex_array(vao);
            return Err(e);
        }
        if let Err(e) = try_gl_at(
            gpu,
            Ghost(f),
            Ghost(8),
            GlCall::VertexArrayAttribFormat {
                vertex_array: vao,
                attrib: 1,
                size: 2,
                component_type: FLOAT,
                normalized: false,
                offset: 12,
            },
            "glVertexArrayAttribFormat",
        ) {
            proof {
                lemma_owns_after_push(g0, *gpu, vao);
            }
            gpu.delete_vertex_array(vao);
            return Err(e);
        }
        if let Err(e) = try_gl_at(
            gpu,
            Ghost(f),
            Ghost(9),
            GlCall::VertexArrayAttribIFormat {
                vertex_array: vao,
                attrib: 2,
                size: 1,
                component_type: UNSIGNED_INT,
                offset: 20,
            },
            "glVertexArrayAttribIFormat",
        ) {
            proof {
                lemma_owns_after_push(g0, *gpu, vao);
            }
            gpu.delete_vertex_array(vao);
            return Err(e);
        }
        proof {
            assert(gpu.log@ =~= g0.log@ + vertex_array_calls(vao));
        }
        Ok(vao)
    }

    /// Begin a render: select the program and layout and configure culling.
    fn pre_render(&self, gpu: &mut Gpu) -> (r: Result<(), GraphicsApiError>)
        requires
            old(gpu).ready(),
        ensures
            final(gpu).ready(),
            final(gpu).live@ == old(gpu).live@,
            final(gpu).next_handle == old(gpu).next_handle,
            old(gpu).log@.is_prefix_of(final(gpu).log@),
            r is Ok <==> faults_clear(old(gpu).faults(), 5),
            r is Ok ==> final(gpu).log@ == old(gpu).log@ + pre_render_calls(
                self.program.raw,
                self.vertex_array,
            ) && final(gpu).faults() == faults_after(old(gpu).faults(), 5),
            r matches Err(e) ==> exists|k: int|
                0 <= k < 5 && faults_clear(old(gpu).faults(), k) && e.errors.codes()
                    == #[trigger] fault_batch(old(gpu).faults(), k) && fault_batch(
                    old(gpu).faults(),
                    k,
                ).len() > 0,
    {
        let ghost f = old(gpu).faults();
        let ghost g0 = *old(gpu);
        proof {
            assert(g0.faults() =~= faults_after(f, 0));
        }
        if let Err(e) = try_gl_at(
            gpu,
            Ghost(f),
            Ghost(0),
            GlCall::UseProgram { program: self.program.as_raw() },
            "glUseProgram",
        ) {
            return Err(e);
        }
        if let Err(e) = try_gl_at(
            gpu,
            Ghost(f),
            Ghost(1),
            GlCall::BindVertexArray { vertex_array: self.vertex_array },
            "glBindVertexArray",
        ) {
            return Err(e);
        }
        if let Err(e) = try_gl_at(
            gpu,
            Ghost(f),
            Ghost(2),
            GlCall::Enable { capability: CULL_FACE },
            "glEnable",
        ) {
            return Err(e);
        }
        if let Err(e) = try_gl_at(gpu, Ghost(f), Ghost(3), GlCall::CullFace { mode: BACK }, "glCullFace") {
            return Err(e);
        }
        if let Err(e) = try_gl_at(
            gpu,
            Ghost(f),
            Ghost(4),
            GlCall::FrontFace { mode: CCW },
            "glFrontFace",
        ) {
            return Err(e);
        }
        proof {
            assert(gpu.log@ =~= g0.log@ + pre_render_calls(self.program.raw, self.vertex_array));
        }
        Ok(())
    }

    /// Render a collection of instances of models.
    ///
    /// For each (model, instance-list) pair, in the caller's order, the
    /// model's vertex and index buffers are bound exactly once, and then
    /// every instance of that model is drawn in sequence.  Any driver error
    /// aborts the remainder of the render and surfaces the first offending
    /// call's error; draws already issued stay issued.
    #[verifier::rlimit(50)]
    pub fn render(
        &self,
        gpu: &mut Gpu,
        vp_matrix: &glam::Mat4,
        models: &[(Model, Vec<Instance>)],
    ) -> (r: Result<(), GraphicsApiError>)
        requires
            old(gpu).ready(),
        ensures
            ({
                let trace = render_calls(self.program.raw, self.vertex_array, *vp_matrix, models@);
                &&& final(gpu).ready()
                &&& final(gpu).live@ == old(gpu).live@
                &&& final(gpu).next_handle == old(gpu).next_handle
                &&& old(gpu).log@.is_prefix_of(final(gpu).log@)
                &&& (r is Ok <==> faults_clear(old(gpu).faults(), trace.len() as int))
                &&& (r is Ok ==> final(gpu).log@ == old(gpu).log@ + trace && final(gpu).faults()
                    == faults_after(old(gpu).faults(), trace.len() as int))
                &&& (r matches Err(e) ==> exists|k: int|
                    0 <= k < trace.len() && faults_clear(old(gpu).faults(), k) && e.errors.codes()
                        == #[trigger] fault_batch(old(gpu).faults(), k) && fault_batch(
                        old(gpu).faults(),
                        k,
                    ).len() > 0)
            }),
    {
        let ghost f = old(gpu).faults();
        let ghost g0 = *old(gpu);
        let ghost vp = *vp_matrix;
        let ghost trace = render_calls(self.program.raw, self.vertex_array, vp, models@);
        let ghost pre = pre_render_calls(self.program.raw, self.vertex_array);

        if let Err(e) = self.pre_render(gpu) {
            proof {
                assert(trace.len() >= 5);
            }
            return Err(e);
        }
        proof {
            assert(models@.take(0) =~= Seq::<(Model, Vec<Instance>)>::empty());
            assert(models_calls(vp, models@.take(0)) =~= Seq::<GlCall>::empty());
            assert(gpu.log@ =~= g0.log@ + pre + models_calls(vp, models@.take(0)));
            assert(models@.skip(0) =~= models@);
            assert(gpu.log@.len() as int - g0.log@.len() as int + models_calls(
                vp,
                models@.skip(0),
            ).len() == trace.len());
        }

        let mut i: usize = 0;
        while i < models.len()
            invariant
                g0 == *old(gpu),
                f == g0.faults(),
                g0.ready(),
                vp == *vp_matrix,
                trace == render_calls(self.program.raw, self.vertex_array, vp, models@),
                pre == pre_render_calls(self.program.raw, self.vertex_array),
                i <= models@.len(),
                gpu.ready(),
                gpu.live@ == g0.live@,
                gpu.next_handle == g0.next_handle,
                gpu.log@ == g0.log@ + pre + models_calls(vp, models@.take(i as int)),
                gpu.log@.len() as int - g0.log@.len() as int + models_calls(
                    vp,
                    models@.skip(i as int),
                ).len() == trace.len(),
                faults_clear(f, gpu.log@.len() as int - g0.log@.len() as int),
                gpu.faults() == faults_after(f, gpu.log@.len() as int - g0.log@.len() as int),
            decreases models@.len() - i,
        {
            let pair = &models[i];
            let ghost model_i = models@[i as int].0;
            let ghost insts = models@[i as int].1@;
            proof {
                assert(models@.skip(i as int)[0] == models@[i as int]);
                assert(models@.skip(i as int).skip(1) =~= models@.skip(i as int + 1));
                assert(models_calls(vp, models@.skip(i as int)) == model_calls(
                    vp,
                    model_i,
                    insts,
                ) + models_calls(vp, models@.skip(i as int + 1)));
            }
            let ghost m0 = gpu.log@.len() as int - g0.log@.len() as int;

            // Bind vertex buffer.
            if let Err(e) = try_gl_at(
                gpu,
                Ghost(f),
                Ghost(m0),
                GlCall::BindVertexBuffer {
                    binding: 0,
                    buffer: pair.0.vertices.as_raw(),
                    offset: 0,
                    stride: 24,
                },
                "glBindVertexBuffer",
            ) {
                proof {
                    assert(m0 < trace.len());
                }
                return Err(e);
            }

            // Bind index buffer.
            if let Err(e) = try_gl_at(
                gpu,
                Ghost(f),
                Ghost(m0 + 1),
                GlCall::BindBuffer {
                    target: ELEMENT_ARRAY_BUFFER,
                    buffer: pair.0.indices.as_raw(),
                },
                "glBindBuffer",
            ) {
                proof {
                    assert(m0 + 1 < trace.len());
                }
                return Err(e);
            }
            proof {
                assert(insts.take(0) =~= Seq::<Instance>::empty());
                assert(instances_calls(vp, model_i, insts.take(0)) =~= Seq::<GlCall>::empty());
                assert(insts.skip(0) =~= insts);
                assert(gpu.log@ =~= g0.log@ + pre + models_calls(vp, models@.take(i as int))
                    + model_bind_calls(model_i) + instances_calls(vp, model_i, insts.take(0)));
            }

            let instances = &pair.1;
            let mut j: usize = 0;
            while j < instances.len()
                invariant
                    g0 == *old(gpu),
                    f == g0.faults(),
                    g0.ready(),
                    vp == *vp_matrix,
                    trace == render_calls(self.program.raw, self.vertex_array, vp, models@),
                    pre == pre_render_calls(self.program.raw, self.vertex_array),
                    i < models@.len(),
                    model_i == models@[i as int].0,
                    insts == models@[i as int].1@,
                    pair.0 == model_i,
                    instances@ == insts,
                    j <= insts.len(),
                    gpu.ready(),
                    gpu.live@ == g0.live@,
                    gpu.next_handle == g0.next_handle,
                    gpu.log@ == g0.log@ + pre + models_calls(vp, models@.take(i as int))
                        + model_bind_calls(model_i) + instances_calls(
                        vp,
                        model_i,
                        insts.take(j as int),
                    ),
                    gpu.log@.len() as int - g0.log@.len() as int + instances_calls(
                        vp,
                        model_i,
                        insts.skip(j as int),
                    ).len() + models_calls(vp, models@.skip(i as int + 1)).len() == trace.len(),
                    faults_clear(f, gpu.log@.len() as int - g0.log@.len() as int),
                    gpu.faults() == faults_after(f, gpu.log@.len() as int - g0.log@.len() as int),
                decreases insts.len() - j,
            {
                let instance = &instances[j];
                proof {
                    assert(insts.skip(j as int)[0] == insts[j as int]);
                    assert(insts.skip(j as int).skip(1) =~= insts.skip(j as int + 1));
                    assert(instances_calls(vp, model_i, insts.skip(j as int)) == instance_calls(
                        vp,
                        model_i,
                        insts[j as int],
                    ) + instances_calls(vp, model_i, insts.skip(j as int + 1)));
                }
                let ghost mj = gpu.log@.len() as int - g0.log@.len() as int;

                // Bind the model-view-projection matrix to slot 0.
                let mvp = MvpUniform { vp: *vp_matrix, model: instance.m_matrix };
                let ghost fb = gpu.faults();
                let r1 = mvp.gl_uniform(gpu, 0);
                proof {
                    lemma_consume_one(f, mj, fb, gpu.faults());
                    if r1 is Ok {
                        lemma_clear_extend(f, mj);
                    }
                }
                if let Err(e) = r1 {
                    proof {
                        assert(mj < trace.len());
                    }
                    return Err(e);
                }

                // Bind the bone matrix array to slot 1.
                let ghost fb2 = gpu.faults();
                let r2 = instance.bone_matrices.gl_uniform(gpu, 1);
                proof {
                    lemma_consume_one(f, mj + 1, fb2, gpu.faults());
                    if r2 is Ok {
                        lemma_clear_extend(f, mj + 1);
                    }
                }
                if let Err(e) = r2 {
                    proof {
                        assert(mj + 1 < trace.len());
                    }
                    return Err(e);
                }

                // Draw the model for this instance.
                if let Err(e) = try_gl_at(
                    gpu,
                    Ghost(f),
                    Ghost(mj + 2),
                    GlCall::DrawElements {
                        mode: TRIANGLES,
                        count: pair.0.indices.len(),
                        index_type: UNSIGNED_INT,
                    },
                    "glDrawElements",
                ) {
                    proof {
                        assert(mj + 2 < trace.len());
                    }
                    return Err(e);
                }
                proof {
                    lemma_instances_calls_snoc(vp, model_i, insts, j as int);
                    assert(gpu.log@ =~= g0.log@ + pre + models_calls(vp, models@.take(i as int))
                        + model_bind_calls(model_i) + instances_calls(
                        vp,
                        model_i,
                        insts.take(j as int + 1),
                    ));
                }
                j += 1;
            }
            proof {
                assert(insts.take(insts.len() as int) =~= insts);
                assert(insts.skip(insts.len() as int) =~= Seq::<Instance>::empty());
                assert(instances_calls(vp, model_i, insts.skip(insts.len() as int)) =~= Seq::<
                    GlCall,
                >::empty());
                lemma_models_calls_snoc(vp, models@, i as int);
                assert(gpu.log@ =~= g0.log@ + pre + models_calls(
                    vp,
                    models@.take(i as int + 1),
                ));
            }
            i += 1;
        }
        proof {
            assert(models@.take(models@.len() as int) =~= models@);
            assert(models@.skip(models@.len() as int) =~= Seq::<(Model, Vec<Instance>)>::empty());
            assert(models_calls(vp, models@.skip(models@.len() as int)) =~= Seq::<GlCall>::empty());
            assert(gpu.log@ =~= g0.log@ + trace);
        }
        Ok(())
    }
}

} // verus!
