use blok::gl_buffer::GlBuffer;
use blok::gl_consts;
use blok::generic::{FragmentShader, Instance, Model, Pipeline, Vertex, BONES};
use blok::gpu::{GlCall, Gpu};
use glam::{vec2, vec3, Mat4, Vec3};

fn pipeline(gpu: &mut Gpu) -> Pipeline {
    let fs = FragmentShader::new(gpu, &[1]).unwrap();
    Pipeline::new(gpu, &fs, &[2]).unwrap()
}

fn triangle_model(gpu: &mut Gpu) -> Model {
    let vertices = [
        Vertex { position: vec3(-1.0, -1.0, 0.0), texcoord: vec2(0.0, 0.0), bone: 0 },
        Vertex { position: vec3(1.0, -1.0, 0.0), texcoord: vec2(1.0, 0.0), bone: 0 },
        Vertex { position: vec3(0.0, 1.0, 0.0), texcoord: vec2(0.0, 1.0), bone: 0 },
    ];
    Model {
        vertices: GlBuffer::new_upload(gpu, &vertices, gl_consts::STATIC_DRAW).unwrap(),
        indices: GlBuffer::new_upload(gpu, &[0, 1, 2], gl_consts::STATIC_DRAW).unwrap(),
    }
}

fn identity_instance() -> Instance {
    Instance { m_matrix: Mat4::IDENTITY, bone_matrices: [Mat4::IDENTITY; BONES] }
}

fn bind_count(log: &[GlCall]) -> usize {
    log.iter().filter(|c| matches!(c, GlCall::BindVertexBuffer { .. })).count()
}

#[test]
fn model_bound_once_however_many_instances() {
    // The same model drawn with instance lists of different lengths in two
    // separate renders: the buffers are bound exactly once per call per
    // model either way.
    let mut gpu = Gpu::new();
    let p = pipeline(&mut gpu);
    let model = triangle_model(&mut gpu);

    let base1 = gpu.log.len();
    p.render(&mut gpu, &Mat4::IDENTITY, &[(model, vec![identity_instance()])]).unwrap();
    let end1 = gpu.log.len();

    let model = triangle_model(&mut gpu);
    let many: Vec<Instance> = (0..5).map(|_| identity_instance()).collect();
    let base2 = gpu.log.len();
    p.render(&mut gpu, &Mat4::IDENTITY, &[(model, many)]).unwrap();
    let end2 = gpu.log.len();

    let frame1 = &gpu.log[base1..end1];
    let frame2 = &gpu.log[base2..end2];
    assert_eq!(bind_count(frame1), 1);
    assert_eq!(bind_count(frame2), 1);

    // One indexed draw per instance, each using the model's index count.
    let draws1 = frame1
        .iter()
        .filter(|c| matches!(c, GlCall::DrawElements { .. }))
        .count();
    let draws2 = frame2
        .iter()
        .filter(|c| matches!(c, GlCall::DrawElements { .. }))
        .count();
    assert_eq!(draws1, 1);
    assert_eq!(draws2, 5);
}

#[test]
fn per_instance_uniforms_and_draw() {
    let mut gpu = Gpu::new();
    let p = pipeline(&mut gpu);
    let model = triangle_model(&mut gpu);
    let m = Mat4::from_translation(Vec3::new(2.0, 0.0, -1.0));
    let bones = [Mat4::from_rotation_z(0.5); BONES];
    let vp = Mat4::from_scale(Vec3::splat(2.0));
    let inst = Instance { m_matrix: m, bone_matrices: bones };

    let base = gpu.log.len();
    p.render(&mut gpu, &vp, &[(model, vec![inst])]).unwrap();
    let frame = &gpu.log[base..];

    // The model-view-projection for the instance: the caller's matrices
    // ride through unchanged, to be multiplied at the driver edge.
    assert!(frame.iter().any(|c| match c {
        GlCall::UniformMvp { location: 0, vp: v, model: mm } => *v == vp && *mm == m,
        _ => false,
    }));
    // The whole bone array goes to slot 1 in one call.
    assert!(frame.iter().any(|c| match c {
        GlCall::UniformBones { location: 1, matrices } => *matrices == bones,
        _ => false,
    }));
    // The indexed draw uses the index buffer's element count verbatim.
    assert!(frame.iter().any(|c| matches!(
        c,
        GlCall::DrawElements { mode, count: 3, index_type }
            if *mode == gl_consts::TRIANGLES && *index_type == gl_consts::UNSIGNED_INT
    )));
}

#[test]
fn vertex_stream_stride_is_24() {
    let mut gpu = Gpu::new();
    let p = pipeline(&mut gpu);
    let model = triangle_model(&mut gpu);
    let vbuf = model.vertices.as_raw();
    let ibuf = model.indices.as_raw();
    let base = gpu.log.len();
    p.render(&mut gpu, &Mat4::IDENTITY, &[(model, vec![identity_instance()])]).unwrap();
    let frame = &gpu.log[base..];
    assert!(frame.iter().any(|c| matches!(
        c,
        GlCall::BindVertexBuffer { binding: 0, buffer, offset: 0, stride: 24 } if *buffer == vbuf
    )));
    assert!(frame.iter().any(|c| matches!(
        c,
        GlCall::BindBuffer { target, buffer } if *target == gl_consts::ELEMENT_ARRAY_BUFFER && *buffer == ibuf
    )));
}

#[test]
fn empty_model_list_renders_nothing_but_prepares_state() {
    let mut gpu = Gpu::new();
    let p = pipeline(&mut gpu);
    let base = gpu.log.len();
    p.render(&mut gpu, &Mat4::IDENTITY, &[]).unwrap();
    let frame = &gpu.log[base..];
    assert_eq!(frame.len(), 5);
    assert!(matches!(frame[0], GlCall::UseProgram { .. }));
    assert!(matches!(frame[1], GlCall::BindVertexArray { .. }));
    assert!(
        matches!(frame[2], GlCall::Enable { capability } if capability == gl_consts::CULL_FACE)
    );
    assert!(matches!(frame[3], GlCall::CullFace { mode } if mode == gl_consts::BACK));
    assert!(matches!(frame[4], GlCall::FrontFace { mode } if mode == gl_consts::CCW));
}

#[test]
fn render_failure_surfaces_first_offending_call() {
    let mut gpu = Gpu::new();
    let p = pipeline(&mut gpu);
    let model = triangle_model(&mut gpu);
    // The five pre-render calls succeed; the vertex buffer bind fails.
    let mut faults: Vec<Vec<u32>> = vec![Vec::new(); 5];
    faults.push(vec![gl_consts::INVALID_VALUE, gl_consts::INVALID_OPERATION]);
    gpu.call_faults = faults;
    let e = p
        .render(&mut gpu, &Mat4::IDENTITY, &[(model, vec![identity_instance()])])
        .unwrap_err();
    assert_eq!(e.call, "glBindVertexBuffer");
    let codes: Vec<u32> = e.errors.errors.iter().map(|x| x.error).collect();
    assert_eq!(codes, vec![gl_consts::INVALID_VALUE, gl_consts::INVALID_OPERATION]);
}
