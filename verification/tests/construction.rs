use blok::gl_buffer::GlBuffer;
use blok::gl_consts;
use blok::gl_program::GlProgram;
use blok::gl_shader::GlShader;
use blok::generic::{self, FragmentShader};
use blok::gpu::{GlCall, Gpu};
use blok::trivial_block;

#[test]
fn buffer_create_and_release() {
    let mut gpu = Gpu::new();
    let buf: GlBuffer<u32> = GlBuffer::new(&mut gpu).unwrap();
    assert_eq!(buf.len(), 0);
    assert!(gpu.live.contains(&buf.as_raw()));
    let raw = buf.as_raw();
    buf.release(&mut gpu);
    assert!(!gpu.live.contains(&raw));
}

#[test]
fn buffer_upload_sets_length() {
    let mut gpu = Gpu::new();
    let mut buf: GlBuffer<u32> =
        GlBuffer::new_upload(&mut gpu, &[1, 2, 3], gl_consts::STATIC_DRAW).unwrap();
    assert_eq!(buf.len(), 3);
    buf.upload(&mut gpu, &[7, 8], gl_consts::STREAM_DRAW).unwrap();
    assert_eq!(buf.len(), 2);
    buf.release(&mut gpu);
}

#[test]
fn buffer_create_failure_leaks_nothing() {
    let mut gpu = Gpu::new();
    gpu.call_faults = vec![vec![gl_consts::OUT_OF_MEMORY]];
    let r: Result<GlBuffer<u32>, _> = GlBuffer::new(&mut gpu);
    let e = r.unwrap_err();
    assert_eq!(e.call, "glCreateBuffers");
    assert_eq!(e.errors.errors[0].error, gl_consts::OUT_OF_MEMORY);
    assert!(gpu.live.is_empty());
}

#[test]
fn buffer_upload_failure_releases_new_buffer() {
    let mut gpu = Gpu::new();
    gpu.call_faults = vec![vec![], vec![gl_consts::OUT_OF_MEMORY]];
    let r: Result<GlBuffer<u32>, _> =
        GlBuffer::new_upload(&mut gpu, &[1, 2, 3], gl_consts::STATIC_DRAW);
    let e = r.unwrap_err();
    assert_eq!(e.call, "glNamedBufferData");
    assert!(gpu.live.is_empty());
}

#[test]
fn shader_creation_records_binary_and_constants() {
    let mut gpu = Gpu::new();
    let s = GlShader::new(&mut gpu, gl_consts::VERTEX_SHADER, &[1, 2, 3, 4], &[0], &[6]).unwrap();
    assert!(gpu.live.contains(&s.as_raw()));
    assert_eq!(gpu.log.len(), 3);
    match &gpu.log[0] {
        GlCall::CreateShader { shader, shader_type } => {
            assert_eq!(*shader, s.as_raw());
            assert_eq!(*shader_type, gl_consts::VERTEX_SHADER);
        }
        other => panic!("unexpected call {:?}", other),
    }
    match &gpu.log[1] {
        GlCall::ShaderBinary { shader, format, binary } => {
            assert_eq!(*shader, s.as_raw());
            assert_eq!(*format, gl_consts::SHADER_BINARY_FORMAT_SPIR_V);
            assert_eq!(binary, &vec![1, 2, 3, 4]);
        }
        other => panic!("unexpected call {:?}", other),
    }
    match &gpu.log[2] {
        GlCall::SpecializeShader { shader, constant_indices, constant_values } => {
            assert_eq!(*shader, s.as_raw());
            assert_eq!(constant_indices, &vec![0]);
            assert_eq!(constant_values, &vec![6]);
        }
        other => panic!("unexpected call {:?}", other),
    }
    s.release(&mut gpu);
}

#[test]
fn shader_failure_at_each_step_leaks_nothing() {
    for failing_step in 0..3 {
        let mut gpu = Gpu::new();
        let mut faults: Vec<Vec<u32>> = vec![Vec::new(); failing_step];
        faults.push(vec![gl_consts::INVALID_OPERATION]);
        gpu.call_faults = faults;
        let r = GlShader::new(&mut gpu, gl_consts::VERTEX_SHADER, &[9, 9], &[], &[]);
        let e = r.unwrap_err();
        let expected = ["glCreateShader", "glShaderBinary", "glSpecializeShader"][failing_step];
        assert_eq!(e.call, expected);
        assert!(gpu.live.is_empty(), "step {} leaked a handle", failing_step);
    }
}

#[test]
fn program_links_and_detaches() {
    let mut gpu = Gpu::new();
    let vs = GlShader::new(&mut gpu, gl_consts::VERTEX_SHADER, &[1], &[], &[]).unwrap();
    let fs = GlShader::new(&mut gpu, gl_consts::FRAGMENT_SHADER, &[2], &[], &[]).unwrap();
    let base = gpu.log.len();
    let p = GlProgram::new(&mut gpu, &[&vs, &fs]).unwrap();
    assert!(gpu.live.contains(&p.as_raw()));
    assert_eq!(gpu.log.len(), base + 6);
    assert!(matches!(gpu.log[base], GlCall::CreateProgram { program } if program == p.as_raw()));
    assert!(matches!(
        gpu.log[base + 1],
        GlCall::AttachShader { program, shader } if program == p.as_raw() && shader == vs.as_raw()
    ));
    assert!(matches!(
        gpu.log[base + 2],
        GlCall::AttachShader { program, shader } if program == p.as_raw() && shader == fs.as_raw()
    ));
    assert!(matches!(gpu.log[base + 3], GlCall::LinkProgram { program } if program == p.as_raw()));
    assert!(matches!(
        gpu.log[base + 4],
        GlCall::DetachShader { program, shader } if program == p.as_raw() && shader == vs.as_raw()
    ));
    assert!(matches!(
        gpu.log[base + 5],
        GlCall::DetachShader { program, shader } if program == p.as_raw() && shader == fs.as_raw()
    ));
    p.release(&mut gpu);
    fs.release(&mut gpu);
    vs.release(&mut gpu);
    assert!(gpu.live.is_empty());
}

#[test]
fn link_failure_releases_program_but_not_shaders() {
    let mut gpu = Gpu::new();
    let vs = GlShader::new(&mut gpu, gl_consts::VERTEX_SHADER, &[1], &[], &[]).unwrap();
    let fs = GlShader::new(&mut gpu, gl_consts::FRAGMENT_SHADER, &[2], &[], &[]).unwrap();
    // Create and both attaches succeed, the link fails.
    gpu.call_faults = vec![vec![], vec![], vec![], vec![gl_consts::INVALID_OPERATION]];
    let e = GlProgram::new(&mut gpu, &[&vs, &fs]).unwrap_err();
    assert_eq!(e.call, "glLinkProgram");
    assert!(gpu.live.contains(&vs.as_raw()));
    assert!(gpu.live.contains(&fs.as_raw()));
    assert_eq!(gpu.live.len(), 2);
}

#[test]
fn generic_pipeline_bakes_bone_count() {
    let mut gpu = Gpu::new();
    let fs = FragmentShader::new(&mut gpu, &[5, 6]).unwrap();
    let base = gpu.log.len();
    let p = generic::Pipeline::new(&mut gpu, &fs, &[7, 8]).unwrap();
    assert_eq!(gpu.log.len(), base + 20);
    // Specialization constant 0 is the bone count, fixed at 6.
    match &gpu.log[base + 2] {
        GlCall::SpecializeShader { constant_indices, constant_values, .. } => {
            assert_eq!(constant_indices, &vec![0]);
            assert_eq!(constant_values, &vec![generic::BONES as u32]);
        }
        other => panic!("unexpected call {:?}", other),
    }
    // The vertex shader module is released once linked.
    assert!(matches!(gpu.log[base + 9], GlCall::DeleteShader { .. }));
    // The layout: position, texcoord, bone index on one stream.
    assert!(matches!(
        gpu.log[base + 17],
        GlCall::VertexArrayAttribFormat { attrib: 0, size: 3, component_type, normalized: false, offset: 0, .. }
            if component_type == gl_consts::FLOAT
    ));
    assert!(matches!(
        gpu.log[base + 18],
        GlCall::VertexArrayAttribFormat { attrib: 1, size: 2, component_type, normalized: false, offset: 12, .. }
            if component_type == gl_consts::FLOAT
    ));
    assert!(matches!(
        gpu.log[base + 19],
        GlCall::VertexArrayAttribIFormat { attrib: 2, size: 1, component_type, offset: 20, .. }
            if component_type == gl_consts::UNSIGNED_INT
    ));
    // The program and the layout descriptor are live; the shader modules
    // stay independently owned.
    assert!(gpu.live.contains(&p.program.as_raw()));
    assert!(gpu.live.contains(&p.vertex_array));
}

#[test]
fn generic_pipeline_failure_leaks_nothing() {
    // Fail each of the nineteen checked construction calls in turn; no
    // handle may stay allocated beyond those that existed before.
    for failing_step in 0..19 {
        let mut gpu = Gpu::new();
        let fs = FragmentShader::new(&mut gpu, &[5, 6]).unwrap();
        let live_before = gpu.live.clone();
        let mut faults: Vec<Vec<u32>> = vec![Vec::new(); failing_step];
        faults.push(vec![gl_consts::OUT_OF_MEMORY]);
        gpu.call_faults = faults;
        let r = generic::Pipeline::new(&mut gpu, &fs, &[7, 8]);
        assert!(r.is_err());
        let mut live_after = gpu.live.clone();
        live_after.sort();
        let mut expected = live_before.clone();
        expected.sort();
        assert_eq!(live_after, expected, "step {} leaked a handle", failing_step);
    }
}

#[test]
fn trivial_pipeline_sets_divisor() {
    let mut gpu = Gpu::new();
    let fs = FragmentShader::new(&mut gpu, &[5, 6]).unwrap();
    let base = gpu.log.len();
    let p = trivial_block::Pipeline::new(&mut gpu, &fs, &[9, 10]).unwrap();
    assert_eq!(gpu.log.len(), base + 24);
    // No specialization constants on the trivial-block vertex stage.
    match &gpu.log[base + 2] {
        GlCall::SpecializeShader { constant_indices, constant_values, .. } => {
            assert!(constant_indices.is_empty());
            assert!(constant_values.is_empty());
        }
        other => panic!("unexpected call {:?}", other),
    }
    // Divisor 4 on the sole stream: one face record per four instances.
    assert!(matches!(
        gpu.log[base + 23],
        GlCall::VertexArrayBindingDivisor { binding: 0, divisor: 4, .. }
    ));
    assert!(gpu.live.contains(&p.program.as_raw()));
    assert!(gpu.live.contains(&p.vertex_array));
}
