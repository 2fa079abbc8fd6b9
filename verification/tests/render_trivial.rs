use blok::gl_buffer::GlBuffer;
use blok::gl_consts;
use blok::generic::FragmentShader;
use blok::gpu::{GlCall, Gpu};
use blok::math::{IVec2, IVec3};
use blok::trivial_block::{Face, FaceSet, Pipeline};
use glam::Mat4;

fn pipeline(gpu: &mut Gpu) -> Pipeline {
    let fs = FragmentShader::new(gpu, &[1]).unwrap();
    Pipeline::new(gpu, &fs, &[2]).unwrap()
}

fn face_set(gpu: &mut Gpu, faces: &[Face], chunk: IVec3) -> FaceSet {
    FaceSet {
        faces: GlBuffer::new_upload(gpu, faces, gl_consts::STATIC_DRAW).unwrap(),
        chunk_position: chunk,
    }
}

fn instanced_draws(log: &[GlCall]) -> Vec<(u32, u32, u32, usize)> {
    log.iter()
        .filter_map(|c| match c {
            GlCall::DrawArraysInstanced { mode, first, count, instance_count } => {
                Some((*mode, *first, *count, *instance_count))
            }
            _ => None,
        })
        .collect()
}

#[test]
fn atlas_and_chunk_mvp_then_one_draw_of_twelve() {
    // One face set at the chunk-grid origin holding three faces, drawn with
    // a (16, 8) texture atlas and the identity view-projection matrix.
    let mut gpu = Gpu::new();
    let p = pipeline(&mut gpu);
    let set = face_set(
        &mut gpu,
        &[
            Face { xy: 0, zf: 3, u: 0, v: 0 },
            Face { xy: 0, zf: 4, u: 15, v: 7 },
            Face { xy: 0, zf: 0, u: 7, v: 3 },
        ],
        IVec3 { x: 0, y: 0, z: 0 },
    );
    let base = gpu.log.len();
    p.render(&mut gpu, &IVec2 { x: 16, y: 8 }, &Mat4::IDENTITY, &[set]).unwrap();
    let frame = &gpu.log[base..];

    // Exactly one instanced draw, of a 4-vertex fan with 12 instances.
    assert_eq!(
        instanced_draws(frame),
        vec![(gl_consts::TRIANGLE_FAN, 0, 4, 12)]
    );

    // Slot 1 was bound to the atlas size before the draw.
    let atlas_at = frame
        .iter()
        .position(|c| matches!(c, GlCall::Uniform2F { location: 1, x: 16, y: 8 }))
        .expect("atlas uniform missing");

    // Slot 2 was bound to the identity view-projection with a zero chunk
    // translation before the draw.
    let mvp_at = frame
        .iter()
        .position(|c| match c {
            GlCall::UniformChunkMvp { location: 2, vp, translation } => {
                *vp == Mat4::IDENTITY && *translation == IVec3 { x: 0, y: 0, z: 0 }
            }
            _ => false,
        })
        .expect("chunk mvp uniform missing");

    let draw_at = frame
        .iter()
        .position(|c| matches!(c, GlCall::DrawArraysInstanced { .. }))
        .unwrap();
    assert!(atlas_at < mvp_at && mvp_at < draw_at);
}

#[test]
fn instance_count_is_four_per_face() {
    for &face_count in &[0usize, 1, 1000] {
        let mut gpu = Gpu::new();
        let p = pipeline(&mut gpu);
        let faces = vec![Face { xy: 0, zf: 0, u: 0, v: 0 }; face_count];
        let set = face_set(&mut gpu, &faces, IVec3 { x: 0, y: 0, z: 0 });
        let base = gpu.log.len();
        // An empty set still draws, with zero instances, and reports no
        // error.
        p.render(&mut gpu, &IVec2 { x: 4, y: 4 }, &Mat4::IDENTITY, &[set]).unwrap();
        let draws = instanced_draws(&gpu.log[base..]);
        assert_eq!(draws.len(), 1);
        assert_eq!(draws[0].3, 4 * face_count);
    }
}

#[test]
fn one_draw_per_face_set_in_order() {
    let mut gpu = Gpu::new();
    let p = pipeline(&mut gpu);
    let a = face_set(&mut gpu, &[Face { xy: 0, zf: 0, u: 0, v: 0 }], IVec3 { x: 0, y: 0, z: 0 });
    let b = face_set(
        &mut gpu,
        &[Face { xy: 1, zf: 1, u: 1, v: 1 }, Face { xy: 2, zf: 2, u: 2, v: 2 }],
        IVec3 { x: 3, y: 0, z: -1 },
    );
    let base = gpu.log.len();
    p.render(&mut gpu, &IVec2 { x: 2, y: 2 }, &Mat4::IDENTITY, &[a, b]).unwrap();
    let frame = &gpu.log[base..];
    let draws = instanced_draws(frame);
    assert_eq!(draws.len(), 2);
    assert_eq!(draws[0].3, 4);
    assert_eq!(draws[1].3, 8);
    // The second chunk's translation is 16 world units per chunk-grid step.
    assert!(frame.iter().any(|c| match c {
        GlCall::UniformChunkMvp { location: 2, translation, .. } => {
            *translation == IVec3 { x: 48, y: 0, z: -16 }
        }
        _ => false,
    }));
}

#[test]
fn second_upload_controls_draw_count() {
    // Re-uploading a shorter face list leaves no residue of the old data
    // observable through the draw count.
    let mut gpu = Gpu::new();
    let p = pipeline(&mut gpu);
    let mut set = face_set(
        &mut gpu,
        &[
            Face { xy: 0, zf: 0, u: 0, v: 0 },
            Face { xy: 0, zf: 1, u: 0, v: 0 },
            Face { xy: 0, zf: 2, u: 0, v: 0 },
        ],
        IVec3 { x: 0, y: 0, z: 0 },
    );
    set.faces
        .upload(
            &mut gpu,
            &[Face { xy: 0, zf: 5, u: 0, v: 0 }, Face { xy: 0, zf: 3, u: 0, v: 0 }],
            gl_consts::STREAM_DRAW,
        )
        .unwrap();
    assert_eq!(set.faces.len(), 2);
    let base = gpu.log.len();
    p.render(&mut gpu, &IVec2 { x: 2, y: 2 }, &Mat4::IDENTITY, &[set]).unwrap();
    assert_eq!(instanced_draws(&gpu.log[base..])[0].3, 8);
}

#[test]
fn render_failure_aborts_remaining_draws() {
    let mut gpu = Gpu::new();
    let p = pipeline(&mut gpu);
    let a = face_set(&mut gpu, &[Face { xy: 0, zf: 0, u: 0, v: 0 }], IVec3 { x: 0, y: 0, z: 0 });
    let b = face_set(&mut gpu, &[Face { xy: 1, zf: 1, u: 1, v: 1 }], IVec3 { x: 1, y: 1, z: 1 });
    // The six pre-render calls and the first set's three calls succeed; the
    // second set's chunk-mvp bind fails.
    let mut faults: Vec<Vec<u32>> = vec![Vec::new(); 9];
    faults.push(vec![gl_consts::INVALID_OPERATION]);
    gpu.call_faults = faults;
    let base = gpu.log.len();
    let e = p.render(&mut gpu, &IVec2 { x: 2, y: 2 }, &Mat4::IDENTITY, &[a, b]).unwrap_err();
    assert_eq!(e.errors.errors[0].error, gl_consts::INVALID_OPERATION);
    // The first set's draw was issued and stays issued; the second set's
    // draw was never issued.
    assert_eq!(instanced_draws(&gpu.log[base..]).len(), 1);
}

#[test]
fn face_packing_round_trip() {
    let f = Face::new(3, 5, 2, 4, 17, 9);
    assert_eq!(f.xy, 0x35);
    assert_eq!(f.zf, 0x24);
    assert_eq!(f.u, 17);
    assert_eq!(f.v, 9);
    assert_eq!(f.x(), 3);
    assert_eq!(f.y(), 5);
    assert_eq!(f.z(), 2);
    assert_eq!(f.face(), 4);
}
