use blok::gl_consts;
use blok::gl_error::{context, GlErrors};
use blok::gpu::Gpu;

#[test]
fn empty_queue_yields_success() {
    let mut gpu = Gpu::new();
    assert!(GlErrors::get_gl_errors(&mut gpu).is_ok());
    assert_eq!(gpu.error_queue.len(), 0);
}

#[test]
fn drained_codes_keep_queue_order() {
    let mut gpu = Gpu::new();
    gpu.error_queue = vec![
        gl_consts::INVALID_ENUM,
        gl_consts::OUT_OF_MEMORY,
        gl_consts::INVALID_OPERATION,
    ];
    let errors = GlErrors::get_gl_errors(&mut gpu).unwrap_err();
    let codes: Vec<u32> = errors.errors.iter().map(|e| e.error).collect();
    assert_eq!(
        codes,
        vec![
            gl_consts::INVALID_ENUM,
            gl_consts::OUT_OF_MEMORY,
            gl_consts::INVALID_OPERATION,
        ]
    );
    assert_eq!(gpu.error_queue.len(), 0);
}

#[test]
fn second_drain_after_errors_succeeds() {
    let mut gpu = Gpu::new();
    gpu.error_queue = vec![gl_consts::INVALID_VALUE];
    assert!(GlErrors::get_gl_errors(&mut gpu).is_err());
    assert!(GlErrors::get_gl_errors(&mut gpu).is_ok());
}

#[test]
fn context_tags_the_call_name() {
    let mut gpu = Gpu::new();
    gpu.error_queue = vec![gl_consts::STACK_OVERFLOW];
    let e = context(GlErrors::get_gl_errors(&mut gpu), "glFrobnicate").unwrap_err();
    assert_eq!(e.call, "glFrobnicate");
    assert_eq!(e.errors.errors.len(), 1);
    assert_eq!(e.errors.errors[0].error, gl_consts::STACK_OVERFLOW);
}

#[test]
fn context_passes_success_through() {
    let mut gpu = Gpu::new();
    assert!(context(GlErrors::get_gl_errors(&mut gpu), "glNop").is_ok());
}
