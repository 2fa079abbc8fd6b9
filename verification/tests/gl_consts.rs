//! The enumerant values the core records must be exactly the values the
//! loaded entry points expect, as generated from the API registry.

use blok::gl_consts;

#[test]
fn enumerants_match_the_registry() {
    assert_eq!(gl_consts::NO_ERROR, gl::NO_ERROR);
    assert_eq!(gl_consts::INVALID_ENUM, gl::INVALID_ENUM);
    assert_eq!(gl_consts::INVALID_VALUE, gl::INVALID_VALUE);
    assert_eq!(gl_consts::INVALID_OPERATION, gl::INVALID_OPERATION);
    assert_eq!(gl_consts::STACK_OVERFLOW, gl::STACK_OVERFLOW);
    assert_eq!(gl_consts::STACK_UNDERFLOW, gl::STACK_UNDERFLOW);
    assert_eq!(gl_consts::OUT_OF_MEMORY, gl::OUT_OF_MEMORY);
    assert_eq!(
        gl_consts::INVALID_FRAMEBUFFER_OPERATION,
        gl::INVALID_FRAMEBUFFER_OPERATION
    );
    assert_eq!(gl_consts::VERTEX_SHADER, gl::VERTEX_SHADER);
    assert_eq!(gl_consts::FRAGMENT_SHADER, gl::FRAGMENT_SHADER);
    assert_eq!(gl_consts::TRIANGLES, gl::TRIANGLES);
    assert_eq!(gl_consts::TRIANGLE_FAN, gl::TRIANGLE_FAN);
    assert_eq!(gl_consts::UNSIGNED_BYTE, gl::UNSIGNED_BYTE);
    assert_eq!(gl_consts::UNSIGNED_SHORT, gl::UNSIGNED_SHORT);
    assert_eq!(gl_consts::UNSIGNED_INT, gl::UNSIGNED_INT);
    assert_eq!(gl_consts::FLOAT, gl::FLOAT);
    assert_eq!(gl_consts::ELEMENT_ARRAY_BUFFER, gl::ELEMENT_ARRAY_BUFFER);
    assert_eq!(gl_consts::STATIC_DRAW, gl::STATIC_DRAW);
    assert_eq!(gl_consts::STREAM_DRAW, gl::STREAM_DRAW);
    assert_eq!(gl_consts::CULL_FACE, gl::CULL_FACE);
    assert_eq!(gl_consts::BACK, gl::BACK);
    assert_eq!(gl_consts::CCW, gl::CCW);
}
