//! Declarations that let glam's value types stand in signatures and fields.
//!
//! The core never looks inside these values: a matrix or a vector rides
//! through unchanged, from the caller to the call log, where the host picks it
//! up.  All floating-point work on them happens outside the verified core.

use vstd::prelude::*;

verus! {

/// Declares glam's 4x4 single-precision column-major matrix as an opaque type.
#[verifier::external_type_specification]
#[verifier::external_body]
pub struct ExMat4(glam::Mat4);

/// Declares glam's 2-component single-precision vector as an opaque type.
#[verifier::external_type_specification]
#[verifier::external_body]
pub struct ExVec2(glam::Vec2);

/// Declares glam's 3-component single-precision vector as an opaque type.
#[verifier::external_type_specification]
#[verifier::external_body]
pub struct ExVec3(glam::Vec3);

} // verus!
