//! The driver's numeric codes, as the `gl` bindings give them.
//!
//! Each function here hands out one constant of the `gl` crate. Its contract
//! repeats the value that the OpenGL registry fixes for that constant; the
//! verifier takes that value on trust.

use vstd::prelude::*;

verus! {

/// `gl::FLOAT`, the code of 32-bit float components: 0x1406.
#[verifier::external_body]
pub(crate) fn float_code() -> (r: u32)
    ensures
        r == 0x1406,
{
    gl::FLOAT
}

/// `gl::HALF_FLOAT`, the code of 16-bit float components: 0x140B.
#[verifier::external_body]
pub(crate) fn half_float_code() -> (r: u32)
    ensures
        r == 0x140B,
{
    gl::HALF_FLOAT
}

/// `gl::BYTE`, the code of signed 8-bit components: 0x1400.
#[verifier::external_body]
pub(crate) fn byte_code() -> (r: u32)
    ensures
        r == 0x1400,
{
    gl::BYTE
}

/// `gl::SHORT`, the code of signed 16-bit components: 0x1402.
#[verifier::external_body]
pub(crate) fn short_code() -> (r: u32)
    ensures
        r == 0x1402,
{
    gl::SHORT
}

/// `gl::INT`, the code of signed 32-bit components: 0x1404.
#[verifier::external_body]
pub(crate) fn int_code() -> (r: u32)
    ensures
        r == 0x1404,
{
    gl::INT
}

/// `gl::POINTS`, the topology code 0.
#[verifier::external_body]
pub(crate) fn points_code() -> (r: u32)
    ensures
        r == 0,
{
    gl::POINTS
}

/// `gl::LINES`, the topology code 1.
#[verifier::external_body]
pub(crate) fn lines_code() -> (r: u32)
    ensures
        r == 1,
{
    gl::LINES
}

/// `gl::LINE_LOOP`, the topology code 2.
#[verifier::external_body]
pub(crate) fn line_loop_code() -> (r: u32)
    ensures
        r == 2,
{
    gl::LINE_LOOP
}

/// `gl::LINE_STRIP`, the topology code 3.
#[verifier::external_body]
pub(crate) fn line_strip_code() -> (r: u32)
    ensures
        r == 3,
{
    gl::LINE_STRIP
}

/// `gl::TRIANGLES`, the topology code 4.
#[verifier::external_body]
pub(crate) fn triangles_code() -> (r: u32)
    ensures
        r == 4,
{
    gl::TRIANGLES
}

/// `gl::TRIANGLE_STRIP`, the topology code 5.
#[verifier::external_body]
pub(crate) fn triangle_strip_code() -> (r: u32)
    ensures
        r == 5,
{
    gl::TRIANGLE_STRIP
}

/// `gl::TRIANGLE_FAN`, the topology code 6.
#[verifier::external_body]
pub(crate) fn triangle_fan_code() -> (r: u32)
    ensures
        r == 6,
{
    gl::TRIANGLE_FAN
}

/// `gl::INVALID_INDEX`, the driver's reply for a name it does not know:
/// 0xFFFFFFFF.
#[verifier::external_body]
pub(crate) fn invalid_index_code() -> (r: u32)
    ensures
        r == 0xFFFF_FFFF,
{
    gl::INVALID_INDEX
}

/// `gl::VERTEX_SHADER`, the code of the vertex stage: 0x8B31.
#[verifier::external_body]
pub(crate) fn vertex_shader_code() -> (r: u32)
    ensures
        r == 0x8B31,
{
    gl::VERTEX_SHADER
}

/// `gl::FRAGMENT_SHADER`, the code of the fragment stage: 0x8B30.
#[verifier::external_body]
pub(crate) fn fragment_shader_code() -> (r: u32)
    ensures
        r == 0x8B30,
{
    gl::FRAGMENT_SHADER
}

} // verus!
