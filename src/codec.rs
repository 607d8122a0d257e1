//! Fixed-width little-endian wire format.
//!
//! A request is 24 bytes: the IEEE-754 binary64 bit patterns of `x`, `y`
//! and `z`, each little-endian. A response is 4 bytes: shoulder (one byte),
//! elbow (one byte), base rotation (two bytes, little-endian).
use vstd::prelude::*;

use byteorder::{ByteOrder, LittleEndian};
use vstd::slice::slice_subrange;

verus! {

/// Length of a request frame in bytes.
pub const REQUEST_LEN: usize = 24;

/// Length of a response frame in bytes.
pub const RESPONSE_LEN: usize = 4;

/// Reserved (shoulder, elbow, rotation) triple sent in place of angles when a
/// target cannot be reached.
pub const ERROR_INVALID_REQUEST: (u8, u8, u16) = (0x00, 0x00, 0x0001);

/// Quantized joint angles, in whole degrees, as sent to a client.
#[derive(Clone, Copy, Debug, PartialEq, Eq, Structural)]
pub struct CoordinateResponse {
    /// Angle of the shoulder joint.
    pub shoulder: u8,
    /// Angle of the elbow joint.
    pub elbow: u8,
    /// Angle of the rotating base.
    pub rotation: u16,
}

impl From<(u8, u8, u16)> for CoordinateResponse {
    fn from(value: (u8, u8, u16)) -> (r: Self)
        ensures
            r == (CoordinateResponse { shoulder: value.0, elbow: value.1, rotation: value.2 }),
    {
        CoordinateResponse { shoulder: value.0, elbow: value.1, rotation: value.2 }
    }
}

impl vstd::std_specs::convert::FromSpecImpl<(u8, u8, u16)> for CoordinateResponse {
    open spec fn obeys_from_spec() -> bool {
        true
    }

    open spec fn from_spec(value: (u8, u8, u16)) -> Self {
        CoordinateResponse { shoulder: value.0, elbow: value.1, rotation: value.2 }
    }
}

/// A decoded request: the binary64 bit patterns of the target's coordinates,
/// in centimetres. `x` and `z` span the arm's reach plane, `y` the base's turn.
#[derive(Clone, Copy, Debug, PartialEq, Eq, Structural)]
pub struct RequestFrame {
    pub x: u64,
    pub y: u64,
    pub z: u64,
}

/// The request that `b` stands for, when it is a whole frame.
pub open spec fn request_of_bytes(b: Seq<u8>) -> RequestFrame
    recommends
        b.len() == REQUEST_LEN,
{
    RequestFrame {
        x: le_value(b.subrange(0, 8)) as u64,
        y: le_value(b.subrange(8, 16)) as u64,
        z: le_value(b.subrange(16, 24)) as u64,
    }
}

/// The response sent for an unreachable target.
pub open spec fn invalid_request_response() -> CoordinateResponse {
    CoordinateResponse {
        shoulder: ERROR_INVALID_REQUEST.0,
        elbow: ERROR_INVALID_REQUEST.1,
        rotation: ERROR_INVALID_REQUEST.2,
    }
}

/// Little-endian value of a byte sequence: the first byte is the least
/// significant.
pub open spec fn le_value(b: Seq<u8>) -> nat
    decreases b.len(),
{
    if b.len() == 0 {
        0
    } else {
        b[0] as nat + 256 * le_value(b.drop_first())
    }
}

/// The four bytes of a response on the wire.
pub open spec fn response_bytes(r: CoordinateResponse) -> Seq<u8> {
    seq![r.shoulder, r.elbow, (r.rotation % 256) as u8, (r.rotation / 256) as u8]
}

/// The response that four bytes of the wire stand for.
pub open spec fn response_of_bytes(b: Seq<u8>) -> CoordinateResponse
    recommends
        b.len() == 4,
{
    CoordinateResponse {
        shoulder: b[0],
        elbow: b[1],
        rotation: (b[2] as nat + 256 * b[3] as nat) as u16,
    }
}

/// Relies on byteorder's `LittleEndian::read_u64`: the first eight bytes of
/// `buf` as an integer, least significant byte first. It panics on fewer.
#[verifier::external_body]
fn read_u64_le(buf: &[u8]) -> (r: u64)
    requires
        buf@.len() >= 8,
    ensures
        r as nat == le_value(buf@.subrange(0, 8)),
{
    LittleEndian::read_u64(buf)
}

/// Decodes a request frame. Only a buffer of exactly `REQUEST_LEN` bytes is a
/// frame; anything else gives `None`.
pub fn decode_request(buf: &[u8]) -> (r: Option<RequestFrame>)
    ensures
        buf@.len() == REQUEST_LEN <==> r is Some,
        r matches Some(f) ==> f == request_of_bytes(buf@),
{
    if buf.len() != REQUEST_LEN {
        return None;
    }
    let x = read_u64_le(slice_subrange(buf, 0, 8));
    let y = read_u64_le(slice_subrange(buf, 8, 16));
    let z = read_u64_le(slice_subrange(buf, 16, 24));
    assert(buf@.subrange(0, 8).subrange(0, 8) =~= buf@.subrange(0, 8));
    assert(buf@.subrange(8, 16).subrange(0, 8) =~= buf@.subrange(8, 16));
    assert(buf@.subrange(16, 24).subrange(0, 8) =~= buf@.subrange(16, 24));
    Some(RequestFrame { x, y, z })
}

/// Returns `x * x`.
pub fn square(x: i64) -> (r: i64)
    requires
        x * x <= i64::MAX,
    ensures
        r == x * x,
{
    proof {
        assert(x * x >= 0) by (nonlinear_arith);
    }
    x * x
}

/// Serializes a response into its four wire bytes.
pub fn angles_to_byte_stream(angles: CoordinateResponse) -> (r: [u8; 4])
    ensures
        r@ == response_bytes(angles),
{
    let lo: u8 = (angles.rotation % 256) as u8;
    let hi: u8 = (angles.rotation / 256) as u8;
    let r = [angles.shoulder, angles.elbow, lo, hi];
    assert(r@ =~= response_bytes(angles));
    r
}

/// Reads a response back from its four wire bytes.
pub fn angles_from_byte_stream(bytes: [u8; 4]) -> (r: CoordinateResponse)
    ensures
        r == response_of_bytes(bytes@),
{
    let rotation: u16 = bytes[2] as u16 + 256 * (bytes[3] as u16);
    CoordinateResponse { shoulder: bytes[0], elbow: bytes[1], rotation }
}

/// Decoding the wire bytes of a response gives the response back.
pub proof fn lemma_response_decode_encode(r: CoordinateResponse)
    ensures
        response_of_bytes(response_bytes(r)) == r,
{
}

/// Encoding what four wire bytes decode to gives the same four bytes.
pub proof fn lemma_response_encode_decode(b: Seq<u8>)
    requires
        b.len() == RESPONSE_LEN,
    ensures
        response_bytes(response_of_bytes(b)) == b,
{
    assert(response_bytes(response_of_bytes(b)) =~= b);
}

} // verus!
