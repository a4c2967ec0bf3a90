//! Splitting an instruction buffer into an opcode byte and a 64-bit
//! little-endian parameter.

use vstd::prelude::*;

verus! {

/// The result of interpreting an instruction buffer: the leading opcode byte
/// and the 64-bit parameter read from the bytes after it.
///
/// The opcode is extracted but not branched upon: this decoder treats every
/// opcode value alike and leaves dispatch to a fuller system.
#[derive(Clone, Copy, Debug, PartialEq, Eq, Structural)]
pub struct DecodedInstruction {
    pub opcode: u8,
    pub parameter: u64,
}

/// The one failure the decoder can report: the buffer is empty, so no opcode
/// byte can be extracted.
#[derive(Clone, Copy, Debug, PartialEq, Eq, Structural)]
pub enum DecodeError {
    MalformedInstruction,
}

/// The little-endian reading of eight bytes as an unsigned 64-bit integer:
/// the first byte is the least significant.
pub open spec fn u64_from_le(b: Seq<u8>) -> nat
    recommends
        b.len() == 8,
{
    (b[0] as nat)
        + (b[1] as nat) * 0x100
        + (b[2] as nat) * 0x1_0000
        + (b[3] as nat) * 0x100_0000
        + (b[4] as nat) * 0x1_0000_0000
        + (b[5] as nat) * 0x100_0000_0000
        + (b[6] as nat) * 0x1_0000_0000_0000
        + (b[7] as nat) * 0x100_0000_0000_0000
}

/// The parameter carried by an instruction buffer: the little-endian reading
/// of the eight bytes after the opcode when all eight are present, and zero
/// otherwise. A truncated span is discarded whole, never zero-padded; bytes
/// past the ninth are ignored.
pub open spec fn spec_parameter(data: Seq<u8>) -> nat {
    if data.len() >= 9 {
        u64_from_le(data.subrange(1, 9))
    } else {
        0
    }
}

/// What `decode` returns on a given buffer: the first byte as the opcode and
/// `spec_parameter` as the parameter, or `MalformedInstruction` exactly when
/// the buffer is empty.
pub open spec fn decode_post(data: Seq<u8>, r: Result<DecodedInstruction, DecodeError>) -> bool {
    match r {
        Ok(d) => data.len() > 0 && d.opcode == data[0] && d.parameter == spec_parameter(data),
        Err(e) => data.len() == 0 && e == DecodeError::MalformedInstruction,
    }
}

/// Read the parameter field of a non-empty instruction buffer.
pub fn read_parameter(data: &[u8]) -> (p: u64)
    requires
        data@.len() >= 1,
    ensures
        p == spec_parameter(data@),
{
    if data.len() < 9 {
        return 0;
    }
    let p: u64 = (data[1] as u64)
        + (data[2] as u64) * 0x100
        + (data[3] as u64) * 0x1_0000
        + (data[4] as u64) * 0x100_0000
        + (data[5] as u64) * 0x1_0000_0000
        + (data[6] as u64) * 0x100_0000_0000
        + (data[7] as u64) * 0x1_0000_0000_0000
        + (data[8] as u64) * 0x100_0000_0000_0000;
    proof {
        let b = data@.subrange(1, 9);
        assert forall|i: int| 0 <= i < 8 implies b[i] == data@[i + 1] by {}
    }
    p
}

/// Decode one instruction buffer. Every non-empty buffer decodes; an empty
/// buffer is rejected as `MalformedInstruction`, whatever else the invocation
/// carried, since the opcode byte cannot be extracted.
pub fn decode(data: &[u8]) -> (r: Result<DecodedInstruction, DecodeError>)
    ensures
        decode_post(data@, r),
        r is Ok <==> data@.len() > 0,
{
    if data.len() == 0 {
        return Err(DecodeError::MalformedInstruction);
    }
    let opcode = data[0];
    let parameter = read_parameter(data);
    Ok(DecodedInstruction { opcode, parameter })
}

/// Decoding is a function of the buffer alone: any two results that meet
/// `decode`'s contract on the same buffer are equal.
pub proof fn lemma_decode_deterministic(
    data: Seq<u8>,
    r1: Result<DecodedInstruction, DecodeError>,
    r2: Result<DecodedInstruction, DecodeError>,
)
    requires
        decode_post(data, r1),
        decode_post(data, r2),
    ensures
        r1 == r2,
{
}

/// The decoded instruction depends only on the first nine bytes: whatever
/// stands at or past the ninth byte of either buffer does not change it.
pub proof fn lemma_decode_ignores_trailing_bytes(
    b1: Seq<u8>,
    b2: Seq<u8>,
    r1: Result<DecodedInstruction, DecodeError>,
    r2: Result<DecodedInstruction, DecodeError>,
)
    requires
        b1.len() >= 9,
        b2.len() >= 9,
        b1.subrange(0, 9) == b2.subrange(0, 9),
        decode_post(b1, r1),
        decode_post(b2, r2),
    ensures
        r1 == r2,
{
    assert forall|i: int| 0 <= i < 9 implies b1[i] == b2[i] by {
        assert(b1[i] == b1.subrange(0, 9)[i]);
        assert(b2[i] == b2.subrange(0, 9)[i]);
    }
    assert(b1.subrange(1, 9) =~= b2.subrange(1, 9));
}

} // verus!
