//! A verified instruction decoder for an on-chain program entrypoint.
//!
//! The decoder interprets a raw instruction buffer: the first byte is the
//! opcode, and the eight bytes after it, when all present, carry a 64-bit
//! parameter in little-endian order. A shorter buffer still decodes, with the
//! parameter defaulting to zero; only an empty buffer is malformed. Decoding
//! also produces the diagnostic line that the host runtime logs.

use vstd::prelude::*;

pub mod decode;
pub mod diag;

verus! {

use crate::decode::DecodeError;
use crate::decode::DecodedInstruction;
use crate::decode::decode_post;
use crate::diag::spec_diagnostic_line;

/// What `process_instruction` returns on a given buffer: the decoded
/// instruction together with its diagnostic line, or the decode error.
pub open spec fn process_post(
    data: Seq<u8>,
    r: Result<(DecodedInstruction, String), DecodeError>,
) -> bool {
    match r {
        Ok((d, line)) => decode_post(data, Ok(d)) && line@ == spec_diagnostic_line(d.parameter),
        Err(e) => decode_post(data, Err(e)),
    }
}

/// Decode one instruction buffer and build the diagnostic line for its
/// parameter. Succeeds on every non-empty buffer; an empty buffer is the one
/// malformed input.
pub fn process_instruction(data: &[u8]) -> (r: Result<(DecodedInstruction, String), DecodeError>)
    ensures
        process_post(data@, r),
        r is Ok <==> data@.len() > 0,
{
    match crate::decode::decode(data) {
        Ok(d) => {
            let line = crate::diag::diagnostic_line(d.parameter);
            Ok((d, line))
        },
        Err(e) => Err(e),
    }
}

/// Processing is deterministic: any two outcomes that meet
/// `process_instruction`'s contract on the same buffer decode to the same
/// instruction and carry the same diagnostic text. There is no state shared
/// between invocations that could make them differ.
pub proof fn lemma_process_deterministic(
    data: Seq<u8>,
    r1: Result<(DecodedInstruction, String), DecodeError>,
    r2: Result<(DecodedInstruction, String), DecodeError>,
)
    requires
        process_post(data, r1),
        process_post(data, r2),
    ensures
        r1 is Ok <==> r2 is Ok,
        r1 matches Ok(o1) ==> r2 matches Ok(o2) && o1.0 == o2.0 && o1.1@ == o2.1@,
        r1 matches Err(e1) ==> r2 matches Err(e2) && e1 == e2,
{
    match (r1, r2) {
        (Ok((d1, _)), Ok((d2, _))) => {
            crate::decode::lemma_decode_deterministic(data, Ok(d1), Ok(d2));
        },
        _ => {},
    }
}

} // verus!
