//! The instruction codec: the 9-byte wire payload and its typed form.
//!
//! A payload is exactly nine bytes: byte 0 is a direction tag (1 = swap X
//! for Y, 2 = swap Y for X), bytes 1 to 8 hold the input amount as a
//! little-endian unsigned 64-bit integer. `decode` rejects everything else;
//! `encode_instruction_data` produces exactly this shape.

use vstd::bytes::lemma_auto_spec_u64_to_from_le_bytes;
use vstd::bytes::spec_u64_from_le_bytes;
use vstd::bytes::spec_u64_to_le_bytes;
use vstd::bytes::u64_from_le_bytes;
use vstd::bytes::u64_to_le_bytes;
use vstd::prelude::*;
use vstd::slice::slice_subrange;

verus! {

/// Which asset the user pays into the pool.
#[derive(Clone, Copy, Debug, PartialEq, Eq, Structural)]
pub enum Direction {
    /// The user pays asset X and receives asset Y.
    XtoY,
    /// The user pays asset Y and receives asset X.
    YtoX,
}

/// A decoded swap instruction: pay `amount_in` of the asset named by
/// `direction` into the pool.
#[derive(Clone, Copy, Debug, PartialEq, Eq, Structural)]
pub struct SwapRequest {
    pub direction: Direction,
    pub amount_in: u64,
}

/// Why a wire payload was rejected.
#[derive(Clone, Copy, Debug, PartialEq, Eq, Structural)]
pub enum DecodeError {
    /// The payload was not exactly nine bytes long.
    InvalidLength,
    /// The direction tag (byte 0) was neither 1 nor 2.
    InvalidDirection,
}

/// Length of a wire payload in bytes.
pub const PAYLOAD_LEN: usize = 9;

/// Direction tag for an X-for-Y swap.
pub const TAG_X_TO_Y: u8 = 1;

/// Direction tag for a Y-for-X swap.
pub const TAG_Y_TO_X: u8 = 2;

/// The direction a tag byte stands for, if any.
pub open spec fn spec_direction_of_tag(tag: u8) -> Option<Direction> {
    if tag == TAG_X_TO_Y {
        Some(Direction::XtoY)
    } else if tag == TAG_Y_TO_X {
        Some(Direction::YtoX)
    } else {
        None
    }
}

/// The tag byte that encodes a direction.
pub open spec fn spec_tag_of_direction(direction: Direction) -> u8 {
    match direction {
        Direction::XtoY => TAG_X_TO_Y,
        Direction::YtoX => TAG_Y_TO_X,
    }
}

/// What `decode` returns on a byte sequence: the typed request, or the
/// error for the first check that fails (length, then direction tag).
pub open spec fn spec_decode(s: Seq<u8>) -> Result<SwapRequest, DecodeError> {
    if s.len() != PAYLOAD_LEN {
        Err(DecodeError::InvalidLength)
    } else {
        match spec_direction_of_tag(s[0]) {
            Some(direction) => Ok(
                SwapRequest { direction, amount_in: spec_u64_from_le_bytes(s.subrange(1, 9)) },
            ),
            None => Err(DecodeError::InvalidDirection),
        }
    }
}

/// The nine-byte payload that encodes a tag byte and an amount.
pub open spec fn spec_encode(tag: u8, amount: u64) -> Seq<u8> {
    seq![tag] + spec_u64_to_le_bytes(amount)
}

/// Parses a wire payload into a typed swap request.
pub fn decode(input: &[u8]) -> (r: Result<SwapRequest, DecodeError>)
    ensures
        r == spec_decode(input@),
        input@.len() != PAYLOAD_LEN ==> r == Err::<SwapRequest, DecodeError>(
            DecodeError::InvalidLength,
        ),
        input@.len() == PAYLOAD_LEN && spec_direction_of_tag(input@[0]) is None ==> r
            == Err::<SwapRequest, DecodeError>(DecodeError::InvalidDirection),
        r matches Ok(req) ==> input@.len() == PAYLOAD_LEN && spec_direction_of_tag(input@[0])
            == Some(req.direction) && req.amount_in == spec_u64_from_le_bytes(
            input@.subrange(1, 9),
        ),
{
    if input.len() != PAYLOAD_LEN {
        return Err(DecodeError::InvalidLength);
    }
    let tag: u8 = input[0];
    let amount_in: u64 = u64_from_le_bytes(slice_subrange(input, 1, PAYLOAD_LEN));
    if tag == TAG_X_TO_Y {
        Ok(SwapRequest { direction: Direction::XtoY, amount_in })
    } else if tag == TAG_Y_TO_X {
        Ok(SwapRequest { direction: Direction::YtoX, amount_in })
    } else {
        Err(DecodeError::InvalidDirection)
    }
}

/// Builds the wire payload for a swap: the tag byte, then the amount in
/// little-endian order.
pub fn encode_instruction_data(token_type: u8, amount: u64) -> (out: [u8; 9])
    ensures
        out@ == spec_encode(token_type, amount),
{
    proof {
        lemma_auto_spec_u64_to_from_le_bytes();
    }
    let amount_bytes: Vec<u8> = u64_to_le_bytes(amount);
    let mut out: [u8; 9] = [0u8; 9];
    out[0] = token_type;
    let mut i: usize = 0;
    while i < 8
        invariant
            i <= 8,
            amount_bytes@ == spec_u64_to_le_bytes(amount),
            amount_bytes@.len() == 8,
            out@.len() == 9,
            out@[0] == token_type,
            forall|j: int| 0 <= j < i ==> out@[j + 1] == amount_bytes@[j],
        decreases 8 - i,
    {
        out[i + 1] = amount_bytes[i];
        i = i + 1;
    }
    proof {
        assert(out@ =~= spec_encode(token_type, amount));
    }
    out
}

/// Decoding inverts encoding: a payload built from a valid direction tag
/// and any amount decodes to exactly that request.
pub proof fn lemma_decode_encode(direction: Direction, amount: u64)
    ensures
        spec_decode(spec_encode(spec_tag_of_direction(direction), amount)) == Ok::<
            SwapRequest,
            DecodeError,
        >(SwapRequest { direction, amount_in: amount }),
{
    lemma_auto_spec_u64_to_from_le_bytes();
    let s = spec_encode(spec_tag_of_direction(direction), amount);
    assert(s.subrange(1, 9) =~= spec_u64_to_le_bytes(amount));
}

} // verus!
