use vstd::prelude::*;
use vstd::bytes::{spec_u64_from_le_bytes, u64_from_le_bytes};
use vstd::slice::slice_subrange;
use crate::error::{EscrowError, ProcessError};

verus! {

/// A decoded escrow operation.
#[derive(Debug, Clone, Copy, PartialEq, Eq, Structural)]
pub enum EscrowInstruction {
    /// Offer the temporary account's tokens for `amount` of the counterparty's token.
    InitEscrow { amount: u64 },
    /// Accept an offer whose custodial account holds exactly `amount`.
    Exchange { amount: u64 },
}

/// The operation encoded by `input`: a tag byte (0 or 1) followed by an amount in eight
/// little-endian bytes; anything after those nine bytes is ignored.
pub open spec fn spec_unpack_instruction(input: Seq<u8>) -> Result<EscrowInstruction, ProcessError> {
    if input.len() < 9 || input[0] > 1 {
        Err(ProcessError::Escrow(EscrowError::InvalidInstruction))
    } else if input[0] == 0 {
        Ok(EscrowInstruction::InitEscrow { amount: spec_u64_from_le_bytes(input.subrange(1, 9)) })
    } else {
        Ok(EscrowInstruction::Exchange { amount: spec_u64_from_le_bytes(input.subrange(1, 9)) })
    }
}

impl EscrowInstruction {
    /// Decodes the operation bytes.
    pub fn unpack(input: &[u8]) -> (r: Result<EscrowInstruction, ProcessError>)
        ensures
            r == spec_unpack_instruction(input@),
    {
        if input.len() < 9 || input[0] > 1 {
            return Err(ProcessError::Escrow(EscrowError::InvalidInstruction));
        }
        let amount = u64_from_le_bytes(slice_subrange(input, 1, 9));
        if input[0] == 0 {
            Ok(EscrowInstruction::InitEscrow { amount })
        } else {
            Ok(EscrowInstruction::Exchange { amount })
        }
    }
}

} // verus!
