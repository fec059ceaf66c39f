use vstd::prelude::*;
use vstd::bytes::spec_u64_from_le_bytes;
use crate::error::ProcessError;
use solana_program::program_error::ProgramError;
use solana_program::program_pack::Pack;

verus! {

/// Size in bytes of a token-ledger account.
pub const TOKEN_ACCOUNT_LEN: usize = 165;

/// Whether the four bytes at `start` are a valid optional-value tag (none or some).
pub open spec fn option_tag_valid(data: Seq<u8>, start: int) -> bool {
    &&& data[start] <= 1
    &&& data[start + 1] == 0
    &&& data[start + 2] == 0
    &&& data[start + 3] == 0
}

/// The balance that a token-ledger account's bytes record, or why they cannot be read:
/// the layout must have the right size, valid optional-value tags and a known state, and
/// the state must not be uninitialized.
pub open spec fn token_account_amount(data: Seq<u8>) -> Result<u64, ProcessError> {
    if data.len() != TOKEN_ACCOUNT_LEN || !option_tag_valid(data, 72) || data[108] > 2
        || !option_tag_valid(data, 109) || !option_tag_valid(data, 129) {
        Err(ProcessError::InvalidAccountData)
    } else if data[108] == 0 {
        Err(ProcessError::UninitializedAccount)
    } else {
        Ok(spec_u64_from_le_bytes(data.subrange(64, 72)))
    }
}

/// Relies on spl_token's Account::unpack: it checks the size, the optional-value tags and
/// the state byte, refuses an uninitialized account, and reads the balance at bytes 64..72.
#[verifier::external_body]
pub(crate) fn unpack_token_amount(data: &[u8]) -> (r: Result<u64, ProcessError>)
    ensures
        r == token_account_amount(data@),
{
    match spl_token::state::Account::unpack(data) {
        Ok(account) => Ok(account.amount),
        Err(ProgramError::UninitializedAccount) => Err(ProcessError::UninitializedAccount),
        Err(_) => Err(ProcessError::InvalidAccountData),
    }
}

} // verus!
