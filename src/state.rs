use vstd::prelude::*;
use vstd::bytes::{spec_u64_from_le_bytes, spec_u64_to_le_bytes, u64_from_le_bytes, u64_to_le_bytes};
use vstd::slice::slice_subrange;
use crate::error::ProcessError;
use crate::keys::{Key, read_key};

verus! {

/// Size in bytes of a stored escrow record.
pub const ESCROW_LEN: usize = 105;

/// The agreement held by a live escrow record.
#[derive(Debug, Clone, Copy)]
pub struct EscrowTerms {
    /// The party who created the escrow and is owed `expected_amount`.
    pub initializer_pubkey: Key,
    /// The custodial token account holding the initializer's offered tokens.
    pub temp_token_account_pubkey: Key,
    /// The account that must receive the counterparty's payment.
    pub initializer_token_to_receive_account_pubkey: Key,
    /// How much of the counterparty's token the initializer demands.
    pub expected_amount: u64,
}

/// What an escrow storage slot holds: nothing yet, or a live agreement.
#[derive(Debug, Clone, Copy)]
pub enum EscrowSlot {
    Empty,
    Live(EscrowTerms),
}

/// Whether stored bytes hold a record: `Ok(true)` for a live one, `Ok(false)` for an
/// uninitialized slot, an error when the layout is broken.
pub open spec fn record_status(data: Seq<u8>) -> Result<bool, ProcessError> {
    if data.len() != ESCROW_LEN || data[0] > 1 {
        Err(ProcessError::InvalidAccountData)
    } else {
        Ok(data[0] == 1)
    }
}

pub open spec fn record_initializer(data: Seq<u8>) -> Seq<u8> {
    data.subrange(1, 33)
}

pub open spec fn record_temp_account(data: Seq<u8>) -> Seq<u8> {
    data.subrange(33, 65)
}

pub open spec fn record_receive_account(data: Seq<u8>) -> Seq<u8> {
    data.subrange(65, 97)
}

pub open spec fn record_expected_amount(data: Seq<u8>) -> u64 {
    spec_u64_from_le_bytes(data.subrange(97, 105))
}

/// The stored form of a live record: a flag byte, three identities, and the amount in
/// little-endian order.
pub open spec fn record_bytes(
    initializer: Seq<u8>,
    temp_account: Seq<u8>,
    receive_account: Seq<u8>,
    expected_amount: u64,
) -> Seq<u8> {
    seq![1u8] + initializer + temp_account + receive_account + spec_u64_to_le_bytes(
        expected_amount,
    )
}

impl EscrowTerms {
    pub open spec fn spec_bytes(&self) -> Seq<u8> {
        record_bytes(
            self.initializer_pubkey@,
            self.temp_token_account_pubkey@,
            self.initializer_token_to_receive_account_pubkey@,
            self.expected_amount,
        )
    }

    /// Encodes the terms as a live record.
    pub fn pack(&self) -> (r: Vec<u8>)
        ensures
            r@ == self.spec_bytes(),
    {
        let mut out: Vec<u8> = Vec::new();
        out.push(1u8);
        push_all(&mut out, self.initializer_pubkey.as_slice());
        push_all(&mut out, self.temp_token_account_pubkey.as_slice());
        push_all(&mut out, self.initializer_token_to_receive_account_pubkey.as_slice());
        let amount = u64_to_le_bytes(self.expected_amount);
        push_all(&mut out, amount.as_slice());
        assert(out@ =~= self.spec_bytes());
        out
    }
}

/// Appends every byte of `s` to `out`.
fn push_all(out: &mut Vec<u8>, s: &[u8])
    ensures
        final(out)@ == old(out)@ + s@,
{
    let mut i: usize = 0;
    while i < s.len()
        invariant
            0 <= i <= s@.len(),
            out@ == old(out)@ + s@.subrange(0, i as int),
        decreases s@.len() - i,
    {
        out.push(s[i]);
        i = i + 1;
        assert(out@ =~= old(out)@ + s@.subrange(0, i as int));
    }
    assert(s@.subrange(0, i as int) =~= s@);
}

impl EscrowSlot {
    /// Decodes a storage slot without requiring that it hold a live record.
    pub fn unpack_unchecked(data: &[u8]) -> (r: Result<EscrowSlot, ProcessError>)
        ensures
            match r {
                Err(e) => e == ProcessError::InvalidAccountData && record_status(data@) is Err,
                Ok(EscrowSlot::Empty) => record_status(data@) == Ok::<bool, ProcessError>(false),
                Ok(EscrowSlot::Live(t)) => {
                    &&& record_status(data@) == Ok::<bool, ProcessError>(true)
                    &&& t.initializer_pubkey@ == record_initializer(data@)
                    &&& t.temp_token_account_pubkey@ == record_temp_account(data@)
                    &&& t.initializer_token_to_receive_account_pubkey@ == record_receive_account(
                        data@,
                    )
                    &&& t.expected_amount == record_expected_amount(data@)
                },
            },
    {
        if data.len() != ESCROW_LEN || data[0] > 1 {
            return Err(ProcessError::InvalidAccountData);
        }
        if data[0] == 0 {
            return Ok(EscrowSlot::Empty);
        }
        let terms = EscrowTerms {
            initializer_pubkey: read_key(data, 1),
            temp_token_account_pubkey: read_key(data, 33),
            initializer_token_to_receive_account_pubkey: read_key(data, 65),
            expected_amount: u64_from_le_bytes(slice_subrange(data, 97, 105)),
        };
        Ok(EscrowSlot::Live(terms))
    }
}

/// A live record decodes to the terms it was encoded from.
pub proof fn lemma_record_round_trip(
    initializer: Seq<u8>,
    temp_account: Seq<u8>,
    receive_account: Seq<u8>,
    expected_amount: u64,
)
    requires
        initializer.len() == 32,
        temp_account.len() == 32,
        receive_account.len() == 32,
    ensures
        ({
            let d = record_bytes(initializer, temp_account, receive_account, expected_amount);
            &&& record_status(d) == Ok::<bool, ProcessError>(true)
            &&& record_initializer(d) == initializer
            &&& record_temp_account(d) == temp_account
            &&& record_receive_account(d) == receive_account
            &&& record_expected_amount(d) == expected_amount
        }),
{
    vstd::bytes::lemma_auto_spec_u64_to_from_le_bytes();
    let d = record_bytes(initializer, temp_account, receive_account, expected_amount);
    let b = spec_u64_to_le_bytes(expected_amount);
    assert(b.len() == 8);
    assert(record_initializer(d) =~= initializer);
    assert(record_temp_account(d) =~= temp_account);
    assert(record_receive_account(d) =~= receive_account);
    assert(d.subrange(97, 105) =~= b);
}

} // verus!
