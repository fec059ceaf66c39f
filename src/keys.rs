use vstd::prelude::*;

verus! {

/// A 32-byte ledger identity (an account address or a program id).
pub type Key = [u8; 32];

/// The identity of the token-ledger program whose accounts the escrow trades.
pub open spec fn token_program_key() -> Seq<u8> {
    seq![
        6u8, 221u8, 246u8, 225u8, 215u8, 101u8, 161u8, 147u8, 217u8, 203u8, 225u8, 70u8, 206u8,
        235u8, 121u8, 172u8, 28u8, 180u8, 133u8, 237u8, 95u8, 91u8, 55u8, 145u8, 58u8, 140u8,
        245u8, 133u8, 126u8, 255u8, 0u8, 169u8,
    ]
}

/// The label that separates the escrow's custodial identity from other derived identities.
pub open spec fn escrow_seed() -> Seq<u8> {
    seq![101u8, 115u8, 99u8, 114u8, 111u8, 119u8]
}

/// What deriving a program address from `seed` under `program_id` gives: the address and its
/// bump value, or nothing when no bump value yields an address off the signing curve or the
/// seed is longer than 32 bytes.
pub uninterp spec fn derived_address(seed: Seq<u8>, program_id: Seq<u8>) -> Option<(Seq<u8>, u8)>;

/// The custodial identity that the escrow derives under `program_id`.
pub open spec fn custodial_identity(program_id: Seq<u8>) -> Seq<u8> {
    let found = derived_address(escrow_seed(), program_id)->0;
    found.0
}

/// Compares two identities byte by byte.
pub fn keys_equal(a: &Key, b: &Key) -> (r: bool)
    ensures
        r == (a@ == b@),
{
    let mut i: usize = 0;
    while i < 32
        invariant
            0 <= i <= 32,
            forall|j: int| 0 <= j < i ==> a@[j] == b@[j],
        decreases 32 - i,
    {
        if a[i] != b[i] {
            assert(a@[i as int] != b@[i as int]);
            return false;
        }
        i = i + 1;
    }
    assert(a@ =~= b@);
    true
}

/// Copies the 32 bytes of `data` that start at `start` into an identity.
pub fn read_key(data: &[u8], start: usize) -> (k: Key)
    requires
        start + 32 <= data@.len(),
    ensures
        k@ == data@.subrange(start as int, start + 32),
{
    let mut k: Key = [0u8; 32];
    let mut i: usize = 0;
    while i < 32
        invariant
            0 <= i <= 32,
            start + 32 <= data.len(),
            forall|j: int| 0 <= j < i ==> k@[j] == data@[start + j],
        decreases 32 - i,
    {
        k[i] = data[start + i];
        i = i + 1;
    }
    assert(k@ =~= data@.subrange(start as int, start + 32));
    k
}

/// The escrow's domain-separation label as bytes.
pub fn escrow_seed_bytes() -> (r: Vec<u8>)
    ensures
        r@ == escrow_seed(),
{
    let r: Vec<u8> = vec![101u8, 115u8, 99u8, 114u8, 111u8, 119u8];
    assert(r@ =~= escrow_seed());
    r
}

/// Relies on spl_token::id: the fixed identity of the token-ledger program.
#[verifier::external_body]
pub(crate) fn token_program_id() -> (r: Key)
    ensures
        r@ == token_program_key(),
{
    spl_token::id().to_bytes()
}

/// Relies on solana_program's Pubkey::try_find_program_address: a deterministic derivation
/// from the seed and the program id, `None` when no bump value gives a valid address or the
/// seed is longer than 32 bytes.
#[verifier::external_body]
pub(crate) fn find_program_address(seed: &[u8], program_id: &Key) -> (r: Option<(Key, u8)>)
    ensures
        match r {
            Some((k, b)) => derived_address(seed@, program_id@) == Some((k@, b)),
            None => derived_address(seed@, program_id@) is None,
        },
{
    let id = solana_program::pubkey::Pubkey::new_from_array(*program_id);
    solana_program::pubkey::Pubkey::try_find_program_address(&[seed], &id).map(
        |(k, b)| (k.to_bytes(), b),
    )
}

} // verus!
