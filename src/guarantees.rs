use vstd::prelude::*;
use crate::error::{EscrowError, ProcessError};
use crate::keys::{custodial_identity, derived_address, escrow_seed, token_program_key};
use crate::processor::{
    AccountView, LedgerOp, exchange_error, exchange_result, init_escrow_ops,
    init_escrow_result,
};
use crate::state::{
    lemma_record_round_trip, record_initializer, record_receive_account, record_status,
    record_temp_account,
};
use crate::token::token_account_amount;

verus! {

/// The bytes that the first step of an accepted `InitEscrow` stores.
pub open spec fn written_record(op: LedgerOp) -> Seq<u8> {
    match op {
        LedgerOp::WriteRecord { data, .. } => data@,
        _ => Seq::empty(),
    }
}

/// Once `InitEscrow` has stored its record, an `Exchange` against that record that is not
/// signed by the taker, names other accounts than the recorded ones, or claims an amount
/// other than the custodial balance, is rejected: it issues no ledger operation at all.
pub proof fn lemma_mismatched_exchange_is_rejected(
    init_ops: Seq<LedgerOp>,
    init_accounts: Seq<AccountView>,
    init_amount: u64,
    accounts: Seq<AccountView>,
    amount: u64,
    program_id: Seq<u8>,
)
    requires
        init_escrow_ops(init_ops, init_accounts, init_amount, program_id),
        accounts.len() >= 9,
        accounts[6].data@ == written_record(init_ops[0]),
        !accounts[0].is_signer
            || accounts[4].key@ != init_accounts[0].key@
            || accounts[3].key@ != init_accounts[1].key@
            || accounts[5].key@ != init_accounts[2].key@
            || token_account_amount(accounts[3].data@) != Ok::<u64, ProcessError>(amount),
    ensures
        exchange_error(accounts, amount, program_id) is Some,
        forall|r: Result<Vec<LedgerOp>, ProcessError>|
            exchange_result(r, accounts, amount, program_id) ==> r is Err,
{
    lemma_record_round_trip(
        init_accounts[0].key@,
        init_accounts[1].key@,
        init_accounts[2].key@,
        init_amount,
    );
}

/// After an `Exchange` has gone through, its record slot is emptied; replaying the same call
/// against the emptied (or zero-filled) slot is refused as holding no escrow and issues no
/// ledger operation.
pub proof fn lemma_replayed_exchange_is_rejected(
    accounts: Seq<AccountView>,
    replay: Seq<AccountView>,
    amount: u64,
    program_id: Seq<u8>,
)
    requires
        exchange_error(accounts, amount, program_id) is None,
        replay.len() == accounts.len(),
        replay[0].is_signer == accounts[0].is_signer,
        replay[6].data@.len() == 0 || replay[6].data@ == Seq::new(105, |i: int| 0u8),
    ensures
        exchange_error(replay, amount, program_id) == Some(
            ProcessError::Escrow(EscrowError::AccountNotInitialized),
        ),
        forall|r: Result<Vec<LedgerOp>, ProcessError>|
            exchange_result(r, replay, amount, program_id) ==> r is Err,
{
    if replay[6].data@.len() != 0 {
        assert(replay[6].data@[0] == 0u8);
    }
}

/// When the taker signs, the record is live and names the supplied accounts, the custodial
/// account is readable, the custodial identity exists and the token program is the right one,
/// an `Exchange` goes through exactly when the claimed amount equals the custodial balance,
/// and is otherwise refused as a mismatch.
pub proof fn lemma_exchange_amount_is_exact(
    accounts: Seq<AccountView>,
    amount: u64,
    program_id: Seq<u8>,
)
    requires
        accounts.len() >= 9,
        accounts[0].is_signer,
        record_status(accounts[6].data@) == Ok::<bool, ProcessError>(true),
        record_receive_account(accounts[6].data@) == accounts[5].key@,
        record_initializer(accounts[6].data@) == accounts[4].key@,
        record_temp_account(accounts[6].data@) == accounts[3].key@,
        token_account_amount(accounts[3].data@) is Ok,
        derived_address(escrow_seed(), program_id) is Some,
        accounts[7].key@ == token_program_key(),
    ensures
        exchange_error(accounts, amount, program_id) is None <==> amount
            == token_account_amount(accounts[3].data@)->Ok_0,
        amount != token_account_amount(accounts[3].data@)->Ok_0 ==> exchange_error(
            accounts,
            amount,
            program_id,
        ) == Some(ProcessError::Escrow(EscrowError::ExpectedAmountMismatch)),
{
}

/// An accepted `InitEscrow` changes one authority only: that of the temporary token account,
/// which passes from the initializer to the custodial identity derived from the program id
/// alone, whatever accounts the caller supplied.
pub proof fn lemma_custody_goes_to_derived_identity(
    ops: Seq<LedgerOp>,
    accounts: Seq<AccountView>,
    amount: u64,
    program_id: Seq<u8>,
)
    requires
        init_escrow_ops(ops, accounts, amount, program_id),
    ensures
        forall|i: int|
            0 <= i < ops.len() && (#[trigger] ops[i]) is SetAuthority ==> {
                &&& i == 1
                &&& ops[i]->SetAuthority_account == accounts[1].key
                &&& ops[i]->SetAuthority_current_authority == accounts[0].key
                &&& ops[i]->SetAuthority_new_authority@ == custodial_identity(program_id)
            },
{
}

/// `InitEscrow` against a storage slot funded below the rent-exemption minimum is refused
/// as not rent exempt and stores no record.
pub proof fn lemma_underfunded_slot_is_rejected(
    accounts: Seq<AccountView>,
    amount: u64,
    program_id: Seq<u8>,
    rent_minimum: u64,
)
    requires
        accounts.len() >= 5,
        accounts[0].is_signer,
        accounts[2].owner@ == token_program_key(),
        accounts[3].lamports < rent_minimum,
    ensures
        forall|r: Result<Vec<LedgerOp>, ProcessError>|
            init_escrow_result(r, accounts, amount, program_id, Some(rent_minimum)) ==> r
                == Err::<Vec<LedgerOp>, ProcessError>(
                ProcessError::Escrow(EscrowError::NotRentExempt),
            ),
{
}

} // verus!
