use vstd::prelude::*;
use crate::error::{EscrowError, ProcessError};
use crate::instruction::{EscrowInstruction, spec_unpack_instruction};
use crate::keys::{
    Key, derived_address, escrow_seed, escrow_seed_bytes, find_program_address, keys_equal,
    token_program_id, token_program_key,
};
use crate::state::{
    EscrowSlot, EscrowTerms, record_bytes, record_expected_amount, record_initializer,
    record_receive_account, record_status, record_temp_account,
};
use crate::token::{token_account_amount, unpack_token_amount};

verus! {

/// What the processor sees of one account passed to a call.
#[derive(Debug, Clone)]
pub struct AccountView {
    pub key: Key,
    /// The program that owns the account.
    pub owner: Key,
    pub is_signer: bool,
    pub lamports: u64,
    pub data: Vec<u8>,
}

/// The evidence that authorizes a token-ledger operation.
#[derive(Debug, Clone, Copy)]
pub enum Authority {
    /// A party that signed the transaction.
    Signer(Key),
    /// The escrow's custodial identity, vouched for by the escrow label and this bump value.
    Derived { address: Key, bump: u8 },
}

/// One step that a successful call asks the ledger to perform, in order.
#[derive(Debug, Clone)]
pub enum LedgerOp {
    /// Store `data` in the escrow storage slot `account`.
    WriteRecord { account: Key, data: Vec<u8> },
    /// Make `new_authority` the owner of the token account `account`, signed by its current owner.
    SetAuthority { token_program: Key, account: Key, new_authority: Key, current_authority: Key },
    /// Move `amount` tokens from `source` to `destination`.
    Transfer { token_program: Key, source: Key, destination: Key, authority: Authority, amount: u64 },
    /// Close the token account `account`, sending its lamports to `destination`.
    CloseAccount { token_program: Key, account: Key, destination: Key, authority: Authority },
    /// Move all lamports of the escrow slot `record` to `destination` and empty its data.
    CloseRecord { record: Key, destination: Key },
}

/// The stateless operation dispatcher of the escrow program.
pub struct Processor;

/// Why `InitEscrow` must be rejected, checked in order, or `None` when it goes ahead.
/// The accounts are: initializer, temporary token account, receiving account, escrow slot,
/// rent parameters, token program.
pub open spec fn init_escrow_error(
    accounts: Seq<AccountView>,
    program_id: Seq<u8>,
    rent_minimum: Option<u64>,
) -> Option<ProcessError> {
    if accounts.len() < 1 {
        Some(ProcessError::NotEnoughAccountKeys)
    } else if !accounts[0].is_signer {
        Some(ProcessError::MissingRequiredSignature)
    } else if accounts.len() < 3 {
        Some(ProcessError::NotEnoughAccountKeys)
    } else if accounts[2].owner@ != token_program_key() {
        Some(ProcessError::IncorrectProgramId)
    } else if accounts.len() < 5 {
        Some(ProcessError::NotEnoughAccountKeys)
    } else if rent_minimum is None {
        Some(ProcessError::InvalidArgument)
    } else if accounts[3].lamports < rent_minimum->0 {
        Some(ProcessError::Escrow(EscrowError::NotRentExempt))
    } else if record_status(accounts[3].data@) is Err {
        Some(ProcessError::InvalidAccountData)
    } else if record_status(accounts[3].data@) == Ok::<bool, ProcessError>(true) {
        Some(ProcessError::AccountAlreadyInitialized)
    } else if derived_address(escrow_seed(), program_id) is None {
        Some(ProcessError::InvalidSeeds)
    } else if accounts.len() < 6 {
        Some(ProcessError::NotEnoughAccountKeys)
    } else if accounts[5].key@ != token_program_key() {
        Some(ProcessError::IncorrectProgramId)
    } else {
        None
    }
}

/// The steps of an accepted `InitEscrow`: store the record, then hand the temporary
/// account to the custodial identity.
pub open spec fn init_escrow_ops(
    ops: Seq<LedgerOp>,
    accounts: Seq<AccountView>,
    amount: u64,
    program_id: Seq<u8>,
) -> bool {
    let pda = derived_address(escrow_seed(), program_id)->0;
    &&& ops.len() == 2
    &&& ops[0] matches LedgerOp::WriteRecord { account, data } && account == accounts[3].key
        && data@ == record_bytes(accounts[0].key@, accounts[1].key@, accounts[2].key@, amount)
    &&& ops[1] matches LedgerOp::SetAuthority {
        token_program,
        account,
        new_authority,
        current_authority,
    } && token_program == accounts[5].key && account == accounts[1].key
        && new_authority@ == pda.0
        && current_authority == accounts[0].key
}

/// Why `Exchange` must be rejected, checked in order, or `None` when it goes ahead. An empty
/// escrow slot is one that an earlier `Exchange` settled.
/// The accounts are: taker, taker's paying account, taker's receiving account, custodial
/// account, initializer's main account, initializer's receiving account, escrow slot,
/// token program, custodial identity.
pub open spec fn exchange_error(
    accounts: Seq<AccountView>,
    amount: u64,
    program_id: Seq<u8>,
) -> Option<ProcessError> {
    if accounts.len() < 1 {
        Some(ProcessError::NotEnoughAccountKeys)
    } else if !accounts[0].is_signer {
        Some(ProcessError::MissingRequiredSignature)
    } else if accounts.len() < 9 {
        Some(ProcessError::NotEnoughAccountKeys)
    } else if accounts[6].data@.len() == 0 {
        Some(ProcessError::Escrow(EscrowError::AccountNotInitialized))
    } else if record_status(accounts[6].data@) is Err {
        Some(ProcessError::InvalidAccountData)
    } else if record_status(accounts[6].data@) == Ok::<bool, ProcessError>(false) {
        Some(ProcessError::Escrow(EscrowError::AccountNotInitialized))
    } else if record_receive_account(accounts[6].data@) != accounts[5].key@
        || record_initializer(accounts[6].data@) != accounts[4].key@
        || record_temp_account(accounts[6].data@) != accounts[3].key@ {
        Some(ProcessError::InvalidAccountData)
    } else if token_account_amount(accounts[3].data@) is Err {
        Some(token_account_amount(accounts[3].data@)->Err_0)
    } else if token_account_amount(accounts[3].data@)->Ok_0 != amount {
        Some(ProcessError::Escrow(EscrowError::ExpectedAmountMismatch))
    } else if derived_address(escrow_seed(), program_id) is None {
        Some(ProcessError::InvalidSeeds)
    } else if accounts[7].key@ != token_program_key() {
        Some(ProcessError::IncorrectProgramId)
    } else {
        None
    }
}

/// The steps of an accepted `Exchange`: the taker pays the initializer, the custodial
/// balance goes to the taker, the custodial account closes, and the record is reclaimed.
pub open spec fn exchange_ops(
    ops: Seq<LedgerOp>,
    accounts: Seq<AccountView>,
    amount: u64,
    program_id: Seq<u8>,
) -> bool {
    let pda = derived_address(escrow_seed(), program_id)->0;
    &&& ops.len() == 4
    &&& ops[0] matches LedgerOp::Transfer { token_program, source, destination, authority, amount: paid }
        && token_program == accounts[7].key && source == accounts[1].key
        && destination == accounts[5].key && authority == Authority::Signer(accounts[0].key)
        && paid == record_expected_amount(accounts[6].data@)
    &&& ops[1] matches LedgerOp::Transfer { token_program, source, destination, authority, amount: moved }
        && token_program == accounts[7].key && source == accounts[3].key
        && destination == accounts[2].key && moved == amount
        && is_derived_authority(authority, pda)
    &&& ops[2] matches LedgerOp::CloseAccount { token_program, account, destination, authority }
        && token_program == accounts[7].key && account == accounts[3].key
        && destination == accounts[4].key
        && is_derived_authority(authority, pda)
    &&& ops[3] matches LedgerOp::CloseRecord { record, destination } && record == accounts[6].key
        && destination == accounts[4].key
}

/// Whether `a` is the custodial identity's evidence for the derived address and bump `pda`.
pub open spec fn is_derived_authority(a: Authority, pda: (Seq<u8>, u8)) -> bool {
    match a {
        Authority::Derived { address, bump } => address@ == pda.0 && bump == pda.1,
        Authority::Signer(_) => false,
    }
}

/// Whether `r` is what `InitEscrow` owes for these inputs.
pub open spec fn init_escrow_result(
    r: Result<Vec<LedgerOp>, ProcessError>,
    accounts: Seq<AccountView>,
    amount: u64,
    program_id: Seq<u8>,
    rent_minimum: Option<u64>,
) -> bool {
    match r {
        Err(e) => init_escrow_error(accounts, program_id, rent_minimum) == Some(e),
        Ok(ops) => init_escrow_error(accounts, program_id, rent_minimum) is None
            && init_escrow_ops(ops@, accounts, amount, program_id),
    }
}

/// Whether `r` is what `Exchange` owes for these inputs.
pub open spec fn exchange_result(
    r: Result<Vec<LedgerOp>, ProcessError>,
    accounts: Seq<AccountView>,
    amount: u64,
    program_id: Seq<u8>,
) -> bool {
    match r {
        Err(e) => exchange_error(accounts, amount, program_id) == Some(e),
        Ok(ops) => exchange_error(accounts, amount, program_id) is None
            && exchange_ops(ops@, accounts, amount, program_id),
    }
}

impl Processor {
    /// Decodes the operation and carries it out. `rent_minimum` is the rent-exemption
    /// minimum for the escrow slot as the ledger's rent parameters give it, `None` when
    /// those could not be read.
    pub fn process(
        program_id: &Key,
        accounts: &[AccountView],
        instruction_data: &[u8],
        rent_minimum: Option<u64>,
    ) -> (r: Result<Vec<LedgerOp>, ProcessError>)
        ensures
            match spec_unpack_instruction(instruction_data@) {
                Err(e) => r == Err::<Vec<LedgerOp>, ProcessError>(e),
                Ok(EscrowInstruction::InitEscrow { amount }) => init_escrow_result(
                    r,
                    accounts@,
                    amount,
                    program_id@,
                    rent_minimum,
                ),
                Ok(EscrowInstruction::Exchange { amount }) => exchange_result(
                    r,
                    accounts@,
                    amount,
                    program_id@,
                ),
            },
    {
        match EscrowInstruction::unpack(instruction_data) {
            Err(e) => Err(e),
            Ok(EscrowInstruction::InitEscrow { amount }) => Self::process_init_escrow(
                accounts,
                amount,
                program_id,
                rent_minimum,
            ),
            Ok(EscrowInstruction::Exchange { amount }) => Self::process_exchange(
                accounts,
                amount,
                program_id,
            ),
        }
    }

    /// Creates an escrow record and hands custody of the offered tokens to the derived identity.
    pub fn process_init_escrow(
        accounts: &[AccountView],
        amount: u64,
        program_id: &Key,
        rent_minimum: Option<u64>,
    ) -> (r: Result<Vec<LedgerOp>, ProcessError>)
        ensures
            init_escrow_result(r, accounts@, amount, program_id@, rent_minimum),
    {
        if accounts.len() < 1 {
            return Err(ProcessError::NotEnoughAccountKeys);
        }
        let initializer = &accounts[0];
        if !initializer.is_signer {
            return Err(ProcessError::MissingRequiredSignature);
        }
        if accounts.len() < 3 {
            return Err(ProcessError::NotEnoughAccountKeys);
        }
        let temp_token_account = &accounts[1];
        let token_to_receive_account = &accounts[2];
        let token_id = token_program_id();
        if !keys_equal(&token_to_receive_account.owner, &token_id) {
            return Err(ProcessError::IncorrectProgramId);
        }
        if accounts.len() < 5 {
            return Err(ProcessError::NotEnoughAccountKeys);
        }
        let escrow_account = &accounts[3];
        let minimum = match rent_minimum {
            Some(m) => m,
            None => {
                return Err(ProcessError::InvalidArgument);
            },
        };
        if escrow_account.lamports < minimum {
            return Err(ProcessError::Escrow(EscrowError::NotRentExempt));
        }
        match EscrowSlot::unpack_unchecked(escrow_account.data.as_slice()) {
            Err(e) => {
                return Err(e);
            },
            Ok(EscrowSlot::Live(_)) => {
                return Err(ProcessError::AccountAlreadyInitialized);
            },
            Ok(EscrowSlot::Empty) => {},
        }
        let terms = EscrowTerms {
            initializer_pubkey: initializer.key,
            temp_token_account_pubkey: temp_token_account.key,
            initializer_token_to_receive_account_pubkey: token_to_receive_account.key,
            expected_amount: amount,
        };
        let record = terms.pack();
        let seed = escrow_seed_bytes();
        let pda = match find_program_address(seed.as_slice(), program_id) {
            Some((address, _bump)) => address,
            None => {
                return Err(ProcessError::InvalidSeeds);
            },
        };
        if accounts.len() < 6 {
            return Err(ProcessError::NotEnoughAccountKeys);
        }
        let token_program = &accounts[5];
        if !keys_equal(&token_program.key, &token_id) {
            return Err(ProcessError::IncorrectProgramId);
        }
        let mut ops: Vec<LedgerOp> = Vec::new();
        ops.push(LedgerOp::WriteRecord { account: escrow_account.key, data: record });
        ops.push(
            LedgerOp::SetAuthority {
                token_program: token_program.key,
                account: temp_token_account.key,
                new_authority: pda,
                current_authority: initializer.key,
            },
        );
        Ok(ops)
    }

    /// Settles a live escrow: checks the supplied accounts against the record and the claimed
    /// amount against the custodial balance, then swaps the two balances and reclaims storage.
    pub fn process_exchange(accounts: &[AccountView], amount: u64, program_id: &Key) -> (r: Result<
        Vec<LedgerOp>,
        ProcessError,
    >)
        ensures
            exchange_result(r, accounts@, amount, program_id@),
    {
        if accounts.len() < 1 {
            return Err(ProcessError::NotEnoughAccountKeys);
        }
        let taker = &accounts[0];
        if !taker.is_signer {
            return Err(ProcessError::MissingRequiredSignature);
        }
        if accounts.len() < 9 {
            return Err(ProcessError::NotEnoughAccountKeys);
        }
        let taker_sent_token_account = &accounts[1];
        let taker_receive_token_account = &accounts[2];
        let pda_temp_token_account = &accounts[3];
        let initializer_main_account = &accounts[4];
        let initializer_receive_token_account = &accounts[5];
        let escrow_account = &accounts[6];
        let token_program = &accounts[7];
        // settling empties the slot, so an empty slot is an escrow already consumed
        if escrow_account.data.len() == 0 {
            return Err(ProcessError::Escrow(EscrowError::AccountNotInitialized));
        }
        let terms = match EscrowSlot::unpack_unchecked(escrow_account.data.as_slice()) {
            Err(e) => {
                return Err(e);
            },
            Ok(EscrowSlot::Empty) => {
                return Err(ProcessError::Escrow(EscrowError::AccountNotInitialized));
            },
            Ok(EscrowSlot::Live(t)) => t,
        };
        if !keys_equal(
            &terms.initializer_token_to_receive_account_pubkey,
            &initializer_receive_token_account.key,
        ) {
            return Err(ProcessError::InvalidAccountData);
        }
        if !keys_equal(&terms.initializer_pubkey, &initializer_main_account.key) {
            return Err(ProcessError::InvalidAccountData);
        }
        if !keys_equal(&terms.temp_token_account_pubkey, &pda_temp_token_account.key) {
            return Err(ProcessError::InvalidAccountData);
        }
        let balance = match unpack_token_amount(pda_temp_token_account.data.as_slice()) {
            Err(e) => {
                return Err(e);
            },
            Ok(b) => b,
        };
        if amount != balance {
            return Err(ProcessError::Escrow(EscrowError::ExpectedAmountMismatch));
        }
        let seed = escrow_seed_bytes();
        let (pda, bump) = match find_program_address(seed.as_slice(), program_id) {
            Some(found) => found,
            None => {
                return Err(ProcessError::InvalidSeeds);
            },
        };
        let token_id = token_program_id();
        if !keys_equal(&token_program.key, &token_id) {
            return Err(ProcessError::IncorrectProgramId);
        }
        let mut ops: Vec<LedgerOp> = Vec::new();
        ops.push(
            LedgerOp::Transfer {
                token_program: token_program.key,
                source: taker_sent_token_account.key,
                destination: initializer_receive_token_account.key,
                authority: Authority::Signer(taker.key),
                amount: terms.expected_amount,
            },
        );
        ops.push(
            LedgerOp::Transfer {
                token_program: token_program.key,
                source: pda_temp_token_account.key,
                destination: taker_receive_token_account.key,
                authority: Authority::Derived { address: pda, bump },
                amount: balance,
            },
        );
        ops.push(
            LedgerOp::CloseAccount {
                token_program: token_program.key,
                account: pda_temp_token_account.key,
                destination: initializer_main_account.key,
                authority: Authority::Derived { address: pda, bump },
            },
        );
        ops.push(
            LedgerOp::CloseRecord {
                record: escrow_account.key,
                destination: initializer_main_account.key,
            },
        );
        Ok(ops)
    }

    /// The destination's lamports after it absorbs the escrow slot's, refusing to wrap.
    pub fn reclaim_lamports(destination: u64, record: u64) -> (r: Result<u64, ProcessError>)
        ensures
            r == if destination + record > u64::MAX {
                Err::<u64, ProcessError>(ProcessError::Escrow(EscrowError::AmountOverflow))
            } else {
                Ok::<u64, ProcessError>((destination + record) as u64)
            },
    {
        match destination.checked_add(record) {
            Some(total) => Ok(total),
            None => Err(ProcessError::Escrow(EscrowError::AmountOverflow)),
        }
    }
}

} // verus!
