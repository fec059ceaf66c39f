use escrow::error::{EscrowError, ProcessError};
use escrow::instruction::EscrowInstruction;
use escrow::keys::{escrow_seed_bytes, keys_equal, Key};
use escrow::processor::{AccountView, Authority, LedgerOp, Processor};
use escrow::state::{EscrowSlot, EscrowTerms, ESCROW_LEN};
use solana_program::pubkey::Pubkey;

const TOKEN_ID: [u8; 32] = [
    6, 221, 246, 225, 215, 101, 161, 147, 217, 203, 225, 70, 206, 235, 121, 172, 28, 180, 133,
    237, 95, 91, 55, 145, 58, 140, 245, 133, 126, 255, 0, 169,
];

fn key(n: u8) -> Key {
    [n; 32]
}

fn program_id() -> Key {
    key(200)
}

fn custodial() -> (Key, u8) {
    let (pda, bump) =
        Pubkey::find_program_address(&[b"escrow"], &Pubkey::new_from_array(program_id()));
    (pda.to_bytes(), bump)
}

fn account(k: Key, owner: Key, signer: bool, lamports: u64, data: Vec<u8>) -> AccountView {
    AccountView { key: k, owner, is_signer: signer, lamports, data }
}

fn token_data(amount: u64, state: u8) -> Vec<u8> {
    let mut d = vec![0u8; 165];
    d[64..72].copy_from_slice(&amount.to_le_bytes());
    d[108] = state;
    d
}

const ALICE: u8 = 1;
const TEMP: u8 = 2;
const ALICE_RECEIVE: u8 = 3;
const ESCROW: u8 = 4;
const RENT: u8 = 5;
const BOB: u8 = 10;
const BOB_PAY: u8 = 11;
const BOB_RECEIVE: u8 = 12;

fn init_accounts(escrow_lamports: u64, escrow_data: Vec<u8>) -> Vec<AccountView> {
    vec![
        account(key(ALICE), key(0), true, 1_000_000, vec![]),
        account(key(TEMP), TOKEN_ID, false, 2_000, token_data(100, 1)),
        account(key(ALICE_RECEIVE), TOKEN_ID, false, 2_000, token_data(0, 1)),
        account(key(ESCROW), program_id(), false, escrow_lamports, escrow_data),
        account(key(RENT), key(0), false, 1, vec![]),
        account(TOKEN_ID, key(0), false, 1, vec![]),
    ]
}

fn live_record(expected: u64) -> Vec<u8> {
    EscrowTerms {
        initializer_pubkey: key(ALICE),
        temp_token_account_pubkey: key(TEMP),
        initializer_token_to_receive_account_pubkey: key(ALICE_RECEIVE),
        expected_amount: expected,
    }
    .pack()
}

fn exchange_accounts(custodial_balance: u64, record: Vec<u8>, taker_signs: bool) -> Vec<AccountView> {
    vec![
        account(key(BOB), key(0), taker_signs, 1_000_000, vec![]),
        account(key(BOB_PAY), TOKEN_ID, false, 2_000, token_data(50, 1)),
        account(key(BOB_RECEIVE), TOKEN_ID, false, 2_000, token_data(0, 1)),
        account(key(TEMP), TOKEN_ID, false, 2_000, token_data(custodial_balance, 1)),
        account(key(ALICE), key(0), false, 1_000_000, vec![]),
        account(key(ALICE_RECEIVE), TOKEN_ID, false, 2_000, token_data(0, 1)),
        account(key(ESCROW), program_id(), false, 1_500, record),
        account(TOKEN_ID, key(0), false, 1, vec![]),
        account(custodial().0, key(0), false, 0, vec![]),
    ]
}

fn data(tag: u8, amount: u64) -> Vec<u8> {
    let mut d = vec![tag];
    d.extend_from_slice(&amount.to_le_bytes());
    d
}

#[test]
fn instruction_decoding() {
    assert_eq!(EscrowInstruction::unpack(&data(0, 100)), Ok(EscrowInstruction::InitEscrow { amount: 100 }));
    assert_eq!(EscrowInstruction::unpack(&data(1, 7)), Ok(EscrowInstruction::Exchange { amount: 7 }));
    let mut long = data(1, 258);
    long.push(9);
    assert_eq!(EscrowInstruction::unpack(&long), Ok(EscrowInstruction::Exchange { amount: 258 }));
    let bad = Err(ProcessError::Escrow(EscrowError::InvalidInstruction));
    assert_eq!(EscrowInstruction::unpack(&data(2, 1)), bad);
    assert_eq!(EscrowInstruction::unpack(&[0, 1, 2]), bad);
    assert_eq!(EscrowInstruction::unpack(&[]), bad);
}

#[test]
fn error_codes() {
    assert_eq!(EscrowError::InvalidInstruction.code(), 0);
    assert_eq!(EscrowError::NotRentExempt.code(), 1);
    assert_eq!(EscrowError::AccountNotInitialized.code(), 2);
    assert_eq!(EscrowError::InvalidInstructionData.code(), 3);
    assert_eq!(EscrowError::ExpectedAmountMismatch.code(), 4);
    assert_eq!(EscrowError::AmountOverflow.code(), 5);
}

#[test]
fn record_layout_round_trip() {
    let bytes = live_record(0x0102_0304_0506_0708);
    assert_eq!(bytes.len(), ESCROW_LEN);
    assert_eq!(bytes[0], 1);
    assert_eq!(bytes[1], ALICE);
    assert_eq!(bytes[33], TEMP);
    assert_eq!(bytes[65], ALICE_RECEIVE);
    assert_eq!(&bytes[97..105], &[8, 7, 6, 5, 4, 3, 2, 1]);
    match EscrowSlot::unpack_unchecked(&bytes) {
        Ok(EscrowSlot::Live(t)) => {
            assert_eq!(t.initializer_pubkey, key(ALICE));
            assert_eq!(t.temp_token_account_pubkey, key(TEMP));
            assert_eq!(t.initializer_token_to_receive_account_pubkey, key(ALICE_RECEIVE));
            assert_eq!(t.expected_amount, 0x0102_0304_0506_0708);
        }
        other => panic!("unexpected {:?}", other),
    }
}

#[test]
fn record_states() {
    assert!(matches!(EscrowSlot::unpack_unchecked(&[0u8; 105]), Ok(EscrowSlot::Empty)));
    let mut bad_flag = vec![0u8; 105];
    bad_flag[0] = 2;
    assert!(matches!(EscrowSlot::unpack_unchecked(&bad_flag), Err(ProcessError::InvalidAccountData)));
    assert!(matches!(EscrowSlot::unpack_unchecked(&[0u8; 104]), Err(ProcessError::InvalidAccountData)));
    assert!(matches!(EscrowSlot::unpack_unchecked(&[]), Err(ProcessError::InvalidAccountData)));
}

#[test]
fn key_comparison() {
    assert!(keys_equal(&key(3), &key(3)));
    let mut k = key(3);
    k[31] = 4;
    assert!(!keys_equal(&key(3), &k));
    assert_eq!(escrow_seed_bytes(), b"escrow".to_vec());
}

#[test]
fn scenario_init_escrow_hands_custody_to_derived_identity() {
    let accounts = init_accounts(1_500, vec![0u8; 105]);
    let ops = Processor::process(&program_id(), &accounts, &data(0, 50), Some(1_000)).unwrap();
    assert_eq!(ops.len(), 2);
    match &ops[0] {
        LedgerOp::WriteRecord { account, data } => {
            assert_eq!(*account, key(ESCROW));
            assert_eq!(*data, live_record(50));
        }
        other => panic!("unexpected {:?}", other),
    }
    match &ops[1] {
        LedgerOp::SetAuthority { token_program, account, new_authority, current_authority } => {
            assert_eq!(*token_program, TOKEN_ID);
            assert_eq!(*account, key(TEMP));
            assert_eq!(*new_authority, custodial().0);
            assert_ne!(*new_authority, key(ALICE));
            assert_ne!(*new_authority, key(BOB));
            assert_eq!(*current_authority, key(ALICE));
        }
        other => panic!("unexpected {:?}", other),
    }
}

#[test]
fn scenario_exchange_swaps_and_reclaims() {
    let accounts = exchange_accounts(100, live_record(50), true);
    let ops = Processor::process(&program_id(), &accounts, &data(1, 100), None).unwrap();
    let (pda, bump) = custodial();
    assert_eq!(ops.len(), 4);
    match &ops[0] {
        LedgerOp::Transfer { token_program, source, destination, authority, amount } => {
            assert_eq!(*token_program, TOKEN_ID);
            assert_eq!(*source, key(BOB_PAY));
            assert_eq!(*destination, key(ALICE_RECEIVE));
            assert!(matches!(authority, Authority::Signer(k) if *k == key(BOB)));
            assert_eq!(*amount, 50);
        }
        other => panic!("unexpected {:?}", other),
    }
    match &ops[1] {
        LedgerOp::Transfer { source, destination, authority, amount, .. } => {
            assert_eq!(*source, key(TEMP));
            assert_eq!(*destination, key(BOB_RECEIVE));
            assert!(matches!(authority, Authority::Derived { address, bump: b } if *address == pda && *b == bump));
            assert_eq!(*amount, 100);
        }
        other => panic!("unexpected {:?}", other),
    }
    match &ops[2] {
        LedgerOp::CloseAccount { account, destination, authority, .. } => {
            assert_eq!(*account, key(TEMP));
            assert_eq!(*destination, key(ALICE));
            assert!(matches!(authority, Authority::Derived { address, .. } if *address == pda));
        }
        other => panic!("unexpected {:?}", other),
    }
    match &ops[3] {
        LedgerOp::CloseRecord { record, destination } => {
            assert_eq!(*record, key(ESCROW));
            assert_eq!(*destination, key(ALICE));
        }
        other => panic!("unexpected {:?}", other),
    }
    assert_eq!(Processor::reclaim_lamports(1_000_000, 1_500), Ok(1_001_500));
}

#[test]
fn scenario_exchange_amount_mismatch() {
    let accounts = exchange_accounts(100, live_record(50), true);
    let r = Processor::process(&program_id(), &accounts, &data(1, 90), None);
    assert!(matches!(r, Err(ProcessError::Escrow(EscrowError::ExpectedAmountMismatch))));
}

#[test]
fn exchange_amount_must_equal_balance() {
    let accounts = exchange_accounts(500, live_record(50), true);
    let r = Processor::process_exchange(&accounts, 499, &program_id());
    assert!(matches!(r, Err(ProcessError::Escrow(EscrowError::ExpectedAmountMismatch))));
    let r = Processor::process_exchange(&accounts, 501, &program_id());
    assert!(matches!(r, Err(ProcessError::Escrow(EscrowError::ExpectedAmountMismatch))));
    let ops = Processor::process_exchange(&accounts, 500, &program_id()).unwrap();
    assert_eq!(ops.len(), 4);
}

#[test]
fn replayed_exchange_is_rejected() {
    let zeroed = exchange_accounts(100, vec![0u8; 105], true);
    let r = Processor::process_exchange(&zeroed, 100, &program_id());
    assert!(matches!(r, Err(ProcessError::Escrow(EscrowError::AccountNotInitialized))));
    let emptied = exchange_accounts(100, vec![], true);
    let r = Processor::process_exchange(&emptied, 100, &program_id());
    assert!(matches!(r, Err(ProcessError::Escrow(EscrowError::AccountNotInitialized))));
    let truncated = exchange_accounts(100, vec![1u8; 104], true);
    let r = Processor::process_exchange(&truncated, 100, &program_id());
    assert!(matches!(r, Err(ProcessError::InvalidAccountData)));
}

#[test]
fn exchange_rejects_mismatched_calls() {
    let r = Processor::process_exchange(&exchange_accounts(100, live_record(50), false), 100, &program_id());
    assert!(matches!(r, Err(ProcessError::MissingRequiredSignature)));
    for idx in [3usize, 4, 5] {
        let mut accounts = exchange_accounts(100, live_record(50), true);
        accounts[idx].key = key(99);
        let r = Processor::process_exchange(&accounts, 100, &program_id());
        assert!(matches!(r, Err(ProcessError::InvalidAccountData)));
    }
    let mut accounts = exchange_accounts(100, live_record(50), true);
    accounts[7].key = key(98);
    let r = Processor::process_exchange(&accounts, 100, &program_id());
    assert!(matches!(r, Err(ProcessError::IncorrectProgramId)));
    let accounts = exchange_accounts(100, live_record(50), true);
    let r = Processor::process_exchange(&accounts[..8], 100, &program_id());
    assert!(matches!(r, Err(ProcessError::NotEnoughAccountKeys)));
    let r = Processor::process_exchange(&[], 100, &program_id());
    assert!(matches!(r, Err(ProcessError::NotEnoughAccountKeys)));
}

#[test]
fn exchange_reads_custodial_token_account() {
    let mut accounts = exchange_accounts(100, live_record(50), true);
    accounts[3].data = token_data(100, 0);
    let r = Processor::process_exchange(&accounts, 100, &program_id());
    assert!(matches!(r, Err(ProcessError::UninitializedAccount)));
    accounts[3].data = token_data(100, 3);
    let r = Processor::process_exchange(&accounts, 100, &program_id());
    assert!(matches!(r, Err(ProcessError::InvalidAccountData)));
    let mut bad_tag = token_data(100, 1);
    bad_tag[72] = 2;
    accounts[3].data = bad_tag;
    let r = Processor::process_exchange(&accounts, 100, &program_id());
    assert!(matches!(r, Err(ProcessError::InvalidAccountData)));
    accounts[3].data = vec![0u8; 164];
    let r = Processor::process_exchange(&accounts, 100, &program_id());
    assert!(matches!(r, Err(ProcessError::InvalidAccountData)));
}

#[test]
fn init_rejects_underfunded_slot() {
    let accounts = init_accounts(999, vec![0u8; 105]);
    let r = Processor::process_init_escrow(&accounts, 50, &program_id(), Some(1_000));
    assert!(matches!(r, Err(ProcessError::Escrow(EscrowError::NotRentExempt))));
    let accounts = init_accounts(1_000, vec![0u8; 105]);
    assert!(Processor::process_init_escrow(&accounts, 50, &program_id(), Some(1_000)).is_ok());
}

#[test]
fn init_rejects_misuse() {
    let mut accounts = init_accounts(1_500, vec![0u8; 105]);
    accounts[0].is_signer = false;
    let r = Processor::process_init_escrow(&accounts, 50, &program_id(), Some(1_000));
    assert!(matches!(r, Err(ProcessError::MissingRequiredSignature)));
    let mut accounts = init_accounts(1_500, vec![0u8; 105]);
    accounts[2].owner = key(7);
    let r = Processor::process_init_escrow(&accounts, 50, &program_id(), Some(1_000));
    assert!(matches!(r, Err(ProcessError::IncorrectProgramId)));
    let accounts = init_accounts(1_500, live_record(50));
    let r = Processor::process_init_escrow(&accounts, 50, &program_id(), Some(1_000));
    assert!(matches!(r, Err(ProcessError::AccountAlreadyInitialized)));
    let accounts = init_accounts(1_500, vec![0u8; 10]);
    let r = Processor::process_init_escrow(&accounts, 50, &program_id(), Some(1_000));
    assert!(matches!(r, Err(ProcessError::InvalidAccountData)));
    let accounts = init_accounts(1_500, vec![0u8; 105]);
    let r = Processor::process_init_escrow(&accounts, 50, &program_id(), None);
    assert!(matches!(r, Err(ProcessError::InvalidArgument)));
    let r = Processor::process_init_escrow(&accounts[..5], 50, &program_id(), Some(1_000));
    assert!(matches!(r, Err(ProcessError::NotEnoughAccountKeys)));
    let r = Processor::process_init_escrow(&accounts[..4], 50, &program_id(), Some(1_000));
    assert!(matches!(r, Err(ProcessError::NotEnoughAccountKeys)));
    let mut accounts = init_accounts(1_500, vec![0u8; 105]);
    accounts[5].key = key(8);
    let r = Processor::process_init_escrow(&accounts, 50, &program_id(), Some(1_000));
    assert!(matches!(r, Err(ProcessError::IncorrectProgramId)));
}

#[test]
fn process_rejects_bad_instruction() {
    let accounts = init_accounts(1_500, vec![0u8; 105]);
    let r = Processor::process(&program_id(), &accounts, &[7, 0, 0], Some(1_000));
    assert!(matches!(r, Err(ProcessError::Escrow(EscrowError::InvalidInstruction))));
}

#[test]
fn reclaim_lamports_refuses_to_wrap() {
    assert_eq!(Processor::reclaim_lamports(u64::MAX, 0), Ok(u64::MAX));
    assert_eq!(
        Processor::reclaim_lamports(u64::MAX, 1),
        Err(ProcessError::Escrow(EscrowError::AmountOverflow))
    );
}
