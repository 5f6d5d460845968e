use escrow::error::ProgramError;
use escrow::processor::{AccountState, InitOutcome, Processor, RentStatus};
use escrow::state::Escrow;
use escrow::token::{AuthorityType as Kind, CallAccount};
use solana_program::pubkey::Pubkey;
use spl_token::instruction::AuthorityType;

const PROGRAM_ID: [u8; 32] = [42u8; 32];

fn account(key: u8, owner: [u8; 32], is_signer: bool, data: Vec<u8>) -> AccountState {
    AccountState { key: [key; 32], owner, is_signer, data }
}

/// Signer S, temporary account T, receive account R owned by the token
/// program, fresh escrow storage E, the rent sysvar and the token program.
fn setup() -> Vec<AccountState> {
    let token = spl_token::id().to_bytes();
    let system = [0u8; 32];
    vec![
        account(1, system, true, vec![]),
        account(2, token, false, vec![0u8; 165]),
        account(3, token, false, vec![0u8; 165]),
        account(4, PROGRAM_ID, false, vec![0u8; 105]),
        AccountState {
            key: solana_program::sysvar::rent::id().to_bytes(),
            owner: system,
            is_signer: false,
            data: vec![],
        },
        AccountState { key: token, owner: system, is_signer: false, data: vec![] },
    ]
}

fn init_data(amount: u64) -> Vec<u8> {
    let mut data = vec![0u8];
    data.extend_from_slice(&amount.to_le_bytes());
    data
}

fn run(accounts: &mut Vec<AccountState>, rent: RentStatus) -> Result<InitOutcome, ProgramError> {
    Processor::process(&PROGRAM_ID, accounts, &init_data(1000), rent)
}

#[test]
fn init_escrow_writes_record_and_requests_authority_change() {
    let mut accounts = setup();
    let outcome = run(&mut accounts, RentStatus::Exempt).unwrap();

    let record = Escrow::unpack(&accounts[3].data).unwrap();
    assert!(record.is_initialized);
    assert_eq!(record.initializer_pubkey, [1u8; 32]);
    assert_eq!(record.temp_token_account_pubkey, [2u8; 32]);
    assert_eq!(record.initializer_token_to_receive_account_pubkey, [3u8; 32]);
    assert_eq!(record.expected_amount, 1000);

    let program_id = Pubkey::new_from_array(PROGRAM_ID);
    let (pda, _bump) = Pubkey::find_program_address(&[b"escrow"], &program_id);
    assert_ne!(pda.to_bytes(), PROGRAM_ID);
    assert_eq!(outcome.request.new_authority, pda.to_bytes());
    assert_eq!(outcome.request.account, [2u8; 32]);
    assert_eq!(outcome.request.owner, [1u8; 32]);
    assert_eq!(outcome.request.token_program, spl_token::id().to_bytes());
    assert_eq!(outcome.request.authority_type, Kind::AccountOwner);
    assert_eq!(outcome.request.signer, [1u8; 32]);
    assert_eq!(outcome.forwarded, [1, 0, 5]);

    let initializer = Pubkey::new_from_array([1u8; 32]);
    let expected = spl_token::instruction::set_authority(
        &spl_token::id(),
        &Pubkey::new_from_array([2u8; 32]),
        Some(&pda),
        AuthorityType::AccountOwner,
        &initializer,
        &[&initializer],
    )
    .unwrap();
    assert_eq!(outcome.call.program_id, expected.program_id.to_bytes());
    assert_eq!(outcome.call.data, expected.data);
    let metas: Vec<CallAccount> = expected
        .accounts
        .iter()
        .map(|m| CallAccount { key: m.pubkey.to_bytes(), is_signer: m.is_signer, is_writable: m.is_writable })
        .collect();
    assert_eq!(outcome.call.accounts, metas);

    let mut data = vec![6u8, 2, 1];
    data.extend_from_slice(&pda.to_bytes());
    assert_eq!(outcome.call.data, data);
    assert_eq!(
        outcome.call.accounts,
        vec![
            CallAccount { key: [2u8; 32], is_signer: false, is_writable: true },
            CallAccount { key: [1u8; 32], is_signer: false, is_writable: false },
            CallAccount { key: [1u8; 32], is_signer: true, is_writable: false },
        ]
    );

    let untouched = setup();
    for i in [0usize, 1, 2, 4, 5] {
        assert_eq!(accounts[i], untouched[i]);
    }
}

#[test]
fn receive_account_not_owned_by_token_program_is_rejected() {
    let mut accounts = setup();
    accounts[2].owner = [7u8; 32];
    let before = accounts.clone();
    assert_eq!(run(&mut accounts, RentStatus::Exempt).unwrap_err(), ProgramError::IncorrectProgramId);
    assert_eq!(accounts, before);
    assert!(!Escrow::unpack(&accounts[3].data).unwrap().is_initialized);
}

#[test]
fn second_initialization_is_rejected() {
    let mut accounts = setup();
    run(&mut accounts, RentStatus::Exempt).unwrap();
    let after_first = accounts.clone();
    let second = Processor::process(&PROGRAM_ID, &mut accounts, &init_data(5), RentStatus::Exempt);
    assert_eq!(second.unwrap_err(), ProgramError::AccountAlreadyInitialized);
    assert_eq!(accounts, after_first);
    assert_eq!(Escrow::unpack(&accounts[3].data).unwrap().expected_amount, 1000);
}

#[test]
fn initializer_must_sign() {
    let mut accounts = setup();
    accounts[0].is_signer = false;
    let before = accounts.clone();
    for rent in [RentStatus::Exempt, RentStatus::NotExempt, RentStatus::Unreadable] {
        assert_eq!(run(&mut accounts, rent).unwrap_err(), ProgramError::MissingRequiredSignature);
        assert_eq!(accounts, before);
    }
}

#[test]
fn signer_is_checked_before_the_account_count() {
    let mut one = setup();
    one.truncate(1);
    one[0].is_signer = false;
    assert_eq!(run(&mut one, RentStatus::Exempt).unwrap_err(), ProgramError::MissingRequiredSignature);

    let mut seven = setup();
    seven.push(account(9, [0u8; 32], false, vec![]));
    seven[0].is_signer = false;
    seven[2].owner = [7u8; 32];
    let before = seven.clone();
    assert_eq!(run(&mut seven, RentStatus::NotExempt).unwrap_err(), ProgramError::MissingRequiredSignature);
    assert_eq!(seven, before);
}

#[test]
fn surplus_accounts_are_checked_after_the_record() {
    let mut seven = setup();
    seven.push(account(9, [0u8; 32], false, vec![]));
    seven[2].owner = [7u8; 32];
    assert_eq!(run(&mut seven, RentStatus::Exempt).unwrap_err(), ProgramError::IncorrectProgramId);

    let mut seven = setup();
    seven.push(account(9, [0u8; 32], false, vec![]));
    assert_eq!(run(&mut seven, RentStatus::NotExempt).unwrap_err(), ProgramError::Custom(1));

    let mut seven = setup();
    run(&mut seven, RentStatus::Exempt).unwrap();
    seven.push(account(9, [0u8; 32], false, vec![]));
    assert_eq!(run(&mut seven, RentStatus::Exempt).unwrap_err(), ProgramError::AccountAlreadyInitialized);
}

#[test]
fn storage_below_rent_exemption_is_rejected() {
    let mut accounts = setup();
    let before = accounts.clone();
    assert_eq!(run(&mut accounts, RentStatus::NotExempt).unwrap_err(), ProgramError::Custom(1));
    assert_eq!(accounts, before);
}

#[test]
fn unreadable_rent_sysvar_is_an_invalid_argument() {
    let mut accounts = setup();
    assert_eq!(run(&mut accounts, RentStatus::Unreadable).unwrap_err(), ProgramError::InvalidArgument);
}

#[test]
fn missing_accounts_are_reported() {
    for n in [0usize, 2, 4, 5] {
        let mut accounts = setup();
        accounts.truncate(n);
        let before = accounts.clone();
        assert_eq!(run(&mut accounts, RentStatus::Exempt).unwrap_err(), ProgramError::NotEnoughAccountKeys);
        assert_eq!(accounts, before);
    }
}

#[test]
fn extra_accounts_are_rejected() {
    let mut accounts = setup();
    accounts.push(account(9, [0u8; 32], false, vec![]));
    let before = accounts.clone();
    assert_eq!(run(&mut accounts, RentStatus::Exempt).unwrap_err(), ProgramError::InvalidArgument);
    assert_eq!(accounts, before);
}

#[test]
fn wrong_token_program_account_is_rejected() {
    let mut accounts = setup();
    accounts[5].key = [8u8; 32];
    let before = accounts.clone();
    assert_eq!(run(&mut accounts, RentStatus::Exempt).unwrap_err(), ProgramError::IncorrectProgramId);
    assert_eq!(accounts, before);
}

#[test]
fn escrow_storage_of_wrong_size_is_invalid_data() {
    let mut accounts = setup();
    accounts[3].data = vec![0u8; 80];
    assert_eq!(run(&mut accounts, RentStatus::Exempt).unwrap_err(), ProgramError::InvalidAccountData);
}

#[test]
fn malformed_instruction_is_rejected_before_accounts() {
    let mut accounts = setup();
    accounts[0].is_signer = false;
    let before = accounts.clone();
    let r = Processor::process(&PROGRAM_ID, &mut accounts, &[0u8, 1, 2], RentStatus::Exempt);
    assert_eq!(r.unwrap_err(), ProgramError::Custom(0));
    let r = Processor::process(&PROGRAM_ID, &mut accounts, &[], RentStatus::Exempt);
    assert_eq!(r.unwrap_err(), ProgramError::Custom(0));
    assert_eq!(accounts, before);
}

#[test]
fn process_init_escrow_takes_amount_directly() {
    let mut accounts = setup();
    Processor::process_init_escrow(&mut accounts, 77, &PROGRAM_ID, RentStatus::Exempt).unwrap();
    assert_eq!(Escrow::unpack(&accounts[3].data).unwrap().expected_amount, 77);
}
