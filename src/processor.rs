use vstd::prelude::*;

use crate::error::{program_error_of, EscrowError, ProgramError};
use crate::instruction::{instruction_result, lemma_decode_total, EscrowInstruction};
use crate::state::{le_bytes, lemma_le_round_trip, packed, unpacked, Escrow, EscrowModel};
use crate::token::{
    find_program_address, program_address, set_authority_call, set_authority_instruction,
    token_program_id, token_program_key, AuthorityType, SetAuthorityModel, SetAuthorityRequest,
    TokenCall,
};

verus! {

/// What the program reads of an account handed to it by the host, and the
/// account data it may overwrite.
#[derive(Debug, Clone, PartialEq, Eq)]
pub struct AccountState {
    pub key: [u8; 32],
    pub owner: [u8; 32],
    pub is_signer: bool,
    pub data: Vec<u8>,
}

pub struct AccountModel {
    pub key: Seq<u8>,
    pub owner: Seq<u8>,
    pub is_signer: bool,
    pub data: Seq<u8>,
}

impl View for AccountState {
    type V = AccountModel;

    open spec fn view(&self) -> AccountModel {
        AccountModel {
            key: self.key@,
            owner: self.owner@,
            is_signer: self.is_signer,
            data: self.data@,
        }
    }
}

pub open spec fn accounts_view(s: Seq<AccountState>) -> Seq<AccountModel> {
    s.map_values(|a: AccountState| a@)
}

/// The rent sysvar's verdict on the escrow account's balance for its data
/// length, as the host computes it.
#[derive(Debug, Copy, Clone, PartialEq, Eq, Structural)]
pub enum RentStatus {
    Exempt,
    NotExempt,
    /// The rent account is not the rent sysvar, or its data does not decode.
    Unreadable,
}

/// A successful initialization: the request to send to the token program and
/// the call that carries it, with the positions of the accounts to forward
/// to the token program (temporary account, initializer, token program).
#[derive(Debug, Clone, PartialEq, Eq)]
pub struct InitOutcome {
    pub request: SetAuthorityRequest,
    pub call: TokenCall,
    pub forwarded: [usize; 3],
}

/// The seed of the program's custody authority, the bytes of `"escrow"`.
pub open spec fn escrow_seed() -> Seq<u8> {
    seq![101u8, 115, 99, 114, 111, 119]
}

/// The record that initialization writes.
pub open spec fn initialized_record(accts: Seq<AccountModel>, amount: u64) -> EscrowModel {
    EscrowModel {
        is_initialized: true,
        initializer: accts[0].key,
        temp_token_account: accts[1].key,
        token_to_receive_account: accts[2].key,
        expected_amount: amount,
    }
}

/// The escrow account after initialization: its data is the packed record.
pub open spec fn written(accts: Seq<AccountModel>, amount: u64) -> Seq<AccountModel> {
    accts.update(
        3,
        AccountModel {
            key: accts[3].key,
            owner: accts[3].owner,
            is_signer: accts[3].is_signer,
            data: packed(initialized_record(accts, amount)),
        },
    )
}

/// The number of accounts that initialization takes.
pub const INIT_ACCOUNTS: usize = 6;

/// Initialization, checked in order: the initializer (first account) signs,
/// all six accounts are there, the receive account belongs to the token
/// program, the escrow account is rent-exempt and holds an uninitialized
/// record, no surplus account is given (`InvalidArgument`), the custody
/// authority can be derived, and the last account is the token program. On success the escrow
/// account holds the new record and the account-owner authority of the
/// temporary account is to move from the initializer to the custody authority.
pub open spec fn init_escrow_result(
    accts: Seq<AccountModel>,
    amount: u64,
    program_id: Seq<u8>,
    rent: RentStatus,
) -> Result<(Seq<AccountModel>, SetAuthorityModel), ProgramError> {
    if accts.len() < 1 {
        Err(ProgramError::NotEnoughAccountKeys)
    } else if !accts[0].is_signer {
        Err(ProgramError::MissingRequiredSignature)
    } else if accts.len() < INIT_ACCOUNTS {
        Err(ProgramError::NotEnoughAccountKeys)
    } else if accts[2].owner != token_program_key() {
        Err(ProgramError::IncorrectProgramId)
    } else if rent == RentStatus::Unreadable {
        Err(ProgramError::InvalidArgument)
    } else if rent == RentStatus::NotExempt {
        Err(program_error_of(EscrowError::NotRentExempt))
    } else {
        match unpacked(accts[3].data) {
            Err(e) => Err(e),
            Ok(record) => if record.is_initialized {
                Err(ProgramError::AccountAlreadyInitialized)
            } else if accts.len() > INIT_ACCOUNTS {
                Err(ProgramError::InvalidArgument)
            } else {
                match program_address(escrow_seed(), program_id) {
                    None => Err(ProgramError::InvalidSeeds),
                    Some(pda) => if accts[5].key != token_program_key() {
                        Err(ProgramError::IncorrectProgramId)
                    } else {
                        Ok((written(accts, amount), custody_request(accts, pda)))
                    },
                }
            },
        }
    }
}

/// The hand-over of the temporary account (second) from the initializer
/// (first, also the signer) to the custody authority, sent to the sixth
/// account.
pub open spec fn custody_request(accts: Seq<AccountModel>, pda: Seq<u8>) -> SetAuthorityModel {
    SetAuthorityModel {
        token_program: accts[5].key,
        account: accts[1].key,
        new_authority: pda,
        authority_type: AuthorityType::AccountOwner,
        owner: accts[0].key,
        signer: accts[0].key,
    }
}

/// Decoding followed by initialization.
pub open spec fn process_result(
    program_id: Seq<u8>,
    accts: Seq<AccountModel>,
    data: Seq<u8>,
    rent: RentStatus,
) -> Result<(Seq<AccountModel>, SetAuthorityModel), ProgramError> {
    match instruction_result(data) {
        Err(e) => Err(e),
        Ok(EscrowInstruction::InitEscrow { amount }) => init_escrow_result(
            accts,
            amount,
            program_id,
            rent,
        ),
    }
}

/// A call on `before` that returned `r` and left `after` did what
/// `expected` describes; on failure nothing was written.
pub open spec fn outcome_matches(
    expected: Result<(Seq<AccountModel>, SetAuthorityModel), ProgramError>,
    r: Result<InitOutcome, ProgramError>,
    before: Seq<AccountState>,
    after: Seq<AccountState>,
) -> bool {
    match expected {
        Ok((accts, req)) => {
            &&& r is Ok
            &&& r->Ok_0.request@ == req
            &&& r->Ok_0.call@ == set_authority_call(req)
            &&& r->Ok_0.forwarded@ == seq![1usize, 0, 5]
            &&& accounts_view(after) == accts
        },
        Err(e) => r == Err::<InitOutcome, ProgramError>(e) && after == before,
    }
}

fn keys_equal(a: &[u8; 32], b: &[u8; 32]) -> (r: bool)
    ensures
        r == (a@ == b@),
{
    let mut i: usize = 0;
    while i < 32
        invariant
            i <= 32,
            forall|j: int| 0 <= j < i ==> a@[j] == b@[j],
        decreases 32 - i,
    {
        if a[i] != b[i] {
            return false;
        }
        i = i + 1;
    }
    assert(a@ =~= b@);
    true
}

/// The program's instruction processor.
pub struct Processor;

impl Processor {
    /// Decodes `instruction_data` and runs the instruction it names.
    pub fn process(
        program_id: &[u8; 32],
        accounts: &mut Vec<AccountState>,
        instruction_data: &[u8],
        rent: RentStatus,
    ) -> (r: Result<InitOutcome, ProgramError>)
        ensures
            outcome_matches(
                process_result(program_id@, accounts_view(old(accounts)@), instruction_data@, rent),
                r,
                old(accounts)@,
                final(accounts)@,
            ),
    {
        let instruction = match EscrowInstruction::unpack(instruction_data) {
            Ok(i) => i,
            Err(e) => return Err(e),
        };
        match instruction {
            EscrowInstruction::InitEscrow { amount } => Self::process_init_escrow(
                accounts,
                amount,
                program_id,
                rent,
            ),
        }
    }

    /// Validates the accounts, writes the escrow record and prepares the
    /// transfer of the temporary account's ownership. On any failure the
    /// accounts are left as they were.
    pub fn process_init_escrow(
        accounts: &mut Vec<AccountState>,
        amount: u64,
        program_id: &[u8; 32],
        rent: RentStatus,
    ) -> (r: Result<InitOutcome, ProgramError>)
        ensures
            outcome_matches(
                init_escrow_result(accounts_view(old(accounts)@), amount, program_id@, rent),
                r,
                old(accounts)@,
                final(accounts)@,
            ),
    {
        let ghost accts = accounts_view(accounts@);
        if accounts.len() < 1 {
            return Err(ProgramError::NotEnoughAccountKeys);
        }
        assert(accts[0] == accounts@[0]@);
        if !accounts[0].is_signer {
            return Err(ProgramError::MissingRequiredSignature);
        }
        if accounts.len() < INIT_ACCOUNTS {
            return Err(ProgramError::NotEnoughAccountKeys);
        }
        assert(accts[1] == accounts@[1]@ && accts[2] == accounts@[2]@);
        assert(accts[3] == accounts@[3]@ && accts[5] == accounts@[5]@);
        let token_id = token_program_id();
        if !keys_equal(&accounts[2].owner, &token_id) {
            return Err(ProgramError::IncorrectProgramId);
        }
        match rent {
            RentStatus::Unreadable => {
                return Err(ProgramError::InvalidArgument);
            },
            RentStatus::NotExempt => {
                return Err(ProgramError::from(EscrowError::NotRentExempt));
            },
            RentStatus::Exempt => {},
        }
        let mut escrow_info = match Escrow::unpack(accounts[3].data.as_slice()) {
            Ok(e) => e,
            Err(e) => return Err(e),
        };
        if escrow_info.is_initialized() {
            return Err(ProgramError::AccountAlreadyInitialized);
        }
        if accounts.len() > INIT_ACCOUNTS {
            return Err(ProgramError::InvalidArgument);
        }
        escrow_info.is_initialized = true;
        escrow_info.initializer_pubkey = accounts[0].key;
        escrow_info.temp_token_account_pubkey = accounts[1].key;
        escrow_info.initializer_token_to_receive_account_pubkey = accounts[2].key;
        escrow_info.expected_amount = amount;
        assert(escrow_info@ == initialized_record(accts, amount));

        let seed: [u8; 6] = [101, 115, 99, 114, 111, 119];
        assert(seed@ == escrow_seed());
        let pda = match find_program_address(seed.as_slice(), program_id) {
            Some(p) => p,
            None => return Err(ProgramError::InvalidSeeds),
        };
        let request = SetAuthorityRequest {
            token_program: accounts[5].key,
            account: accounts[1].key,
            new_authority: pda,
            authority_type: AuthorityType::AccountOwner,
            owner: accounts[0].key,
            signer: accounts[0].key,
        };
        let call = match set_authority_instruction(&request) {
            Some(i) => i,
            None => return Err(ProgramError::IncorrectProgramId),
        };

        let data = escrow_info.pack();
        let mut escrow_account = accounts.remove(3);
        escrow_account.data = data;
        accounts.insert(3, escrow_account);
        assert(accounts_view(accounts@) =~= written(accts, amount));
        let forwarded: [usize; 3] = [1, 0, 5];
        assert(forwarded@ =~= seq![1usize, 0, 5]);
        Ok(InitOutcome { request, call, forwarded })
    }
}

/// A second initialization of an escrow account that an earlier one filled
/// fails as already initialized, and the stored record still holds the terms
/// of the first call.
pub proof fn lemma_second_init_rejected(
    accounts: Seq<AccountState>,
    amount: u64,
    second_amount: u64,
    program_id: Seq<u8>,
)
    requires
        init_escrow_result(accounts_view(accounts), amount, program_id, RentStatus::Exempt) is Ok,
    ensures
        ({
            let after = init_escrow_result(
                accounts_view(accounts),
                amount,
                program_id,
                RentStatus::Exempt,
            )->Ok_0.0;
            &&& init_escrow_result(after, second_amount, program_id, RentStatus::Exempt) == Err::<
                (Seq<AccountModel>, SetAuthorityModel),
                ProgramError,
            >(ProgramError::AccountAlreadyInitialized)
            &&& unpacked(after[3].data) == Ok::<EscrowModel, ProgramError>(
                initialized_record(accounts_view(accounts), amount),
            )
        }),
{
    let accts = accounts_view(accounts);
    let after = written(accts, amount);
    assert(accts[0].key.len() == 32 && accts[1].key.len() == 32 && accts[2].key.len() == 32)
        by {
        assert(accts[0] == accounts[0]@ && accts[1] == accounts[1]@ && accts[2] == accounts[2]@);
    }
    crate::state::lemma_pack_unpack(initialized_record(accts, amount));
    assert(after[0] == accts[0] && after[2] == accts[2]);
}

/// Without the initializer's signature, initialization fails for the missing
/// signature before anything else is looked at.
pub proof fn lemma_signer_required(
    accounts: Seq<AccountState>,
    amount: u64,
    program_id: Seq<u8>,
    rent: RentStatus,
)
    requires
        accounts.len() >= 1,
        !accounts[0].is_signer,
    ensures
        init_escrow_result(accounts_view(accounts), amount, program_id, rent) == Err::<(Seq<AccountModel>, SetAuthorityModel), ProgramError>(
            ProgramError::MissingRequiredSignature,
        ),
{
    assert(accounts_view(accounts)[0] == accounts[0]@);
}

/// An escrow account below the rent-exemption threshold is refused as not
/// rent-exempt once the signer and the receive account have passed.
pub proof fn lemma_rent_gate(accounts: Seq<AccountState>, amount: u64, program_id: Seq<u8>)
    requires
        accounts.len() >= INIT_ACCOUNTS,
        accounts[0].is_signer,
        accounts[2].owner@ == token_program_key(),
    ensures
        init_escrow_result(accounts_view(accounts), amount, program_id, RentStatus::NotExempt)
            == Err::<(Seq<AccountModel>, SetAuthorityModel), ProgramError>(
            program_error_of(EscrowError::NotRentExempt),
        ),
{
    assert(accounts_view(accounts)[0] == accounts[0]@);
    assert(accounts_view(accounts)[2] == accounts[2]@);
}

/// With six accounts that pass every check and a derivable custody address,
/// initialization succeeds: the escrow account then decodes to the
/// initialized record with the three identities and the amount, byte for byte,
/// and the temporary account's ownership is to move from the initializer to
/// the derived address.
pub proof fn lemma_init_succeeds(accounts: Seq<AccountState>, amount: u64, program_id: Seq<u8>)
    requires
        accounts.len() == INIT_ACCOUNTS,
        accounts[0].is_signer,
        accounts[2].owner@ == token_program_key(),
        accounts[5].key@ == token_program_key(),
        unpacked(accounts[3].data@) matches Ok(record) && !record.is_initialized,
        program_address(escrow_seed(), program_id) is Some,
    ensures
        ({
            let accts = accounts_view(accounts);
            let r = init_escrow_result(accts, amount, program_id, RentStatus::Exempt);
            &&& r is Ok
            &&& unpacked(r->Ok_0.0[3].data) == Ok::<EscrowModel, ProgramError>(
                EscrowModel {
                    is_initialized: true,
                    initializer: accounts[0].key@,
                    temp_token_account: accounts[1].key@,
                    token_to_receive_account: accounts[2].key@,
                    expected_amount: amount,
                },
            )
            &&& r->Ok_0.1 == custody_request(
                accts,
                program_address(escrow_seed(), program_id)->Some_0,
            )
        }),
{
    let accts = accounts_view(accounts);
    assert(accts[0] == accounts[0]@ && accts[1] == accounts[1]@ && accts[2] == accounts[2]@);
    assert(accts[3] == accounts[3]@ && accts[5] == accounts[5]@);
    crate::state::lemma_pack_unpack(initialized_record(accts, amount));
}

/// On a buffer that holds a zero tag and an amount, processing is exactly
/// initialization with that amount.
pub proof fn lemma_process_is_init(
    program_id: Seq<u8>,
    accts: Seq<AccountModel>,
    amount: u64,
    trailing: Seq<u8>,
    rent: RentStatus,
)
    ensures
        process_result(program_id, accts, seq![0u8] + le_bytes(amount) + trailing, rent)
            == init_escrow_result(accts, amount, program_id, rent),
{
    let data = seq![0u8] + le_bytes(amount) + trailing;
    lemma_le_round_trip(amount);
    lemma_decode_total(data);
    assert(data.subrange(1, 9) =~= le_bytes(amount));
}

} // verus!
