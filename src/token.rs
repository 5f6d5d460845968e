use vstd::prelude::*;

use solana_program::pubkey::Pubkey;
use spl_token::instruction::AuthorityType as TokenAuthorityType;

verus! {

/// The identity of the token program, `TokenkegQfeZyiNwAJbNbGKPFXCWuBvf9Ss623VQ5DA`.
pub open spec fn token_program_key() -> Seq<u8> {
    seq![
        6u8, 221, 246, 225, 215, 101, 161, 147, 217, 203, 225, 70, 206, 235, 121, 172, 28, 180,
        133, 237, 95, 91, 55, 145, 58, 140, 245, 133, 126, 255, 0, 169,
    ]
}

/// The address that `Pubkey::try_find_program_address` derives from one seed
/// and a program identity, if the search for a bump seed succeeds.
pub uninterp spec fn program_address(seed: Seq<u8>, program_id: Seq<u8>) -> Option<Seq<u8>>;

/// The kinds of authority that the token program's set-authority call changes.
#[derive(Debug, Copy, Clone, PartialEq, Eq, Structural)]
pub enum AuthorityType {
    MintTokens,
    FreezeAccount,
    AccountOwner,
    CloseAccount,
}

/// The byte under which the token program encodes an authority type.
pub open spec fn authority_type_code(t: AuthorityType) -> u8 {
    match t {
        AuthorityType::MintTokens => 0,
        AuthorityType::FreezeAccount => 1,
        AuthorityType::AccountOwner => 2,
        AuthorityType::CloseAccount => 3,
    }
}

/// A set-authority call on the token program: the authority of kind
/// `authority_type` over `account` moves from `owner` to `new_authority`,
/// with `signer` signing for the owner.
#[derive(Debug, Copy, Clone, PartialEq, Eq)]
pub struct SetAuthorityRequest {
    pub token_program: [u8; 32],
    pub account: [u8; 32],
    pub new_authority: [u8; 32],
    pub authority_type: AuthorityType,
    pub owner: [u8; 32],
    pub signer: [u8; 32],
}

pub struct SetAuthorityModel {
    pub token_program: Seq<u8>,
    pub account: Seq<u8>,
    pub new_authority: Seq<u8>,
    pub authority_type: AuthorityType,
    pub owner: Seq<u8>,
    pub signer: Seq<u8>,
}

impl View for SetAuthorityRequest {
    type V = SetAuthorityModel;

    open spec fn view(&self) -> SetAuthorityModel {
        SetAuthorityModel {
            token_program: self.token_program@,
            account: self.account@,
            new_authority: self.new_authority@,
            authority_type: self.authority_type,
            owner: self.owner@,
            signer: self.signer@,
        }
    }
}

/// One account of a cross-program call, with the access it is given.
#[derive(Debug, Copy, Clone, PartialEq, Eq)]
pub struct CallAccount {
    pub key: [u8; 32],
    pub is_signer: bool,
    pub is_writable: bool,
}

pub struct CallAccountModel {
    pub key: Seq<u8>,
    pub is_signer: bool,
    pub is_writable: bool,
}

impl View for CallAccount {
    type V = CallAccountModel;

    open spec fn view(&self) -> CallAccountModel {
        CallAccountModel { key: self.key@, is_signer: self.is_signer, is_writable: self.is_writable }
    }
}

/// A cross-program call as plain values: the program called, its accounts
/// in order, and the instruction data.
#[derive(Debug, Clone, PartialEq, Eq)]
pub struct TokenCall {
    pub program_id: [u8; 32],
    pub accounts: Vec<CallAccount>,
    pub data: Vec<u8>,
}

pub struct TokenCallModel {
    pub program_id: Seq<u8>,
    pub accounts: Seq<CallAccountModel>,
    pub data: Seq<u8>,
}

impl View for TokenCall {
    type V = TokenCallModel;

    open spec fn view(&self) -> TokenCallModel {
        TokenCallModel {
            program_id: self.program_id@,
            accounts: self.accounts@.map_values(|a: CallAccount| a@),
            data: self.data@,
        }
    }
}

/// The call that the token program's instruction helper builds for a request
/// with one signer: the account is writable, the owner read-only and not
/// signing, the signer read-only and signing; the data is the set-authority
/// tag 6, the authority type's code, 1 for a present new authority, and the
/// new authority's key.
pub open spec fn set_authority_call(req: SetAuthorityModel) -> TokenCallModel {
    TokenCallModel {
        program_id: req.token_program,
        accounts: seq![
            CallAccountModel { key: req.account, is_signer: false, is_writable: true },
            CallAccountModel { key: req.owner, is_signer: false, is_writable: false },
            CallAccountModel { key: req.signer, is_signer: true, is_writable: false },
        ],
        data: seq![6u8, authority_type_code(req.authority_type), 1u8] + req.new_authority,
    }
}

/// Relies on `spl_token::id`, the token program's declared identity.
#[verifier::external_body]
pub(crate) fn token_program_id() -> (r: [u8; 32])
    ensures
        r@ == token_program_key(),
{
    spl_token::id().to_bytes()
}

/// Relies on `Pubkey::try_find_program_address`: a deterministic derivation
/// from the seed and the program identity, `None` when no bump seed works.
#[verifier::external_body]
pub(crate) fn find_program_address(seed: &[u8], program_id: &[u8; 32]) -> (r: Option<[u8; 32]>)
    ensures
        r.is_some() == program_address(seed@, program_id@).is_some(),
        r.is_some() ==> program_address(seed@, program_id@) == Some(r->Some_0@),
{
    let program_id = Pubkey::new_from_array(*program_id);
    Pubkey::try_find_program_address(&[seed], &program_id).map(|found| found.0.to_bytes())
}

/// Relies on `spl_token::instruction::set_authority` with the request's one
/// signer: it fails exactly when the given token program is not the token
/// program's identity, and otherwise builds the call that
/// `set_authority_call` describes (`TokenInstruction::SetAuthority` packing).
#[verifier::external_body]
pub(crate) fn set_authority_instruction(req: &SetAuthorityRequest) -> (r: Option<TokenCall>)
    ensures
        r.is_some() == (req.token_program@ == token_program_key()),
        r.is_some() ==> r->Some_0@ == set_authority_call(req@),
{
    let kind = match req.authority_type {
        AuthorityType::MintTokens => TokenAuthorityType::MintTokens,
        AuthorityType::FreezeAccount => TokenAuthorityType::FreezeAccount,
        AuthorityType::AccountOwner => TokenAuthorityType::AccountOwner,
        AuthorityType::CloseAccount => TokenAuthorityType::CloseAccount,
    };
    let (owner, signer) = (Pubkey::from(req.owner), Pubkey::from(req.signer));
    let ix = spl_token::instruction::set_authority(&Pubkey::from(req.token_program),
        &Pubkey::from(req.account), Some(&Pubkey::from(req.new_authority)), kind, &owner,
        &[&signer]).ok()?;
    let accounts = ix.accounts.iter().map(|m| CallAccount { key: m.pubkey.to_bytes(),
        is_signer: m.is_signer, is_writable: m.is_writable }).collect();
    Some(TokenCall { program_id: ix.program_id.to_bytes(), accounts, data: ix.data })
}

} // verus!
