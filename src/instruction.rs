use vstd::prelude::*;

use vstd::slice::slice_subrange;

use crate::error::{program_error_of, EscrowError, ProgramError};

verus! {

/// The little-endian value of the first eight bytes of `s`.
pub open spec fn le_u64(s: Seq<u8>) -> u64
    recommends
        s.len() >= 8,
{
    (s[0] as int + s[1] as int * 0x100 + s[2] as int * 0x1_0000 + s[3] as int * 0x100_0000
        + s[4] as int * 0x1_0000_0000 + s[5] as int * 0x100_0000_0000 + s[6] as int
        * 0x1_0000_0000_0000 + s[7] as int * 0x100_0000_0000_0000) as u64
}

/// The instructions that the escrow program accepts.
#[derive(Debug, Copy, Clone, PartialEq, Eq, Structural)]
pub enum EscrowInstruction {
    /// Start the trade: create and populate an escrow account and hand the
    /// given temporary token account over to the program's derived authority.
    ///
    /// Accounts expected:
    ///
    /// 1. `[signer]` the account of the person initializing the escrow
    /// 2. `[writable]` temporary token account, created beforehand and owned
    ///    by the initializer
    /// 3. `[]` the initializer's token account for the token they will
    ///    receive should the trade go through
    /// 4. `[writable]` the escrow account, which holds the trade's terms
    /// 5. `[]` the rent sysvar
    /// 6. `[]` the token program
    InitEscrow {
        /// The amount party A expects to receive of token Y.
        amount: u64,
    },
}

/// What the amount field decodes to.
pub open spec fn amount_result(input: Seq<u8>) -> Result<u64, ProgramError> {
    if input.len() < 8 {
        Err(program_error_of(EscrowError::InvalidInstruction))
    } else {
        Ok(le_u64(input))
    }
}

/// What an instruction buffer decodes to: a zero tag followed by the amount;
/// bytes after the ninth are ignored.
pub open spec fn instruction_result(input: Seq<u8>) -> Result<EscrowInstruction, ProgramError> {
    if input.len() == 0 || input[0] != 0 {
        Err(program_error_of(EscrowError::InvalidInstruction))
    } else {
        match amount_result(input.drop_first()) {
            Ok(amount) => Ok(EscrowInstruction::InitEscrow { amount }),
            Err(e) => Err(e),
        }
    }
}

impl EscrowInstruction {
    /// Unpacks a byte buffer into an `EscrowInstruction`.
    pub fn unpack(input: &[u8]) -> (r: Result<Self, ProgramError>)
        ensures
            r == instruction_result(input@),
    {
        if input.len() == 0 {
            return Err(ProgramError::from(EscrowError::InvalidInstruction));
        }
        let tag = input[0];
        if tag != 0 {
            return Err(ProgramError::from(EscrowError::InvalidInstruction));
        }
        let rest = slice_subrange(input, 1, input.len());
        assert(rest@ == input@.drop_first());
        let amount = Self::unpack_amount(rest)?;
        Ok(EscrowInstruction::InitEscrow { amount })
    }

    /// Reads the little-endian amount from the first eight bytes of `input`.
    pub fn unpack_amount(input: &[u8]) -> (r: Result<u64, ProgramError>)
        ensures
            r == amount_result(input@),
    {
        if input.len() < 8 {
            return Err(ProgramError::from(EscrowError::InvalidInstruction));
        }
        let amount: u64 = input[0] as u64 + input[1] as u64 * 0x100 + input[2] as u64 * 0x1_0000
            + input[3] as u64 * 0x100_0000 + input[4] as u64 * 0x1_0000_0000 + input[5] as u64
            * 0x100_0000_0000 + input[6] as u64 * 0x1_0000_0000_0000 + input[7] as u64
            * 0x100_0000_0000_0000;
        Ok(amount)
    }
}

/// Decoding is total: an empty buffer and a zero tag with fewer than eight
/// amount bytes are invalid, and a zero tag followed by eight bytes gives the
/// little-endian amount of bytes one to eight.
pub proof fn lemma_decode_total(input: Seq<u8>)
    ensures
        input.len() == 0 ==> instruction_result(input) == Err::<EscrowInstruction, ProgramError>(
            program_error_of(EscrowError::InvalidInstruction),
        ),
        input.len() > 0 && input[0] != 0 ==> instruction_result(input) == Err::<
            EscrowInstruction,
            ProgramError,
        >(program_error_of(EscrowError::InvalidInstruction)),
        0 < input.len() < 9 ==> instruction_result(input) == Err::<EscrowInstruction, ProgramError>(
            program_error_of(EscrowError::InvalidInstruction),
        ),
        input.len() >= 9 && input[0] == 0 ==> instruction_result(input) == Ok::<
            EscrowInstruction,
            ProgramError,
        >(EscrowInstruction::InitEscrow { amount: le_u64(input.subrange(1, 9)) }),
{
    if input.len() >= 9 {
        assert(input.drop_first().subrange(0, 8) =~= input.subrange(1, 9));
        assert(forall|i: int| 0 <= i < 8 ==> input.drop_first()[i] == input.subrange(1, 9)[i]);
    }
}

} // verus!
