use vstd::prelude::*;

use vstd::slice::slice_subrange;

use crate::error::ProgramError;
use crate::instruction::le_u64;

verus! {

/// Size in bytes of a packed escrow record.
pub const ESCROW_LEN: usize = 105;

/// The durable terms of one trade, stored in the escrow account.
#[derive(Debug, Copy, Clone, PartialEq, Eq)]
pub struct Escrow {
    pub is_initialized: bool,
    pub initializer_pubkey: [u8; 32],
    pub temp_token_account_pubkey: [u8; 32],
    pub initializer_token_to_receive_account_pubkey: [u8; 32],
    pub expected_amount: u64,
}

/// The mathematical content of an escrow record.
pub struct EscrowModel {
    pub is_initialized: bool,
    pub initializer: Seq<u8>,
    pub temp_token_account: Seq<u8>,
    pub token_to_receive_account: Seq<u8>,
    pub expected_amount: u64,
}

impl EscrowModel {
    /// Every identity field is 32 bytes long.
    pub open spec fn wf(self) -> bool {
        &&& self.initializer.len() == 32
        &&& self.temp_token_account.len() == 32
        &&& self.token_to_receive_account.len() == 32
    }
}

impl View for Escrow {
    type V = EscrowModel;

    open spec fn view(&self) -> EscrowModel {
        EscrowModel {
            is_initialized: self.is_initialized,
            initializer: self.initializer_pubkey@,
            temp_token_account: self.temp_token_account_pubkey@,
            token_to_receive_account: self.initializer_token_to_receive_account_pubkey@,
            expected_amount: self.expected_amount,
        }
    }
}

/// The eight little-endian bytes of `v`.
pub open spec fn le_bytes(v: u64) -> Seq<u8> {
    seq![
        (v % 0x100) as u8,
        (v / 0x100 % 0x100) as u8,
        (v / 0x1_0000 % 0x100) as u8,
        (v / 0x100_0000 % 0x100) as u8,
        (v / 0x1_0000_0000 % 0x100) as u8,
        (v / 0x100_0000_0000 % 0x100) as u8,
        (v / 0x1_0000_0000_0000 % 0x100) as u8,
        (v / 0x100_0000_0000_0000 % 0x100) as u8,
    ]
}

/// The on-disk layout: initialized flag (0 or 1), the three identities, and
/// the expected amount in little-endian order.
pub open spec fn packed(m: EscrowModel) -> Seq<u8> {
    seq![if m.is_initialized { 1u8 } else { 0u8 }] + m.initializer + m.temp_token_account
        + m.token_to_receive_account + le_bytes(m.expected_amount)
}

/// What a stored byte sequence decodes to: it must have the exact record
/// length and a flag byte of 0 or 1.
pub open spec fn unpacked(s: Seq<u8>) -> Result<EscrowModel, ProgramError> {
    if s.len() != ESCROW_LEN || (s[0] != 0 && s[0] != 1) {
        Err(ProgramError::InvalidAccountData)
    } else {
        Ok(
            EscrowModel {
                is_initialized: s[0] == 1,
                initializer: s.subrange(1, 33),
                temp_token_account: s.subrange(33, 65),
                token_to_receive_account: s.subrange(65, 97),
                expected_amount: le_u64(s.subrange(97, 105)),
            },
        )
    }
}

/// Reading back the eight little-endian bytes of a value gives the value.
pub proof fn lemma_le_round_trip(v: u64)
    ensures
        le_bytes(v).len() == 8,
        le_u64(le_bytes(v)) == v,
{
    let b = le_bytes(v);
    let q1 = v / 0x100;
    let q2 = q1 / 0x100;
    let q3 = q2 / 0x100;
    let q4 = q3 / 0x100;
    let q5 = q4 / 0x100;
    let q6 = q5 / 0x100;
    let q7 = q6 / 0x100;
    assert(v / 0x1_0000 == q2) by (nonlinear_arith) requires q1 == v / 0x100, q2 == q1 / 0x100;
    assert(v / 0x100_0000 == q3) by (nonlinear_arith) requires q3 == q2 / 0x100, q2 == v / 0x1_0000;
    assert(v / 0x1_0000_0000 == q4) by (nonlinear_arith) requires q4 == q3 / 0x100, q3 == v / 0x100_0000;
    assert(v / 0x100_0000_0000 == q5) by (nonlinear_arith) requires q5 == q4 / 0x100, q4 == v / 0x1_0000_0000;
    assert(v / 0x1_0000_0000_0000 == q6) by (nonlinear_arith) requires q6 == q5 / 0x100, q5 == v / 0x100_0000_0000;
    assert(v / 0x100_0000_0000_0000 == q7) by (nonlinear_arith) requires q7 == q6 / 0x100, q6 == v / 0x1_0000_0000_0000;
    assert(q7 < 0x100);
    assert(le_u64(b) == v);
}

/// Packing a well-formed record and unpacking the bytes gives the record back.
pub proof fn lemma_pack_unpack(m: EscrowModel)
    requires
        m.wf(),
    ensures
        packed(m).len() == ESCROW_LEN,
        unpacked(packed(m)) == Ok::<EscrowModel, ProgramError>(m),
{
    let s = packed(m);
    lemma_le_round_trip(m.expected_amount);
    assert(s.subrange(1, 33) =~= m.initializer);
    assert(s.subrange(33, 65) =~= m.temp_token_account);
    assert(s.subrange(65, 97) =~= m.token_to_receive_account);
    assert(s.subrange(97, 105) =~= le_bytes(m.expected_amount));
}

/// Copies the 32 bytes of `input` that start at `start`.
fn read_key(input: &[u8], start: usize) -> (r: [u8; 32])
    requires
        start + 32 <= input@.len(),
    ensures
        r@ == input@.subrange(start as int, start + 32),
{
    let mut key = [0u8; 32];
    let n = input.len();
    let mut i: usize = 0;
    while i < 32
        invariant
            i <= 32,
            n == input@.len(),
            start + 32 <= n,
            forall|j: int| 0 <= j < i ==> key@[j] == input@[start + j],
        decreases 32 - i,
    {
        key[i] = input[start + i];
        i = i + 1;
    }
    assert(key@ =~= input@.subrange(start as int, start + 32));
    key
}

/// Appends the bytes of `key` to `out`.
fn push_key(out: &mut Vec<u8>, key: &[u8; 32])
    ensures
        final(out)@ == old(out)@ + key@,
{
    let ghost start = out@;
    let mut i: usize = 0;
    while i < 32
        invariant
            i <= 32,
            out@ == start + key@.subrange(0, i as int),
        decreases 32 - i,
    {
        out.push(key[i]);
        i = i + 1;
        assert(out@ =~= start + key@.subrange(0, i as int));
    }
    assert(key@.subrange(0, 32) =~= key@);
}

impl Escrow {
    /// Whether the record holds the terms of a live trade.
    pub fn is_initialized(&self) -> (r: bool)
        ensures
            r == self.is_initialized,
    {
        self.is_initialized
    }

    /// Decodes a record from its stored bytes.
    pub fn unpack(input: &[u8]) -> (r: Result<Escrow, ProgramError>)
        ensures
            match r {
                Ok(e) => unpacked(input@) == Ok::<EscrowModel, ProgramError>(e@),
                Err(x) => unpacked(input@) == Err::<EscrowModel, ProgramError>(x),
            },
    {
        if input.len() != ESCROW_LEN {
            return Err(ProgramError::InvalidAccountData);
        }
        let flag = input[0];
        if flag != 0 && flag != 1 {
            return Err(ProgramError::InvalidAccountData);
        }
        let initializer_pubkey = read_key(input, 1);
        let temp_token_account_pubkey = read_key(input, 33);
        let initializer_token_to_receive_account_pubkey = read_key(input, 65);
        let amount_bytes = slice_subrange(input, 97, 105);
        let expected_amount: u64 = amount_bytes[0] as u64 + amount_bytes[1] as u64 * 0x100
            + amount_bytes[2] as u64 * 0x1_0000 + amount_bytes[3] as u64 * 0x100_0000
            + amount_bytes[4] as u64 * 0x1_0000_0000 + amount_bytes[5] as u64 * 0x100_0000_0000
            + amount_bytes[6] as u64 * 0x1_0000_0000_0000 + amount_bytes[7] as u64
            * 0x100_0000_0000_0000;
        let e = Escrow {
            is_initialized: flag == 1,
            initializer_pubkey,
            temp_token_account_pubkey,
            initializer_token_to_receive_account_pubkey,
            expected_amount,
        };
        assert(e@ == unpacked(input@)->Ok_0);
        Ok(e)
    }

    /// Encodes the record in its stored layout.
    pub fn pack(&self) -> (r: Vec<u8>)
        ensures
            r@ == packed(self@),
            r@.len() == ESCROW_LEN,
    {
        let mut out: Vec<u8> = Vec::new();
        out.push(if self.is_initialized { 1u8 } else { 0u8 });
        push_key(&mut out, &self.initializer_pubkey);
        push_key(&mut out, &self.temp_token_account_pubkey);
        push_key(&mut out, &self.initializer_token_to_receive_account_pubkey);
        let v = self.expected_amount;
        out.push((v % 0x100) as u8);
        out.push((v / 0x100 % 0x100) as u8);
        out.push((v / 0x1_0000 % 0x100) as u8);
        out.push((v / 0x100_0000 % 0x100) as u8);
        out.push((v / 0x1_0000_0000 % 0x100) as u8);
        out.push((v / 0x100_0000_0000 % 0x100) as u8);
        out.push((v / 0x1_0000_0000_0000 % 0x100) as u8);
        out.push((v / 0x100_0000_0000_0000 % 0x100) as u8);
        assert(out@ =~= packed(self@));
        out
    }
}

} // verus!
