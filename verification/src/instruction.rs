//! Instructions as plain data, and the instructions of the system, memo and
//! compute-budget programs.
use crate::error::{ProgramError, TokenError};
use crate::programs::{
    spec_compute_budget_program_id, spec_memo_program_id, spec_system_program_id,
};
use crate::pubkey::Pubkey;
use solana_program::pubkey::Pubkey as LedgerKey;
use solana_sdk::compute_budget::ComputeBudgetInstruction;
use vstd::bytes::{spec_u32_to_le_bytes, spec_u64_to_le_bytes};
use vstd::prelude::*;

verus! {

/// One account that an instruction names, with what the instruction may do
/// to it.
#[derive(Clone, Copy, Debug, Eq)]
pub struct AccountMeta {
    pub pubkey: Pubkey,
    pub is_signer: bool,
    pub is_writable: bool,
}

impl PartialEq for AccountMeta {
    fn eq(&self, other: &AccountMeta) -> (r: bool) {
        self.pubkey == other.pubkey && self.is_signer == other.is_signer && self.is_writable
            == other.is_writable
    }
}

impl vstd::std_specs::cmp::PartialEqSpecImpl for AccountMeta {
    open spec fn obeys_eq_spec() -> bool {
        true
    }

    open spec fn eq_spec(&self, other: &AccountMeta) -> bool {
        *self == *other
    }
}

impl AccountMeta {
    /// An account that the instruction may write to.
    pub fn new(pubkey: Pubkey, is_signer: bool) -> (r: AccountMeta)
        ensures
            r == (AccountMeta { pubkey, is_signer, is_writable: true }),
    {
        AccountMeta { pubkey, is_signer, is_writable: true }
    }

    /// An account that the instruction only reads.
    pub fn new_readonly(pubkey: Pubkey, is_signer: bool) -> (r: AccountMeta)
        ensures
            r == (AccountMeta { pubkey, is_signer, is_writable: false }),
    {
        AccountMeta { pubkey, is_signer, is_writable: false }
    }
}

/// What an instruction holds, as mathematical values.
pub struct InstructionView {
    pub program_id: Pubkey,
    pub accounts: Seq<AccountMeta>,
    pub data: Seq<u8>,
}

/// A call of a ledger program: the program, the accounts it is given and
/// the bytes of its argument.
#[derive(Debug)]
pub struct Instruction {
    pub program_id: Pubkey,
    pub accounts: Vec<AccountMeta>,
    pub data: Vec<u8>,
}

impl View for Instruction {
    type V = InstructionView;

    open spec fn view(&self) -> InstructionView {
        InstructionView { program_id: self.program_id, accounts: self.accounts@, data: self.data@ }
    }
}

impl Clone for Instruction {
    fn clone(&self) -> (r: Instruction)
        ensures
            r@ == self@,
    {
        let mut accounts: Vec<AccountMeta> = Vec::new();
        let mut i: usize = 0;
        while i < self.accounts.len()
            invariant
                i <= self.accounts.len(),
                accounts@ == self.accounts@.subrange(0, i as int),
            decreases self.accounts.len() - i,
        {
            accounts.push(self.accounts[i]);
            i += 1;
        }
        let mut data: Vec<u8> = Vec::new();
        let mut j: usize = 0;
        while j < self.data.len()
            invariant
                j <= self.data.len(),
                data@ == self.data@.subrange(0, j as int),
            decreases self.data.len() - j,
        {
            data.push(self.data[j]);
            j += 1;
        }
        assert(self.accounts@.subrange(0, self.accounts@.len() as int) == self.accounts@);
        assert(self.data@.subrange(0, self.data@.len() as int) == self.data@);
        Instruction { program_id: self.program_id, accounts, data }
    }
}

/// The instructions of a list, as mathematical values.
pub open spec fn views(instructions: Seq<Instruction>) -> Seq<InstructionView> {
    instructions.map_values(|i: Instruction| i@)
}

/// An instruction as an encoder hands it over: the program's 32 bytes, each
/// account as its 32 bytes with its signer and writable marks, and the data.
pub type RawInstruction = ([u8; 32], Vec<([u8; 32], bool, bool)>, Vec<u8>);

/// The account entry that a raw entry stands for.
pub open spec fn raw_meta(m: ([u8; 32], bool, bool)) -> AccountMeta {
    AccountMeta { pubkey: Pubkey { bytes: m.0 }, is_signer: m.1, is_writable: m.2 }
}

/// The instruction that a raw instruction stands for.
pub open spec fn raw_view(raw: RawInstruction) -> InstructionView {
    InstructionView {
        program_id: Pubkey { bytes: raw.0 },
        accounts: raw.1@.map_values(|m: ([u8; 32], bool, bool)| raw_meta(m)),
        data: raw.2@,
    }
}

/// True when `r` stands for the instruction or the error that `expected`
/// names, an error being given as its code.
pub open spec fn raw_encodes(
    r: Result<RawInstruction, u64>,
    expected: Result<InstructionView, ProgramError>,
) -> bool {
    match expected {
        Ok(v) => r is Ok && raw_view(r->Ok_0) == v,
        Err(e) => r == Err::<RawInstruction, u64>(e.code),
    }
}

impl Instruction {
    /// The instruction that a raw instruction stands for.
    pub fn from_raw(raw: RawInstruction) -> (r: Instruction)
        ensures
            r@ == raw_view(raw),
    {
        let (program_id, metas, data) = raw;
        let mut accounts: Vec<AccountMeta> = Vec::new();
        let mut i: usize = 0;
        while i < metas.len()
            invariant
                i <= metas.len(),
                accounts@ == metas@.map_values(|m: ([u8; 32], bool, bool)| raw_meta(m)).subrange(
                    0,
                    i as int,
                ),
            decreases metas.len() - i,
        {
            let m = metas[i];
            accounts.push(AccountMeta { pubkey: Pubkey { bytes: m.0 }, is_signer: m.1, is_writable: m.2 });
            i += 1;
        }
        assert(accounts@ =~= metas@.map_values(|m: ([u8; 32], bool, bool)| raw_meta(m)));
        Instruction { program_id: Pubkey { bytes: program_id }, accounts, data }
    }

    /// The instruction or the error that an encoder's result stands for.
    pub fn from_encoder(r: Result<RawInstruction, u64>) -> (out: Result<Instruction, ProgramError>)
        ensures
            forall|expected: Result<InstructionView, ProgramError>|
                raw_encodes(r, expected) ==> encodes(out, expected),
    {
        match r {
            Ok(raw) => Ok(Instruction::from_raw(raw)),
            Err(code) => Err(ProgramError { code }),
        }
    }
}

/// Puts `instruction` at the end of `list`.
pub fn push_instruction(list: &mut Vec<Instruction>, instruction: Instruction)
    ensures
        views(final(list)@) == views(old(list)@).push(instruction@),
{
    list.push(instruction);
    assert(views(list@) =~= views(old(list)@).push(instruction@));
}

/// Puts a copy of each instruction of `more` at the end of `list`, in
/// order.
pub fn append_instructions(list: &mut Vec<Instruction>, more: &Vec<Instruction>)
    ensures
        views(final(list)@) == views(old(list)@) + views(more@),
{
    let mut i: usize = 0;
    while i < more.len()
        invariant
            i <= more.len(),
            views(list@) == views(old(list)@) + views(more@).subrange(0, i as int),
        decreases more.len() - i,
    {
        let ghost before = views(list@);
        push_instruction(list, more[i].clone());
        assert(views(list@) =~= views(old(list)@) + views(more@).subrange(0, i + 1)) by {
            assert(views(more@)[i as int] == more@[i as int]@);
        }
        i += 1;
    }
    assert(views(more@).subrange(0, more@.len() as int) == views(more@));
}

/// A list that holds `instruction` alone.
pub fn single_instruction(instruction: Instruction) -> (r: Vec<Instruction>)
    ensures
        views(r@) == seq![instruction@],
{
    let mut list: Vec<Instruction> = Vec::new();
    assert(views(list@) =~= Seq::<InstructionView>::empty());
    push_instruction(&mut list, instruction);
    assert(views(list@) =~= seq![instruction@]);
    list
}

/// True when `r` holds the instruction or the error that `expected` names.
pub open spec fn encodes(
    r: Result<Instruction, ProgramError>,
    expected: Result<InstructionView, ProgramError>,
) -> bool {
    match expected {
        Ok(v) => r is Ok && r->Ok_0@ == v,
        Err(e) => r == Err::<Instruction, ProgramError>(e),
    }
}

/// Copies `extra` to the end of the accounts of `instruction`.
pub fn extend_accounts(instruction: &mut Instruction, extra: &Vec<AccountMeta>)
    ensures
        final(instruction)@ == (InstructionView {
            accounts: old(instruction)@.accounts + extra@,
            ..old(instruction)@
        }),
{
    let mut i: usize = 0;
    while i < extra.len()
        invariant
            i <= extra.len(),
            instruction.program_id == old(instruction).program_id,
            instruction.data == old(instruction).data,
            instruction.accounts@ == old(instruction).accounts@ + extra@.subrange(0, i as int),
        decreases extra.len() - i,
    {
        instruction.accounts.push(extra[i]);
        i += 1;
    }
    assert(extra@.subrange(0, extra@.len() as int) == extra@);
}

/// The account entries of a memo instruction: each signer, read-only and
/// signing.
pub open spec fn memo_accounts(signers: Seq<Pubkey>) -> Seq<AccountMeta> {
    signers.map_values(
        |k: Pubkey| AccountMeta { pubkey: k, is_signer: true, is_writable: false },
    )
}

/// The memo instruction for the bytes `memo`, to be co-signed by `signers`.
pub open spec fn memo_instruction(memo: Seq<u8>, signers: Seq<Pubkey>) -> InstructionView {
    InstructionView {
        program_id: spec_memo_program_id(),
        accounts: memo_accounts(signers),
        data: memo,
    }
}

/// Calls `spl_memo::build_memo`, which names the memo program, lists each
/// signer as a read-only signing account, in order, and gives the memo's
/// bytes as data.
#[verifier::external_body]
fn raw_build_memo(memo: &[u8], signers: &Vec<Pubkey>) -> (r: RawInstruction)
    ensures
        raw_view(r) == memo_instruction(memo@, signers@),
{
    let keys: Vec<LedgerKey> = signers.iter().map(|k| LedgerKey::new_from_array(k.bytes)).collect();
    let i = spl_memo::build_memo(memo, &keys.iter().collect::<Vec<_>>());
    (i.program_id.to_bytes(), i.accounts.iter().map(|m| (m.pubkey.to_bytes(), m.is_signer, m.is_writable)).collect(), i.data)
}

/// The system program's instruction that creates the account `to`, paid for
/// by `from`, with `lamports` of balance and `space` bytes of data, owned by
/// `owner`.
pub open spec fn create_account_instruction(
    from: Pubkey,
    to: Pubkey,
    lamports: u64,
    space: u64,
    owner: Pubkey,
) -> InstructionView {
    InstructionView {
        program_id: spec_system_program_id(),
        accounts: seq![
            AccountMeta { pubkey: from, is_signer: true, is_writable: true },
            AccountMeta { pubkey: to, is_signer: true, is_writable: true },
        ],
        data: seq![0u8, 0u8, 0u8, 0u8] + spec_u64_to_le_bytes(lamports) + spec_u64_to_le_bytes(
            space,
        ) + owner@,
    }
}

/// Calls `solana_program::system_instruction::create_account`. Both
/// accounts sign and are written; the data are the number 0 of the
/// instruction in four bytes, then `lamports` and `space` in eight bytes
/// each, least significant first, then the owner's 32 bytes.
#[verifier::external_body]
fn raw_create_account(
    from: &Pubkey,
    to: &Pubkey,
    lamports: u64,
    space: u64,
    owner: &Pubkey,
) -> (r: RawInstruction)
    ensures
        raw_view(r) == create_account_instruction(*from, *to, lamports, space, *owner),
{
    let k = |p: &Pubkey| LedgerKey::new_from_array(p.bytes);
    let i = solana_program::system_instruction::create_account(&k(from), &k(to), lamports, space, &k(owner));
    (i.program_id.to_bytes(), i.accounts.iter().map(|m| (m.pubkey.to_bytes(), m.is_signer, m.is_writable)).collect(), i.data)
}

/// The system program's instruction that moves `lamports` from `from` to
/// `to`.
pub open spec fn system_transfer_instruction(from: Pubkey, to: Pubkey, lamports: u64) -> InstructionView {
    InstructionView {
        program_id: spec_system_program_id(),
        accounts: seq![
            AccountMeta { pubkey: from, is_signer: true, is_writable: true },
            AccountMeta { pubkey: to, is_signer: false, is_writable: true },
        ],
        data: seq![2u8, 0u8, 0u8, 0u8] + spec_u64_to_le_bytes(lamports),
    }
}

/// Calls `solana_program::system_instruction::transfer`. The payer signs,
/// both accounts are written; the data are the number 2 of the instruction
/// in four bytes, then `lamports` in eight bytes, least significant first.
#[verifier::external_body]
fn raw_transfer(from: &Pubkey, to: &Pubkey, lamports: u64) -> (r: RawInstruction)
    ensures
        raw_view(r) == system_transfer_instruction(*from, *to, lamports),
{
    let k = |p: &Pubkey| LedgerKey::new_from_array(p.bytes);
    let i = solana_program::system_instruction::transfer(&k(from), &k(to), lamports);
    (i.program_id.to_bytes(), i.accounts.iter().map(|m| (m.pubkey.to_bytes(), m.is_signer, m.is_writable)).collect(), i.data)
}

/// The compute-budget program's instruction that sets the limit of compute
/// units to `units`.
pub open spec fn compute_unit_limit_instruction(units: u32) -> InstructionView {
    InstructionView {
        program_id: spec_compute_budget_program_id(),
        accounts: Seq::empty(),
        data: seq![2u8] + spec_u32_to_le_bytes(units),
    }
}

/// Calls `ComputeBudgetInstruction::set_compute_unit_limit` of
/// `solana_sdk::compute_budget`. The instruction names no account; its data
/// are the number 2 of the instruction in one byte, then `units` in four
/// bytes, least significant first.
#[verifier::external_body]
fn raw_set_compute_unit_limit(units: u32) -> (r: RawInstruction)
    ensures
        raw_view(r) == compute_unit_limit_instruction(units),
{
    let i = ComputeBudgetInstruction::set_compute_unit_limit(units);
    (i.program_id.to_bytes(), i.accounts.iter().map(|m| (m.pubkey.to_bytes(), m.is_signer, m.is_writable)).collect(), i.data)
}

/// The memo instruction for the bytes `memo`, co-signed by `signers`.
pub fn build_memo(memo: &[u8], signers: &Vec<Pubkey>) -> (r: Instruction)
    ensures
        r@ == memo_instruction(memo@, signers@),
{
    Instruction::from_raw(raw_build_memo(memo, signers))
}

/// The system program's instruction that creates an account.
pub fn system_create_account(
    from: &Pubkey,
    to: &Pubkey,
    lamports: u64,
    space: u64,
    owner: &Pubkey,
) -> (r: Instruction)
    ensures
        r@ == create_account_instruction(*from, *to, lamports, space, *owner),
{
    Instruction::from_raw(raw_create_account(from, to, lamports, space, owner))
}

/// The system program's instruction that moves lamports.
pub fn system_transfer(from: &Pubkey, to: &Pubkey, lamports: u64) -> (r: Instruction)
    ensures
        r@ == system_transfer_instruction(*from, *to, lamports),
{
    Instruction::from_raw(raw_transfer(from, to, lamports))
}

/// The compute-budget program's instruction that limits the compute units.
pub fn set_compute_unit_limit(units: u32) -> (r: Instruction)
    ensures
        r@ == compute_unit_limit_instruction(units),
{
    Instruction::from_raw(raw_set_compute_unit_limit(units))
}

/// What an operation of one instruction gives: the instruction alone, or
/// the encoder's error as a program error.
pub open spec fn for_one(encoded: Result<InstructionView, ProgramError>) -> Result<
    Seq<InstructionView>,
    TokenError,
> {
    match encoded {
        Ok(v) => Ok(seq![v]),
        Err(e) => Err(TokenError::Program(e)),
    }
}

/// What an operation gives whose instructions come from one encoder: those
/// instructions, or the encoder's error as a program error.
pub open spec fn for_all(encoded: Result<Seq<InstructionView>, ProgramError>) -> Result<
    Seq<InstructionView>,
    TokenError,
> {
    match encoded {
        Ok(v) => Ok(v),
        Err(e) => Err(TokenError::Program(e)),
    }
}

/// True when `r` holds the instructions or the error that `expected` names.
pub open spec fn instructs(
    r: Result<Vec<Instruction>, TokenError>,
    expected: Result<Seq<InstructionView>, TokenError>,
) -> bool {
    match expected {
        Ok(v) => r is Ok && views(r->Ok_0@) == v,
        Err(e) => r == Err::<Vec<Instruction>, TokenError>(e),
    }
}

/// The instructions of an operation that consists of one encoded
/// instruction.
pub fn one_instruction(encoded: Result<Instruction, ProgramError>) -> (r: Result<
    Vec<Instruction>,
    TokenError,
>)
    ensures
        forall|expected: Result<InstructionView, ProgramError>|
            encodes(encoded, expected) ==> instructs(r, for_one(expected)),
{
    match encoded {
        Ok(instruction) => Ok(single_instruction(instruction)),
        Err(e) => Err(TokenError::Program(e)),
    }
}

} // verus!
