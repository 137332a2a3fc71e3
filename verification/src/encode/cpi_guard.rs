//! The instructions of the guard against use through other programs.
use crate::encode::parts::{authority_accounts, writable};
use crate::error::{ProgramError, INCORRECT_PROGRAM_ID};
use crate::instruction::{Instruction, InstructionView, RawInstruction, encodes, raw_encodes};
use crate::programs::is_token_2022;
use crate::pubkey::Pubkey;
use solana_program::pubkey::Pubkey as LedgerKey;
use vstd::prelude::*;

verus! {

/// What `spl_token_2022::extension::cpi_guard::instruction::enable_cpi_guard`
/// gives for these arguments: the error "incorrect program id" unless the
/// program is the token program with extensions, and else the instruction of
/// that program with these accounts and data.
pub open spec fn enable_cpi_guard_encoding(
    program_id: Pubkey,
    account: Pubkey,
    owner: Pubkey,
    signers: Seq<Pubkey>,
) -> Result<InstructionView, ProgramError> {
    if !is_token_2022(program_id) {
        Err(ProgramError { code: INCORRECT_PROGRAM_ID })
    } else {
        Ok(
            InstructionView {
                program_id,
                accounts: seq![writable(account)] + authority_accounts(owner, signers),
                data: seq![34u8, 0u8],
            },
        )
    }
}

/// Calls `spl_token_2022::extension::cpi_guard::instruction::enable_cpi_guard`.
/// It refuses, with "incorrect program id", a program that is not the token
/// program with extensions. Else the instruction names the program that it was
/// given and the accounts that `enable_cpi_guard_encoding` lists, with the data
/// that it states. Keys are handed over as their bytes, an error as its code.
#[verifier::external_body]
fn raw_enable_cpi_guard(
    program_id: &Pubkey,
    account: &Pubkey,
    owner: &Pubkey,
    signers: &Vec<Pubkey>,
) -> (r: Result<RawInstruction, u64>)
    ensures
        raw_encodes(r, enable_cpi_guard_encoding(*program_id, *account, *owner, signers@)),
{
    let k = |p: &Pubkey| LedgerKey::new_from_array(p.bytes);
    spl_token_2022::extension::cpi_guard::instruction::enable_cpi_guard(
        &k(program_id),
        &k(account),
        &k(owner),
        &signers.iter().map(k).collect::<Vec<_>>().iter().collect::<Vec<_>>()
    )
    .map(|i| (i.program_id.to_bytes(), i.accounts.iter().map(|m| (m.pubkey.to_bytes(), m.is_signer, m.is_writable)).collect(), i.data))
    .map_err(u64::from)
}

/// The instruction that guards an account against use through other programs.
pub fn enable_cpi_guard(
    program_id: &Pubkey,
    account: &Pubkey,
    owner: &Pubkey,
    signers: &Vec<Pubkey>,
) -> (r: Result<Instruction, ProgramError>)
    ensures
        encodes(r, enable_cpi_guard_encoding(*program_id, *account, *owner, signers@)),
{
    Instruction::from_encoder(raw_enable_cpi_guard(program_id, account, owner, signers))
}

/// What `spl_token_2022::extension::cpi_guard::instruction::disable_cpi_guard`
/// gives for these arguments: the error "incorrect program id" unless the
/// program is the token program with extensions, and else the instruction of
/// that program with these accounts and data.
pub open spec fn disable_cpi_guard_encoding(
    program_id: Pubkey,
    account: Pubkey,
    owner: Pubkey,
    signers: Seq<Pubkey>,
) -> Result<InstructionView, ProgramError> {
    if !is_token_2022(program_id) {
        Err(ProgramError { code: INCORRECT_PROGRAM_ID })
    } else {
        Ok(
            InstructionView {
                program_id,
                accounts: seq![writable(account)] + authority_accounts(owner, signers),
                data: seq![34u8, 1u8],
            },
        )
    }
}

/// Calls
/// `spl_token_2022::extension::cpi_guard::instruction::disable_cpi_guard`. It
/// refuses, with "incorrect program id", a program that is not the token
/// program with extensions. Else the instruction names the program that it was
/// given and the accounts that `disable_cpi_guard_encoding` lists, with the
/// data that it states. Keys are handed over as their bytes, an error as its
/// code.
#[verifier::external_body]
fn raw_disable_cpi_guard(
    program_id: &Pubkey,
    account: &Pubkey,
    owner: &Pubkey,
    signers: &Vec<Pubkey>,
) -> (r: Result<RawInstruction, u64>)
    ensures
        raw_encodes(r, disable_cpi_guard_encoding(*program_id, *account, *owner, signers@)),
{
    let k = |p: &Pubkey| LedgerKey::new_from_array(p.bytes);
    spl_token_2022::extension::cpi_guard::instruction::disable_cpi_guard(
        &k(program_id),
        &k(account),
        &k(owner),
        &signers.iter().map(k).collect::<Vec<_>>().iter().collect::<Vec<_>>()
    )
    .map(|i| (i.program_id.to_bytes(), i.accounts.iter().map(|m| (m.pubkey.to_bytes(), m.is_signer, m.is_writable)).collect(), i.data))
    .map_err(u64::from)
}

/// The instruction that lifts the guard of an account.
pub fn disable_cpi_guard(
    program_id: &Pubkey,
    account: &Pubkey,
    owner: &Pubkey,
    signers: &Vec<Pubkey>,
) -> (r: Result<Instruction, ProgramError>)
    ensures
        encodes(r, disable_cpi_guard_encoding(*program_id, *account, *owner, signers@)),
{
    Instruction::from_encoder(raw_disable_cpi_guard(program_id, account, owner, signers))
}

} // verus!
