//! The instructions of the required-memo extension.
use crate::encode::parts::{authority_accounts, writable};
use crate::error::{ProgramError, INCORRECT_PROGRAM_ID};
use crate::instruction::{Instruction, InstructionView, RawInstruction, encodes, raw_encodes};
use crate::programs::is_token_2022;
use crate::pubkey::Pubkey;
use solana_program::pubkey::Pubkey as LedgerKey;
use vstd::prelude::*;

verus! {

/// What
/// `spl_token_2022::extension::memo_transfer::instruction::enable_required_transfer_memos`
/// gives for these arguments: the error "incorrect program id" unless the
/// program is the token program with extensions, and else the instruction of
/// that program with these accounts and data.
pub open spec fn enable_required_transfer_memos_encoding(
    program_id: Pubkey,
    account: Pubkey,
    owner: Pubkey,
    signers: Seq<Pubkey>,
) -> Result<InstructionView, ProgramError> {
    if !is_token_2022(program_id) {
        Err(ProgramError { code: INCORRECT_PROGRAM_ID })
    } else {
        Ok(
            InstructionView {
                program_id,
                accounts: seq![writable(account)] + authority_accounts(owner, signers),
                data: seq![30u8, 0u8],
            },
        )
    }
}

/// Calls
/// `spl_token_2022::extension::memo_transfer::instruction::enable_required_transfer_memos`.
/// It refuses, with "incorrect program id", a program that is not the token
/// program with extensions. Else the instruction names the program that it was
/// given and the accounts that `enable_required_transfer_memos_encoding` lists,
/// with the data that it states. Keys are handed over as their bytes, an error
/// as its code.
#[verifier::external_body]
fn raw_enable_required_transfer_memos(
    program_id: &Pubkey,
    account: &Pubkey,
    owner: &Pubkey,
    signers: &Vec<Pubkey>,
) -> (r: Result<RawInstruction, u64>)
    ensures
        raw_encodes(
            r,
            enable_required_transfer_memos_encoding(
                *program_id,
                *account,
                *owner,
                signers@,
            ),
        ),
{
    let k = |p: &Pubkey| LedgerKey::new_from_array(p.bytes);
    spl_token_2022::extension::memo_transfer::instruction::enable_required_transfer_memos(
        &k(program_id),
        &k(account),
        &k(owner),
        &signers.iter().map(k).collect::<Vec<_>>().iter().collect::<Vec<_>>()
    )
    .map(|i| (i.program_id.to_bytes(), i.accounts.iter().map(|m| (m.pubkey.to_bytes(), m.is_signer, m.is_writable)).collect(), i.data))
    .map_err(u64::from)
}

/// The instruction that makes an account require a memo with each incoming
/// transfer.
pub fn enable_required_transfer_memos(
    program_id: &Pubkey,
    account: &Pubkey,
    owner: &Pubkey,
    signers: &Vec<Pubkey>,
) -> (r: Result<Instruction, ProgramError>)
    ensures
        encodes(
            r,
            enable_required_transfer_memos_encoding(
                *program_id,
                *account,
                *owner,
                signers@,
            ),
        ),
{
    Instruction::from_encoder(raw_enable_required_transfer_memos(
        program_id,
        account,
        owner,
        signers,
    ))
}

/// What
/// `spl_token_2022::extension::memo_transfer::instruction::disable_required_transfer_memos`
/// gives for these arguments: the error "incorrect program id" unless the
/// program is the token program with extensions, and else the instruction of
/// that program with these accounts and data.
pub open spec fn disable_required_transfer_memos_encoding(
    program_id: Pubkey,
    account: Pubkey,
    owner: Pubkey,
    signers: Seq<Pubkey>,
) -> Result<InstructionView, ProgramError> {
    if !is_token_2022(program_id) {
        Err(ProgramError { code: INCORRECT_PROGRAM_ID })
    } else {
        Ok(
            InstructionView {
                program_id,
                accounts: seq![writable(account)] + authority_accounts(owner, signers),
                data: seq![30u8, 1u8],
            },
        )
    }
}

/// Calls
/// `spl_token_2022::extension::memo_transfer::instruction::disable_required_transfer_memos`.
/// It refuses, with "incorrect program id", a program that is not the token
/// program with extensions. Else the instruction names the program that it was
/// given and the accounts that `disable_required_transfer_memos_encoding`
/// lists, with the data that it states. Keys are handed over as their bytes, an
/// error as its code.
#[verifier::external_body]
fn raw_disable_required_transfer_memos(
    program_id: &Pubkey,
    account: &Pubkey,
    owner: &Pubkey,
    signers: &Vec<Pubkey>,
) -> (r: Result<RawInstruction, u64>)
    ensures
        raw_encodes(
            r,
            disable_required_transfer_memos_encoding(
                *program_id,
                *account,
                *owner,
                signers@,
            ),
        ),
{
    let k = |p: &Pubkey| LedgerKey::new_from_array(p.bytes);
    spl_token_2022::extension::memo_transfer::instruction::disable_required_transfer_memos(
        &k(program_id),
        &k(account),
        &k(owner),
        &signers.iter().map(k).collect::<Vec<_>>().iter().collect::<Vec<_>>()
    )
    .map(|i| (i.program_id.to_bytes(), i.accounts.iter().map(|m| (m.pubkey.to_bytes(), m.is_signer, m.is_writable)).collect(), i.data))
    .map_err(u64::from)
}

/// The instruction that stops an account from requiring memos.
pub fn disable_required_transfer_memos(
    program_id: &Pubkey,
    account: &Pubkey,
    owner: &Pubkey,
    signers: &Vec<Pubkey>,
) -> (r: Result<Instruction, ProgramError>)
    ensures
        encodes(
            r,
            disable_required_transfer_memos_encoding(
                *program_id,
                *account,
                *owner,
                signers@,
            ),
        ),
{
    Instruction::from_encoder(raw_disable_required_transfer_memos(
        program_id,
        account,
        owner,
        signers,
    ))
}

} // verus!
