//! The instructions of the default-account-state extension.
use crate::encode::parts::{authority_accounts, writable};
use crate::error::{ProgramError, INCORRECT_PROGRAM_ID};
use crate::instruction::{Instruction, InstructionView, RawInstruction, encodes, raw_encodes};
use crate::programs::is_token_2022;
use crate::pubkey::Pubkey;
use crate::state::{AccountState};
use solana_program::pubkey::Pubkey as LedgerKey;
use spl_token_2022::state::AccountState as LedgerAccountState;
use vstd::prelude::*;

verus! {

/// What
/// `spl_token_2022::extension::default_account_state::instruction::initialize_default_account_state`
/// gives for these arguments: the error "incorrect program id" unless the
/// program is the token program with extensions, and else the instruction of
/// that program with these accounts and data.
pub open spec fn initialize_default_account_state_encoding(
    program_id: Pubkey,
    mint: Pubkey,
    state: AccountState,
) -> Result<InstructionView, ProgramError> {
    if !is_token_2022(program_id) {
        Err(ProgramError { code: INCORRECT_PROGRAM_ID })
    } else {
        Ok(
            InstructionView {
                program_id,
                accounts: seq![writable(mint)],
                data: seq![28u8, 0u8, state.spec_code()],
            },
        )
    }
}

/// Calls
/// `spl_token_2022::extension::default_account_state::instruction::initialize_default_account_state`.
/// It refuses, with "incorrect program id", a program that is not the token
/// program with extensions. Else the instruction names the program that it was
/// given and the accounts that `initialize_default_account_state_encoding`
/// lists, with the data that it states. Keys are handed over as their bytes, an
/// error as its code.
#[verifier::external_body]
fn raw_initialize_default_account_state(
    program_id: &Pubkey,
    mint: &Pubkey,
    state: AccountState,
) -> (r: Result<RawInstruction, u64>)
    ensures
        raw_encodes(r, initialize_default_account_state_encoding(*program_id, *mint, state)),
{
    let k = |p: &Pubkey| LedgerKey::new_from_array(p.bytes);
    spl_token_2022::extension::default_account_state::instruction::initialize_default_account_state(
        &k(program_id),
        &k(mint),
        &LedgerAccountState::try_from(state as u8).unwrap()
    )
    .map(|i| (i.program_id.to_bytes(), i.accounts.iter().map(|m| (m.pubkey.to_bytes(), m.is_signer, m.is_writable)).collect(), i.data))
    .map_err(u64::from)
}

/// The instruction that gives a mint the state in which its new accounts start.
pub fn initialize_default_account_state(
    program_id: &Pubkey,
    mint: &Pubkey,
    state: AccountState,
) -> (r: Result<Instruction, ProgramError>)
    ensures
        encodes(r, initialize_default_account_state_encoding(*program_id, *mint, state)),
{
    Instruction::from_encoder(raw_initialize_default_account_state(program_id, mint, state))
}

/// What
/// `spl_token_2022::extension::default_account_state::instruction::update_default_account_state`
/// gives for these arguments: the error "incorrect program id" unless the
/// program is the token program with extensions, and else the instruction of
/// that program with these accounts and data.
pub open spec fn update_default_account_state_encoding(
    program_id: Pubkey,
    mint: Pubkey,
    freeze_authority: Pubkey,
    signers: Seq<Pubkey>,
    state: AccountState,
) -> Result<InstructionView, ProgramError> {
    if !is_token_2022(program_id) {
        Err(ProgramError { code: INCORRECT_PROGRAM_ID })
    } else {
        Ok(
            InstructionView {
                program_id,
                accounts: seq![writable(mint)] + authority_accounts(freeze_authority, signers),
                data: seq![28u8, 1u8, state.spec_code()],
            },
        )
    }
}

/// Calls
/// `spl_token_2022::extension::default_account_state::instruction::update_default_account_state`.
/// It refuses, with "incorrect program id", a program that is not the token
/// program with extensions. Else the instruction names the program that it was
/// given and the accounts that `update_default_account_state_encoding` lists,
/// with the data that it states. Keys are handed over as their bytes, an error
/// as its code.
#[verifier::external_body]
fn raw_update_default_account_state(
    program_id: &Pubkey,
    mint: &Pubkey,
    freeze_authority: &Pubkey,
    signers: &Vec<Pubkey>,
    state: AccountState,
) -> (r: Result<RawInstruction, u64>)
    ensures
        raw_encodes(
            r,
            update_default_account_state_encoding(
                *program_id,
                *mint,
                *freeze_authority,
                signers@,
                state,
            ),
        ),
{
    let k = |p: &Pubkey| LedgerKey::new_from_array(p.bytes);
    spl_token_2022::extension::default_account_state::instruction::update_default_account_state(
        &k(program_id),
        &k(mint),
        &k(freeze_authority),
        &signers.iter().map(k).collect::<Vec<_>>().iter().collect::<Vec<_>>(),
        &LedgerAccountState::try_from(state as u8).unwrap()
    )
    .map(|i| (i.program_id.to_bytes(), i.accounts.iter().map(|m| (m.pubkey.to_bytes(), m.is_signer, m.is_writable)).collect(), i.data))
    .map_err(u64::from)
}

/// The instruction that changes the state in which new accounts of a mint
/// start.
pub fn update_default_account_state(
    program_id: &Pubkey,
    mint: &Pubkey,
    freeze_authority: &Pubkey,
    signers: &Vec<Pubkey>,
    state: AccountState,
) -> (r: Result<Instruction, ProgramError>)
    ensures
        encodes(
            r,
            update_default_account_state_encoding(
                *program_id,
                *mint,
                *freeze_authority,
                signers@,
                state,
            ),
        ),
{
    Instruction::from_encoder(raw_update_default_account_state(
        program_id,
        mint,
        freeze_authority,
        signers,
        state,
    ))
}

} // verus!
