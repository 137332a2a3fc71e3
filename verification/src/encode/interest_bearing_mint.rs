//! The instructions of the interest-bearing extension.
use crate::encode::parts::{authority_accounts, key_fits, le_i16, stored_key, writable};
use crate::error::{ProgramError, INCORRECT_PROGRAM_ID, INVALID_ARGUMENT};
use crate::instruction::{Instruction, InstructionView, RawInstruction, encodes, raw_encodes};
use crate::programs::is_token_2022;
use crate::pubkey::Pubkey;
use solana_program::pubkey::Pubkey as LedgerKey;
use vstd::prelude::*;

verus! {

/// What
/// `spl_token_2022::extension::interest_bearing_mint::instruction::initialize`
/// gives for these arguments: the error "incorrect program id" unless the
/// program is the token program with extensions, then the error "invalid
/// argument" for an optional key that is all zero, and else the instruction of
/// that program with these accounts and data.
pub open spec fn initialize_encoding(
    program_id: Pubkey,
    mint: Pubkey,
    rate_authority: Option<Pubkey>,
    rate: i16,
) -> Result<InstructionView, ProgramError> {
    if !is_token_2022(program_id) {
        Err(ProgramError { code: INCORRECT_PROGRAM_ID })
    } else if !key_fits(rate_authority) {
        Err(ProgramError { code: INVALID_ARGUMENT })
    } else {
        Ok(
            InstructionView {
                program_id,
                accounts: seq![writable(mint)],
                data: seq![33u8, 0u8] + stored_key(rate_authority) + le_i16(rate),
            },
        )
    }
}

/// Calls
/// `spl_token_2022::extension::interest_bearing_mint::instruction::initialize`.
/// It refuses, with "incorrect program id", a program that is not the token
/// program with extensions, then gives the error "invalid argument" for an
/// optional key that is all zero. Else the instruction names the program that
/// it was given and the accounts that `initialize_encoding` lists, with the
/// data that it states. Keys are handed over as their bytes, an error as its
/// code.
#[verifier::external_body]
fn raw_initialize(
    program_id: &Pubkey,
    mint: &Pubkey,
    rate_authority: Option<Pubkey>,
    rate: i16,
) -> (r: Result<RawInstruction, u64>)
    ensures
        raw_encodes(r, initialize_encoding(*program_id, *mint, rate_authority, rate)),
{
    let k = |p: &Pubkey| LedgerKey::new_from_array(p.bytes);
    spl_token_2022::extension::interest_bearing_mint::instruction::initialize(
        &k(program_id),
        &k(mint),
        rate_authority.map(|p| k(&p)),
        rate
    )
    .map(|i| (i.program_id.to_bytes(), i.accounts.iter().map(|m| (m.pubkey.to_bytes(), m.is_signer, m.is_writable)).collect(), i.data))
    .map_err(u64::from)
}

/// The instruction that gives a mint its interest rate.
pub fn initialize(
    program_id: &Pubkey,
    mint: &Pubkey,
    rate_authority: Option<Pubkey>,
    rate: i16,
) -> (r: Result<Instruction, ProgramError>)
    ensures
        encodes(r, initialize_encoding(*program_id, *mint, rate_authority, rate)),
{
    Instruction::from_encoder(raw_initialize(program_id, mint, rate_authority, rate))
}

/// What
/// `spl_token_2022::extension::interest_bearing_mint::instruction::update_rate`
/// gives for these arguments: the error "incorrect program id" unless the
/// program is the token program with extensions, and else the instruction of
/// that program with these accounts and data.
pub open spec fn update_rate_encoding(
    program_id: Pubkey,
    mint: Pubkey,
    rate_authority: Pubkey,
    signers: Seq<Pubkey>,
    rate: i16,
) -> Result<InstructionView, ProgramError> {
    if !is_token_2022(program_id) {
        Err(ProgramError { code: INCORRECT_PROGRAM_ID })
    } else {
        Ok(
            InstructionView {
                program_id,
                accounts: seq![writable(mint)] + authority_accounts(rate_authority, signers),
                data: seq![33u8, 1u8] + le_i16(rate),
            },
        )
    }
}

/// Calls
/// `spl_token_2022::extension::interest_bearing_mint::instruction::update_rate`.
/// It refuses, with "incorrect program id", a program that is not the token
/// program with extensions. Else the instruction names the program that it was
/// given and the accounts that `update_rate_encoding` lists, with the data that
/// it states. Keys are handed over as their bytes, an error as its code.
#[verifier::external_body]
fn raw_update_rate(
    program_id: &Pubkey,
    mint: &Pubkey,
    rate_authority: &Pubkey,
    signers: &Vec<Pubkey>,
    rate: i16,
) -> (r: Result<RawInstruction, u64>)
    ensures
        raw_encodes(
            r,
            update_rate_encoding(
                *program_id,
                *mint,
                *rate_authority,
                signers@,
                rate,
            ),
        ),
{
    let k = |p: &Pubkey| LedgerKey::new_from_array(p.bytes);
    spl_token_2022::extension::interest_bearing_mint::instruction::update_rate(
        &k(program_id),
        &k(mint),
        &k(rate_authority),
        &signers.iter().map(k).collect::<Vec<_>>().iter().collect::<Vec<_>>(),
        rate
    )
    .map(|i| (i.program_id.to_bytes(), i.accounts.iter().map(|m| (m.pubkey.to_bytes(), m.is_signer, m.is_writable)).collect(), i.data))
    .map_err(u64::from)
}

/// The instruction that changes the interest rate of a mint.
pub fn update_rate(
    program_id: &Pubkey,
    mint: &Pubkey,
    rate_authority: &Pubkey,
    signers: &Vec<Pubkey>,
    rate: i16,
) -> (r: Result<Instruction, ProgramError>)
    ensures
        encodes(
            r,
            update_rate_encoding(
                *program_id,
                *mint,
                *rate_authority,
                signers@,
                rate,
            ),
        ),
{
    Instruction::from_encoder(raw_update_rate(program_id, mint, rate_authority, signers, rate))
}

} // verus!
