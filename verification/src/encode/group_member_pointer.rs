//! The instructions of the extension that holds a mint's group-member address.
use crate::encode::parts::{authority_accounts, key_fits, stored_key, writable};
use crate::error::{ProgramError, INCORRECT_PROGRAM_ID, INVALID_ARGUMENT};
use crate::instruction::{Instruction, InstructionView, RawInstruction, encodes, raw_encodes};
use crate::programs::is_token_2022;
use crate::pubkey::Pubkey;
use solana_program::pubkey::Pubkey as LedgerKey;
use vstd::prelude::*;

verus! {

/// What
/// `spl_token_2022::extension::group_member_pointer::instruction::initialize`
/// gives for these arguments: the error "incorrect program id" unless the
/// program is the token program with extensions, then the error "invalid
/// argument" for an optional key that is all zero, and else the instruction of
/// that program with these accounts and data.
pub open spec fn initialize_encoding(
    program_id: Pubkey,
    mint: Pubkey,
    authority: Option<Pubkey>,
    member_address: Option<Pubkey>,
) -> Result<InstructionView, ProgramError> {
    if !is_token_2022(program_id) {
        Err(ProgramError { code: INCORRECT_PROGRAM_ID })
    } else if !key_fits(authority) || !key_fits(member_address) {
        Err(ProgramError { code: INVALID_ARGUMENT })
    } else {
        Ok(
            InstructionView {
                program_id,
                accounts: seq![writable(mint)],
                data: seq![41u8, 0u8] + stored_key(authority) + stored_key(member_address),
            },
        )
    }
}

/// Calls
/// `spl_token_2022::extension::group_member_pointer::instruction::initialize`.
/// It refuses, with "incorrect program id", a program that is not the token
/// program with extensions, then gives the error "invalid argument" for an
/// optional key that is all zero. Else the instruction names the program that
/// it was given and the accounts that `initialize_encoding` lists, with the
/// data that it states. Keys are handed over as their bytes, an error as its
/// code.
#[verifier::external_body]
fn raw_initialize(
    program_id: &Pubkey,
    mint: &Pubkey,
    authority: Option<Pubkey>,
    member_address: Option<Pubkey>,
) -> (r: Result<RawInstruction, u64>)
    ensures
        raw_encodes(r, initialize_encoding(*program_id, *mint, authority, member_address)),
{
    let k = |p: &Pubkey| LedgerKey::new_from_array(p.bytes);
    spl_token_2022::extension::group_member_pointer::instruction::initialize(
        &k(program_id),
        &k(mint),
        authority.map(|p| k(&p)),
        member_address.map(|p| k(&p))
    )
    .map(|i| (i.program_id.to_bytes(), i.accounts.iter().map(|m| (m.pubkey.to_bytes(), m.is_signer, m.is_writable)).collect(), i.data))
    .map_err(u64::from)
}

/// The instruction that gives a mint its group-member address.
pub fn initialize(
    program_id: &Pubkey,
    mint: &Pubkey,
    authority: Option<Pubkey>,
    member_address: Option<Pubkey>,
) -> (r: Result<Instruction, ProgramError>)
    ensures
        encodes(r, initialize_encoding(*program_id, *mint, authority, member_address)),
{
    Instruction::from_encoder(raw_initialize(program_id, mint, authority, member_address))
}

/// What `spl_token_2022::extension::group_member_pointer::instruction::update`
/// gives for these arguments: the error "incorrect program id" unless the
/// program is the token program with extensions, then the error "invalid
/// argument" for an optional key that is all zero, and else the instruction of
/// that program with these accounts and data.
pub open spec fn update_encoding(
    program_id: Pubkey,
    mint: Pubkey,
    authority: Pubkey,
    signers: Seq<Pubkey>,
    member_address: Option<Pubkey>,
) -> Result<InstructionView, ProgramError> {
    if !is_token_2022(program_id) {
        Err(ProgramError { code: INCORRECT_PROGRAM_ID })
    } else if !key_fits(member_address) {
        Err(ProgramError { code: INVALID_ARGUMENT })
    } else {
        Ok(
            InstructionView {
                program_id,
                accounts: seq![writable(mint)] + authority_accounts(authority, signers),
                data: seq![41u8, 1u8] + stored_key(member_address),
            },
        )
    }
}

/// Calls
/// `spl_token_2022::extension::group_member_pointer::instruction::update`. It
/// refuses, with "incorrect program id", a program that is not the token
/// program with extensions, then gives the error "invalid argument" for an
/// optional key that is all zero. Else the instruction names the program that
/// it was given and the accounts that `update_encoding` lists, with the data
/// that it states. Keys are handed over as their bytes, an error as its code.
#[verifier::external_body]
fn raw_update(
    program_id: &Pubkey,
    mint: &Pubkey,
    authority: &Pubkey,
    signers: &Vec<Pubkey>,
    member_address: Option<Pubkey>,
) -> (r: Result<RawInstruction, u64>)
    ensures
        raw_encodes(
            r,
            update_encoding(
                *program_id,
                *mint,
                *authority,
                signers@,
                member_address,
            ),
        ),
{
    let k = |p: &Pubkey| LedgerKey::new_from_array(p.bytes);
    spl_token_2022::extension::group_member_pointer::instruction::update(
        &k(program_id),
        &k(mint),
        &k(authority),
        &signers.iter().map(k).collect::<Vec<_>>().iter().collect::<Vec<_>>(),
        member_address.map(|p| k(&p))
    )
    .map(|i| (i.program_id.to_bytes(), i.accounts.iter().map(|m| (m.pubkey.to_bytes(), m.is_signer, m.is_writable)).collect(), i.data))
    .map_err(u64::from)
}

/// The instruction that changes the group-member address of a mint.
pub fn update(
    program_id: &Pubkey,
    mint: &Pubkey,
    authority: &Pubkey,
    signers: &Vec<Pubkey>,
    member_address: Option<Pubkey>,
) -> (r: Result<Instruction, ProgramError>)
    ensures
        encodes(
            r,
            update_encoding(
                *program_id,
                *mint,
                *authority,
                signers@,
                member_address,
            ),
        ),
{
    Instruction::from_encoder(raw_update(program_id, mint, authority, signers, member_address))
}

} // verus!
