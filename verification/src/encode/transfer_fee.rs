//! The instructions of the transfer-fee extension.
use crate::encode::parts::{all_writable, authority_accounts, packed_key_option, readonly, writable};
use crate::error::{ProgramError, INCORRECT_PROGRAM_ID, INVALID_INSTRUCTION_DATA};
use crate::instruction::{Instruction, InstructionView, RawInstruction, encodes, raw_encodes};
use crate::programs::is_token_2022;
use crate::pubkey::Pubkey;
use solana_program::pubkey::Pubkey as LedgerKey;
use vstd::bytes::{spec_u16_to_le_bytes, spec_u64_to_le_bytes};
use vstd::prelude::*;

verus! {

/// What
/// `spl_token_2022::extension::transfer_fee::instruction::initialize_transfer_fee_config`
/// gives for these arguments: the error "incorrect program id" unless the
/// program is the token program with extensions, and else the instruction of
/// that program with these accounts and data.
pub open spec fn initialize_transfer_fee_config_encoding(
    program_id: Pubkey,
    mint: Pubkey,
    transfer_fee_config_authority: Option<Pubkey>,
    withdraw_withheld_authority: Option<Pubkey>,
    transfer_fee_basis_points: u16,
    maximum_fee: u64,
) -> Result<InstructionView, ProgramError> {
    if !is_token_2022(program_id) {
        Err(ProgramError { code: INCORRECT_PROGRAM_ID })
    } else {
        Ok(
            InstructionView {
                program_id,
                accounts: seq![writable(mint)],
                data: seq![26u8, 0u8]
                    + packed_key_option(transfer_fee_config_authority)
                    + packed_key_option(withdraw_withheld_authority)
                    + spec_u16_to_le_bytes(transfer_fee_basis_points)
                    + spec_u64_to_le_bytes(maximum_fee),
            },
        )
    }
}

/// Calls
/// `spl_token_2022::extension::transfer_fee::instruction::initialize_transfer_fee_config`.
/// It refuses, with "incorrect program id", a program that is not the token
/// program with extensions. Else the instruction names the program that it was
/// given and the accounts that `initialize_transfer_fee_config_encoding` lists,
/// with the data that it states. Keys are handed over as their bytes, an error
/// as its code.
#[verifier::external_body]
fn raw_initialize_transfer_fee_config(
    program_id: &Pubkey,
    mint: &Pubkey,
    transfer_fee_config_authority: Option<Pubkey>,
    withdraw_withheld_authority: Option<Pubkey>,
    transfer_fee_basis_points: u16,
    maximum_fee: u64,
) -> (r: Result<RawInstruction, u64>)
    ensures
        raw_encodes(
            r,
            initialize_transfer_fee_config_encoding(
                *program_id,
                *mint,
                transfer_fee_config_authority,
                withdraw_withheld_authority,
                transfer_fee_basis_points,
                maximum_fee,
            ),
        ),
{
    let k = |p: &Pubkey| LedgerKey::new_from_array(p.bytes);
    spl_token_2022::extension::transfer_fee::instruction::initialize_transfer_fee_config(
        &k(program_id),
        &k(mint),
        transfer_fee_config_authority.map(|p| k(&p)).as_ref(),
        withdraw_withheld_authority.map(|p| k(&p)).as_ref(),
        transfer_fee_basis_points,
        maximum_fee
    )
    .map(|i| (i.program_id.to_bytes(), i.accounts.iter().map(|m| (m.pubkey.to_bytes(), m.is_signer, m.is_writable)).collect(), i.data))
    .map_err(u64::from)
}

/// The instruction that gives a mint its transfer fee.
pub fn initialize_transfer_fee_config(
    program_id: &Pubkey,
    mint: &Pubkey,
    transfer_fee_config_authority: Option<Pubkey>,
    withdraw_withheld_authority: Option<Pubkey>,
    transfer_fee_basis_points: u16,
    maximum_fee: u64,
) -> (r: Result<Instruction, ProgramError>)
    ensures
        encodes(
            r,
            initialize_transfer_fee_config_encoding(
                *program_id,
                *mint,
                transfer_fee_config_authority,
                withdraw_withheld_authority,
                transfer_fee_basis_points,
                maximum_fee,
            ),
        ),
{
    Instruction::from_encoder(raw_initialize_transfer_fee_config(
        program_id,
        mint,
        transfer_fee_config_authority,
        withdraw_withheld_authority,
        transfer_fee_basis_points,
        maximum_fee,
    ))
}

/// What
/// `spl_token_2022::extension::transfer_fee::instruction::transfer_checked_with_fee`
/// gives for these arguments: the error "incorrect program id" unless the
/// program is the token program with extensions, and else the instruction of
/// that program with these accounts and data.
pub open spec fn transfer_checked_with_fee_encoding(
    program_id: Pubkey,
    source: Pubkey,
    mint: Pubkey,
    destination: Pubkey,
    authority: Pubkey,
    signers: Seq<Pubkey>,
    amount: u64,
    decimals: u8,
    fee: u64,
) -> Result<InstructionView, ProgramError> {
    if !is_token_2022(program_id) {
        Err(ProgramError { code: INCORRECT_PROGRAM_ID })
    } else {
        Ok(
            InstructionView {
                program_id,
                accounts: seq![writable(source), readonly(mint), writable(destination)]
                    + authority_accounts(authority, signers),
                data: seq![26u8, 1u8]
                    + spec_u64_to_le_bytes(amount)
                    + seq![decimals]
                    + spec_u64_to_le_bytes(fee),
            },
        )
    }
}

/// Calls
/// `spl_token_2022::extension::transfer_fee::instruction::transfer_checked_with_fee`.
/// It refuses, with "incorrect program id", a program that is not the token
/// program with extensions. Else the instruction names the program that it was
/// given and the accounts that `transfer_checked_with_fee_encoding` lists, with
/// the data that it states. Keys are handed over as their bytes, an error as
/// its code.
#[verifier::external_body]
fn raw_transfer_checked_with_fee(
    program_id: &Pubkey,
    source: &Pubkey,
    mint: &Pubkey,
    destination: &Pubkey,
    authority: &Pubkey,
    signers: &Vec<Pubkey>,
    amount: u64,
    decimals: u8,
    fee: u64,
) -> (r: Result<RawInstruction, u64>)
    ensures
        raw_encodes(
            r,
            transfer_checked_with_fee_encoding(
                *program_id,
                *source,
                *mint,
                *destination,
                *authority,
                signers@,
                amount,
                decimals,
                fee,
            ),
        ),
{
    let k = |p: &Pubkey| LedgerKey::new_from_array(p.bytes);
    spl_token_2022::extension::transfer_fee::instruction::transfer_checked_with_fee(
        &k(program_id),
        &k(source),
        &k(mint),
        &k(destination),
        &k(authority),
        &signers.iter().map(k).collect::<Vec<_>>().iter().collect::<Vec<_>>(),
        amount,
        decimals,
        fee
    )
    .map(|i| (i.program_id.to_bytes(), i.accounts.iter().map(|m| (m.pubkey.to_bytes(), m.is_signer, m.is_writable)).collect(), i.data))
    .map_err(u64::from)
}

/// The instruction that transfers tokens and states the fee that the sender
/// expects.
pub fn transfer_checked_with_fee(
    program_id: &Pubkey,
    source: &Pubkey,
    mint: &Pubkey,
    destination: &Pubkey,
    authority: &Pubkey,
    signers: &Vec<Pubkey>,
    amount: u64,
    decimals: u8,
    fee: u64,
) -> (r: Result<Instruction, ProgramError>)
    ensures
        encodes(
            r,
            transfer_checked_with_fee_encoding(
                *program_id,
                *source,
                *mint,
                *destination,
                *authority,
                signers@,
                amount,
                decimals,
                fee,
            ),
        ),
{
    Instruction::from_encoder(raw_transfer_checked_with_fee(
        program_id,
        source,
        mint,
        destination,
        authority,
        signers,
        amount,
        decimals,
        fee,
    ))
}

/// What
/// `spl_token_2022::extension::transfer_fee::instruction::withdraw_withheld_tokens_from_mint`
/// gives for these arguments: the error "incorrect program id" unless the
/// program is the token program with extensions, and else the instruction of
/// that program with these accounts and data.
pub open spec fn withdraw_withheld_tokens_from_mint_encoding(
    program_id: Pubkey,
    mint: Pubkey,
    destination: Pubkey,
    authority: Pubkey,
    signers: Seq<Pubkey>,
) -> Result<InstructionView, ProgramError> {
    if !is_token_2022(program_id) {
        Err(ProgramError { code: INCORRECT_PROGRAM_ID })
    } else {
        Ok(
            InstructionView {
                program_id,
                accounts: seq![writable(mint), writable(destination)]
                    + authority_accounts(authority, signers),
                data: seq![26u8, 2u8],
            },
        )
    }
}

/// Calls
/// `spl_token_2022::extension::transfer_fee::instruction::withdraw_withheld_tokens_from_mint`.
/// It refuses, with "incorrect program id", a program that is not the token
/// program with extensions. Else the instruction names the program that it was
/// given and the accounts that `withdraw_withheld_tokens_from_mint_encoding`
/// lists, with the data that it states. Keys are handed over as their bytes, an
/// error as its code.
#[verifier::external_body]
fn raw_withdraw_withheld_tokens_from_mint(
    program_id: &Pubkey,
    mint: &Pubkey,
    destination: &Pubkey,
    authority: &Pubkey,
    signers: &Vec<Pubkey>,
) -> (r: Result<RawInstruction, u64>)
    ensures
        raw_encodes(
            r,
            withdraw_withheld_tokens_from_mint_encoding(
                *program_id,
                *mint,
                *destination,
                *authority,
                signers@,
            ),
        ),
{
    let k = |p: &Pubkey| LedgerKey::new_from_array(p.bytes);
    spl_token_2022::extension::transfer_fee::instruction::withdraw_withheld_tokens_from_mint(
        &k(program_id),
        &k(mint),
        &k(destination),
        &k(authority),
        &signers.iter().map(k).collect::<Vec<_>>().iter().collect::<Vec<_>>()
    )
    .map(|i| (i.program_id.to_bytes(), i.accounts.iter().map(|m| (m.pubkey.to_bytes(), m.is_signer, m.is_writable)).collect(), i.data))
    .map_err(u64::from)
}

/// The instruction that moves the fees withheld in the mint to `destination`.
pub fn withdraw_withheld_tokens_from_mint(
    program_id: &Pubkey,
    mint: &Pubkey,
    destination: &Pubkey,
    authority: &Pubkey,
    signers: &Vec<Pubkey>,
) -> (r: Result<Instruction, ProgramError>)
    ensures
        encodes(
            r,
            withdraw_withheld_tokens_from_mint_encoding(
                *program_id,
                *mint,
                *destination,
                *authority,
                signers@,
            ),
        ),
{
    Instruction::from_encoder(raw_withdraw_withheld_tokens_from_mint(
        program_id,
        mint,
        destination,
        authority,
        signers,
    ))
}

/// What
/// `spl_token_2022::extension::transfer_fee::instruction::withdraw_withheld_tokens_from_accounts`
/// gives for these arguments: the error "incorrect program id" unless the
/// program is the token program with extensions, then the error "invalid
/// instruction data" for more than 255 sources, and else the instruction of
/// that program with these accounts and data.
pub open spec fn withdraw_withheld_tokens_from_accounts_encoding(
    program_id: Pubkey,
    mint: Pubkey,
    destination: Pubkey,
    authority: Pubkey,
    signers: Seq<Pubkey>,
    sources: Seq<Pubkey>,
) -> Result<InstructionView, ProgramError> {
    if !is_token_2022(program_id) {
        Err(ProgramError { code: INCORRECT_PROGRAM_ID })
    } else if sources.len() > 255 {
        Err(ProgramError { code: INVALID_INSTRUCTION_DATA })
    } else {
        Ok(
            InstructionView {
                program_id,
                accounts: seq![readonly(mint), writable(destination)]
                    + authority_accounts(authority, signers)
                    + all_writable(sources),
                data: seq![26u8, 3u8, sources.len() as u8],
            },
        )
    }
}

/// Calls
/// `spl_token_2022::extension::transfer_fee::instruction::withdraw_withheld_tokens_from_accounts`.
/// It refuses, with "incorrect program id", a program that is not the token
/// program with extensions, then gives the error "invalid instruction data" for
/// more than 255 sources. Else the instruction names the program that it was
/// given and the accounts that
/// `withdraw_withheld_tokens_from_accounts_encoding` lists, with the data that
/// it states. Keys are handed over as their bytes, an error as its code.
#[verifier::external_body]
fn raw_withdraw_withheld_tokens_from_accounts(
    program_id: &Pubkey,
    mint: &Pubkey,
    destination: &Pubkey,
    authority: &Pubkey,
    signers: &Vec<Pubkey>,
    sources: &Vec<Pubkey>,
) -> (r: Result<RawInstruction, u64>)
    ensures
        raw_encodes(
            r,
            withdraw_withheld_tokens_from_accounts_encoding(
                *program_id,
                *mint,
                *destination,
                *authority,
                signers@,
                sources@,
            ),
        ),
{
    let k = |p: &Pubkey| LedgerKey::new_from_array(p.bytes);
    spl_token_2022::extension::transfer_fee::instruction::withdraw_withheld_tokens_from_accounts(
        &k(program_id),
        &k(mint),
        &k(destination),
        &k(authority),
        &signers.iter().map(k).collect::<Vec<_>>().iter().collect::<Vec<_>>(),
        &sources.iter().map(k).collect::<Vec<_>>().iter().collect::<Vec<_>>()
    )
    .map(|i| (i.program_id.to_bytes(), i.accounts.iter().map(|m| (m.pubkey.to_bytes(), m.is_signer, m.is_writable)).collect(), i.data))
    .map_err(u64::from)
}

/// The instruction that moves the fees withheld in `sources` to `destination`.
pub fn withdraw_withheld_tokens_from_accounts(
    program_id: &Pubkey,
    mint: &Pubkey,
    destination: &Pubkey,
    authority: &Pubkey,
    signers: &Vec<Pubkey>,
    sources: &Vec<Pubkey>,
) -> (r: Result<Instruction, ProgramError>)
    ensures
        encodes(
            r,
            withdraw_withheld_tokens_from_accounts_encoding(
                *program_id,
                *mint,
                *destination,
                *authority,
                signers@,
                sources@,
            ),
        ),
{
    Instruction::from_encoder(raw_withdraw_withheld_tokens_from_accounts(
        program_id,
        mint,
        destination,
        authority,
        signers,
        sources,
    ))
}

/// What
/// `spl_token_2022::extension::transfer_fee::instruction::harvest_withheld_tokens_to_mint`
/// gives for these arguments: the error "incorrect program id" unless the
/// program is the token program with extensions, and else the instruction of
/// that program with these accounts and data.
pub open spec fn harvest_withheld_tokens_to_mint_encoding(
    program_id: Pubkey,
    mint: Pubkey,
    sources: Seq<Pubkey>,
) -> Result<InstructionView, ProgramError> {
    if !is_token_2022(program_id) {
        Err(ProgramError { code: INCORRECT_PROGRAM_ID })
    } else {
        Ok(
            InstructionView {
                program_id,
                accounts: seq![writable(mint)] + all_writable(sources),
                data: seq![26u8, 4u8],
            },
        )
    }
}

/// Calls
/// `spl_token_2022::extension::transfer_fee::instruction::harvest_withheld_tokens_to_mint`.
/// It refuses, with "incorrect program id", a program that is not the token
/// program with extensions. Else the instruction names the program that it was
/// given and the accounts that `harvest_withheld_tokens_to_mint_encoding`
/// lists, with the data that it states. Keys are handed over as their bytes, an
/// error as its code.
#[verifier::external_body]
fn raw_harvest_withheld_tokens_to_mint(
    program_id: &Pubkey,
    mint: &Pubkey,
    sources: &Vec<Pubkey>,
) -> (r: Result<RawInstruction, u64>)
    ensures
        raw_encodes(r, harvest_withheld_tokens_to_mint_encoding(*program_id, *mint, sources@)),
{
    let k = |p: &Pubkey| LedgerKey::new_from_array(p.bytes);
    spl_token_2022::extension::transfer_fee::instruction::harvest_withheld_tokens_to_mint(
        &k(program_id),
        &k(mint),
        &sources.iter().map(k).collect::<Vec<_>>().iter().collect::<Vec<_>>()
    )
    .map(|i| (i.program_id.to_bytes(), i.accounts.iter().map(|m| (m.pubkey.to_bytes(), m.is_signer, m.is_writable)).collect(), i.data))
    .map_err(u64::from)
}

/// The instruction that moves the fees withheld in `sources` to the mint.
pub fn harvest_withheld_tokens_to_mint(
    program_id: &Pubkey,
    mint: &Pubkey,
    sources: &Vec<Pubkey>,
) -> (r: Result<Instruction, ProgramError>)
    ensures
        encodes(r, harvest_withheld_tokens_to_mint_encoding(*program_id, *mint, sources@)),
{
    Instruction::from_encoder(raw_harvest_withheld_tokens_to_mint(program_id, mint, sources))
}

/// What
/// `spl_token_2022::extension::transfer_fee::instruction::set_transfer_fee`
/// gives for these arguments: the error "incorrect program id" unless the
/// program is the token program with extensions, and else the instruction of
/// that program with these accounts and data.
pub open spec fn set_transfer_fee_encoding(
    program_id: Pubkey,
    mint: Pubkey,
    authority: Pubkey,
    signers: Seq<Pubkey>,
    transfer_fee_basis_points: u16,
    maximum_fee: u64,
) -> Result<InstructionView, ProgramError> {
    if !is_token_2022(program_id) {
        Err(ProgramError { code: INCORRECT_PROGRAM_ID })
    } else {
        Ok(
            InstructionView {
                program_id,
                accounts: seq![writable(mint)] + authority_accounts(authority, signers),
                data: seq![26u8, 5u8]
                    + spec_u16_to_le_bytes(transfer_fee_basis_points)
                    + spec_u64_to_le_bytes(maximum_fee),
            },
        )
    }
}

/// Calls
/// `spl_token_2022::extension::transfer_fee::instruction::set_transfer_fee`. It
/// refuses, with "incorrect program id", a program that is not the token
/// program with extensions. Else the instruction names the program that it was
/// given and the accounts that `set_transfer_fee_encoding` lists, with the data
/// that it states. Keys are handed over as their bytes, an error as its code.
#[verifier::external_body]
fn raw_set_transfer_fee(
    program_id: &Pubkey,
    mint: &Pubkey,
    authority: &Pubkey,
    signers: &Vec<Pubkey>,
    transfer_fee_basis_points: u16,
    maximum_fee: u64,
) -> (r: Result<RawInstruction, u64>)
    ensures
        raw_encodes(
            r,
            set_transfer_fee_encoding(
                *program_id,
                *mint,
                *authority,
                signers@,
                transfer_fee_basis_points,
                maximum_fee,
            ),
        ),
{
    let k = |p: &Pubkey| LedgerKey::new_from_array(p.bytes);
    spl_token_2022::extension::transfer_fee::instruction::set_transfer_fee(
        &k(program_id),
        &k(mint),
        &k(authority),
        &signers.iter().map(k).collect::<Vec<_>>().iter().collect::<Vec<_>>(),
        transfer_fee_basis_points,
        maximum_fee
    )
    .map(|i| (i.program_id.to_bytes(), i.accounts.iter().map(|m| (m.pubkey.to_bytes(), m.is_signer, m.is_writable)).collect(), i.data))
    .map_err(u64::from)
}

/// The instruction that sets the transfer fee of a mint.
pub fn set_transfer_fee(
    program_id: &Pubkey,
    mint: &Pubkey,
    authority: &Pubkey,
    signers: &Vec<Pubkey>,
    transfer_fee_basis_points: u16,
    maximum_fee: u64,
) -> (r: Result<Instruction, ProgramError>)
    ensures
        encodes(
            r,
            set_transfer_fee_encoding(
                *program_id,
                *mint,
                *authority,
                signers@,
                transfer_fee_basis_points,
                maximum_fee,
            ),
        ),
{
    Instruction::from_encoder(raw_set_transfer_fee(
        program_id,
        mint,
        authority,
        signers,
        transfer_fee_basis_points,
        maximum_fee,
    ))
}

} // verus!
