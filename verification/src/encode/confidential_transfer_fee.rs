//! The instructions of the extension for fees on confidential transfers.
use bytemuck::Zeroable;
use crate::confidential::AeCiphertext;
use crate::encode::parts::{
    all_writable,
    authority_accounts,
    key_fits,
    proof_account,
    proof_offset,
    proof_place,
    ProofPlace,
    NEXT_INSTRUCTION,
    stored_key,
    writable,
};
use crate::error::{ProgramError, INCORRECT_PROGRAM_ID, INVALID_ARGUMENT};
use crate::instruction::{Instruction, InstructionView, RawInstruction, encodes, raw_encodes};
use crate::optional_keys::ElGamalPubkey;
use crate::programs::is_token_2022;
use crate::pubkey::Pubkey;
use crate::token::opt_key;
use solana_program::pubkey::Pubkey as LedgerKey;
use spl_token_2022::extension::confidential_transfer_fee::instruction::inner_withdraw_withheld_tokens_from_mint;
use spl_token_2022::proof::ProofLocation;
use spl_token_2022::solana_zk_token_sdk::zk_token_elgamal::pod::AeCiphertext as PodAeCiphertext;
use spl_token_2022::solana_zk_token_sdk::zk_token_elgamal::pod::ElGamalPubkey as LedgerElGamalPubkey;
use vstd::prelude::*;

verus! {

/// What
/// `spl_token_2022::extension::confidential_transfer_fee::instruction::initialize_confidential_transfer_fee_config`
/// gives for these arguments: the error "incorrect program id" unless the
/// program is the token program with extensions, then the error "invalid
/// argument" for an optional key that is all zero, and else the instruction of
/// that program with these accounts and data.
pub open spec fn initialize_confidential_transfer_fee_config_encoding(
    program_id: Pubkey,
    mint: Pubkey,
    authority: Option<Pubkey>,
    withdraw_withheld_authority_elgamal_pubkey: ElGamalPubkey,
) -> Result<InstructionView, ProgramError> {
    if !is_token_2022(program_id) {
        Err(ProgramError { code: INCORRECT_PROGRAM_ID })
    } else if !key_fits(authority) {
        Err(ProgramError { code: INVALID_ARGUMENT })
    } else {
        Ok(
            InstructionView {
                program_id,
                accounts: seq![writable(mint)],
                data: seq![37u8, 0u8]
                    + stored_key(authority)
                    + withdraw_withheld_authority_elgamal_pubkey@,
            },
        )
    }
}

/// Calls
/// `spl_token_2022::extension::confidential_transfer_fee::instruction::initialize_confidential_transfer_fee_config`.
/// It refuses, with "incorrect program id", a program that is not the token
/// program with extensions, then gives the error "invalid argument" for an
/// optional key that is all zero. Else the instruction names the program that
/// it was given and the accounts that
/// `initialize_confidential_transfer_fee_config_encoding` lists, with the data
/// that it states. Keys are handed over as their bytes, an error as its code.
#[verifier::external_body]
fn raw_initialize_confidential_transfer_fee_config(
    program_id: &Pubkey,
    mint: &Pubkey,
    authority: Option<Pubkey>,
    withdraw_withheld_authority_elgamal_pubkey: &ElGamalPubkey,
) -> (r: Result<RawInstruction, u64>)
    ensures
        raw_encodes(
            r,
            initialize_confidential_transfer_fee_config_encoding(
                *program_id,
                *mint,
                authority,
                *withdraw_withheld_authority_elgamal_pubkey,
            ),
        ),
{
    let k = |p: &Pubkey| LedgerKey::new_from_array(p.bytes);
    spl_token_2022::extension::confidential_transfer_fee::instruction::initialize_confidential_transfer_fee_config(
        &k(program_id),
        &k(mint),
        authority.map(|p| k(&p)),
        LedgerElGamalPubkey(withdraw_withheld_authority_elgamal_pubkey.0)
    )
    .map(|i| (i.program_id.to_bytes(), i.accounts.iter().map(|m| (m.pubkey.to_bytes(), m.is_signer, m.is_writable)).collect(), i.data))
    .map_err(u64::from)
}

/// The instruction that sets a mint up for fees on confidential transfers.
pub fn initialize_confidential_transfer_fee_config(
    program_id: &Pubkey,
    mint: &Pubkey,
    authority: Option<Pubkey>,
    withdraw_withheld_authority_elgamal_pubkey: &ElGamalPubkey,
) -> (r: Result<Instruction, ProgramError>)
    ensures
        encodes(
            r,
            initialize_confidential_transfer_fee_config_encoding(
                *program_id,
                *mint,
                authority,
                *withdraw_withheld_authority_elgamal_pubkey,
            ),
        ),
{
    Instruction::from_encoder(raw_initialize_confidential_transfer_fee_config(
        program_id,
        mint,
        authority,
        withdraw_withheld_authority_elgamal_pubkey,
    ))
}

/// What
/// `spl_token_2022::extension::confidential_transfer_fee::instruction::harvest_withheld_tokens_to_mint`
/// gives for these arguments: the error "incorrect program id" unless the
/// program is the token program with extensions, and else the instruction of
/// that program with these accounts and data.
pub open spec fn harvest_withheld_tokens_to_mint_encoding(
    program_id: Pubkey,
    mint: Pubkey,
    sources: Seq<Pubkey>,
) -> Result<InstructionView, ProgramError> {
    if !is_token_2022(program_id) {
        Err(ProgramError { code: INCORRECT_PROGRAM_ID })
    } else {
        Ok(
            InstructionView {
                program_id,
                accounts: seq![writable(mint)] + all_writable(sources),
                data: seq![37u8, 3u8],
            },
        )
    }
}

/// Calls
/// `spl_token_2022::extension::confidential_transfer_fee::instruction::harvest_withheld_tokens_to_mint`.
/// It refuses, with "incorrect program id", a program that is not the token
/// program with extensions. Else the instruction names the program that it was
/// given and the accounts that `harvest_withheld_tokens_to_mint_encoding`
/// lists, with the data that it states. Keys are handed over as their bytes, an
/// error as its code.
#[verifier::external_body]
fn raw_harvest_withheld_tokens_to_mint(
    program_id: &Pubkey,
    mint: &Pubkey,
    sources: &Vec<Pubkey>,
) -> (r: Result<RawInstruction, u64>)
    ensures
        raw_encodes(r, harvest_withheld_tokens_to_mint_encoding(*program_id, *mint, sources@)),
{
    let k = |p: &Pubkey| LedgerKey::new_from_array(p.bytes);
    spl_token_2022::extension::confidential_transfer_fee::instruction::harvest_withheld_tokens_to_mint(
        &k(program_id),
        &k(mint),
        &sources.iter().map(k).collect::<Vec<_>>().iter().collect::<Vec<_>>()
    )
    .map(|i| (i.program_id.to_bytes(), i.accounts.iter().map(|m| (m.pubkey.to_bytes(), m.is_signer, m.is_writable)).collect(), i.data))
    .map_err(u64::from)
}

/// The instruction that moves the confidential fees withheld in `sources` to
/// the mint.
pub fn harvest_withheld_tokens_to_mint(
    program_id: &Pubkey,
    mint: &Pubkey,
    sources: &Vec<Pubkey>,
) -> (r: Result<Instruction, ProgramError>)
    ensures
        encodes(r, harvest_withheld_tokens_to_mint_encoding(*program_id, *mint, sources@)),
{
    Instruction::from_encoder(raw_harvest_withheld_tokens_to_mint(program_id, mint, sources))
}

/// What
/// `spl_token_2022::extension::confidential_transfer_fee::instruction::enable_harvest_to_mint`
/// gives for these arguments: the error "incorrect program id" unless the
/// program is the token program with extensions, and else the instruction of
/// that program with these accounts and data.
pub open spec fn enable_harvest_to_mint_encoding(
    program_id: Pubkey,
    mint: Pubkey,
    authority: Pubkey,
    signers: Seq<Pubkey>,
) -> Result<InstructionView, ProgramError> {
    if !is_token_2022(program_id) {
        Err(ProgramError { code: INCORRECT_PROGRAM_ID })
    } else {
        Ok(
            InstructionView {
                program_id,
                accounts: seq![writable(mint)] + authority_accounts(authority, signers),
                data: seq![37u8, 4u8],
            },
        )
    }
}

/// Calls
/// `spl_token_2022::extension::confidential_transfer_fee::instruction::enable_harvest_to_mint`.
/// It refuses, with "incorrect program id", a program that is not the token
/// program with extensions. Else the instruction names the program that it was
/// given and the accounts that `enable_harvest_to_mint_encoding` lists, with
/// the data that it states. Keys are handed over as their bytes, an error as
/// its code.
#[verifier::external_body]
fn raw_enable_harvest_to_mint(
    program_id: &Pubkey,
    mint: &Pubkey,
    authority: &Pubkey,
    signers: &Vec<Pubkey>,
) -> (r: Result<RawInstruction, u64>)
    ensures
        raw_encodes(
            r,
            enable_harvest_to_mint_encoding(
                *program_id,
                *mint,
                *authority,
                signers@,
            ),
        ),
{
    let k = |p: &Pubkey| LedgerKey::new_from_array(p.bytes);
    spl_token_2022::extension::confidential_transfer_fee::instruction::enable_harvest_to_mint(
        &k(program_id),
        &k(mint),
        &k(authority),
        &signers.iter().map(k).collect::<Vec<_>>().iter().collect::<Vec<_>>()
    )
    .map(|i| (i.program_id.to_bytes(), i.accounts.iter().map(|m| (m.pubkey.to_bytes(), m.is_signer, m.is_writable)).collect(), i.data))
    .map_err(u64::from)
}

/// The instruction that lets confidential fees be harvested to the mint.
pub fn enable_harvest_to_mint(
    program_id: &Pubkey,
    mint: &Pubkey,
    authority: &Pubkey,
    signers: &Vec<Pubkey>,
) -> (r: Result<Instruction, ProgramError>)
    ensures
        encodes(
            r,
            enable_harvest_to_mint_encoding(
                *program_id,
                *mint,
                *authority,
                signers@,
            ),
        ),
{
    Instruction::from_encoder(raw_enable_harvest_to_mint(program_id, mint, authority, signers))
}

/// What
/// `spl_token_2022::extension::confidential_transfer_fee::instruction::disable_harvest_to_mint`
/// gives for these arguments: the error "incorrect program id" unless the
/// program is the token program with extensions, and else the instruction of
/// that program with these accounts and data.
pub open spec fn disable_harvest_to_mint_encoding(
    program_id: Pubkey,
    mint: Pubkey,
    authority: Pubkey,
    signers: Seq<Pubkey>,
) -> Result<InstructionView, ProgramError> {
    if !is_token_2022(program_id) {
        Err(ProgramError { code: INCORRECT_PROGRAM_ID })
    } else {
        Ok(
            InstructionView {
                program_id,
                accounts: seq![writable(mint)] + authority_accounts(authority, signers),
                data: seq![37u8, 5u8],
            },
        )
    }
}

/// Calls
/// `spl_token_2022::extension::confidential_transfer_fee::instruction::disable_harvest_to_mint`.
/// It refuses, with "incorrect program id", a program that is not the token
/// program with extensions. Else the instruction names the program that it was
/// given and the accounts that `disable_harvest_to_mint_encoding` lists, with
/// the data that it states. Keys are handed over as their bytes, an error as
/// its code.
#[verifier::external_body]
fn raw_disable_harvest_to_mint(
    program_id: &Pubkey,
    mint: &Pubkey,
    authority: &Pubkey,
    signers: &Vec<Pubkey>,
) -> (r: Result<RawInstruction, u64>)
    ensures
        raw_encodes(
            r,
            disable_harvest_to_mint_encoding(
                *program_id,
                *mint,
                *authority,
                signers@,
            ),
        ),
{
    let k = |p: &Pubkey| LedgerKey::new_from_array(p.bytes);
    spl_token_2022::extension::confidential_transfer_fee::instruction::disable_harvest_to_mint(
        &k(program_id),
        &k(mint),
        &k(authority),
        &signers.iter().map(k).collect::<Vec<_>>().iter().collect::<Vec<_>>()
    )
    .map(|i| (i.program_id.to_bytes(), i.accounts.iter().map(|m| (m.pubkey.to_bytes(), m.is_signer, m.is_writable)).collect(), i.data))
    .map_err(u64::from)
}

/// The instruction that stops confidential fees from being harvested to the
/// mint.
pub fn disable_harvest_to_mint(
    program_id: &Pubkey,
    mint: &Pubkey,
    authority: &Pubkey,
    signers: &Vec<Pubkey>,
) -> (r: Result<Instruction, ProgramError>)
    ensures
        encodes(
            r,
            disable_harvest_to_mint_encoding(
                *program_id,
                *mint,
                *authority,
                signers@,
            ),
        ),
{
    Instruction::from_encoder(raw_disable_harvest_to_mint(program_id, mint, authority, signers))
}

/// What
/// `spl_token_2022::extension::confidential_transfer_fee::instruction::inner_withdraw_withheld_tokens_from_mint`
/// gives for these arguments and a proof at `place`: the error "incorrect
/// program id" unless the program is the token program with extensions, and
/// else the instruction of that program with these accounts and data.
pub open spec fn withdraw_withheld_tokens_from_mint_encoding_at(
    program_id: Pubkey,
    mint: Pubkey,
    destination: Pubkey,
    new_decryptable_available_balance: AeCiphertext,
    authority: Pubkey,
    signers: Seq<Pubkey>,
    place: ProofPlace,
) -> Result<InstructionView, ProgramError> {
    if !is_token_2022(program_id) {
        Err(ProgramError { code: INCORRECT_PROGRAM_ID })
    } else {
        Ok(
            InstructionView {
                program_id,
                accounts: seq![writable(mint), writable(destination), proof_account(place)]
                    + authority_accounts(authority, signers),
                data: seq![37u8, 1u8, proof_offset(place)] + new_decryptable_available_balance@,
            },
        )
    }
}

/// What
/// `spl_token_2022::extension::confidential_transfer_fee::instruction::inner_withdraw_withheld_tokens_from_mint`
/// gives for these arguments, with the proof in the context account, or in the
/// next instruction where none is given.
pub open spec fn withdraw_withheld_tokens_from_mint_encoding(
    program_id: Pubkey,
    mint: Pubkey,
    destination: Pubkey,
    new_decryptable_available_balance: AeCiphertext,
    authority: Pubkey,
    signers: Seq<Pubkey>,
    context_state_account: Option<Pubkey>,
) -> Result<InstructionView, ProgramError> {
    withdraw_withheld_tokens_from_mint_encoding_at(
        program_id,
        mint,
        destination,
        new_decryptable_available_balance,
        authority,
        signers,
        proof_place(context_state_account),
    )
}

/// Calls
/// `spl_token_2022::extension::confidential_transfer_fee::instruction::inner_withdraw_withheld_tokens_from_mint`
/// with the proof in another instruction of the transaction, `offset`
/// instructions on. It refuses, with "incorrect program id", a program that is
/// not the token program with extensions. Else the instruction names the
/// program that it was given and the accounts that
/// `withdraw_withheld_tokens_from_mint_encoding_at` lists, with the data that
/// it states. Keys are handed over as their bytes, an error as its code. The
/// encoder does not read the proof itself, so it is handed an all-zero one.
#[verifier::external_body]
fn raw_withdraw_withheld_tokens_from_mint_at_offset(
    program_id: &Pubkey,
    mint: &Pubkey,
    destination: &Pubkey,
    new_decryptable_available_balance: &AeCiphertext,
    authority: &Pubkey,
    signers: &Vec<Pubkey>,
    offset: i8,
) -> (r: Result<RawInstruction, u64>)
    requires
        offset != 0,
    ensures
        raw_encodes(
            r,
            withdraw_withheld_tokens_from_mint_encoding_at(
                *program_id,
                *mint,
                *destination,
                *new_decryptable_available_balance,
                *authority,
                signers@,
                ProofPlace::InstructionOffset(offset),
            ),
        ),
{
    let k = |p: &Pubkey| LedgerKey::new_from_array(p.bytes);
    inner_withdraw_withheld_tokens_from_mint(
        &k(program_id),
        &k(mint),
        &k(destination),
        &PodAeCiphertext(new_decryptable_available_balance.0),
        &k(authority),
        &signers.iter().map(k).collect::<Vec<_>>().iter().collect::<Vec<_>>(),
        ProofLocation::InstructionOffset(offset.try_into().unwrap(), &Zeroable::zeroed())
    )
    .map(|i| (i.program_id.to_bytes(), i.accounts.iter().map(|m| (m.pubkey.to_bytes(), m.is_signer, m.is_writable)).collect(), i.data))
    .map_err(u64::from)
}

/// Calls
/// `spl_token_2022::extension::confidential_transfer_fee::instruction::inner_withdraw_withheld_tokens_from_mint`
/// with the proof in a context account. It refuses, with "incorrect program
/// id", a program that is not the token program with extensions. Else the
/// instruction names the program that it was given and the accounts that
/// `withdraw_withheld_tokens_from_mint_encoding_at` lists, with the data that
/// it states. Keys are handed over as their bytes, an error as its code.
#[verifier::external_body]
fn raw_withdraw_withheld_tokens_from_mint_in_account(
    program_id: &Pubkey,
    mint: &Pubkey,
    destination: &Pubkey,
    new_decryptable_available_balance: &AeCiphertext,
    authority: &Pubkey,
    signers: &Vec<Pubkey>,
    context_state_account: &Pubkey,
) -> (r: Result<RawInstruction, u64>)
    ensures
        raw_encodes(
            r,
            withdraw_withheld_tokens_from_mint_encoding_at(
                *program_id,
                *mint,
                *destination,
                *new_decryptable_available_balance,
                *authority,
                signers@,
                ProofPlace::ContextStateAccount(*context_state_account),
            ),
        ),
{
    let k = |p: &Pubkey| LedgerKey::new_from_array(p.bytes);
    inner_withdraw_withheld_tokens_from_mint(
        &k(program_id),
        &k(mint),
        &k(destination),
        &PodAeCiphertext(new_decryptable_available_balance.0),
        &k(authority),
        &signers.iter().map(k).collect::<Vec<_>>().iter().collect::<Vec<_>>(),
        ProofLocation::ContextStateAccount(&k(context_state_account))
    )
    .map(|i| (i.program_id.to_bytes(), i.accounts.iter().map(|m| (m.pubkey.to_bytes(), m.is_signer, m.is_writable)).collect(), i.data))
    .map_err(u64::from)
}

/// The instruction that moves the confidential fees withheld in the mint to
/// `destination`, with its proof in the next instruction or in a context
/// account.
pub fn withdraw_withheld_tokens_from_mint(
    program_id: &Pubkey,
    mint: &Pubkey,
    destination: &Pubkey,
    new_decryptable_available_balance: &AeCiphertext,
    authority: &Pubkey,
    signers: &Vec<Pubkey>,
    context_state_account: Option<&Pubkey>,
) -> (r: Result<Instruction, ProgramError>)
    ensures
        encodes(
            r,
            withdraw_withheld_tokens_from_mint_encoding(
                *program_id,
                *mint,
                *destination,
                *new_decryptable_available_balance,
                *authority,
                signers@,
                opt_key(context_state_account),
            ),
        ),
{
    let raw = match context_state_account {
        Some(context) => raw_withdraw_withheld_tokens_from_mint_in_account(
            program_id,
            mint,
            destination,
            new_decryptable_available_balance,
            authority,
            signers,
            context,
        ),
        None => raw_withdraw_withheld_tokens_from_mint_at_offset(
            program_id,
            mint,
            destination,
            new_decryptable_available_balance,
            authority,
            signers,
            NEXT_INSTRUCTION,
        ),
    };
    Instruction::from_encoder(raw)
}

} // verus!
