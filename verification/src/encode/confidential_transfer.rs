//! The instructions of the confidential-transfer extension. An instruction that
//! needs a proof says where the proof is: in the instruction that follows it,
//! or in a context account.
use bytemuck::Zeroable;
use crate::confidential::AeCiphertext;
use crate::encode::parts::{
    authority_accounts,
    elgamal_key_fits,
    flag,
    key_fits,
    proof_account,
    proof_offset,
    proof_place,
    ProofPlace,
    NEXT_INSTRUCTION,
    readonly,
    stored_elgamal_key,
    stored_key,
    writable,
};
use crate::error::{ProgramError, INCORRECT_PROGRAM_ID, INVALID_ARGUMENT};
use crate::instruction::{Instruction, InstructionView, RawInstruction, encodes, raw_encodes};
use crate::optional_keys::ElGamalPubkey;
use crate::programs::is_token_2022;
use crate::pubkey::Pubkey;
use crate::token::opt_key;
use solana_program::pubkey::Pubkey as LedgerKey;
use spl_token_2022::extension::confidential_transfer::instruction::{inner_configure_account, inner_empty_account, inner_transfer, inner_transfer_with_fee, inner_withdraw};
use spl_token_2022::proof::ProofLocation;
use spl_token_2022::solana_zk_token_sdk::zk_token_elgamal::pod::AeCiphertext as PodAeCiphertext;
use spl_token_2022::solana_zk_token_sdk::zk_token_elgamal::pod::ElGamalPubkey as LedgerElGamalPubkey;
use vstd::bytes::spec_u64_to_le_bytes;
use vstd::prelude::*;

verus! {

/// What
/// `spl_token_2022::extension::confidential_transfer::instruction::initialize_mint`
/// gives for these arguments: the error "incorrect program id" unless the
/// program is the token program with extensions, then the error "invalid
/// argument" for an optional key that is all zero, and else the instruction of
/// that program with these accounts and data.
pub open spec fn initialize_mint_encoding(
    program_id: Pubkey,
    mint: Pubkey,
    authority: Option<Pubkey>,
    auto_approve_new_accounts: bool,
    auditor_elgamal_pubkey: Option<ElGamalPubkey>,
) -> Result<InstructionView, ProgramError> {
    if !is_token_2022(program_id) {
        Err(ProgramError { code: INCORRECT_PROGRAM_ID })
    } else if !key_fits(authority) || !elgamal_key_fits(auditor_elgamal_pubkey) {
        Err(ProgramError { code: INVALID_ARGUMENT })
    } else {
        Ok(
            InstructionView {
                program_id,
                accounts: seq![writable(mint)],
                data: seq![27u8, 0u8]
                    + stored_key(authority)
                    + seq![flag(auto_approve_new_accounts)]
                    + stored_elgamal_key(auditor_elgamal_pubkey),
            },
        )
    }
}

/// Calls
/// `spl_token_2022::extension::confidential_transfer::instruction::initialize_mint`.
/// It refuses, with "incorrect program id", a program that is not the token
/// program with extensions, then gives the error "invalid argument" for an
/// optional key that is all zero. Else the instruction names the program that
/// it was given and the accounts that `initialize_mint_encoding` lists, with
/// the data that it states. Keys are handed over as their bytes, an error as
/// its code.
#[verifier::external_body]
fn raw_initialize_mint(
    program_id: &Pubkey,
    mint: &Pubkey,
    authority: Option<Pubkey>,
    auto_approve_new_accounts: bool,
    auditor_elgamal_pubkey: Option<ElGamalPubkey>,
) -> (r: Result<RawInstruction, u64>)
    ensures
        raw_encodes(
            r,
            initialize_mint_encoding(
                *program_id,
                *mint,
                authority,
                auto_approve_new_accounts,
                auditor_elgamal_pubkey,
            ),
        ),
{
    let k = |p: &Pubkey| LedgerKey::new_from_array(p.bytes);
    spl_token_2022::extension::confidential_transfer::instruction::initialize_mint(
        &k(program_id),
        &k(mint),
        authority.map(|p| k(&p)),
        auto_approve_new_accounts,
        auditor_elgamal_pubkey.map(|e| LedgerElGamalPubkey(e.0))
    )
    .map(|i| (i.program_id.to_bytes(), i.accounts.iter().map(|m| (m.pubkey.to_bytes(), m.is_signer, m.is_writable)).collect(), i.data))
    .map_err(u64::from)
}

/// The instruction that sets a mint up for confidential transfers.
pub fn initialize_mint(
    program_id: &Pubkey,
    mint: &Pubkey,
    authority: Option<Pubkey>,
    auto_approve_new_accounts: bool,
    auditor_elgamal_pubkey: Option<ElGamalPubkey>,
) -> (r: Result<Instruction, ProgramError>)
    ensures
        encodes(
            r,
            initialize_mint_encoding(
                *program_id,
                *mint,
                authority,
                auto_approve_new_accounts,
                auditor_elgamal_pubkey,
            ),
        ),
{
    Instruction::from_encoder(raw_initialize_mint(
        program_id,
        mint,
        authority,
        auto_approve_new_accounts,
        auditor_elgamal_pubkey,
    ))
}

/// What
/// `spl_token_2022::extension::confidential_transfer::instruction::update_mint`
/// gives for these arguments: the error "incorrect program id" unless the
/// program is the token program with extensions, then the error "invalid
/// argument" for an optional key that is all zero, and else the instruction of
/// that program with these accounts and data.
pub open spec fn update_mint_encoding(
    program_id: Pubkey,
    mint: Pubkey,
    authority: Pubkey,
    signers: Seq<Pubkey>,
    auto_approve_new_accounts: bool,
    auditor_elgamal_pubkey: Option<ElGamalPubkey>,
) -> Result<InstructionView, ProgramError> {
    if !is_token_2022(program_id) {
        Err(ProgramError { code: INCORRECT_PROGRAM_ID })
    } else if !elgamal_key_fits(auditor_elgamal_pubkey) {
        Err(ProgramError { code: INVALID_ARGUMENT })
    } else {
        Ok(
            InstructionView {
                program_id,
                accounts: seq![writable(mint)] + authority_accounts(authority, signers),
                data: seq![27u8, 1u8, flag(auto_approve_new_accounts)]
                    + stored_elgamal_key(auditor_elgamal_pubkey),
            },
        )
    }
}

/// Calls
/// `spl_token_2022::extension::confidential_transfer::instruction::update_mint`.
/// It refuses, with "incorrect program id", a program that is not the token
/// program with extensions, then gives the error "invalid argument" for an
/// optional key that is all zero. Else the instruction names the program that
/// it was given and the accounts that `update_mint_encoding` lists, with the
/// data that it states. Keys are handed over as their bytes, an error as its
/// code.
#[verifier::external_body]
fn raw_update_mint(
    program_id: &Pubkey,
    mint: &Pubkey,
    authority: &Pubkey,
    signers: &Vec<Pubkey>,
    auto_approve_new_accounts: bool,
    auditor_elgamal_pubkey: Option<ElGamalPubkey>,
) -> (r: Result<RawInstruction, u64>)
    ensures
        raw_encodes(
            r,
            update_mint_encoding(
                *program_id,
                *mint,
                *authority,
                signers@,
                auto_approve_new_accounts,
                auditor_elgamal_pubkey,
            ),
        ),
{
    let k = |p: &Pubkey| LedgerKey::new_from_array(p.bytes);
    spl_token_2022::extension::confidential_transfer::instruction::update_mint(
        &k(program_id),
        &k(mint),
        &k(authority),
        &signers.iter().map(k).collect::<Vec<_>>().iter().collect::<Vec<_>>(),
        auto_approve_new_accounts,
        auditor_elgamal_pubkey.map(|e| LedgerElGamalPubkey(e.0))
    )
    .map(|i| (i.program_id.to_bytes(), i.accounts.iter().map(|m| (m.pubkey.to_bytes(), m.is_signer, m.is_writable)).collect(), i.data))
    .map_err(u64::from)
}

/// The instruction that changes how a mint treats confidential transfers.
pub fn update_mint(
    program_id: &Pubkey,
    mint: &Pubkey,
    authority: &Pubkey,
    signers: &Vec<Pubkey>,
    auto_approve_new_accounts: bool,
    auditor_elgamal_pubkey: Option<ElGamalPubkey>,
) -> (r: Result<Instruction, ProgramError>)
    ensures
        encodes(
            r,
            update_mint_encoding(
                *program_id,
                *mint,
                *authority,
                signers@,
                auto_approve_new_accounts,
                auditor_elgamal_pubkey,
            ),
        ),
{
    Instruction::from_encoder(raw_update_mint(
        program_id,
        mint,
        authority,
        signers,
        auto_approve_new_accounts,
        auditor_elgamal_pubkey,
    ))
}

/// What
/// `spl_token_2022::extension::confidential_transfer::instruction::approve_account`
/// gives for these arguments: the error "incorrect program id" unless the
/// program is the token program with extensions, and else the instruction of
/// that program with these accounts and data.
pub open spec fn approve_account_encoding(
    program_id: Pubkey,
    account: Pubkey,
    mint: Pubkey,
    authority: Pubkey,
    signers: Seq<Pubkey>,
) -> Result<InstructionView, ProgramError> {
    if !is_token_2022(program_id) {
        Err(ProgramError { code: INCORRECT_PROGRAM_ID })
    } else {
        Ok(
            InstructionView {
                program_id,
                accounts: seq![writable(account), readonly(mint)]
                    + authority_accounts(authority, signers),
                data: seq![27u8, 3u8],
            },
        )
    }
}

/// Calls
/// `spl_token_2022::extension::confidential_transfer::instruction::approve_account`.
/// It refuses, with "incorrect program id", a program that is not the token
/// program with extensions. Else the instruction names the program that it was
/// given and the accounts that `approve_account_encoding` lists, with the data
/// that it states. Keys are handed over as their bytes, an error as its code.
#[verifier::external_body]
fn raw_approve_account(
    program_id: &Pubkey,
    account: &Pubkey,
    mint: &Pubkey,
    authority: &Pubkey,
    signers: &Vec<Pubkey>,
) -> (r: Result<RawInstruction, u64>)
    ensures
        raw_encodes(
            r,
            approve_account_encoding(
                *program_id,
                *account,
                *mint,
                *authority,
                signers@,
            ),
        ),
{
    let k = |p: &Pubkey| LedgerKey::new_from_array(p.bytes);
    spl_token_2022::extension::confidential_transfer::instruction::approve_account(
        &k(program_id),
        &k(account),
        &k(mint),
        &k(authority),
        &signers.iter().map(k).collect::<Vec<_>>().iter().collect::<Vec<_>>()
    )
    .map(|i| (i.program_id.to_bytes(), i.accounts.iter().map(|m| (m.pubkey.to_bytes(), m.is_signer, m.is_writable)).collect(), i.data))
    .map_err(u64::from)
}

/// The instruction that approves an account for confidential transfers.
pub fn approve_account(
    program_id: &Pubkey,
    account: &Pubkey,
    mint: &Pubkey,
    authority: &Pubkey,
    signers: &Vec<Pubkey>,
) -> (r: Result<Instruction, ProgramError>)
    ensures
        encodes(
            r,
            approve_account_encoding(
                *program_id,
                *account,
                *mint,
                *authority,
                signers@,
            ),
        ),
{
    Instruction::from_encoder(raw_approve_account(program_id, account, mint, authority, signers))
}

/// What
/// `spl_token_2022::extension::confidential_transfer::instruction::deposit`
/// gives for these arguments: the error "incorrect program id" unless the
/// program is the token program with extensions, and else the instruction of
/// that program with these accounts and data.
pub open spec fn deposit_encoding(
    program_id: Pubkey,
    account: Pubkey,
    mint: Pubkey,
    amount: u64,
    decimals: u8,
    authority: Pubkey,
    signers: Seq<Pubkey>,
) -> Result<InstructionView, ProgramError> {
    if !is_token_2022(program_id) {
        Err(ProgramError { code: INCORRECT_PROGRAM_ID })
    } else {
        Ok(
            InstructionView {
                program_id,
                accounts: seq![writable(account), readonly(mint)]
                    + authority_accounts(authority, signers),
                data: seq![27u8, 5u8] + spec_u64_to_le_bytes(amount) + seq![decimals],
            },
        )
    }
}

/// Calls
/// `spl_token_2022::extension::confidential_transfer::instruction::deposit`. It
/// refuses, with "incorrect program id", a program that is not the token
/// program with extensions. Else the instruction names the program that it was
/// given and the accounts that `deposit_encoding` lists, with the data that it
/// states. Keys are handed over as their bytes, an error as its code.
#[verifier::external_body]
fn raw_deposit(
    program_id: &Pubkey,
    account: &Pubkey,
    mint: &Pubkey,
    amount: u64,
    decimals: u8,
    authority: &Pubkey,
    signers: &Vec<Pubkey>,
) -> (r: Result<RawInstruction, u64>)
    ensures
        raw_encodes(
            r,
            deposit_encoding(
                *program_id,
                *account,
                *mint,
                amount,
                decimals,
                *authority,
                signers@,
            ),
        ),
{
    let k = |p: &Pubkey| LedgerKey::new_from_array(p.bytes);
    spl_token_2022::extension::confidential_transfer::instruction::deposit(
        &k(program_id),
        &k(account),
        &k(mint),
        amount,
        decimals,
        &k(authority),
        &signers.iter().map(k).collect::<Vec<_>>().iter().collect::<Vec<_>>()
    )
    .map(|i| (i.program_id.to_bytes(), i.accounts.iter().map(|m| (m.pubkey.to_bytes(), m.is_signer, m.is_writable)).collect(), i.data))
    .map_err(u64::from)
}

/// The instruction that moves `amount` tokens of an account into its pending
/// confidential balance.
pub fn deposit(
    program_id: &Pubkey,
    account: &Pubkey,
    mint: &Pubkey,
    amount: u64,
    decimals: u8,
    authority: &Pubkey,
    signers: &Vec<Pubkey>,
) -> (r: Result<Instruction, ProgramError>)
    ensures
        encodes(
            r,
            deposit_encoding(
                *program_id,
                *account,
                *mint,
                amount,
                decimals,
                *authority,
                signers@,
            ),
        ),
{
    Instruction::from_encoder(raw_deposit(
        program_id,
        account,
        mint,
        amount,
        decimals,
        authority,
        signers,
    ))
}

/// What
/// `spl_token_2022::extension::confidential_transfer::instruction::apply_pending_balance`
/// gives for these arguments: the error "incorrect program id" unless the
/// program is the token program with extensions, and else the instruction of
/// that program with these accounts and data.
pub open spec fn apply_pending_balance_encoding(
    program_id: Pubkey,
    account: Pubkey,
    expected_pending_balance_credit_counter: u64,
    new_decryptable_available_balance: AeCiphertext,
    authority: Pubkey,
    signers: Seq<Pubkey>,
) -> Result<InstructionView, ProgramError> {
    if !is_token_2022(program_id) {
        Err(ProgramError { code: INCORRECT_PROGRAM_ID })
    } else {
        Ok(
            InstructionView {
                program_id,
                accounts: seq![writable(account)] + authority_accounts(authority, signers),
                data: seq![27u8, 8u8]
                    + spec_u64_to_le_bytes(expected_pending_balance_credit_counter)
                    + new_decryptable_available_balance@,
            },
        )
    }
}

/// Calls
/// `spl_token_2022::extension::confidential_transfer::instruction::apply_pending_balance`.
/// It refuses, with "incorrect program id", a program that is not the token
/// program with extensions. Else the instruction names the program that it was
/// given and the accounts that `apply_pending_balance_encoding` lists, with the
/// data that it states. Keys are handed over as their bytes, an error as its
/// code.
#[verifier::external_body]
fn raw_apply_pending_balance(
    program_id: &Pubkey,
    account: &Pubkey,
    expected_pending_balance_credit_counter: u64,
    new_decryptable_available_balance: &AeCiphertext,
    authority: &Pubkey,
    signers: &Vec<Pubkey>,
) -> (r: Result<RawInstruction, u64>)
    ensures
        raw_encodes(
            r,
            apply_pending_balance_encoding(
                *program_id,
                *account,
                expected_pending_balance_credit_counter,
                *new_decryptable_available_balance,
                *authority,
                signers@,
            ),
        ),
{
    let k = |p: &Pubkey| LedgerKey::new_from_array(p.bytes);
    spl_token_2022::extension::confidential_transfer::instruction::apply_pending_balance(
        &k(program_id),
        &k(account),
        expected_pending_balance_credit_counter,
        PodAeCiphertext(new_decryptable_available_balance.0).try_into().unwrap(),
        &k(authority),
        &signers.iter().map(k).collect::<Vec<_>>().iter().collect::<Vec<_>>()
    )
    .map(|i| (i.program_id.to_bytes(), i.accounts.iter().map(|m| (m.pubkey.to_bytes(), m.is_signer, m.is_writable)).collect(), i.data))
    .map_err(u64::from)
}

/// The instruction that adds the pending confidential balance of an account to
/// its available balance.
pub fn apply_pending_balance(
    program_id: &Pubkey,
    account: &Pubkey,
    expected_pending_balance_credit_counter: u64,
    new_decryptable_available_balance: &AeCiphertext,
    authority: &Pubkey,
    signers: &Vec<Pubkey>,
) -> (r: Result<Instruction, ProgramError>)
    ensures
        encodes(
            r,
            apply_pending_balance_encoding(
                *program_id,
                *account,
                expected_pending_balance_credit_counter,
                *new_decryptable_available_balance,
                *authority,
                signers@,
            ),
        ),
{
    Instruction::from_encoder(raw_apply_pending_balance(
        program_id,
        account,
        expected_pending_balance_credit_counter,
        new_decryptable_available_balance,
        authority,
        signers,
    ))
}

/// What
/// `spl_token_2022::extension::confidential_transfer::instruction::enable_confidential_credits`
/// gives for these arguments: the error "incorrect program id" unless the
/// program is the token program with extensions, and else the instruction of
/// that program with these accounts and data.
pub open spec fn enable_confidential_credits_encoding(
    program_id: Pubkey,
    account: Pubkey,
    authority: Pubkey,
    signers: Seq<Pubkey>,
) -> Result<InstructionView, ProgramError> {
    if !is_token_2022(program_id) {
        Err(ProgramError { code: INCORRECT_PROGRAM_ID })
    } else {
        Ok(
            InstructionView {
                program_id,
                accounts: seq![writable(account)] + authority_accounts(authority, signers),
                data: seq![27u8, 9u8],
            },
        )
    }
}

/// Calls
/// `spl_token_2022::extension::confidential_transfer::instruction::enable_confidential_credits`.
/// It refuses, with "incorrect program id", a program that is not the token
/// program with extensions. Else the instruction names the program that it was
/// given and the accounts that `enable_confidential_credits_encoding` lists,
/// with the data that it states. Keys are handed over as their bytes, an error
/// as its code.
#[verifier::external_body]
fn raw_enable_confidential_credits(
    program_id: &Pubkey,
    account: &Pubkey,
    authority: &Pubkey,
    signers: &Vec<Pubkey>,
) -> (r: Result<RawInstruction, u64>)
    ensures
        raw_encodes(
            r,
            enable_confidential_credits_encoding(
                *program_id,
                *account,
                *authority,
                signers@,
            ),
        ),
{
    let k = |p: &Pubkey| LedgerKey::new_from_array(p.bytes);
    spl_token_2022::extension::confidential_transfer::instruction::enable_confidential_credits(
        &k(program_id),
        &k(account),
        &k(authority),
        &signers.iter().map(k).collect::<Vec<_>>().iter().collect::<Vec<_>>()
    )
    .map(|i| (i.program_id.to_bytes(), i.accounts.iter().map(|m| (m.pubkey.to_bytes(), m.is_signer, m.is_writable)).collect(), i.data))
    .map_err(u64::from)
}

/// The instruction that lets an account receive confidential transfers.
pub fn enable_confidential_credits(
    program_id: &Pubkey,
    account: &Pubkey,
    authority: &Pubkey,
    signers: &Vec<Pubkey>,
) -> (r: Result<Instruction, ProgramError>)
    ensures
        encodes(
            r,
            enable_confidential_credits_encoding(
                *program_id,
                *account,
                *authority,
                signers@,
            ),
        ),
{
    Instruction::from_encoder(raw_enable_confidential_credits(
        program_id,
        account,
        authority,
        signers,
    ))
}

/// What
/// `spl_token_2022::extension::confidential_transfer::instruction::disable_confidential_credits`
/// gives for these arguments: the error "incorrect program id" unless the
/// program is the token program with extensions, and else the instruction of
/// that program with these accounts and data.
pub open spec fn disable_confidential_credits_encoding(
    program_id: Pubkey,
    account: Pubkey,
    authority: Pubkey,
    signers: Seq<Pubkey>,
) -> Result<InstructionView, ProgramError> {
    if !is_token_2022(program_id) {
        Err(ProgramError { code: INCORRECT_PROGRAM_ID })
    } else {
        Ok(
            InstructionView {
                program_id,
                accounts: seq![writable(account)] + authority_accounts(authority, signers),
                data: seq![27u8, 10u8],
            },
        )
    }
}

/// Calls
/// `spl_token_2022::extension::confidential_transfer::instruction::disable_confidential_credits`.
/// It refuses, with "incorrect program id", a program that is not the token
/// program with extensions. Else the instruction names the program that it was
/// given and the accounts that `disable_confidential_credits_encoding` lists,
/// with the data that it states. Keys are handed over as their bytes, an error
/// as its code.
#[verifier::external_body]
fn raw_disable_confidential_credits(
    program_id: &Pubkey,
    account: &Pubkey,
    authority: &Pubkey,
    signers: &Vec<Pubkey>,
) -> (r: Result<RawInstruction, u64>)
    ensures
        raw_encodes(
            r,
            disable_confidential_credits_encoding(
                *program_id,
                *account,
                *authority,
                signers@,
            ),
        ),
{
    let k = |p: &Pubkey| LedgerKey::new_from_array(p.bytes);
    spl_token_2022::extension::confidential_transfer::instruction::disable_confidential_credits(
        &k(program_id),
        &k(account),
        &k(authority),
        &signers.iter().map(k).collect::<Vec<_>>().iter().collect::<Vec<_>>()
    )
    .map(|i| (i.program_id.to_bytes(), i.accounts.iter().map(|m| (m.pubkey.to_bytes(), m.is_signer, m.is_writable)).collect(), i.data))
    .map_err(u64::from)
}

/// The instruction that stops an account from receiving confidential transfers.
pub fn disable_confidential_credits(
    program_id: &Pubkey,
    account: &Pubkey,
    authority: &Pubkey,
    signers: &Vec<Pubkey>,
) -> (r: Result<Instruction, ProgramError>)
    ensures
        encodes(
            r,
            disable_confidential_credits_encoding(
                *program_id,
                *account,
                *authority,
                signers@,
            ),
        ),
{
    Instruction::from_encoder(raw_disable_confidential_credits(
        program_id,
        account,
        authority,
        signers,
    ))
}

/// What
/// `spl_token_2022::extension::confidential_transfer::instruction::enable_non_confidential_credits`
/// gives for these arguments: the error "incorrect program id" unless the
/// program is the token program with extensions, and else the instruction of
/// that program with these accounts and data.
pub open spec fn enable_non_confidential_credits_encoding(
    program_id: Pubkey,
    account: Pubkey,
    authority: Pubkey,
    signers: Seq<Pubkey>,
) -> Result<InstructionView, ProgramError> {
    if !is_token_2022(program_id) {
        Err(ProgramError { code: INCORRECT_PROGRAM_ID })
    } else {
        Ok(
            InstructionView {
                program_id,
                accounts: seq![writable(account)] + authority_accounts(authority, signers),
                data: seq![27u8, 11u8],
            },
        )
    }
}

/// Calls
/// `spl_token_2022::extension::confidential_transfer::instruction::enable_non_confidential_credits`.
/// It refuses, with "incorrect program id", a program that is not the token
/// program with extensions. Else the instruction names the program that it was
/// given and the accounts that `enable_non_confidential_credits_encoding`
/// lists, with the data that it states. Keys are handed over as their bytes, an
/// error as its code.
#[verifier::external_body]
fn raw_enable_non_confidential_credits(
    program_id: &Pubkey,
    account: &Pubkey,
    authority: &Pubkey,
    signers: &Vec<Pubkey>,
) -> (r: Result<RawInstruction, u64>)
    ensures
        raw_encodes(
            r,
            enable_non_confidential_credits_encoding(
                *program_id,
                *account,
                *authority,
                signers@,
            ),
        ),
{
    let k = |p: &Pubkey| LedgerKey::new_from_array(p.bytes);
    spl_token_2022::extension::confidential_transfer::instruction::enable_non_confidential_credits(
        &k(program_id),
        &k(account),
        &k(authority),
        &signers.iter().map(k).collect::<Vec<_>>().iter().collect::<Vec<_>>()
    )
    .map(|i| (i.program_id.to_bytes(), i.accounts.iter().map(|m| (m.pubkey.to_bytes(), m.is_signer, m.is_writable)).collect(), i.data))
    .map_err(u64::from)
}

/// The instruction that lets a confidential account receive plain transfers.
pub fn enable_non_confidential_credits(
    program_id: &Pubkey,
    account: &Pubkey,
    authority: &Pubkey,
    signers: &Vec<Pubkey>,
) -> (r: Result<Instruction, ProgramError>)
    ensures
        encodes(
            r,
            enable_non_confidential_credits_encoding(
                *program_id,
                *account,
                *authority,
                signers@,
            ),
        ),
{
    Instruction::from_encoder(raw_enable_non_confidential_credits(
        program_id,
        account,
        authority,
        signers,
    ))
}

/// What
/// `spl_token_2022::extension::confidential_transfer::instruction::disable_non_confidential_credits`
/// gives for these arguments: the error "incorrect program id" unless the
/// program is the token program with extensions, and else the instruction of
/// that program with these accounts and data.
pub open spec fn disable_non_confidential_credits_encoding(
    program_id: Pubkey,
    account: Pubkey,
    authority: Pubkey,
    signers: Seq<Pubkey>,
) -> Result<InstructionView, ProgramError> {
    if !is_token_2022(program_id) {
        Err(ProgramError { code: INCORRECT_PROGRAM_ID })
    } else {
        Ok(
            InstructionView {
                program_id,
                accounts: seq![writable(account)] + authority_accounts(authority, signers),
                data: seq![27u8, 12u8],
            },
        )
    }
}

/// Calls
/// `spl_token_2022::extension::confidential_transfer::instruction::disable_non_confidential_credits`.
/// It refuses, with "incorrect program id", a program that is not the token
/// program with extensions. Else the instruction names the program that it was
/// given and the accounts that `disable_non_confidential_credits_encoding`
/// lists, with the data that it states. Keys are handed over as their bytes, an
/// error as its code.
#[verifier::external_body]
fn raw_disable_non_confidential_credits(
    program_id: &Pubkey,
    account: &Pubkey,
    authority: &Pubkey,
    signers: &Vec<Pubkey>,
) -> (r: Result<RawInstruction, u64>)
    ensures
        raw_encodes(
            r,
            disable_non_confidential_credits_encoding(
                *program_id,
                *account,
                *authority,
                signers@,
            ),
        ),
{
    let k = |p: &Pubkey| LedgerKey::new_from_array(p.bytes);
    spl_token_2022::extension::confidential_transfer::instruction::disable_non_confidential_credits(
        &k(program_id),
        &k(account),
        &k(authority),
        &signers.iter().map(k).collect::<Vec<_>>().iter().collect::<Vec<_>>()
    )
    .map(|i| (i.program_id.to_bytes(), i.accounts.iter().map(|m| (m.pubkey.to_bytes(), m.is_signer, m.is_writable)).collect(), i.data))
    .map_err(u64::from)
}

/// The instruction that stops a confidential account from receiving plain
/// transfers.
pub fn disable_non_confidential_credits(
    program_id: &Pubkey,
    account: &Pubkey,
    authority: &Pubkey,
    signers: &Vec<Pubkey>,
) -> (r: Result<Instruction, ProgramError>)
    ensures
        encodes(
            r,
            disable_non_confidential_credits_encoding(
                *program_id,
                *account,
                *authority,
                signers@,
            ),
        ),
{
    Instruction::from_encoder(raw_disable_non_confidential_credits(
        program_id,
        account,
        authority,
        signers,
    ))
}

/// What
/// `spl_token_2022::extension::confidential_transfer::instruction::inner_configure_account`
/// gives for these arguments and a proof at `place`: the error "incorrect
/// program id" unless the program is the token program with extensions, and
/// else the instruction of that program with these accounts and data.
pub open spec fn configure_account_encoding_at(
    program_id: Pubkey,
    account: Pubkey,
    mint: Pubkey,
    decryptable_zero_balance: AeCiphertext,
    maximum_pending_balance_credit_counter: u64,
    authority: Pubkey,
    signers: Seq<Pubkey>,
    place: ProofPlace,
) -> Result<InstructionView, ProgramError> {
    if !is_token_2022(program_id) {
        Err(ProgramError { code: INCORRECT_PROGRAM_ID })
    } else {
        Ok(
            InstructionView {
                program_id,
                accounts: seq![writable(account), readonly(mint), proof_account(place)]
                    + authority_accounts(authority, signers),
                data: seq![27u8, 2u8]
                    + decryptable_zero_balance@
                    + spec_u64_to_le_bytes(maximum_pending_balance_credit_counter)
                    + seq![proof_offset(place)],
            },
        )
    }
}

/// What
/// `spl_token_2022::extension::confidential_transfer::instruction::inner_configure_account`
/// gives for these arguments, with the proof in the context account, or in the
/// next instruction where none is given.
pub open spec fn configure_account_encoding(
    program_id: Pubkey,
    account: Pubkey,
    mint: Pubkey,
    decryptable_zero_balance: AeCiphertext,
    maximum_pending_balance_credit_counter: u64,
    authority: Pubkey,
    signers: Seq<Pubkey>,
    context_state_account: Option<Pubkey>,
) -> Result<InstructionView, ProgramError> {
    configure_account_encoding_at(
        program_id,
        account,
        mint,
        decryptable_zero_balance,
        maximum_pending_balance_credit_counter,
        authority,
        signers,
        proof_place(context_state_account),
    )
}

/// Calls
/// `spl_token_2022::extension::confidential_transfer::instruction::inner_configure_account`
/// with the proof in another instruction of the transaction, `offset`
/// instructions on. It refuses, with "incorrect program id", a program that is
/// not the token program with extensions. Else the instruction names the
/// program that it was given and the accounts that
/// `configure_account_encoding_at` lists, with the data that it states. Keys
/// are handed over as their bytes, an error as its code. The encoder does not
/// read the proof itself, so it is handed an all-zero one.
#[verifier::external_body]
fn raw_configure_account_at_offset(
    program_id: &Pubkey,
    account: &Pubkey,
    mint: &Pubkey,
    decryptable_zero_balance: &AeCiphertext,
    maximum_pending_balance_credit_counter: u64,
    authority: &Pubkey,
    signers: &Vec<Pubkey>,
    offset: i8,
) -> (r: Result<RawInstruction, u64>)
    requires
        offset != 0,
    ensures
        raw_encodes(
            r,
            configure_account_encoding_at(
                *program_id,
                *account,
                *mint,
                *decryptable_zero_balance,
                maximum_pending_balance_credit_counter,
                *authority,
                signers@,
                ProofPlace::InstructionOffset(offset),
            ),
        ),
{
    let k = |p: &Pubkey| LedgerKey::new_from_array(p.bytes);
    inner_configure_account(
        &k(program_id),
        &k(account),
        &k(mint),
        PodAeCiphertext(decryptable_zero_balance.0).try_into().unwrap(),
        maximum_pending_balance_credit_counter,
        &k(authority),
        &signers.iter().map(k).collect::<Vec<_>>().iter().collect::<Vec<_>>(),
        ProofLocation::InstructionOffset(offset.try_into().unwrap(), &Zeroable::zeroed())
    )
    .map(|i| (i.program_id.to_bytes(), i.accounts.iter().map(|m| (m.pubkey.to_bytes(), m.is_signer, m.is_writable)).collect(), i.data))
    .map_err(u64::from)
}

/// Calls
/// `spl_token_2022::extension::confidential_transfer::instruction::inner_configure_account`
/// with the proof in a context account. It refuses, with "incorrect program
/// id", a program that is not the token program with extensions. Else the
/// instruction names the program that it was given and the accounts that
/// `configure_account_encoding_at` lists, with the data that it states. Keys
/// are handed over as their bytes, an error as its code.
#[verifier::external_body]
fn raw_configure_account_in_account(
    program_id: &Pubkey,
    account: &Pubkey,
    mint: &Pubkey,
    decryptable_zero_balance: &AeCiphertext,
    maximum_pending_balance_credit_counter: u64,
    authority: &Pubkey,
    signers: &Vec<Pubkey>,
    context_state_account: &Pubkey,
) -> (r: Result<RawInstruction, u64>)
    ensures
        raw_encodes(
            r,
            configure_account_encoding_at(
                *program_id,
                *account,
                *mint,
                *decryptable_zero_balance,
                maximum_pending_balance_credit_counter,
                *authority,
                signers@,
                ProofPlace::ContextStateAccount(*context_state_account),
            ),
        ),
{
    let k = |p: &Pubkey| LedgerKey::new_from_array(p.bytes);
    inner_configure_account(
        &k(program_id),
        &k(account),
        &k(mint),
        PodAeCiphertext(decryptable_zero_balance.0).try_into().unwrap(),
        maximum_pending_balance_credit_counter,
        &k(authority),
        &signers.iter().map(k).collect::<Vec<_>>().iter().collect::<Vec<_>>(),
        ProofLocation::ContextStateAccount(&k(context_state_account))
    )
    .map(|i| (i.program_id.to_bytes(), i.accounts.iter().map(|m| (m.pubkey.to_bytes(), m.is_signer, m.is_writable)).collect(), i.data))
    .map_err(u64::from)
}

/// The instruction that sets an account up for confidential transfers, with the
/// proof of its key in the next instruction or in a context account.
pub fn configure_account(
    program_id: &Pubkey,
    account: &Pubkey,
    mint: &Pubkey,
    decryptable_zero_balance: &AeCiphertext,
    maximum_pending_balance_credit_counter: u64,
    authority: &Pubkey,
    signers: &Vec<Pubkey>,
    context_state_account: Option<&Pubkey>,
) -> (r: Result<Instruction, ProgramError>)
    ensures
        encodes(
            r,
            configure_account_encoding(
                *program_id,
                *account,
                *mint,
                *decryptable_zero_balance,
                maximum_pending_balance_credit_counter,
                *authority,
                signers@,
                opt_key(context_state_account),
            ),
        ),
{
    let raw = match context_state_account {
        Some(context) => raw_configure_account_in_account(
            program_id,
            account,
            mint,
            decryptable_zero_balance,
            maximum_pending_balance_credit_counter,
            authority,
            signers,
            context,
        ),
        None => raw_configure_account_at_offset(
            program_id,
            account,
            mint,
            decryptable_zero_balance,
            maximum_pending_balance_credit_counter,
            authority,
            signers,
            NEXT_INSTRUCTION,
        ),
    };
    Instruction::from_encoder(raw)
}

/// What
/// `spl_token_2022::extension::confidential_transfer::instruction::inner_empty_account`
/// gives for these arguments and a proof at `place`: the error "incorrect
/// program id" unless the program is the token program with extensions, and
/// else the instruction of that program with these accounts and data.
pub open spec fn empty_account_encoding_at(
    program_id: Pubkey,
    account: Pubkey,
    authority: Pubkey,
    signers: Seq<Pubkey>,
    place: ProofPlace,
) -> Result<InstructionView, ProgramError> {
    if !is_token_2022(program_id) {
        Err(ProgramError { code: INCORRECT_PROGRAM_ID })
    } else {
        Ok(
            InstructionView {
                program_id,
                accounts: seq![writable(account), proof_account(place)]
                    + authority_accounts(authority, signers),
                data: seq![27u8, 4u8, proof_offset(place)],
            },
        )
    }
}

/// What
/// `spl_token_2022::extension::confidential_transfer::instruction::inner_empty_account`
/// gives for these arguments, with the proof in the context account, or in the
/// next instruction where none is given.
pub open spec fn empty_account_encoding(
    program_id: Pubkey,
    account: Pubkey,
    authority: Pubkey,
    signers: Seq<Pubkey>,
    context_state_account: Option<Pubkey>,
) -> Result<InstructionView, ProgramError> {
    empty_account_encoding_at(
        program_id,
        account,
        authority,
        signers,
        proof_place(context_state_account),
    )
}

/// Calls
/// `spl_token_2022::extension::confidential_transfer::instruction::inner_empty_account`
/// with the proof in another instruction of the transaction, `offset`
/// instructions on. It refuses, with "incorrect program id", a program that is
/// not the token program with extensions. Else the instruction names the
/// program that it was given and the accounts that `empty_account_encoding_at`
/// lists, with the data that it states. Keys are handed over as their bytes, an
/// error as its code. The encoder does not read the proof itself, so it is
/// handed an all-zero one.
#[verifier::external_body]
fn raw_empty_account_at_offset(
    program_id: &Pubkey,
    account: &Pubkey,
    authority: &Pubkey,
    signers: &Vec<Pubkey>,
    offset: i8,
) -> (r: Result<RawInstruction, u64>)
    requires
        offset != 0,
    ensures
        raw_encodes(
            r,
            empty_account_encoding_at(
                *program_id,
                *account,
                *authority,
                signers@,
                ProofPlace::InstructionOffset(offset),
            ),
        ),
{
    let k = |p: &Pubkey| LedgerKey::new_from_array(p.bytes);
    inner_empty_account(
        &k(program_id),
        &k(account),
        &k(authority),
        &signers.iter().map(k).collect::<Vec<_>>().iter().collect::<Vec<_>>(),
        ProofLocation::InstructionOffset(offset.try_into().unwrap(), &Zeroable::zeroed())
    )
    .map(|i| (i.program_id.to_bytes(), i.accounts.iter().map(|m| (m.pubkey.to_bytes(), m.is_signer, m.is_writable)).collect(), i.data))
    .map_err(u64::from)
}

/// Calls
/// `spl_token_2022::extension::confidential_transfer::instruction::inner_empty_account`
/// with the proof in a context account. It refuses, with "incorrect program
/// id", a program that is not the token program with extensions. Else the
/// instruction names the program that it was given and the accounts that
/// `empty_account_encoding_at` lists, with the data that it states. Keys are
/// handed over as their bytes, an error as its code.
#[verifier::external_body]
fn raw_empty_account_in_account(
    program_id: &Pubkey,
    account: &Pubkey,
    authority: &Pubkey,
    signers: &Vec<Pubkey>,
    context_state_account: &Pubkey,
) -> (r: Result<RawInstruction, u64>)
    ensures
        raw_encodes(
            r,
            empty_account_encoding_at(
                *program_id,
                *account,
                *authority,
                signers@,
                ProofPlace::ContextStateAccount(*context_state_account),
            ),
        ),
{
    let k = |p: &Pubkey| LedgerKey::new_from_array(p.bytes);
    inner_empty_account(
        &k(program_id),
        &k(account),
        &k(authority),
        &signers.iter().map(k).collect::<Vec<_>>().iter().collect::<Vec<_>>(),
        ProofLocation::ContextStateAccount(&k(context_state_account))
    )
    .map(|i| (i.program_id.to_bytes(), i.accounts.iter().map(|m| (m.pubkey.to_bytes(), m.is_signer, m.is_writable)).collect(), i.data))
    .map_err(u64::from)
}

/// The instruction that prepares a confidential account for closing, with the
/// proof of its zero balance in the next instruction or in a context account.
pub fn empty_account(
    program_id: &Pubkey,
    account: &Pubkey,
    authority: &Pubkey,
    signers: &Vec<Pubkey>,
    context_state_account: Option<&Pubkey>,
) -> (r: Result<Instruction, ProgramError>)
    ensures
        encodes(
            r,
            empty_account_encoding(
                *program_id,
                *account,
                *authority,
                signers@,
                opt_key(context_state_account),
            ),
        ),
{
    let raw = match context_state_account {
        Some(context) => raw_empty_account_in_account(
            program_id,
            account,
            authority,
            signers,
            context,
        ),
        None => raw_empty_account_at_offset(
            program_id,
            account,
            authority,
            signers,
            NEXT_INSTRUCTION,
        ),
    };
    Instruction::from_encoder(raw)
}

/// What
/// `spl_token_2022::extension::confidential_transfer::instruction::inner_withdraw`
/// gives for these arguments and a proof at `place`: the error "incorrect
/// program id" unless the program is the token program with extensions, and
/// else the instruction of that program with these accounts and data.
pub open spec fn withdraw_encoding_at(
    program_id: Pubkey,
    account: Pubkey,
    mint: Pubkey,
    amount: u64,
    decimals: u8,
    new_decryptable_available_balance: AeCiphertext,
    authority: Pubkey,
    signers: Seq<Pubkey>,
    place: ProofPlace,
) -> Result<InstructionView, ProgramError> {
    if !is_token_2022(program_id) {
        Err(ProgramError { code: INCORRECT_PROGRAM_ID })
    } else {
        Ok(
            InstructionView {
                program_id,
                accounts: seq![writable(account), readonly(mint), proof_account(place)]
                    + authority_accounts(authority, signers),
                data: seq![27u8, 6u8]
                    + spec_u64_to_le_bytes(amount)
                    + seq![decimals]
                    + new_decryptable_available_balance@
                    + seq![proof_offset(place)],
            },
        )
    }
}

/// What
/// `spl_token_2022::extension::confidential_transfer::instruction::inner_withdraw`
/// gives for these arguments, with the proof in the context account, or in the
/// next instruction where none is given.
pub open spec fn withdraw_encoding(
    program_id: Pubkey,
    account: Pubkey,
    mint: Pubkey,
    amount: u64,
    decimals: u8,
    new_decryptable_available_balance: AeCiphertext,
    authority: Pubkey,
    signers: Seq<Pubkey>,
    context_state_account: Option<Pubkey>,
) -> Result<InstructionView, ProgramError> {
    withdraw_encoding_at(
        program_id,
        account,
        mint,
        amount,
        decimals,
        new_decryptable_available_balance,
        authority,
        signers,
        proof_place(context_state_account),
    )
}

/// Calls
/// `spl_token_2022::extension::confidential_transfer::instruction::inner_withdraw`
/// with the proof in another instruction of the transaction, `offset`
/// instructions on. It refuses, with "incorrect program id", a program that is
/// not the token program with extensions. Else the instruction names the
/// program that it was given and the accounts that `withdraw_encoding_at`
/// lists, with the data that it states. Keys are handed over as their bytes, an
/// error as its code. The encoder does not read the proof itself, so it is
/// handed an all-zero one.
#[verifier::external_body]
fn raw_withdraw_at_offset(
    program_id: &Pubkey,
    account: &Pubkey,
    mint: &Pubkey,
    amount: u64,
    decimals: u8,
    new_decryptable_available_balance: &AeCiphertext,
    authority: &Pubkey,
    signers: &Vec<Pubkey>,
    offset: i8,
) -> (r: Result<RawInstruction, u64>)
    requires
        offset != 0,
    ensures
        raw_encodes(
            r,
            withdraw_encoding_at(
                *program_id,
                *account,
                *mint,
                amount,
                decimals,
                *new_decryptable_available_balance,
                *authority,
                signers@,
                ProofPlace::InstructionOffset(offset),
            ),
        ),
{
    let k = |p: &Pubkey| LedgerKey::new_from_array(p.bytes);
    inner_withdraw(
        &k(program_id),
        &k(account),
        &k(mint),
        amount,
        decimals,
        PodAeCiphertext(new_decryptable_available_balance.0),
        &k(authority),
        &signers.iter().map(k).collect::<Vec<_>>().iter().collect::<Vec<_>>(),
        ProofLocation::InstructionOffset(offset.try_into().unwrap(), &Zeroable::zeroed())
    )
    .map(|i| (i.program_id.to_bytes(), i.accounts.iter().map(|m| (m.pubkey.to_bytes(), m.is_signer, m.is_writable)).collect(), i.data))
    .map_err(u64::from)
}

/// Calls
/// `spl_token_2022::extension::confidential_transfer::instruction::inner_withdraw`
/// with the proof in a context account. It refuses, with "incorrect program
/// id", a program that is not the token program with extensions. Else the
/// instruction names the program that it was given and the accounts that
/// `withdraw_encoding_at` lists, with the data that it states. Keys are handed
/// over as their bytes, an error as its code.
#[verifier::external_body]
fn raw_withdraw_in_account(
    program_id: &Pubkey,
    account: &Pubkey,
    mint: &Pubkey,
    amount: u64,
    decimals: u8,
    new_decryptable_available_balance: &AeCiphertext,
    authority: &Pubkey,
    signers: &Vec<Pubkey>,
    context_state_account: &Pubkey,
) -> (r: Result<RawInstruction, u64>)
    ensures
        raw_encodes(
            r,
            withdraw_encoding_at(
                *program_id,
                *account,
                *mint,
                amount,
                decimals,
                *new_decryptable_available_balance,
                *authority,
                signers@,
                ProofPlace::ContextStateAccount(*context_state_account),
            ),
        ),
{
    let k = |p: &Pubkey| LedgerKey::new_from_array(p.bytes);
    inner_withdraw(
        &k(program_id),
        &k(account),
        &k(mint),
        amount,
        decimals,
        PodAeCiphertext(new_decryptable_available_balance.0),
        &k(authority),
        &signers.iter().map(k).collect::<Vec<_>>().iter().collect::<Vec<_>>(),
        ProofLocation::ContextStateAccount(&k(context_state_account))
    )
    .map(|i| (i.program_id.to_bytes(), i.accounts.iter().map(|m| (m.pubkey.to_bytes(), m.is_signer, m.is_writable)).collect(), i.data))
    .map_err(u64::from)
}

/// The instruction that withdraws `amount` tokens from the confidential balance
/// of an account, with its proof in the next instruction or in a context
/// account.
pub fn withdraw(
    program_id: &Pubkey,
    account: &Pubkey,
    mint: &Pubkey,
    amount: u64,
    decimals: u8,
    new_decryptable_available_balance: &AeCiphertext,
    authority: &Pubkey,
    signers: &Vec<Pubkey>,
    context_state_account: Option<&Pubkey>,
) -> (r: Result<Instruction, ProgramError>)
    ensures
        encodes(
            r,
            withdraw_encoding(
                *program_id,
                *account,
                *mint,
                amount,
                decimals,
                *new_decryptable_available_balance,
                *authority,
                signers@,
                opt_key(context_state_account),
            ),
        ),
{
    let raw = match context_state_account {
        Some(context) => raw_withdraw_in_account(
            program_id,
            account,
            mint,
            amount,
            decimals,
            new_decryptable_available_balance,
            authority,
            signers,
            context,
        ),
        None => raw_withdraw_at_offset(
            program_id,
            account,
            mint,
            amount,
            decimals,
            new_decryptable_available_balance,
            authority,
            signers,
            NEXT_INSTRUCTION,
        ),
    };
    Instruction::from_encoder(raw)
}

/// What
/// `spl_token_2022::extension::confidential_transfer::instruction::inner_transfer`
/// gives for these arguments and a proof at `place`: the error "incorrect
/// program id" unless the program is the token program with extensions, and
/// else the instruction of that program with these accounts and data.
pub open spec fn transfer_encoding_at(
    program_id: Pubkey,
    source: Pubkey,
    mint: Pubkey,
    destination: Pubkey,
    new_source_decryptable_available_balance: AeCiphertext,
    authority: Pubkey,
    signers: Seq<Pubkey>,
    place: ProofPlace,
) -> Result<InstructionView, ProgramError> {
    if !is_token_2022(program_id) {
        Err(ProgramError { code: INCORRECT_PROGRAM_ID })
    } else {
        Ok(
            InstructionView {
                program_id,
                accounts: seq![
                    writable(source),
                    readonly(mint),
                    writable(destination),
                    proof_account(place),
                ]
                    + authority_accounts(authority, signers),
                data: seq![27u8, 7u8]
                    + new_source_decryptable_available_balance@
                    + seq![proof_offset(place)],
            },
        )
    }
}

/// What
/// `spl_token_2022::extension::confidential_transfer::instruction::inner_transfer`
/// gives for these arguments, with the proof in the context account, or in the
/// next instruction where none is given.
pub open spec fn transfer_encoding(
    program_id: Pubkey,
    source: Pubkey,
    mint: Pubkey,
    destination: Pubkey,
    new_source_decryptable_available_balance: AeCiphertext,
    authority: Pubkey,
    signers: Seq<Pubkey>,
    context_state_account: Option<Pubkey>,
) -> Result<InstructionView, ProgramError> {
    transfer_encoding_at(
        program_id,
        source,
        mint,
        destination,
        new_source_decryptable_available_balance,
        authority,
        signers,
        proof_place(context_state_account),
    )
}

/// Calls
/// `spl_token_2022::extension::confidential_transfer::instruction::inner_transfer`
/// with the proof in another instruction of the transaction, `offset`
/// instructions on. It refuses, with "incorrect program id", a program that is
/// not the token program with extensions. Else the instruction names the
/// program that it was given and the accounts that `transfer_encoding_at`
/// lists, with the data that it states. Keys are handed over as their bytes, an
/// error as its code. The encoder does not read the proof itself, so it is
/// handed an all-zero one.
#[verifier::external_body]
fn raw_transfer_at_offset(
    program_id: &Pubkey,
    source: &Pubkey,
    mint: &Pubkey,
    destination: &Pubkey,
    new_source_decryptable_available_balance: &AeCiphertext,
    authority: &Pubkey,
    signers: &Vec<Pubkey>,
    offset: i8,
) -> (r: Result<RawInstruction, u64>)
    requires
        offset != 0,
    ensures
        raw_encodes(
            r,
            transfer_encoding_at(
                *program_id,
                *source,
                *mint,
                *destination,
                *new_source_decryptable_available_balance,
                *authority,
                signers@,
                ProofPlace::InstructionOffset(offset),
            ),
        ),
{
    let k = |p: &Pubkey| LedgerKey::new_from_array(p.bytes);
    inner_transfer(
        &k(program_id),
        &k(source),
        &k(mint),
        &k(destination),
        PodAeCiphertext(new_source_decryptable_available_balance.0),
        &k(authority),
        &signers.iter().map(k).collect::<Vec<_>>().iter().collect::<Vec<_>>(),
        ProofLocation::InstructionOffset(offset.try_into().unwrap(), &Zeroable::zeroed())
    )
    .map(|i| (i.program_id.to_bytes(), i.accounts.iter().map(|m| (m.pubkey.to_bytes(), m.is_signer, m.is_writable)).collect(), i.data))
    .map_err(u64::from)
}

/// Calls
/// `spl_token_2022::extension::confidential_transfer::instruction::inner_transfer`
/// with the proof in a context account. It refuses, with "incorrect program
/// id", a program that is not the token program with extensions. Else the
/// instruction names the program that it was given and the accounts that
/// `transfer_encoding_at` lists, with the data that it states. Keys are handed
/// over as their bytes, an error as its code.
#[verifier::external_body]
fn raw_transfer_in_account(
    program_id: &Pubkey,
    source: &Pubkey,
    mint: &Pubkey,
    destination: &Pubkey,
    new_source_decryptable_available_balance: &AeCiphertext,
    authority: &Pubkey,
    signers: &Vec<Pubkey>,
    context_state_account: &Pubkey,
) -> (r: Result<RawInstruction, u64>)
    ensures
        raw_encodes(
            r,
            transfer_encoding_at(
                *program_id,
                *source,
                *mint,
                *destination,
                *new_source_decryptable_available_balance,
                *authority,
                signers@,
                ProofPlace::ContextStateAccount(*context_state_account),
            ),
        ),
{
    let k = |p: &Pubkey| LedgerKey::new_from_array(p.bytes);
    inner_transfer(
        &k(program_id),
        &k(source),
        &k(mint),
        &k(destination),
        PodAeCiphertext(new_source_decryptable_available_balance.0),
        &k(authority),
        &signers.iter().map(k).collect::<Vec<_>>().iter().collect::<Vec<_>>(),
        ProofLocation::ContextStateAccount(&k(context_state_account))
    )
    .map(|i| (i.program_id.to_bytes(), i.accounts.iter().map(|m| (m.pubkey.to_bytes(), m.is_signer, m.is_writable)).collect(), i.data))
    .map_err(u64::from)
}

/// The instruction that transfers tokens confidentially, with its proof in the
/// next instruction or in a context account.
pub fn transfer(
    program_id: &Pubkey,
    source: &Pubkey,
    mint: &Pubkey,
    destination: &Pubkey,
    new_source_decryptable_available_balance: &AeCiphertext,
    authority: &Pubkey,
    signers: &Vec<Pubkey>,
    context_state_account: Option<&Pubkey>,
) -> (r: Result<Instruction, ProgramError>)
    ensures
        encodes(
            r,
            transfer_encoding(
                *program_id,
                *source,
                *mint,
                *destination,
                *new_source_decryptable_available_balance,
                *authority,
                signers@,
                opt_key(context_state_account),
            ),
        ),
{
    let raw = match context_state_account {
        Some(context) => raw_transfer_in_account(
            program_id,
            source,
            mint,
            destination,
            new_source_decryptable_available_balance,
            authority,
            signers,
            context,
        ),
        None => raw_transfer_at_offset(
            program_id,
            source,
            mint,
            destination,
            new_source_decryptable_available_balance,
            authority,
            signers,
            NEXT_INSTRUCTION,
        ),
    };
    Instruction::from_encoder(raw)
}

/// What
/// `spl_token_2022::extension::confidential_transfer::instruction::inner_transfer_with_fee`
/// gives for these arguments and a proof at `place`: the error "incorrect
/// program id" unless the program is the token program with extensions, and
/// else the instruction of that program with these accounts and data.
pub open spec fn transfer_with_fee_encoding_at(
    program_id: Pubkey,
    source: Pubkey,
    mint: Pubkey,
    destination: Pubkey,
    new_source_decryptable_available_balance: AeCiphertext,
    authority: Pubkey,
    signers: Seq<Pubkey>,
    place: ProofPlace,
) -> Result<InstructionView, ProgramError> {
    if !is_token_2022(program_id) {
        Err(ProgramError { code: INCORRECT_PROGRAM_ID })
    } else {
        Ok(
            InstructionView {
                program_id,
                accounts: seq![
                    writable(source),
                    readonly(mint),
                    writable(destination),
                    proof_account(place),
                ]
                    + authority_accounts(authority, signers),
                data: seq![27u8, 7u8]
                    + new_source_decryptable_available_balance@
                    + seq![proof_offset(place)],
            },
        )
    }
}

/// What
/// `spl_token_2022::extension::confidential_transfer::instruction::inner_transfer_with_fee`
/// gives for these arguments, with the proof in the context account, or in the
/// next instruction where none is given.
pub open spec fn transfer_with_fee_encoding(
    program_id: Pubkey,
    source: Pubkey,
    mint: Pubkey,
    destination: Pubkey,
    new_source_decryptable_available_balance: AeCiphertext,
    authority: Pubkey,
    signers: Seq<Pubkey>,
    context_state_account: Option<Pubkey>,
) -> Result<InstructionView, ProgramError> {
    transfer_with_fee_encoding_at(
        program_id,
        source,
        mint,
        destination,
        new_source_decryptable_available_balance,
        authority,
        signers,
        proof_place(context_state_account),
    )
}

/// Calls
/// `spl_token_2022::extension::confidential_transfer::instruction::inner_transfer_with_fee`
/// with the proof in another instruction of the transaction, `offset`
/// instructions on. It refuses, with "incorrect program id", a program that is
/// not the token program with extensions. Else the instruction names the
/// program that it was given and the accounts that
/// `transfer_with_fee_encoding_at` lists, with the data that it states. Keys
/// are handed over as their bytes, an error as its code. The encoder does not
/// read the proof itself, so it is handed an all-zero one.
#[verifier::external_body]
fn raw_transfer_with_fee_at_offset(
    program_id: &Pubkey,
    source: &Pubkey,
    mint: &Pubkey,
    destination: &Pubkey,
    new_source_decryptable_available_balance: &AeCiphertext,
    authority: &Pubkey,
    signers: &Vec<Pubkey>,
    offset: i8,
) -> (r: Result<RawInstruction, u64>)
    requires
        offset != 0,
    ensures
        raw_encodes(
            r,
            transfer_with_fee_encoding_at(
                *program_id,
                *source,
                *mint,
                *destination,
                *new_source_decryptable_available_balance,
                *authority,
                signers@,
                ProofPlace::InstructionOffset(offset),
            ),
        ),
{
    let k = |p: &Pubkey| LedgerKey::new_from_array(p.bytes);
    inner_transfer_with_fee(
        &k(program_id),
        &k(source),
        &k(mint),
        &k(destination),
        PodAeCiphertext(new_source_decryptable_available_balance.0),
        &k(authority),
        &signers.iter().map(k).collect::<Vec<_>>().iter().collect::<Vec<_>>(),
        ProofLocation::InstructionOffset(offset.try_into().unwrap(), &Zeroable::zeroed())
    )
    .map(|i| (i.program_id.to_bytes(), i.accounts.iter().map(|m| (m.pubkey.to_bytes(), m.is_signer, m.is_writable)).collect(), i.data))
    .map_err(u64::from)
}

/// Calls
/// `spl_token_2022::extension::confidential_transfer::instruction::inner_transfer_with_fee`
/// with the proof in a context account. It refuses, with "incorrect program
/// id", a program that is not the token program with extensions. Else the
/// instruction names the program that it was given and the accounts that
/// `transfer_with_fee_encoding_at` lists, with the data that it states. Keys
/// are handed over as their bytes, an error as its code.
#[verifier::external_body]
fn raw_transfer_with_fee_in_account(
    program_id: &Pubkey,
    source: &Pubkey,
    mint: &Pubkey,
    destination: &Pubkey,
    new_source_decryptable_available_balance: &AeCiphertext,
    authority: &Pubkey,
    signers: &Vec<Pubkey>,
    context_state_account: &Pubkey,
) -> (r: Result<RawInstruction, u64>)
    ensures
        raw_encodes(
            r,
            transfer_with_fee_encoding_at(
                *program_id,
                *source,
                *mint,
                *destination,
                *new_source_decryptable_available_balance,
                *authority,
                signers@,
                ProofPlace::ContextStateAccount(*context_state_account),
            ),
        ),
{
    let k = |p: &Pubkey| LedgerKey::new_from_array(p.bytes);
    inner_transfer_with_fee(
        &k(program_id),
        &k(source),
        &k(mint),
        &k(destination),
        PodAeCiphertext(new_source_decryptable_available_balance.0),
        &k(authority),
        &signers.iter().map(k).collect::<Vec<_>>().iter().collect::<Vec<_>>(),
        ProofLocation::ContextStateAccount(&k(context_state_account))
    )
    .map(|i| (i.program_id.to_bytes(), i.accounts.iter().map(|m| (m.pubkey.to_bytes(), m.is_signer, m.is_writable)).collect(), i.data))
    .map_err(u64::from)
}

/// The instruction that transfers tokens confidentially and with a fee, with
/// its proof in the next instruction or in a context account.
pub fn transfer_with_fee(
    program_id: &Pubkey,
    source: &Pubkey,
    mint: &Pubkey,
    destination: &Pubkey,
    new_source_decryptable_available_balance: &AeCiphertext,
    authority: &Pubkey,
    signers: &Vec<Pubkey>,
    context_state_account: Option<&Pubkey>,
) -> (r: Result<Instruction, ProgramError>)
    ensures
        encodes(
            r,
            transfer_with_fee_encoding(
                *program_id,
                *source,
                *mint,
                *destination,
                *new_source_decryptable_available_balance,
                *authority,
                signers@,
                opt_key(context_state_account),
            ),
        ),
{
    let raw = match context_state_account {
        Some(context) => raw_transfer_with_fee_in_account(
            program_id,
            source,
            mint,
            destination,
            new_source_decryptable_available_balance,
            authority,
            signers,
            context,
        ),
        None => raw_transfer_with_fee_at_offset(
            program_id,
            source,
            mint,
            destination,
            new_source_decryptable_available_balance,
            authority,
            signers,
            NEXT_INSTRUCTION,
        ),
    };
    Instruction::from_encoder(raw)
}

} // verus!
