//! The instructions of the token program itself.
use crate::encode::parts::{
    stored_extension_types,
    all_readonly,
    authority_accounts,
    packed_key_option,
    paying,
    readonly,
    writable,
};
use crate::error::{
    ProgramError,
    INCORRECT_PROGRAM_ID,
    INVALID_ARGUMENT,
    MISSING_REQUIRED_SIGNATURE,
};
use crate::instruction::{Instruction, InstructionView, RawInstruction, encodes, raw_encodes};
use crate::programs::{
    is_token_2022,
    is_token_program,
    spec_native_mint_2022_id,
    spec_rent_sysvar_id,
    spec_system_program_id,
};
use crate::pubkey::Pubkey;
use crate::state::{AuthorityType, ExtensionType};
use solana_program::pubkey::Pubkey as LedgerKey;
use spl_token_2022::extension::ExtensionType as LedgerExtensionType;
use spl_token_2022::instruction::TokenInstruction;
use vstd::bytes::spec_u64_to_le_bytes;
use vstd::prelude::*;

verus! {

/// What `spl_token_2022::instruction::initialize_mint` gives for these
/// arguments: the error "incorrect program id" unless the program is one of the
/// two token programs, and else the instruction of that program with these
/// accounts and data.
pub open spec fn initialize_mint_encoding(
    program_id: Pubkey,
    mint: Pubkey,
    mint_authority: Pubkey,
    freeze_authority: Option<Pubkey>,
    decimals: u8,
) -> Result<InstructionView, ProgramError> {
    if !is_token_program(program_id) {
        Err(ProgramError { code: INCORRECT_PROGRAM_ID })
    } else {
        Ok(
            InstructionView {
                program_id,
                accounts: seq![writable(mint), readonly(spec_rent_sysvar_id())],
                data: seq![0u8, decimals] + mint_authority@ + packed_key_option(freeze_authority),
            },
        )
    }
}

/// Calls `spl_token_2022::instruction::initialize_mint`. It refuses, with
/// "incorrect program id", a program that is not one of the two token programs.
/// Else the instruction names the program that it was given and the accounts
/// that `initialize_mint_encoding` lists, with the data that it states. Keys
/// are handed over as their bytes, an error as its code.
#[verifier::external_body]
fn raw_initialize_mint(
    program_id: &Pubkey,
    mint: &Pubkey,
    mint_authority: &Pubkey,
    freeze_authority: Option<Pubkey>,
    decimals: u8,
) -> (r: Result<RawInstruction, u64>)
    ensures
        raw_encodes(
            r,
            initialize_mint_encoding(
                *program_id,
                *mint,
                *mint_authority,
                freeze_authority,
                decimals,
            ),
        ),
{
    let k = |p: &Pubkey| LedgerKey::new_from_array(p.bytes);
    spl_token_2022::instruction::initialize_mint(
        &k(program_id),
        &k(mint),
        &k(mint_authority),
        freeze_authority.map(|p| k(&p)).as_ref(),
        decimals
    )
    .map(|i| (i.program_id.to_bytes(), i.accounts.iter().map(|m| (m.pubkey.to_bytes(), m.is_signer, m.is_writable)).collect(), i.data))
    .map_err(u64::from)
}

/// The instruction that initializes a mint with its authorities and decimals.
pub fn initialize_mint(
    program_id: &Pubkey,
    mint: &Pubkey,
    mint_authority: &Pubkey,
    freeze_authority: Option<Pubkey>,
    decimals: u8,
) -> (r: Result<Instruction, ProgramError>)
    ensures
        encodes(
            r,
            initialize_mint_encoding(
                *program_id,
                *mint,
                *mint_authority,
                freeze_authority,
                decimals,
            ),
        ),
{
    Instruction::from_encoder(raw_initialize_mint(
        program_id,
        mint,
        mint_authority,
        freeze_authority,
        decimals,
    ))
}

/// What `spl_token_2022::instruction::initialize_account` gives for these
/// arguments: the error "incorrect program id" unless the program is one of the
/// two token programs, and else the instruction of that program with these
/// accounts and data.
pub open spec fn initialize_account_encoding(
    program_id: Pubkey,
    account: Pubkey,
    mint: Pubkey,
    owner: Pubkey,
) -> Result<InstructionView, ProgramError> {
    if !is_token_program(program_id) {
        Err(ProgramError { code: INCORRECT_PROGRAM_ID })
    } else {
        Ok(
            InstructionView {
                program_id,
                accounts: seq![
                    writable(account),
                    readonly(mint),
                    readonly(owner),
                    readonly(spec_rent_sysvar_id()),
                ],
                data: seq![1u8],
            },
        )
    }
}

/// Calls `spl_token_2022::instruction::initialize_account`. It refuses, with
/// "incorrect program id", a program that is not one of the two token programs.
/// Else the instruction names the program that it was given and the accounts
/// that `initialize_account_encoding` lists, with the data that it states. Keys
/// are handed over as their bytes, an error as its code.
#[verifier::external_body]
fn raw_initialize_account(
    program_id: &Pubkey,
    account: &Pubkey,
    mint: &Pubkey,
    owner: &Pubkey,
) -> (r: Result<RawInstruction, u64>)
    ensures
        raw_encodes(r, initialize_account_encoding(*program_id, *account, *mint, *owner)),
{
    let k = |p: &Pubkey| LedgerKey::new_from_array(p.bytes);
    spl_token_2022::instruction::initialize_account(
        &k(program_id),
        &k(account),
        &k(mint),
        &k(owner)
    )
    .map(|i| (i.program_id.to_bytes(), i.accounts.iter().map(|m| (m.pubkey.to_bytes(), m.is_signer, m.is_writable)).collect(), i.data))
    .map_err(u64::from)
}

/// The instruction that initializes a token account of `mint` for `owner`.
pub fn initialize_account(
    program_id: &Pubkey,
    account: &Pubkey,
    mint: &Pubkey,
    owner: &Pubkey,
) -> (r: Result<Instruction, ProgramError>)
    ensures
        encodes(r, initialize_account_encoding(*program_id, *account, *mint, *owner)),
{
    Instruction::from_encoder(raw_initialize_account(program_id, account, mint, owner))
}

/// What `spl_token_2022::instruction::initialize_multisig` gives for these
/// arguments: the error "incorrect program id" unless the program is one of the
/// two token programs, then the error "missing required signature" unless there
/// are between 1 and 11 members and the number of signers asked for is between
/// 1 and their number, and else the instruction of that program with these
/// accounts and data.
pub open spec fn initialize_multisig_encoding(
    program_id: Pubkey,
    multisig: Pubkey,
    members: Seq<Pubkey>,
    minimum_signers: u8,
) -> Result<InstructionView, ProgramError> {
    if !is_token_program(program_id) {
        Err(ProgramError { code: INCORRECT_PROGRAM_ID })
    } else if minimum_signers < 1
        || minimum_signers > 11
        || members.len() < 1
        || members.len() > 11
        || minimum_signers > members.len() {
        Err(ProgramError { code: MISSING_REQUIRED_SIGNATURE })
    } else {
        Ok(
            InstructionView {
                program_id,
                accounts: seq![writable(multisig), readonly(spec_rent_sysvar_id())]
                    + all_readonly(members),
                data: seq![2u8, minimum_signers],
            },
        )
    }
}

/// Calls `spl_token_2022::instruction::initialize_multisig`. It refuses, with
/// "incorrect program id", a program that is not one of the two token programs,
/// then gives the error "missing required signature" unless there are between 1
/// and 11 members and the number of signers asked for is between 1 and their
/// number. Else the instruction names the program that it was given and the
/// accounts that `initialize_multisig_encoding` lists, with the data that it
/// states. Keys are handed over as their bytes, an error as its code.
#[verifier::external_body]
fn raw_initialize_multisig(
    program_id: &Pubkey,
    multisig: &Pubkey,
    members: &Vec<Pubkey>,
    minimum_signers: u8,
) -> (r: Result<RawInstruction, u64>)
    ensures
        raw_encodes(
            r,
            initialize_multisig_encoding(
                *program_id,
                *multisig,
                members@,
                minimum_signers,
            ),
        ),
{
    let k = |p: &Pubkey| LedgerKey::new_from_array(p.bytes);
    spl_token_2022::instruction::initialize_multisig(
        &k(program_id),
        &k(multisig),
        &members.iter().map(k).collect::<Vec<_>>().iter().collect::<Vec<_>>(),
        minimum_signers
    )
    .map(|i| (i.program_id.to_bytes(), i.accounts.iter().map(|m| (m.pubkey.to_bytes(), m.is_signer, m.is_writable)).collect(), i.data))
    .map_err(u64::from)
}

/// The instruction that initializes a multisignature account of `members`, of
/// whom `minimum_signers` must sign.
pub fn initialize_multisig(
    program_id: &Pubkey,
    multisig: &Pubkey,
    members: &Vec<Pubkey>,
    minimum_signers: u8,
) -> (r: Result<Instruction, ProgramError>)
    ensures
        encodes(
            r,
            initialize_multisig_encoding(
                *program_id,
                *multisig,
                members@,
                minimum_signers,
            ),
        ),
{
    Instruction::from_encoder(raw_initialize_multisig(
        program_id,
        multisig,
        members,
        minimum_signers,
    ))
}

/// What `spl_token_2022::instruction::transfer` gives for these arguments: the
/// error "incorrect program id" unless the program is one of the two token
/// programs, and else the instruction of that program with these accounts and
/// data.
pub open spec fn transfer_encoding(
    program_id: Pubkey,
    source: Pubkey,
    destination: Pubkey,
    authority: Pubkey,
    signers: Seq<Pubkey>,
    amount: u64,
) -> Result<InstructionView, ProgramError> {
    if !is_token_program(program_id) {
        Err(ProgramError { code: INCORRECT_PROGRAM_ID })
    } else {
        Ok(
            InstructionView {
                program_id,
                accounts: seq![writable(source), writable(destination)]
                    + authority_accounts(authority, signers),
                data: seq![3u8] + spec_u64_to_le_bytes(amount),
            },
        )
    }
}

/// Calls `spl_token_2022::instruction::transfer`. It refuses, with "incorrect
/// program id", a program that is not one of the two token programs. Else the
/// instruction names the program that it was given and the accounts that
/// `transfer_encoding` lists, with the data that it states. Keys are handed
/// over as their bytes, an error as its code.
#[verifier::external_body]
fn raw_transfer(
    program_id: &Pubkey,
    source: &Pubkey,
    destination: &Pubkey,
    authority: &Pubkey,
    signers: &Vec<Pubkey>,
    amount: u64,
) -> (r: Result<RawInstruction, u64>)
    ensures
        raw_encodes(
            r,
            transfer_encoding(
                *program_id,
                *source,
                *destination,
                *authority,
                signers@,
                amount,
            ),
        ),
{
    let k = |p: &Pubkey| LedgerKey::new_from_array(p.bytes);
    spl_token_2022::instruction::transfer(
        &k(program_id),
        &k(source),
        &k(destination),
        &k(authority),
        &signers.iter().map(k).collect::<Vec<_>>().iter().collect::<Vec<_>>(),
        amount
    )
    .map(|i| (i.program_id.to_bytes(), i.accounts.iter().map(|m| (m.pubkey.to_bytes(), m.is_signer, m.is_writable)).collect(), i.data))
    .map_err(u64::from)
}

/// The instruction that transfers `amount` tokens, without a check of mint and
/// decimals.
pub fn transfer(
    program_id: &Pubkey,
    source: &Pubkey,
    destination: &Pubkey,
    authority: &Pubkey,
    signers: &Vec<Pubkey>,
    amount: u64,
) -> (r: Result<Instruction, ProgramError>)
    ensures
        encodes(
            r,
            transfer_encoding(
                *program_id,
                *source,
                *destination,
                *authority,
                signers@,
                amount,
            ),
        ),
{
    Instruction::from_encoder(raw_transfer(
        program_id,
        source,
        destination,
        authority,
        signers,
        amount,
    ))
}

/// What `spl_token_2022::instruction::approve` gives for these arguments: the
/// error "incorrect program id" unless the program is one of the two token
/// programs, and else the instruction of that program with these accounts and
/// data.
pub open spec fn approve_encoding(
    program_id: Pubkey,
    source: Pubkey,
    delegate: Pubkey,
    owner: Pubkey,
    signers: Seq<Pubkey>,
    amount: u64,
) -> Result<InstructionView, ProgramError> {
    if !is_token_program(program_id) {
        Err(ProgramError { code: INCORRECT_PROGRAM_ID })
    } else {
        Ok(
            InstructionView {
                program_id,
                accounts: seq![writable(source), readonly(delegate)]
                    + authority_accounts(owner, signers),
                data: seq![4u8] + spec_u64_to_le_bytes(amount),
            },
        )
    }
}

/// Calls `spl_token_2022::instruction::approve`. It refuses, with "incorrect
/// program id", a program that is not one of the two token programs. Else the
/// instruction names the program that it was given and the accounts that
/// `approve_encoding` lists, with the data that it states. Keys are handed over
/// as their bytes, an error as its code.
#[verifier::external_body]
fn raw_approve(
    program_id: &Pubkey,
    source: &Pubkey,
    delegate: &Pubkey,
    owner: &Pubkey,
    signers: &Vec<Pubkey>,
    amount: u64,
) -> (r: Result<RawInstruction, u64>)
    ensures
        raw_encodes(
            r,
            approve_encoding(
                *program_id,
                *source,
                *delegate,
                *owner,
                signers@,
                amount,
            ),
        ),
{
    let k = |p: &Pubkey| LedgerKey::new_from_array(p.bytes);
    spl_token_2022::instruction::approve(
        &k(program_id),
        &k(source),
        &k(delegate),
        &k(owner),
        &signers.iter().map(k).collect::<Vec<_>>().iter().collect::<Vec<_>>(),
        amount
    )
    .map(|i| (i.program_id.to_bytes(), i.accounts.iter().map(|m| (m.pubkey.to_bytes(), m.is_signer, m.is_writable)).collect(), i.data))
    .map_err(u64::from)
}

/// The instruction that lets `delegate` spend up to `amount` tokens of
/// `source`.
pub fn approve(
    program_id: &Pubkey,
    source: &Pubkey,
    delegate: &Pubkey,
    owner: &Pubkey,
    signers: &Vec<Pubkey>,
    amount: u64,
) -> (r: Result<Instruction, ProgramError>)
    ensures
        encodes(
            r,
            approve_encoding(
                *program_id,
                *source,
                *delegate,
                *owner,
                signers@,
                amount,
            ),
        ),
{
    Instruction::from_encoder(raw_approve(program_id, source, delegate, owner, signers, amount))
}

/// What `spl_token_2022::instruction::revoke` gives for these arguments: the
/// error "incorrect program id" unless the program is one of the two token
/// programs, and else the instruction of that program with these accounts and
/// data.
pub open spec fn revoke_encoding(
    program_id: Pubkey,
    source: Pubkey,
    owner: Pubkey,
    signers: Seq<Pubkey>,
) -> Result<InstructionView, ProgramError> {
    if !is_token_program(program_id) {
        Err(ProgramError { code: INCORRECT_PROGRAM_ID })
    } else {
        Ok(
            InstructionView {
                program_id,
                accounts: seq![writable(source)] + authority_accounts(owner, signers),
                data: seq![5u8],
            },
        )
    }
}

/// Calls `spl_token_2022::instruction::revoke`. It refuses, with "incorrect
/// program id", a program that is not one of the two token programs. Else the
/// instruction names the program that it was given and the accounts that
/// `revoke_encoding` lists, with the data that it states. Keys are handed over
/// as their bytes, an error as its code.
#[verifier::external_body]
fn raw_revoke(
    program_id: &Pubkey,
    source: &Pubkey,
    owner: &Pubkey,
    signers: &Vec<Pubkey>,
) -> (r: Result<RawInstruction, u64>)
    ensures
        raw_encodes(r, revoke_encoding(*program_id, *source, *owner, signers@)),
{
    let k = |p: &Pubkey| LedgerKey::new_from_array(p.bytes);
    spl_token_2022::instruction::revoke(
        &k(program_id),
        &k(source),
        &k(owner),
        &signers.iter().map(k).collect::<Vec<_>>().iter().collect::<Vec<_>>()
    )
    .map(|i| (i.program_id.to_bytes(), i.accounts.iter().map(|m| (m.pubkey.to_bytes(), m.is_signer, m.is_writable)).collect(), i.data))
    .map_err(u64::from)
}

/// The instruction that revokes the delegate of `source`.
pub fn revoke(
    program_id: &Pubkey,
    source: &Pubkey,
    owner: &Pubkey,
    signers: &Vec<Pubkey>,
) -> (r: Result<Instruction, ProgramError>)
    ensures
        encodes(r, revoke_encoding(*program_id, *source, *owner, signers@)),
{
    Instruction::from_encoder(raw_revoke(program_id, source, owner, signers))
}

/// What `spl_token_2022::instruction::set_authority` gives for these arguments:
/// the error "incorrect program id" unless the program is one of the two token
/// programs, and else the instruction of that program with these accounts and
/// data.
pub open spec fn set_authority_encoding(
    program_id: Pubkey,
    owned: Pubkey,
    new_authority: Option<Pubkey>,
    authority_type: AuthorityType,
    owner: Pubkey,
    signers: Seq<Pubkey>,
) -> Result<InstructionView, ProgramError> {
    if !is_token_program(program_id) {
        Err(ProgramError { code: INCORRECT_PROGRAM_ID })
    } else {
        Ok(
            InstructionView {
                program_id,
                accounts: seq![writable(owned)] + authority_accounts(owner, signers),
                data: seq![6u8, authority_type.spec_code()] + packed_key_option(new_authority),
            },
        )
    }
}

/// Calls `spl_token_2022::instruction::set_authority`. It refuses, with
/// "incorrect program id", a program that is not one of the two token programs.
/// Else the instruction names the program that it was given and the accounts
/// that `set_authority_encoding` lists, with the data that it states. Keys are
/// handed over as their bytes, an error as its code. The encoder takes the kind
/// of authority as a value of its own type, which the program's decoder,
/// `TokenInstruction::unpack`, gives for the number of the kind in a
/// `SetAuthority` instruction (number 6) without a new authority.
#[verifier::external_body]
fn raw_set_authority(
    program_id: &Pubkey,
    owned: &Pubkey,
    new_authority: Option<Pubkey>,
    authority_type: AuthorityType,
    owner: &Pubkey,
    signers: &Vec<Pubkey>,
) -> (r: Result<RawInstruction, u64>)
    ensures
        raw_encodes(
            r,
            set_authority_encoding(
                *program_id,
                *owned,
                new_authority,
                authority_type,
                *owner,
                signers@,
            ),
        ),
{
    let k = |p: &Pubkey| LedgerKey::new_from_array(p.bytes);
    let Ok(TokenInstruction::SetAuthority { authority_type, .. }) =
        TokenInstruction::unpack(&[6, authority_type as u8, 0]) else { return Err(INVALID_ARGUMENT) };
    spl_token_2022::instruction::set_authority(
        &k(program_id),
        &k(owned),
        new_authority.map(|p| k(&p)).as_ref(),
        authority_type,
        &k(owner),
        &signers.iter().map(k).collect::<Vec<_>>().iter().collect::<Vec<_>>()
    )
    .map(|i| (i.program_id.to_bytes(), i.accounts.iter().map(|m| (m.pubkey.to_bytes(), m.is_signer, m.is_writable)).collect(), i.data))
    .map_err(u64::from)
}

/// The instruction that sets one authority of a mint or account, or removes it.
pub fn set_authority(
    program_id: &Pubkey,
    owned: &Pubkey,
    new_authority: Option<Pubkey>,
    authority_type: AuthorityType,
    owner: &Pubkey,
    signers: &Vec<Pubkey>,
) -> (r: Result<Instruction, ProgramError>)
    ensures
        encodes(
            r,
            set_authority_encoding(
                *program_id,
                *owned,
                new_authority,
                authority_type,
                *owner,
                signers@,
            ),
        ),
{
    Instruction::from_encoder(raw_set_authority(
        program_id,
        owned,
        new_authority,
        authority_type,
        owner,
        signers,
    ))
}

/// What `spl_token_2022::instruction::mint_to` gives for these arguments: the
/// error "incorrect program id" unless the program is one of the two token
/// programs, and else the instruction of that program with these accounts and
/// data.
pub open spec fn mint_to_encoding(
    program_id: Pubkey,
    mint: Pubkey,
    account: Pubkey,
    owner: Pubkey,
    signers: Seq<Pubkey>,
    amount: u64,
) -> Result<InstructionView, ProgramError> {
    if !is_token_program(program_id) {
        Err(ProgramError { code: INCORRECT_PROGRAM_ID })
    } else {
        Ok(
            InstructionView {
                program_id,
                accounts: seq![writable(mint), writable(account)]
                    + authority_accounts(owner, signers),
                data: seq![7u8] + spec_u64_to_le_bytes(amount),
            },
        )
    }
}

/// Calls `spl_token_2022::instruction::mint_to`. It refuses, with "incorrect
/// program id", a program that is not one of the two token programs. Else the
/// instruction names the program that it was given and the accounts that
/// `mint_to_encoding` lists, with the data that it states. Keys are handed over
/// as their bytes, an error as its code.
#[verifier::external_body]
fn raw_mint_to(
    program_id: &Pubkey,
    mint: &Pubkey,
    account: &Pubkey,
    owner: &Pubkey,
    signers: &Vec<Pubkey>,
    amount: u64,
) -> (r: Result<RawInstruction, u64>)
    ensures
        raw_encodes(
            r,
            mint_to_encoding(
                *program_id,
                *mint,
                *account,
                *owner,
                signers@,
                amount,
            ),
        ),
{
    let k = |p: &Pubkey| LedgerKey::new_from_array(p.bytes);
    spl_token_2022::instruction::mint_to(
        &k(program_id),
        &k(mint),
        &k(account),
        &k(owner),
        &signers.iter().map(k).collect::<Vec<_>>().iter().collect::<Vec<_>>(),
        amount
    )
    .map(|i| (i.program_id.to_bytes(), i.accounts.iter().map(|m| (m.pubkey.to_bytes(), m.is_signer, m.is_writable)).collect(), i.data))
    .map_err(u64::from)
}

/// The instruction that mints `amount` new tokens to `account`.
pub fn mint_to(
    program_id: &Pubkey,
    mint: &Pubkey,
    account: &Pubkey,
    owner: &Pubkey,
    signers: &Vec<Pubkey>,
    amount: u64,
) -> (r: Result<Instruction, ProgramError>)
    ensures
        encodes(
            r,
            mint_to_encoding(
                *program_id,
                *mint,
                *account,
                *owner,
                signers@,
                amount,
            ),
        ),
{
    Instruction::from_encoder(raw_mint_to(program_id, mint, account, owner, signers, amount))
}

/// What `spl_token_2022::instruction::burn` gives for these arguments: the
/// error "incorrect program id" unless the program is one of the two token
/// programs, and else the instruction of that program with these accounts and
/// data.
pub open spec fn burn_encoding(
    program_id: Pubkey,
    account: Pubkey,
    mint: Pubkey,
    authority: Pubkey,
    signers: Seq<Pubkey>,
    amount: u64,
) -> Result<InstructionView, ProgramError> {
    if !is_token_program(program_id) {
        Err(ProgramError { code: INCORRECT_PROGRAM_ID })
    } else {
        Ok(
            InstructionView {
                program_id,
                accounts: seq![writable(account), writable(mint)]
                    + authority_accounts(authority, signers),
                data: seq![8u8] + spec_u64_to_le_bytes(amount),
            },
        )
    }
}

/// Calls `spl_token_2022::instruction::burn`. It refuses, with "incorrect
/// program id", a program that is not one of the two token programs. Else the
/// instruction names the program that it was given and the accounts that
/// `burn_encoding` lists, with the data that it states. Keys are handed over as
/// their bytes, an error as its code.
#[verifier::external_body]
fn raw_burn(
    program_id: &Pubkey,
    account: &Pubkey,
    mint: &Pubkey,
    authority: &Pubkey,
    signers: &Vec<Pubkey>,
    amount: u64,
) -> (r: Result<RawInstruction, u64>)
    ensures
        raw_encodes(
            r,
            burn_encoding(
                *program_id,
                *account,
                *mint,
                *authority,
                signers@,
                amount,
            ),
        ),
{
    let k = |p: &Pubkey| LedgerKey::new_from_array(p.bytes);
    spl_token_2022::instruction::burn(
        &k(program_id),
        &k(account),
        &k(mint),
        &k(authority),
        &signers.iter().map(k).collect::<Vec<_>>().iter().collect::<Vec<_>>(),
        amount
    )
    .map(|i| (i.program_id.to_bytes(), i.accounts.iter().map(|m| (m.pubkey.to_bytes(), m.is_signer, m.is_writable)).collect(), i.data))
    .map_err(u64::from)
}

/// The instruction that burns `amount` tokens of `account`.
pub fn burn(
    program_id: &Pubkey,
    account: &Pubkey,
    mint: &Pubkey,
    authority: &Pubkey,
    signers: &Vec<Pubkey>,
    amount: u64,
) -> (r: Result<Instruction, ProgramError>)
    ensures
        encodes(
            r,
            burn_encoding(
                *program_id,
                *account,
                *mint,
                *authority,
                signers@,
                amount,
            ),
        ),
{
    Instruction::from_encoder(raw_burn(program_id, account, mint, authority, signers, amount))
}

/// What `spl_token_2022::instruction::close_account` gives for these arguments:
/// the error "incorrect program id" unless the program is one of the two token
/// programs, and else the instruction of that program with these accounts and
/// data.
pub open spec fn close_account_encoding(
    program_id: Pubkey,
    account: Pubkey,
    destination: Pubkey,
    owner: Pubkey,
    signers: Seq<Pubkey>,
) -> Result<InstructionView, ProgramError> {
    if !is_token_program(program_id) {
        Err(ProgramError { code: INCORRECT_PROGRAM_ID })
    } else {
        Ok(
            InstructionView {
                program_id,
                accounts: seq![writable(account), writable(destination)]
                    + authority_accounts(owner, signers),
                data: seq![9u8],
            },
        )
    }
}

/// Calls `spl_token_2022::instruction::close_account`. It refuses, with
/// "incorrect program id", a program that is not one of the two token programs.
/// Else the instruction names the program that it was given and the accounts
/// that `close_account_encoding` lists, with the data that it states. Keys are
/// handed over as their bytes, an error as its code.
#[verifier::external_body]
fn raw_close_account(
    program_id: &Pubkey,
    account: &Pubkey,
    destination: &Pubkey,
    owner: &Pubkey,
    signers: &Vec<Pubkey>,
) -> (r: Result<RawInstruction, u64>)
    ensures
        raw_encodes(
            r,
            close_account_encoding(
                *program_id,
                *account,
                *destination,
                *owner,
                signers@,
            ),
        ),
{
    let k = |p: &Pubkey| LedgerKey::new_from_array(p.bytes);
    spl_token_2022::instruction::close_account(
        &k(program_id),
        &k(account),
        &k(destination),
        &k(owner),
        &signers.iter().map(k).collect::<Vec<_>>().iter().collect::<Vec<_>>()
    )
    .map(|i| (i.program_id.to_bytes(), i.accounts.iter().map(|m| (m.pubkey.to_bytes(), m.is_signer, m.is_writable)).collect(), i.data))
    .map_err(u64::from)
}

/// The instruction that closes an account and moves its lamports to
/// `destination`.
pub fn close_account(
    program_id: &Pubkey,
    account: &Pubkey,
    destination: &Pubkey,
    owner: &Pubkey,
    signers: &Vec<Pubkey>,
) -> (r: Result<Instruction, ProgramError>)
    ensures
        encodes(
            r,
            close_account_encoding(
                *program_id,
                *account,
                *destination,
                *owner,
                signers@,
            ),
        ),
{
    Instruction::from_encoder(raw_close_account(program_id, account, destination, owner, signers))
}

/// What `spl_token_2022::instruction::freeze_account` gives for these
/// arguments: the error "incorrect program id" unless the program is one of the
/// two token programs, and else the instruction of that program with these
/// accounts and data.
pub open spec fn freeze_account_encoding(
    program_id: Pubkey,
    account: Pubkey,
    mint: Pubkey,
    owner: Pubkey,
    signers: Seq<Pubkey>,
) -> Result<InstructionView, ProgramError> {
    if !is_token_program(program_id) {
        Err(ProgramError { code: INCORRECT_PROGRAM_ID })
    } else {
        Ok(
            InstructionView {
                program_id,
                accounts: seq![writable(account), readonly(mint)]
                    + authority_accounts(owner, signers),
                data: seq![10u8],
            },
        )
    }
}

/// Calls `spl_token_2022::instruction::freeze_account`. It refuses, with
/// "incorrect program id", a program that is not one of the two token programs.
/// Else the instruction names the program that it was given and the accounts
/// that `freeze_account_encoding` lists, with the data that it states. Keys are
/// handed over as their bytes, an error as its code.
#[verifier::external_body]
fn raw_freeze_account(
    program_id: &Pubkey,
    account: &Pubkey,
    mint: &Pubkey,
    owner: &Pubkey,
    signers: &Vec<Pubkey>,
) -> (r: Result<RawInstruction, u64>)
    ensures
        raw_encodes(
            r,
            freeze_account_encoding(
                *program_id,
                *account,
                *mint,
                *owner,
                signers@,
            ),
        ),
{
    let k = |p: &Pubkey| LedgerKey::new_from_array(p.bytes);
    spl_token_2022::instruction::freeze_account(
        &k(program_id),
        &k(account),
        &k(mint),
        &k(owner),
        &signers.iter().map(k).collect::<Vec<_>>().iter().collect::<Vec<_>>()
    )
    .map(|i| (i.program_id.to_bytes(), i.accounts.iter().map(|m| (m.pubkey.to_bytes(), m.is_signer, m.is_writable)).collect(), i.data))
    .map_err(u64::from)
}

/// The instruction that freezes a token account.
pub fn freeze_account(
    program_id: &Pubkey,
    account: &Pubkey,
    mint: &Pubkey,
    owner: &Pubkey,
    signers: &Vec<Pubkey>,
) -> (r: Result<Instruction, ProgramError>)
    ensures
        encodes(
            r,
            freeze_account_encoding(
                *program_id,
                *account,
                *mint,
                *owner,
                signers@,
            ),
        ),
{
    Instruction::from_encoder(raw_freeze_account(program_id, account, mint, owner, signers))
}

/// What `spl_token_2022::instruction::thaw_account` gives for these arguments:
/// the error "incorrect program id" unless the program is one of the two token
/// programs, and else the instruction of that program with these accounts and
/// data.
pub open spec fn thaw_account_encoding(
    program_id: Pubkey,
    account: Pubkey,
    mint: Pubkey,
    owner: Pubkey,
    signers: Seq<Pubkey>,
) -> Result<InstructionView, ProgramError> {
    if !is_token_program(program_id) {
        Err(ProgramError { code: INCORRECT_PROGRAM_ID })
    } else {
        Ok(
            InstructionView {
                program_id,
                accounts: seq![writable(account), readonly(mint)]
                    + authority_accounts(owner, signers),
                data: seq![11u8],
            },
        )
    }
}

/// Calls `spl_token_2022::instruction::thaw_account`. It refuses, with
/// "incorrect program id", a program that is not one of the two token programs.
/// Else the instruction names the program that it was given and the accounts
/// that `thaw_account_encoding` lists, with the data that it states. Keys are
/// handed over as their bytes, an error as its code.
#[verifier::external_body]
fn raw_thaw_account(
    program_id: &Pubkey,
    account: &Pubkey,
    mint: &Pubkey,
    owner: &Pubkey,
    signers: &Vec<Pubkey>,
) -> (r: Result<RawInstruction, u64>)
    ensures
        raw_encodes(r, thaw_account_encoding(*program_id, *account, *mint, *owner, signers@)),
{
    let k = |p: &Pubkey| LedgerKey::new_from_array(p.bytes);
    spl_token_2022::instruction::thaw_account(
        &k(program_id),
        &k(account),
        &k(mint),
        &k(owner),
        &signers.iter().map(k).collect::<Vec<_>>().iter().collect::<Vec<_>>()
    )
    .map(|i| (i.program_id.to_bytes(), i.accounts.iter().map(|m| (m.pubkey.to_bytes(), m.is_signer, m.is_writable)).collect(), i.data))
    .map_err(u64::from)
}

/// The instruction that thaws a frozen token account.
pub fn thaw_account(
    program_id: &Pubkey,
    account: &Pubkey,
    mint: &Pubkey,
    owner: &Pubkey,
    signers: &Vec<Pubkey>,
) -> (r: Result<Instruction, ProgramError>)
    ensures
        encodes(r, thaw_account_encoding(*program_id, *account, *mint, *owner, signers@)),
{
    Instruction::from_encoder(raw_thaw_account(program_id, account, mint, owner, signers))
}

/// What `spl_token_2022::instruction::transfer_checked` gives for these
/// arguments: the error "incorrect program id" unless the program is one of the
/// two token programs, and else the instruction of that program with these
/// accounts and data.
pub open spec fn transfer_checked_encoding(
    program_id: Pubkey,
    source: Pubkey,
    mint: Pubkey,
    destination: Pubkey,
    authority: Pubkey,
    signers: Seq<Pubkey>,
    amount: u64,
    decimals: u8,
) -> Result<InstructionView, ProgramError> {
    if !is_token_program(program_id) {
        Err(ProgramError { code: INCORRECT_PROGRAM_ID })
    } else {
        Ok(
            InstructionView {
                program_id,
                accounts: seq![writable(source), readonly(mint), writable(destination)]
                    + authority_accounts(authority, signers),
                data: seq![12u8] + spec_u64_to_le_bytes(amount) + seq![decimals],
            },
        )
    }
}

/// Calls `spl_token_2022::instruction::transfer_checked`. It refuses, with
/// "incorrect program id", a program that is not one of the two token programs.
/// Else the instruction names the program that it was given and the accounts
/// that `transfer_checked_encoding` lists, with the data that it states. Keys
/// are handed over as their bytes, an error as its code.
#[verifier::external_body]
fn raw_transfer_checked(
    program_id: &Pubkey,
    source: &Pubkey,
    mint: &Pubkey,
    destination: &Pubkey,
    authority: &Pubkey,
    signers: &Vec<Pubkey>,
    amount: u64,
    decimals: u8,
) -> (r: Result<RawInstruction, u64>)
    ensures
        raw_encodes(
            r,
            transfer_checked_encoding(
                *program_id,
                *source,
                *mint,
                *destination,
                *authority,
                signers@,
                amount,
                decimals,
            ),
        ),
{
    let k = |p: &Pubkey| LedgerKey::new_from_array(p.bytes);
    spl_token_2022::instruction::transfer_checked(
        &k(program_id),
        &k(source),
        &k(mint),
        &k(destination),
        &k(authority),
        &signers.iter().map(k).collect::<Vec<_>>().iter().collect::<Vec<_>>(),
        amount,
        decimals
    )
    .map(|i| (i.program_id.to_bytes(), i.accounts.iter().map(|m| (m.pubkey.to_bytes(), m.is_signer, m.is_writable)).collect(), i.data))
    .map_err(u64::from)
}

/// The instruction that transfers `amount` tokens and has the program check the
/// mint and its decimals.
pub fn transfer_checked(
    program_id: &Pubkey,
    source: &Pubkey,
    mint: &Pubkey,
    destination: &Pubkey,
    authority: &Pubkey,
    signers: &Vec<Pubkey>,
    amount: u64,
    decimals: u8,
) -> (r: Result<Instruction, ProgramError>)
    ensures
        encodes(
            r,
            transfer_checked_encoding(
                *program_id,
                *source,
                *mint,
                *destination,
                *authority,
                signers@,
                amount,
                decimals,
            ),
        ),
{
    Instruction::from_encoder(raw_transfer_checked(
        program_id,
        source,
        mint,
        destination,
        authority,
        signers,
        amount,
        decimals,
    ))
}

/// What `spl_token_2022::instruction::approve_checked` gives for these
/// arguments: the error "incorrect program id" unless the program is one of the
/// two token programs, and else the instruction of that program with these
/// accounts and data.
pub open spec fn approve_checked_encoding(
    program_id: Pubkey,
    source: Pubkey,
    mint: Pubkey,
    delegate: Pubkey,
    owner: Pubkey,
    signers: Seq<Pubkey>,
    amount: u64,
    decimals: u8,
) -> Result<InstructionView, ProgramError> {
    if !is_token_program(program_id) {
        Err(ProgramError { code: INCORRECT_PROGRAM_ID })
    } else {
        Ok(
            InstructionView {
                program_id,
                accounts: seq![writable(source), readonly(mint), readonly(delegate)]
                    + authority_accounts(owner, signers),
                data: seq![13u8] + spec_u64_to_le_bytes(amount) + seq![decimals],
            },
        )
    }
}

/// Calls `spl_token_2022::instruction::approve_checked`. It refuses, with
/// "incorrect program id", a program that is not one of the two token programs.
/// Else the instruction names the program that it was given and the accounts
/// that `approve_checked_encoding` lists, with the data that it states. Keys
/// are handed over as their bytes, an error as its code.
#[verifier::external_body]
fn raw_approve_checked(
    program_id: &Pubkey,
    source: &Pubkey,
    mint: &Pubkey,
    delegate: &Pubkey,
    owner: &Pubkey,
    signers: &Vec<Pubkey>,
    amount: u64,
    decimals: u8,
) -> (r: Result<RawInstruction, u64>)
    ensures
        raw_encodes(
            r,
            approve_checked_encoding(
                *program_id,
                *source,
                *mint,
                *delegate,
                *owner,
                signers@,
                amount,
                decimals,
            ),
        ),
{
    let k = |p: &Pubkey| LedgerKey::new_from_array(p.bytes);
    spl_token_2022::instruction::approve_checked(
        &k(program_id),
        &k(source),
        &k(mint),
        &k(delegate),
        &k(owner),
        &signers.iter().map(k).collect::<Vec<_>>().iter().collect::<Vec<_>>(),
        amount,
        decimals
    )
    .map(|i| (i.program_id.to_bytes(), i.accounts.iter().map(|m| (m.pubkey.to_bytes(), m.is_signer, m.is_writable)).collect(), i.data))
    .map_err(u64::from)
}

/// The instruction that approves a delegate and has the program check the mint
/// and its decimals.
pub fn approve_checked(
    program_id: &Pubkey,
    source: &Pubkey,
    mint: &Pubkey,
    delegate: &Pubkey,
    owner: &Pubkey,
    signers: &Vec<Pubkey>,
    amount: u64,
    decimals: u8,
) -> (r: Result<Instruction, ProgramError>)
    ensures
        encodes(
            r,
            approve_checked_encoding(
                *program_id,
                *source,
                *mint,
                *delegate,
                *owner,
                signers@,
                amount,
                decimals,
            ),
        ),
{
    Instruction::from_encoder(raw_approve_checked(
        program_id,
        source,
        mint,
        delegate,
        owner,
        signers,
        amount,
        decimals,
    ))
}

/// What `spl_token_2022::instruction::mint_to_checked` gives for these
/// arguments: the error "incorrect program id" unless the program is one of the
/// two token programs, and else the instruction of that program with these
/// accounts and data.
pub open spec fn mint_to_checked_encoding(
    program_id: Pubkey,
    mint: Pubkey,
    account: Pubkey,
    owner: Pubkey,
    signers: Seq<Pubkey>,
    amount: u64,
    decimals: u8,
) -> Result<InstructionView, ProgramError> {
    if !is_token_program(program_id) {
        Err(ProgramError { code: INCORRECT_PROGRAM_ID })
    } else {
        Ok(
            InstructionView {
                program_id,
                accounts: seq![writable(mint), writable(account)]
                    + authority_accounts(owner, signers),
                data: seq![14u8] + spec_u64_to_le_bytes(amount) + seq![decimals],
            },
        )
    }
}

/// Calls `spl_token_2022::instruction::mint_to_checked`. It refuses, with
/// "incorrect program id", a program that is not one of the two token programs.
/// Else the instruction names the program that it was given and the accounts
/// that `mint_to_checked_encoding` lists, with the data that it states. Keys
/// are handed over as their bytes, an error as its code.
#[verifier::external_body]
fn raw_mint_to_checked(
    program_id: &Pubkey,
    mint: &Pubkey,
    account: &Pubkey,
    owner: &Pubkey,
    signers: &Vec<Pubkey>,
    amount: u64,
    decimals: u8,
) -> (r: Result<RawInstruction, u64>)
    ensures
        raw_encodes(
            r,
            mint_to_checked_encoding(
                *program_id,
                *mint,
                *account,
                *owner,
                signers@,
                amount,
                decimals,
            ),
        ),
{
    let k = |p: &Pubkey| LedgerKey::new_from_array(p.bytes);
    spl_token_2022::instruction::mint_to_checked(
        &k(program_id),
        &k(mint),
        &k(account),
        &k(owner),
        &signers.iter().map(k).collect::<Vec<_>>().iter().collect::<Vec<_>>(),
        amount,
        decimals
    )
    .map(|i| (i.program_id.to_bytes(), i.accounts.iter().map(|m| (m.pubkey.to_bytes(), m.is_signer, m.is_writable)).collect(), i.data))
    .map_err(u64::from)
}

/// The instruction that mints new tokens and has the program check the
/// decimals.
pub fn mint_to_checked(
    program_id: &Pubkey,
    mint: &Pubkey,
    account: &Pubkey,
    owner: &Pubkey,
    signers: &Vec<Pubkey>,
    amount: u64,
    decimals: u8,
) -> (r: Result<Instruction, ProgramError>)
    ensures
        encodes(
            r,
            mint_to_checked_encoding(
                *program_id,
                *mint,
                *account,
                *owner,
                signers@,
                amount,
                decimals,
            ),
        ),
{
    Instruction::from_encoder(raw_mint_to_checked(
        program_id,
        mint,
        account,
        owner,
        signers,
        amount,
        decimals,
    ))
}

/// What `spl_token_2022::instruction::burn_checked` gives for these arguments:
/// the error "incorrect program id" unless the program is one of the two token
/// programs, and else the instruction of that program with these accounts and
/// data.
pub open spec fn burn_checked_encoding(
    program_id: Pubkey,
    account: Pubkey,
    mint: Pubkey,
    authority: Pubkey,
    signers: Seq<Pubkey>,
    amount: u64,
    decimals: u8,
) -> Result<InstructionView, ProgramError> {
    if !is_token_program(program_id) {
        Err(ProgramError { code: INCORRECT_PROGRAM_ID })
    } else {
        Ok(
            InstructionView {
                program_id,
                accounts: seq![writable(account), writable(mint)]
                    + authority_accounts(authority, signers),
                data: seq![15u8] + spec_u64_to_le_bytes(amount) + seq![decimals],
            },
        )
    }
}

/// Calls `spl_token_2022::instruction::burn_checked`. It refuses, with
/// "incorrect program id", a program that is not one of the two token programs.
/// Else the instruction names the program that it was given and the accounts
/// that `burn_checked_encoding` lists, with the data that it states. Keys are
/// handed over as their bytes, an error as its code.
#[verifier::external_body]
fn raw_burn_checked(
    program_id: &Pubkey,
    account: &Pubkey,
    mint: &Pubkey,
    authority: &Pubkey,
    signers: &Vec<Pubkey>,
    amount: u64,
    decimals: u8,
) -> (r: Result<RawInstruction, u64>)
    ensures
        raw_encodes(
            r,
            burn_checked_encoding(
                *program_id,
                *account,
                *mint,
                *authority,
                signers@,
                amount,
                decimals,
            ),
        ),
{
    let k = |p: &Pubkey| LedgerKey::new_from_array(p.bytes);
    spl_token_2022::instruction::burn_checked(
        &k(program_id),
        &k(account),
        &k(mint),
        &k(authority),
        &signers.iter().map(k).collect::<Vec<_>>().iter().collect::<Vec<_>>(),
        amount,
        decimals
    )
    .map(|i| (i.program_id.to_bytes(), i.accounts.iter().map(|m| (m.pubkey.to_bytes(), m.is_signer, m.is_writable)).collect(), i.data))
    .map_err(u64::from)
}

/// The instruction that burns tokens and has the program check the mint and its
/// decimals.
pub fn burn_checked(
    program_id: &Pubkey,
    account: &Pubkey,
    mint: &Pubkey,
    authority: &Pubkey,
    signers: &Vec<Pubkey>,
    amount: u64,
    decimals: u8,
) -> (r: Result<Instruction, ProgramError>)
    ensures
        encodes(
            r,
            burn_checked_encoding(
                *program_id,
                *account,
                *mint,
                *authority,
                signers@,
                amount,
                decimals,
            ),
        ),
{
    Instruction::from_encoder(raw_burn_checked(
        program_id,
        account,
        mint,
        authority,
        signers,
        amount,
        decimals,
    ))
}

/// What `spl_token_2022::instruction::sync_native` gives for these arguments:
/// the error "incorrect program id" unless the program is one of the two token
/// programs, and else the instruction of that program with these accounts and
/// data.
pub open spec fn sync_native_encoding(
    program_id: Pubkey,
    account: Pubkey,
) -> Result<InstructionView, ProgramError> {
    if !is_token_program(program_id) {
        Err(ProgramError { code: INCORRECT_PROGRAM_ID })
    } else {
        Ok(
            InstructionView {
                program_id,
                accounts: seq![writable(account)],
                data: seq![17u8],
            },
        )
    }
}

/// Calls `spl_token_2022::instruction::sync_native`. It refuses, with
/// "incorrect program id", a program that is not one of the two token programs.
/// Else the instruction names the program that it was given and the accounts
/// that `sync_native_encoding` lists, with the data that it states. Keys are
/// handed over as their bytes, an error as its code.
#[verifier::external_body]
fn raw_sync_native(program_id: &Pubkey, account: &Pubkey) -> (r: Result<RawInstruction, u64>)
    ensures
        raw_encodes(r, sync_native_encoding(*program_id, *account)),
{
    let k = |p: &Pubkey| LedgerKey::new_from_array(p.bytes);
    spl_token_2022::instruction::sync_native(&k(program_id), &k(account))
    .map(|i| (i.program_id.to_bytes(), i.accounts.iter().map(|m| (m.pubkey.to_bytes(), m.is_signer, m.is_writable)).collect(), i.data))
    .map_err(u64::from)
}

/// The instruction that brings the amount of a wrapped-native account in line
/// with its lamports.
pub fn sync_native(program_id: &Pubkey, account: &Pubkey) -> (r: Result<Instruction, ProgramError>)
    ensures
        encodes(r, sync_native_encoding(*program_id, *account)),
{
    Instruction::from_encoder(raw_sync_native(program_id, account))
}

/// What `spl_token_2022::instruction::initialize_mint_close_authority` gives
/// for these arguments: the error "incorrect program id" unless the program is
/// the token program with extensions, and else the instruction of that program
/// with these accounts and data.
pub open spec fn initialize_mint_close_authority_encoding(
    program_id: Pubkey,
    mint: Pubkey,
    close_authority: Option<Pubkey>,
) -> Result<InstructionView, ProgramError> {
    if !is_token_2022(program_id) {
        Err(ProgramError { code: INCORRECT_PROGRAM_ID })
    } else {
        Ok(
            InstructionView {
                program_id,
                accounts: seq![writable(mint)],
                data: seq![25u8] + packed_key_option(close_authority),
            },
        )
    }
}

/// Calls `spl_token_2022::instruction::initialize_mint_close_authority`. It
/// refuses, with "incorrect program id", a program that is not the token
/// program with extensions. Else the instruction names the program that it was
/// given and the accounts that `initialize_mint_close_authority_encoding`
/// lists, with the data that it states. Keys are handed over as their bytes, an
/// error as its code.
#[verifier::external_body]
fn raw_initialize_mint_close_authority(
    program_id: &Pubkey,
    mint: &Pubkey,
    close_authority: Option<Pubkey>,
) -> (r: Result<RawInstruction, u64>)
    ensures
        raw_encodes(
            r,
            initialize_mint_close_authority_encoding(
                *program_id,
                *mint,
                close_authority,
            ),
        ),
{
    let k = |p: &Pubkey| LedgerKey::new_from_array(p.bytes);
    spl_token_2022::instruction::initialize_mint_close_authority(
        &k(program_id),
        &k(mint),
        close_authority.map(|p| k(&p)).as_ref()
    )
    .map(|i| (i.program_id.to_bytes(), i.accounts.iter().map(|m| (m.pubkey.to_bytes(), m.is_signer, m.is_writable)).collect(), i.data))
    .map_err(u64::from)
}

/// The instruction that gives a mint its close authority.
pub fn initialize_mint_close_authority(
    program_id: &Pubkey,
    mint: &Pubkey,
    close_authority: Option<Pubkey>,
) -> (r: Result<Instruction, ProgramError>)
    ensures
        encodes(
            r,
            initialize_mint_close_authority_encoding(
                *program_id,
                *mint,
                close_authority,
            ),
        ),
{
    Instruction::from_encoder(raw_initialize_mint_close_authority(
        program_id,
        mint,
        close_authority,
    ))
}

/// What `spl_token_2022::instruction::initialize_immutable_owner` gives for
/// these arguments: the error "incorrect program id" unless the program is one
/// of the two token programs, and else the instruction of that program with
/// these accounts and data.
pub open spec fn initialize_immutable_owner_encoding(
    program_id: Pubkey,
    account: Pubkey,
) -> Result<InstructionView, ProgramError> {
    if !is_token_program(program_id) {
        Err(ProgramError { code: INCORRECT_PROGRAM_ID })
    } else {
        Ok(
            InstructionView {
                program_id,
                accounts: seq![writable(account)],
                data: seq![22u8],
            },
        )
    }
}

/// Calls `spl_token_2022::instruction::initialize_immutable_owner`. It refuses,
/// with "incorrect program id", a program that is not one of the two token
/// programs. Else the instruction names the program that it was given and the
/// accounts that `initialize_immutable_owner_encoding` lists, with the data
/// that it states. Keys are handed over as their bytes, an error as its code.
#[verifier::external_body]
fn raw_initialize_immutable_owner(
    program_id: &Pubkey,
    account: &Pubkey,
) -> (r: Result<RawInstruction, u64>)
    ensures
        raw_encodes(r, initialize_immutable_owner_encoding(*program_id, *account)),
{
    let k = |p: &Pubkey| LedgerKey::new_from_array(p.bytes);
    spl_token_2022::instruction::initialize_immutable_owner(&k(program_id), &k(account))
    .map(|i| (i.program_id.to_bytes(), i.accounts.iter().map(|m| (m.pubkey.to_bytes(), m.is_signer, m.is_writable)).collect(), i.data))
    .map_err(u64::from)
}

/// The instruction that fixes the owner of a token account for good.
pub fn initialize_immutable_owner(
    program_id: &Pubkey,
    account: &Pubkey,
) -> (r: Result<Instruction, ProgramError>)
    ensures
        encodes(r, initialize_immutable_owner_encoding(*program_id, *account)),
{
    Instruction::from_encoder(raw_initialize_immutable_owner(program_id, account))
}

/// What `spl_token_2022::instruction::reallocate` gives for these arguments:
/// the error "incorrect program id" unless the program is the token program
/// with extensions, and else the instruction of that program with these
/// accounts and data.
pub open spec fn reallocate_encoding(
    program_id: Pubkey,
    account: Pubkey,
    payer: Pubkey,
    owner: Pubkey,
    signers: Seq<Pubkey>,
    extension_types: Seq<ExtensionType>,
) -> Result<InstructionView, ProgramError> {
    if !is_token_2022(program_id) {
        Err(ProgramError { code: INCORRECT_PROGRAM_ID })
    } else {
        Ok(
            InstructionView {
                program_id,
                accounts: seq![
                    writable(account),
                    paying(payer),
                    readonly(spec_system_program_id()),
                ]
                    + authority_accounts(owner, signers),
                data: seq![29u8] + stored_extension_types(extension_types),
            },
        )
    }
}

/// Calls `spl_token_2022::instruction::reallocate`. It refuses, with "incorrect
/// program id", a program that is not the token program with extensions. Else
/// the instruction names the program that it was given and the accounts that
/// `reallocate_encoding` lists, with the data that it states. Keys are handed
/// over as their bytes, an error as its code.
#[verifier::external_body]
fn raw_reallocate(
    program_id: &Pubkey,
    account: &Pubkey,
    payer: &Pubkey,
    owner: &Pubkey,
    signers: &Vec<Pubkey>,
    extension_types: &Vec<ExtensionType>,
) -> (r: Result<RawInstruction, u64>)
    ensures
        raw_encodes(
            r,
            reallocate_encoding(
                *program_id,
                *account,
                *payer,
                *owner,
                signers@,
                extension_types@,
            ),
        ),
{
    let k = |p: &Pubkey| LedgerKey::new_from_array(p.bytes);
    let extension_types: Vec<_> = extension_types.iter().map(|e| LedgerExtensionType::try_from(*e as u16).unwrap()).collect();
    spl_token_2022::instruction::reallocate(
        &k(program_id),
        &k(account),
        &k(payer),
        &k(owner),
        &signers.iter().map(k).collect::<Vec<_>>().iter().collect::<Vec<_>>(),
        &extension_types
    )
    .map(|i| (i.program_id.to_bytes(), i.accounts.iter().map(|m| (m.pubkey.to_bytes(), m.is_signer, m.is_writable)).collect(), i.data))
    .map_err(u64::from)
}

/// The instruction that enlarges an account so that it can hold the given
/// extensions.
pub fn reallocate(
    program_id: &Pubkey,
    account: &Pubkey,
    payer: &Pubkey,
    owner: &Pubkey,
    signers: &Vec<Pubkey>,
    extension_types: &Vec<ExtensionType>,
) -> (r: Result<Instruction, ProgramError>)
    ensures
        encodes(
            r,
            reallocate_encoding(
                *program_id,
                *account,
                *payer,
                *owner,
                signers@,
                extension_types@,
            ),
        ),
{
    Instruction::from_encoder(raw_reallocate(
        program_id,
        account,
        payer,
        owner,
        signers,
        extension_types,
    ))
}

/// What `spl_token_2022::instruction::create_native_mint` gives for these
/// arguments: the error "incorrect program id" unless the program is the token
/// program with extensions, and else the instruction of that program with these
/// accounts and data.
pub open spec fn create_native_mint_encoding(
    program_id: Pubkey,
    payer: Pubkey,
) -> Result<InstructionView, ProgramError> {
    if !is_token_2022(program_id) {
        Err(ProgramError { code: INCORRECT_PROGRAM_ID })
    } else {
        Ok(
            InstructionView {
                program_id,
                accounts: seq![
                    paying(payer),
                    writable(spec_native_mint_2022_id()),
                    readonly(spec_system_program_id()),
                ],
                data: seq![31u8],
            },
        )
    }
}

/// Calls `spl_token_2022::instruction::create_native_mint`. It refuses, with
/// "incorrect program id", a program that is not the token program with
/// extensions. Else the instruction names the program that it was given and the
/// accounts that `create_native_mint_encoding` lists, with the data that it
/// states. Keys are handed over as their bytes, an error as its code.
#[verifier::external_body]
fn raw_create_native_mint(program_id: &Pubkey, payer: &Pubkey) -> (r: Result<RawInstruction, u64>)
    ensures
        raw_encodes(r, create_native_mint_encoding(*program_id, *payer)),
{
    let k = |p: &Pubkey| LedgerKey::new_from_array(p.bytes);
    spl_token_2022::instruction::create_native_mint(&k(program_id), &k(payer))
    .map(|i| (i.program_id.to_bytes(), i.accounts.iter().map(|m| (m.pubkey.to_bytes(), m.is_signer, m.is_writable)).collect(), i.data))
    .map_err(u64::from)
}

/// The instruction that creates the native mint.
pub fn create_native_mint(
    program_id: &Pubkey,
    payer: &Pubkey,
) -> (r: Result<Instruction, ProgramError>)
    ensures
        encodes(r, create_native_mint_encoding(*program_id, *payer)),
{
    Instruction::from_encoder(raw_create_native_mint(program_id, payer))
}

/// What `spl_token_2022::instruction::initialize_non_transferable_mint` gives
/// for these arguments: the error "incorrect program id" unless the program is
/// the token program with extensions, and else the instruction of that program
/// with these accounts and data.
pub open spec fn initialize_non_transferable_mint_encoding(
    program_id: Pubkey,
    mint: Pubkey,
) -> Result<InstructionView, ProgramError> {
    if !is_token_2022(program_id) {
        Err(ProgramError { code: INCORRECT_PROGRAM_ID })
    } else {
        Ok(
            InstructionView {
                program_id,
                accounts: seq![writable(mint)],
                data: seq![32u8],
            },
        )
    }
}

/// Calls `spl_token_2022::instruction::initialize_non_transferable_mint`. It
/// refuses, with "incorrect program id", a program that is not the token
/// program with extensions. Else the instruction names the program that it was
/// given and the accounts that `initialize_non_transferable_mint_encoding`
/// lists, with the data that it states. Keys are handed over as their bytes, an
/// error as its code.
#[verifier::external_body]
fn raw_initialize_non_transferable_mint(
    program_id: &Pubkey,
    mint: &Pubkey,
) -> (r: Result<RawInstruction, u64>)
    ensures
        raw_encodes(r, initialize_non_transferable_mint_encoding(*program_id, *mint)),
{
    let k = |p: &Pubkey| LedgerKey::new_from_array(p.bytes);
    spl_token_2022::instruction::initialize_non_transferable_mint(&k(program_id), &k(mint))
    .map(|i| (i.program_id.to_bytes(), i.accounts.iter().map(|m| (m.pubkey.to_bytes(), m.is_signer, m.is_writable)).collect(), i.data))
    .map_err(u64::from)
}

/// The instruction that makes the tokens of a mint non-transferable.
pub fn initialize_non_transferable_mint(
    program_id: &Pubkey,
    mint: &Pubkey,
) -> (r: Result<Instruction, ProgramError>)
    ensures
        encodes(r, initialize_non_transferable_mint_encoding(*program_id, *mint)),
{
    Instruction::from_encoder(raw_initialize_non_transferable_mint(program_id, mint))
}

/// What `spl_token_2022::instruction::initialize_permanent_delegate` gives for
/// these arguments: the error "incorrect program id" unless the program is the
/// token program with extensions, and else the instruction of that program with
/// these accounts and data.
pub open spec fn initialize_permanent_delegate_encoding(
    program_id: Pubkey,
    mint: Pubkey,
    delegate: Pubkey,
) -> Result<InstructionView, ProgramError> {
    if !is_token_2022(program_id) {
        Err(ProgramError { code: INCORRECT_PROGRAM_ID })
    } else {
        Ok(
            InstructionView {
                program_id,
                accounts: seq![writable(mint)],
                data: seq![35u8] + delegate@,
            },
        )
    }
}

/// Calls `spl_token_2022::instruction::initialize_permanent_delegate`. It
/// refuses, with "incorrect program id", a program that is not the token
/// program with extensions. Else the instruction names the program that it was
/// given and the accounts that `initialize_permanent_delegate_encoding` lists,
/// with the data that it states. Keys are handed over as their bytes, an error
/// as its code.
#[verifier::external_body]
fn raw_initialize_permanent_delegate(
    program_id: &Pubkey,
    mint: &Pubkey,
    delegate: &Pubkey,
) -> (r: Result<RawInstruction, u64>)
    ensures
        raw_encodes(r, initialize_permanent_delegate_encoding(*program_id, *mint, *delegate)),
{
    let k = |p: &Pubkey| LedgerKey::new_from_array(p.bytes);
    spl_token_2022::instruction::initialize_permanent_delegate(
        &k(program_id),
        &k(mint),
        &k(delegate)
    )
    .map(|i| (i.program_id.to_bytes(), i.accounts.iter().map(|m| (m.pubkey.to_bytes(), m.is_signer, m.is_writable)).collect(), i.data))
    .map_err(u64::from)
}

/// The instruction that gives a mint its permanent delegate.
pub fn initialize_permanent_delegate(
    program_id: &Pubkey,
    mint: &Pubkey,
    delegate: &Pubkey,
) -> (r: Result<Instruction, ProgramError>)
    ensures
        encodes(r, initialize_permanent_delegate_encoding(*program_id, *mint, *delegate)),
{
    Instruction::from_encoder(raw_initialize_permanent_delegate(program_id, mint, delegate))
}

/// What `spl_token_2022::instruction::withdraw_excess_lamports` gives for these
/// arguments: the error "incorrect program id" unless the program is the token
/// program with extensions, and else the instruction of that program with these
/// accounts and data.
pub open spec fn withdraw_excess_lamports_encoding(
    program_id: Pubkey,
    source: Pubkey,
    destination: Pubkey,
    authority: Pubkey,
    signers: Seq<Pubkey>,
) -> Result<InstructionView, ProgramError> {
    if !is_token_2022(program_id) {
        Err(ProgramError { code: INCORRECT_PROGRAM_ID })
    } else {
        Ok(
            InstructionView {
                program_id,
                accounts: seq![writable(source), writable(destination)]
                    + authority_accounts(authority, signers),
                data: seq![38u8],
            },
        )
    }
}

/// Calls `spl_token_2022::instruction::withdraw_excess_lamports`. It refuses,
/// with "incorrect program id", a program that is not the token program with
/// extensions. Else the instruction names the program that it was given and the
/// accounts that `withdraw_excess_lamports_encoding` lists, with the data that
/// it states. Keys are handed over as their bytes, an error as its code.
#[verifier::external_body]
fn raw_withdraw_excess_lamports(
    program_id: &Pubkey,
    source: &Pubkey,
    destination: &Pubkey,
    authority: &Pubkey,
    signers: &Vec<Pubkey>,
) -> (r: Result<RawInstruction, u64>)
    ensures
        raw_encodes(
            r,
            withdraw_excess_lamports_encoding(
                *program_id,
                *source,
                *destination,
                *authority,
                signers@,
            ),
        ),
{
    let k = |p: &Pubkey| LedgerKey::new_from_array(p.bytes);
    spl_token_2022::instruction::withdraw_excess_lamports(
        &k(program_id),
        &k(source),
        &k(destination),
        &k(authority),
        &signers.iter().map(k).collect::<Vec<_>>().iter().collect::<Vec<_>>()
    )
    .map(|i| (i.program_id.to_bytes(), i.accounts.iter().map(|m| (m.pubkey.to_bytes(), m.is_signer, m.is_writable)).collect(), i.data))
    .map_err(u64::from)
}

/// The instruction that moves the lamports that an account holds beyond its
/// rent to `destination`.
pub fn withdraw_excess_lamports(
    program_id: &Pubkey,
    source: &Pubkey,
    destination: &Pubkey,
    authority: &Pubkey,
    signers: &Vec<Pubkey>,
) -> (r: Result<Instruction, ProgramError>)
    ensures
        encodes(
            r,
            withdraw_excess_lamports_encoding(
                *program_id,
                *source,
                *destination,
                *authority,
                signers@,
            ),
        ),
{
    Instruction::from_encoder(raw_withdraw_excess_lamports(
        program_id,
        source,
        destination,
        authority,
        signers,
    ))
}

} // verus!
