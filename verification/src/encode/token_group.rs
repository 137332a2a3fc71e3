//! The instructions of the token-group interface.
use crate::encode::parts::{key_fits, readonly, signing, stored_key, writable};
use crate::instruction::{Instruction, InstructionView, RawInstruction, raw_view};
use crate::pubkey::Pubkey;
use solana_program::pubkey::Pubkey as LedgerKey;
use vstd::bytes::spec_u32_to_le_bytes;
use vstd::prelude::*;

verus! {

/// The instruction that
/// `spl_token_group_interface::instruction::initialize_group` gives for these
/// arguments: for the program that it is given, with these accounts and data.
pub open spec fn initialize_group_encoding(
    program_id: Pubkey,
    group: Pubkey,
    mint: Pubkey,
    mint_authority: Pubkey,
    update_authority: Option<Pubkey>,
    max_size: u32,
) -> InstructionView {
    InstructionView {
        program_id,
        accounts: seq![writable(group), readonly(mint), signing(mint_authority)],
        data: seq![121u8, 113u8, 108u8, 39u8, 54u8, 51u8, 0u8, 4u8]
            + stored_key(update_authority)
            + spec_u32_to_le_bytes(max_size),
    }
}

/// Calls `spl_token_group_interface::instruction::initialize_group`, which
/// stops on an optional address that is all zero. The instruction names the
/// program that it was given and the accounts that `initialize_group_encoding`
/// lists, with the data that it states. Keys are handed over as their bytes.
#[verifier::external_body]
fn raw_initialize_group(
    program_id: &Pubkey,
    group: &Pubkey,
    mint: &Pubkey,
    mint_authority: &Pubkey,
    update_authority: Option<Pubkey>,
    max_size: u32,
) -> (r: RawInstruction)
    requires
        key_fits(update_authority),
    ensures
        raw_view(r) == initialize_group_encoding(
            *program_id,
            *group,
            *mint,
            *mint_authority,
            update_authority,
            max_size,
        ),
{
    let k = |p: &Pubkey| LedgerKey::new_from_array(p.bytes);
    let i = spl_token_group_interface::instruction::initialize_group(
        &k(program_id),
        &k(group),
        &k(mint),
        &k(mint_authority),
        update_authority.map(|p| k(&p)),
        max_size
    );
    (i.program_id.to_bytes(), i.accounts.iter().map(|m| (m.pubkey.to_bytes(), m.is_signer, m.is_writable)).collect(), i.data)
}

/// The instruction that initializes a group of tokens.
pub fn initialize_group(
    program_id: &Pubkey,
    group: &Pubkey,
    mint: &Pubkey,
    mint_authority: &Pubkey,
    update_authority: Option<Pubkey>,
    max_size: u32,
) -> (r: Instruction)
    requires
        key_fits(update_authority),
    ensures
        r@ == initialize_group_encoding(
            *program_id,
            *group,
            *mint,
            *mint_authority,
            update_authority,
            max_size,
        ),
{
    Instruction::from_raw(raw_initialize_group(
        program_id,
        group,
        mint,
        mint_authority,
        update_authority,
        max_size,
    ))
}

/// The instruction that
/// `spl_token_group_interface::instruction::update_group_max_size` gives for
/// these arguments: for the program that it is given, with these accounts and
/// data.
pub open spec fn update_group_max_size_encoding(
    program_id: Pubkey,
    group: Pubkey,
    update_authority: Pubkey,
    max_size: u32,
) -> InstructionView {
    InstructionView {
        program_id,
        accounts: seq![writable(group), signing(update_authority)],
        data: seq![108u8, 37u8, 171u8, 143u8, 248u8, 30u8, 18u8, 110u8]
            + spec_u32_to_le_bytes(max_size),
    }
}

/// Calls `spl_token_group_interface::instruction::update_group_max_size`. The
/// instruction names the program that it was given and the accounts that
/// `update_group_max_size_encoding` lists, with the data that it states. Keys
/// are handed over as their bytes.
#[verifier::external_body]
fn raw_update_group_max_size(
    program_id: &Pubkey,
    group: &Pubkey,
    update_authority: &Pubkey,
    max_size: u32,
) -> (r: RawInstruction)
    ensures
        raw_view(r) == update_group_max_size_encoding(
            *program_id,
            *group,
            *update_authority,
            max_size,
        ),
{
    let k = |p: &Pubkey| LedgerKey::new_from_array(p.bytes);
    let i = spl_token_group_interface::instruction::update_group_max_size(
        &k(program_id),
        &k(group),
        &k(update_authority),
        max_size
    );
    (i.program_id.to_bytes(), i.accounts.iter().map(|m| (m.pubkey.to_bytes(), m.is_signer, m.is_writable)).collect(), i.data)
}

/// The instruction that changes the largest size of a group.
pub fn update_group_max_size(
    program_id: &Pubkey,
    group: &Pubkey,
    update_authority: &Pubkey,
    max_size: u32,
) -> (r: Instruction)
    ensures
        r@ == update_group_max_size_encoding(
            *program_id,
            *group,
            *update_authority,
            max_size,
        ),
{
    Instruction::from_raw(raw_update_group_max_size(program_id, group, update_authority, max_size))
}

/// The instruction that
/// `spl_token_group_interface::instruction::update_group_authority` gives for
/// these arguments: for the program that it is given, with these accounts and
/// data.
pub open spec fn update_group_authority_encoding(
    program_id: Pubkey,
    group: Pubkey,
    current_authority: Pubkey,
    new_authority: Option<Pubkey>,
) -> InstructionView {
    InstructionView {
        program_id,
        accounts: seq![writable(group), signing(current_authority)],
        data: seq![161u8, 105u8, 88u8, 1u8, 237u8, 221u8, 216u8, 203u8] + stored_key(new_authority),
    }
}

/// Calls `spl_token_group_interface::instruction::update_group_authority`,
/// which stops on an optional address that is all zero. The instruction names
/// the program that it was given and the accounts that
/// `update_group_authority_encoding` lists, with the data that it states. Keys
/// are handed over as their bytes.
#[verifier::external_body]
fn raw_update_group_authority(
    program_id: &Pubkey,
    group: &Pubkey,
    current_authority: &Pubkey,
    new_authority: Option<Pubkey>,
) -> (r: RawInstruction)
    requires
        key_fits(new_authority),
    ensures
        raw_view(r) == update_group_authority_encoding(
            *program_id,
            *group,
            *current_authority,
            new_authority,
        ),
{
    let k = |p: &Pubkey| LedgerKey::new_from_array(p.bytes);
    let i = spl_token_group_interface::instruction::update_group_authority(
        &k(program_id),
        &k(group),
        &k(current_authority),
        new_authority.map(|p| k(&p))
    );
    (i.program_id.to_bytes(), i.accounts.iter().map(|m| (m.pubkey.to_bytes(), m.is_signer, m.is_writable)).collect(), i.data)
}

/// The instruction that hands a group to another update authority, or to none.
pub fn update_group_authority(
    program_id: &Pubkey,
    group: &Pubkey,
    current_authority: &Pubkey,
    new_authority: Option<Pubkey>,
) -> (r: Instruction)
    requires
        key_fits(new_authority),
    ensures
        r@ == update_group_authority_encoding(
            *program_id,
            *group,
            *current_authority,
            new_authority,
        ),
{
    Instruction::from_raw(raw_update_group_authority(
        program_id,
        group,
        current_authority,
        new_authority,
    ))
}

/// The instruction that
/// `spl_token_group_interface::instruction::initialize_member` gives for these
/// arguments: for the program that it is given, with these accounts and data.
pub open spec fn initialize_member_encoding(
    program_id: Pubkey,
    member: Pubkey,
    member_mint: Pubkey,
    member_mint_authority: Pubkey,
    group: Pubkey,
    group_update_authority: Pubkey,
) -> InstructionView {
    InstructionView {
        program_id,
        accounts: seq![
            writable(member),
            readonly(member_mint),
            signing(member_mint_authority),
            writable(group),
            signing(group_update_authority),
        ],
        data: seq![152u8, 32u8, 222u8, 176u8, 223u8, 237u8, 116u8, 134u8],
    }
}

/// Calls `spl_token_group_interface::instruction::initialize_member`. The
/// instruction names the program that it was given and the accounts that
/// `initialize_member_encoding` lists, with the data that it states. Keys are
/// handed over as their bytes.
#[verifier::external_body]
fn raw_initialize_member(
    program_id: &Pubkey,
    member: &Pubkey,
    member_mint: &Pubkey,
    member_mint_authority: &Pubkey,
    group: &Pubkey,
    group_update_authority: &Pubkey,
) -> (r: RawInstruction)
    ensures
        raw_view(r) == initialize_member_encoding(
            *program_id,
            *member,
            *member_mint,
            *member_mint_authority,
            *group,
            *group_update_authority,
        ),
{
    let k = |p: &Pubkey| LedgerKey::new_from_array(p.bytes);
    let i = spl_token_group_interface::instruction::initialize_member(
        &k(program_id),
        &k(member),
        &k(member_mint),
        &k(member_mint_authority),
        &k(group),
        &k(group_update_authority)
    );
    (i.program_id.to_bytes(), i.accounts.iter().map(|m| (m.pubkey.to_bytes(), m.is_signer, m.is_writable)).collect(), i.data)
}

/// The instruction that makes a mint a member of a group.
pub fn initialize_member(
    program_id: &Pubkey,
    member: &Pubkey,
    member_mint: &Pubkey,
    member_mint_authority: &Pubkey,
    group: &Pubkey,
    group_update_authority: &Pubkey,
) -> (r: Instruction)
    ensures
        r@ == initialize_member_encoding(
            *program_id,
            *member,
            *member_mint,
            *member_mint_authority,
            *group,
            *group_update_authority,
        ),
{
    Instruction::from_raw(raw_initialize_member(
        program_id,
        member,
        member_mint,
        member_mint_authority,
        group,
        group_update_authority,
    ))
}

} // verus!
