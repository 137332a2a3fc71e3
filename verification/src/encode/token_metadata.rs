//! The instructions of the token-metadata interface.
use crate::encode::parts::{
    field_fits,
    stored_field,
    stored_text,
    text_fits,
    flag,
    readonly,
    signing,
    writable,
};
use crate::instruction::{Instruction, InstructionView, RawInstruction, raw_view};
use crate::optional_keys::OptionalNonZeroPubkey;
use crate::pubkey::Pubkey;
use crate::state::{Field, FieldView};
use solana_program::pubkey::Pubkey as LedgerKey;
use spl_token_metadata_interface::state::Field as LedgerField;
use vstd::prelude::*;

verus! {

/// The instruction that `spl_token_metadata_interface::instruction::initialize`
/// gives for these arguments: for the program that it is given, with these
/// accounts and data.
pub open spec fn initialize_encoding(
    program_id: Pubkey,
    metadata: Pubkey,
    update_authority: Pubkey,
    mint: Pubkey,
    mint_authority: Pubkey,
    name: Seq<char>,
    symbol: Seq<char>,
    uri: Seq<char>,
) -> InstructionView {
    InstructionView {
        program_id,
        accounts: seq![
            writable(metadata),
            readonly(update_authority),
            readonly(mint),
            signing(mint_authority),
        ],
        data: seq![210u8, 225u8, 30u8, 162u8, 88u8, 184u8, 77u8, 141u8]
            + stored_text(name)
            + stored_text(symbol)
            + stored_text(uri),
    }
}

/// Calls `spl_token_metadata_interface::instruction::initialize`, which stops
/// on a text of more bytes than a 32-bit number can count. The instruction
/// names the program that it was given and the accounts that
/// `initialize_encoding` lists, with the data that it states. Keys are handed
/// over as their bytes.
#[verifier::external_body]
fn raw_initialize(
    program_id: &Pubkey,
    metadata: &Pubkey,
    update_authority: &Pubkey,
    mint: &Pubkey,
    mint_authority: &Pubkey,
    name: &str,
    symbol: &str,
    uri: &str,
) -> (r: RawInstruction)
    requires
        text_fits(name@),
        text_fits(symbol@),
        text_fits(uri@),
    ensures
        raw_view(r) == initialize_encoding(
            *program_id,
            *metadata,
            *update_authority,
            *mint,
            *mint_authority,
            name@,
            symbol@,
            uri@,
        ),
{
    let k = |p: &Pubkey| LedgerKey::new_from_array(p.bytes);
    let i = spl_token_metadata_interface::instruction::initialize(
        &k(program_id),
        &k(metadata),
        &k(update_authority),
        &k(mint),
        &k(mint_authority),
        name.to_string(),
        symbol.to_string(),
        uri.to_string()
    );
    (i.program_id.to_bytes(), i.accounts.iter().map(|m| (m.pubkey.to_bytes(), m.is_signer, m.is_writable)).collect(), i.data)
}

/// The instruction that initializes the metadata of a token.
pub fn initialize(
    program_id: &Pubkey,
    metadata: &Pubkey,
    update_authority: &Pubkey,
    mint: &Pubkey,
    mint_authority: &Pubkey,
    name: &str,
    symbol: &str,
    uri: &str,
) -> (r: Instruction)
    requires
        text_fits(name@),
        text_fits(symbol@),
        text_fits(uri@),
    ensures
        r@ == initialize_encoding(
            *program_id,
            *metadata,
            *update_authority,
            *mint,
            *mint_authority,
            name@,
            symbol@,
            uri@,
        ),
{
    Instruction::from_raw(raw_initialize(
        program_id,
        metadata,
        update_authority,
        mint,
        mint_authority,
        name,
        symbol,
        uri,
    ))
}

/// The instruction that
/// `spl_token_metadata_interface::instruction::update_field` gives for these
/// arguments: for the program that it is given, with these accounts and data.
pub open spec fn update_field_encoding(
    program_id: Pubkey,
    metadata: Pubkey,
    update_authority: Pubkey,
    field: FieldView,
    value: Seq<char>,
) -> InstructionView {
    InstructionView {
        program_id,
        accounts: seq![writable(metadata), signing(update_authority)],
        data: seq![221u8, 233u8, 49u8, 45u8, 181u8, 202u8, 220u8, 200u8]
            + stored_field(field)
            + stored_text(value),
    }
}

/// Calls `spl_token_metadata_interface::instruction::update_field`, which stops
/// on a text of more bytes than a 32-bit number can count. The instruction
/// names the program that it was given and the accounts that
/// `update_field_encoding` lists, with the data that it states. Keys are handed
/// over as their bytes.
#[verifier::external_body]
fn raw_update_field(
    program_id: &Pubkey,
    metadata: &Pubkey,
    update_authority: &Pubkey,
    field: &Field,
    value: &str,
) -> (r: RawInstruction)
    requires
        field_fits(field@),
        text_fits(value@),
    ensures
        raw_view(r) == update_field_encoding(
            *program_id,
            *metadata,
            *update_authority,
            field@,
            value@,
        ),
{
    let k = |p: &Pubkey| LedgerKey::new_from_array(p.bytes);
    let field = match field {
        Field::Name => LedgerField::Name,
        Field::Symbol => LedgerField::Symbol,
        Field::Uri => LedgerField::Uri,
        Field::Key(key) => LedgerField::Key(key.clone()),
    };
    let i = spl_token_metadata_interface::instruction::update_field(
        &k(program_id),
        &k(metadata),
        &k(update_authority),
        field,
        value.to_string()
    );
    (i.program_id.to_bytes(), i.accounts.iter().map(|m| (m.pubkey.to_bytes(), m.is_signer, m.is_writable)).collect(), i.data)
}

/// The instruction that sets one field of a token's metadata.
pub fn update_field(
    program_id: &Pubkey,
    metadata: &Pubkey,
    update_authority: &Pubkey,
    field: &Field,
    value: &str,
) -> (r: Instruction)
    requires
        field_fits(field@),
        text_fits(value@),
    ensures
        r@ == update_field_encoding(
            *program_id,
            *metadata,
            *update_authority,
            field@,
            value@,
        ),
{
    Instruction::from_raw(raw_update_field(program_id, metadata, update_authority, field, value))
}

/// The instruction that `spl_token_metadata_interface::instruction::remove_key`
/// gives for these arguments: for the program that it is given, with these
/// accounts and data.
pub open spec fn remove_key_encoding(
    program_id: Pubkey,
    metadata: Pubkey,
    update_authority: Pubkey,
    key: Seq<char>,
    idempotent: bool,
) -> InstructionView {
    InstructionView {
        program_id,
        accounts: seq![writable(metadata), signing(update_authority)],
        data: seq![234u8, 18u8, 32u8, 56u8, 89u8, 141u8, 37u8, 181u8, flag(idempotent)]
            + stored_text(key),
    }
}

/// Calls `spl_token_metadata_interface::instruction::remove_key`, which stops
/// on a text of more bytes than a 32-bit number can count. The instruction
/// names the program that it was given and the accounts that
/// `remove_key_encoding` lists, with the data that it states. Keys are handed
/// over as their bytes.
#[verifier::external_body]
fn raw_remove_key(
    program_id: &Pubkey,
    metadata: &Pubkey,
    update_authority: &Pubkey,
    key: &str,
    idempotent: bool,
) -> (r: RawInstruction)
    requires
        text_fits(key@),
    ensures
        raw_view(r) == remove_key_encoding(
            *program_id,
            *metadata,
            *update_authority,
            key@,
            idempotent,
        ),
{
    let k = |p: &Pubkey| LedgerKey::new_from_array(p.bytes);
    let i = spl_token_metadata_interface::instruction::remove_key(
        &k(program_id),
        &k(metadata),
        &k(update_authority),
        key.to_string(),
        idempotent
    );
    (i.program_id.to_bytes(), i.accounts.iter().map(|m| (m.pubkey.to_bytes(), m.is_signer, m.is_writable)).collect(), i.data)
}

/// The instruction that removes a field of the user's own from a token's
/// metadata.
pub fn remove_key(
    program_id: &Pubkey,
    metadata: &Pubkey,
    update_authority: &Pubkey,
    key: &str,
    idempotent: bool,
) -> (r: Instruction)
    requires
        text_fits(key@),
    ensures
        r@ == remove_key_encoding(
            *program_id,
            *metadata,
            *update_authority,
            key@,
            idempotent,
        ),
{
    Instruction::from_raw(raw_remove_key(program_id, metadata, update_authority, key, idempotent))
}

/// The instruction that
/// `spl_token_metadata_interface::instruction::update_authority` gives for
/// these arguments: for the program that it is given, with these accounts and
/// data.
pub open spec fn update_authority_encoding(
    program_id: Pubkey,
    metadata: Pubkey,
    current_authority: Pubkey,
    new_authority: OptionalNonZeroPubkey,
) -> InstructionView {
    InstructionView {
        program_id,
        accounts: seq![writable(metadata), signing(current_authority)],
        data: seq![215u8, 228u8, 166u8, 228u8, 84u8, 100u8, 86u8, 123u8] + new_authority.0@,
    }
}

/// Calls `spl_token_metadata_interface::instruction::update_authority`. The
/// instruction names the program that it was given and the accounts that
/// `update_authority_encoding` lists, with the data that it states. Keys are
/// handed over as their bytes.
#[verifier::external_body]
fn raw_update_authority(
    program_id: &Pubkey,
    metadata: &Pubkey,
    current_authority: &Pubkey,
    new_authority: OptionalNonZeroPubkey,
) -> (r: RawInstruction)
    ensures
        raw_view(r) == update_authority_encoding(
            *program_id,
            *metadata,
            *current_authority,
            new_authority,
        ),
{
    let k = |p: &Pubkey| LedgerKey::new_from_array(p.bytes);
    let i = spl_token_metadata_interface::instruction::update_authority(
        &k(program_id),
        &k(metadata),
        &k(current_authority),
        bytemuck::cast(new_authority.0.bytes)
    );
    (i.program_id.to_bytes(), i.accounts.iter().map(|m| (m.pubkey.to_bytes(), m.is_signer, m.is_writable)).collect(), i.data)
}

/// The instruction that hands the metadata to another update authority, or to
/// none.
pub fn update_authority(
    program_id: &Pubkey,
    metadata: &Pubkey,
    current_authority: &Pubkey,
    new_authority: OptionalNonZeroPubkey,
) -> (r: Instruction)
    ensures
        r@ == update_authority_encoding(
            *program_id,
            *metadata,
            *current_authority,
            new_authority,
        ),
{
    Instruction::from_raw(raw_update_authority(
        program_id,
        metadata,
        current_authority,
        new_authority,
    ))
}

} // verus!
