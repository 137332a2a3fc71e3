//! What the programs' instructions are made of: the entries of their
//! account lists and the fields of their data.
use crate::instruction::AccountMeta;
use crate::optional_keys::ElGamalPubkey;
use crate::programs::spec_instructions_sysvar_id;
use crate::pubkey::Pubkey;
use crate::signers::{multisig_signers, only_authority};
use crate::state::{ExtensionType, FieldView};
use vstd::bytes::{spec_u16_to_le_bytes, spec_u32_to_le_bytes};
use vstd::prelude::*;
use vstd::utf8::encode_utf8;

verus! {

/// True when a text can stand in an instruction's data, which hold it in
/// UTF-8 behind its length in bytes as a 32-bit number.
pub open spec fn text_fits(text: Seq<char>) -> bool {
    encode_utf8(text).len() <= u32::MAX
}

/// True when the text that a metadata field carries can stand in an
/// instruction's data: the key of a field of the user's own.
pub open spec fn field_fits(field: FieldView) -> bool {
    field is Key ==> text_fits(field->Key_0)
}

/// A text as an instruction's data hold it: its length in bytes as a 32-bit
/// number, least significant byte first, then its bytes in UTF-8.
pub open spec fn stored_text(text: Seq<char>) -> Seq<u8> {
    spec_u32_to_le_bytes(encode_utf8(text).len() as u32) + encode_utf8(text)
}

/// A metadata field as an instruction's data hold it: the number of the
/// field, followed by its key where it is a field of the user's own.
pub open spec fn stored_field(field: FieldView) -> Seq<u8> {
    match field {
        FieldView::Name => seq![0u8],
        FieldView::Symbol => seq![1u8],
        FieldView::Uri => seq![2u8],
        FieldView::Key(key) => seq![3u8] + stored_text(key),
    }
}

/// A list of extensions as an instruction's data hold it: the number of
/// each in two bytes, least significant first, in order.
pub open spec fn stored_extension_types(types: Seq<ExtensionType>) -> Seq<u8>
    decreases types.len(),
{
    if types.len() == 0 {
        Seq::empty()
    } else {
        spec_u16_to_le_bytes(types[0].spec_code()) + stored_extension_types(types.drop_first())
    }
}

/// An account that the instruction may write to and that need not sign.
pub open spec fn writable(key: Pubkey) -> AccountMeta {
    AccountMeta { pubkey: key, is_signer: false, is_writable: true }
}

/// An account that the instruction only reads and that need not sign.
pub open spec fn readonly(key: Pubkey) -> AccountMeta {
    AccountMeta { pubkey: key, is_signer: false, is_writable: false }
}

/// An account that signs and is only read.
pub open spec fn signing(key: Pubkey) -> AccountMeta {
    AccountMeta { pubkey: key, is_signer: true, is_writable: false }
}

/// An account that signs and may be written to.
pub open spec fn paying(key: Pubkey) -> AccountMeta {
    AccountMeta { pubkey: key, is_signer: true, is_writable: true }
}

/// Each key as a writable account, in order.
pub open spec fn all_writable(keys: Seq<Pubkey>) -> Seq<AccountMeta> {
    keys.map_values(|k: Pubkey| writable(k))
}

/// Each key as a read-only account, in order.
pub open spec fn all_readonly(keys: Seq<Pubkey>) -> Seq<AccountMeta> {
    keys.map_values(|k: Pubkey| readonly(k))
}

/// Each key as a signing account, in order.
pub open spec fn all_signing(keys: Seq<Pubkey>) -> Seq<AccountMeta> {
    keys.map_values(|k: Pubkey| signing(k))
}

/// The entries of an authority and its co-signers: the authority, which
/// signs exactly when there is no co-signer, then each co-signer, signing.
pub open spec fn authority_accounts(authority: Pubkey, signers: Seq<Pubkey>) -> Seq<AccountMeta> {
    seq![AccountMeta { pubkey: authority, is_signer: signers.len() == 0, is_writable: false }]
        + all_signing(signers)
}

/// What an operation lists for its authority, given the keys that the
/// caller signs with. Where these are the authority alone, or none, the
/// authority is listed as signing and nobody else is listed. In every other
/// case the authority is listed as not signing, and every signer follows
/// it, signing, in the caller's order.
pub proof fn lemma_authority_is_listed_by_the_signer_rule(authority: Pubkey, signers: Seq<Pubkey>)
    ensures
        only_authority(authority, signers) || signers.len() == 0 ==> authority_accounts(
            authority,
            multisig_signers(authority, signers),
        ) == seq![signing(authority)],
        !only_authority(authority, signers) && signers.len() > 0 ==> authority_accounts(
            authority,
            multisig_signers(authority, signers),
        ) == seq![readonly(authority)] + all_signing(signers),
{
    let listed = authority_accounts(authority, multisig_signers(authority, signers));
    if only_authority(authority, signers) || signers.len() == 0 {
        assert(listed =~= seq![signing(authority)]);
    } else {
        assert(listed =~= seq![readonly(authority)] + all_signing(signers));
    }
}

/// Where the program finds the proof of an instruction: in another
/// instruction of the same transaction, so many instructions on, or in a
/// context account.
pub enum ProofPlace {
    InstructionOffset(i8),
    ContextStateAccount(Pubkey),
}

/// The offset of a proof that stands in the instruction after its own.
pub const NEXT_INSTRUCTION: i8 = 1;

/// Where the proof of an operation is: in the context account that is
/// given, or else in the next instruction.
pub open spec fn proof_place(context_state_account: Option<Pubkey>) -> ProofPlace {
    match context_state_account {
        Some(account) => ProofPlace::ContextStateAccount(account),
        None => ProofPlace::InstructionOffset(NEXT_INSTRUCTION),
    }
}

/// The account in which the program finds a proof: the context account
/// that holds it, or the instructions account where the proof is in
/// another instruction of the transaction.
pub open spec fn proof_account(place: ProofPlace) -> AccountMeta {
    match place {
        ProofPlace::ContextStateAccount(account) => readonly(account),
        ProofPlace::InstructionOffset(_) => readonly(spec_instructions_sysvar_id()),
    }
}

/// The byte that says how far from the instruction its proof stands: the
/// offset as a signed byte, or 0 where a context account holds the proof.
pub open spec fn proof_offset(place: ProofPlace) -> u8 {
    match place {
        ProofPlace::ContextStateAccount(_) => 0,
        ProofPlace::InstructionOffset(offset) => if offset >= 0 {
            offset as u8
        } else {
            (offset + 0x100) as u8
        },
    }
}

/// A truth value as one byte.
pub open spec fn flag(value: bool) -> u8 {
    if value {
        1
    } else {
        0
    }
}

/// `n` zero bytes.
pub open spec fn zeros(n: nat) -> Seq<u8> {
    Seq::new(n, |i: int| 0u8)
}

/// A signed 16-bit number in two bytes, least significant first, a
/// negative one in two's complement.
pub open spec fn le_i16(value: i16) -> Seq<u8> {
    if value >= 0 {
        spec_u16_to_le_bytes(value as u16)
    } else {
        spec_u16_to_le_bytes((value + 0x1_0000) as u16)
    }
}

/// An optional address in the form that tells the two cases apart by a
/// leading byte: 1 and the 32 bytes of the address, or 0 alone.
pub open spec fn packed_key_option(key: Option<Pubkey>) -> Seq<u8> {
    match key {
        Some(k) => seq![1u8] + k@,
        None => seq![0u8],
    }
}

/// True when an optional address can be stored in 32 bytes, where the
/// all-zero address stands for none: every address but the all-zero one
/// can.
pub open spec fn key_fits(key: Option<Pubkey>) -> bool {
    key is Some ==> !key->Some_0.is_zero()
}

/// An optional address in 32 bytes: its own, or all zero for none.
pub open spec fn stored_key(key: Option<Pubkey>) -> Seq<u8> {
    match key {
        Some(k) => k@,
        None => zeros(32),
    }
}

/// True when an optional encryption key can be stored in 32 bytes, where
/// the all-zero key stands for none.
pub open spec fn elgamal_key_fits(key: Option<ElGamalPubkey>) -> bool {
    key is Some ==> !key->Some_0.is_zero()
}

/// An optional encryption key in 32 bytes: its own, or all zero for none.
pub open spec fn stored_elgamal_key(key: Option<ElGamalPubkey>) -> Seq<u8> {
    match key {
        Some(k) => k@,
        None => zeros(32),
    }
}

} // verus!
