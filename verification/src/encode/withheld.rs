//! The withdrawal of the confidential fees that are withheld in token
//! accounts.
use crate::confidential::AeCiphertext;
use crate::encode::parts::{
    all_writable, authority_accounts, proof_account, proof_offset, proof_place, writable,
    ProofPlace, NEXT_INSTRUCTION,
};
use crate::error::{ProgramError, INCORRECT_PROGRAM_ID, INVALID_INSTRUCTION_DATA};
use crate::instruction::{encodes, raw_encodes, Instruction, InstructionView, RawInstruction};
use crate::programs::is_token_2022;
use crate::pubkey::Pubkey;
use crate::token::opt_key;
use bytemuck::Zeroable;
use solana_program::pubkey::Pubkey as LedgerKey;
use spl_token_2022::extension::confidential_transfer_fee::instruction::inner_withdraw_withheld_tokens_from_accounts;
use spl_token_2022::proof::ProofLocation;
use spl_token_2022::solana_zk_token_sdk::zk_token_elgamal::pod::AeCiphertext as PodAeCiphertext;
use vstd::prelude::*;

verus! {

/// What `inner_withdraw_withheld_tokens_from_accounts` of
/// `spl_token_2022::extension::confidential_transfer_fee::instruction`
/// gives for these arguments and a proof at `place`: the error "incorrect
/// program id" unless the program is the token program with extensions,
/// then the error "invalid instruction data" for more than 255 sources, and
/// else the instruction of that program with these accounts and data.
pub open spec fn withdraw_withheld_tokens_from_accounts_encoding_at(
    program_id: Pubkey,
    mint: Pubkey,
    destination: Pubkey,
    new_decryptable_available_balance: AeCiphertext,
    authority: Pubkey,
    signers: Seq<Pubkey>,
    sources: Seq<Pubkey>,
    place: ProofPlace,
) -> Result<InstructionView, ProgramError> {
    if !is_token_2022(program_id) {
        Err(ProgramError { code: INCORRECT_PROGRAM_ID })
    } else if sources.len() > 255 {
        Err(ProgramError { code: INVALID_INSTRUCTION_DATA })
    } else {
        Ok(
            InstructionView {
                program_id,
                accounts: seq![writable(mint), writable(destination), proof_account(place)]
                    + authority_accounts(authority, signers) + all_writable(sources),
                data: seq![37u8, 2u8, sources.len() as u8, proof_offset(place)]
                    + new_decryptable_available_balance@,
            },
        )
    }
}

/// What `inner_withdraw_withheld_tokens_from_accounts` gives for these
/// arguments, with the proof in the context account, or in the next
/// instruction where none is given.
pub open spec fn withdraw_withheld_tokens_from_accounts_encoding(
    program_id: Pubkey,
    mint: Pubkey,
    destination: Pubkey,
    new_decryptable_available_balance: AeCiphertext,
    authority: Pubkey,
    signers: Seq<Pubkey>,
    sources: Seq<Pubkey>,
    context_state_account: Option<Pubkey>,
) -> Result<InstructionView, ProgramError> {
    withdraw_withheld_tokens_from_accounts_encoding_at(
        program_id,
        mint,
        destination,
        new_decryptable_available_balance,
        authority,
        signers,
        sources,
        proof_place(context_state_account),
    )
}

/// Calls `inner_withdraw_withheld_tokens_from_accounts` of
/// `spl_token_2022::extension::confidential_transfer_fee::instruction` with
/// the proof in another instruction of the transaction, `offset`
/// instructions on. `keys` holds the token program, the mint, the
/// destination and the authority, then the signers up to index
/// `sources_start`, then the sources. The encoder does not read the proof
/// itself, so it is handed an all-zero one. It refuses a program that is
/// not the token program with extensions, then more than 255 sources; else
/// the instruction names the program that it was given and has the
/// accounts and the data that
/// `withdraw_withheld_tokens_from_accounts_encoding_at` states.
#[verifier::external_body]
fn raw_withdraw_with_proof_at_offset(
    keys: &Vec<Pubkey>,
    sources_start: usize,
    balance: &AeCiphertext,
    offset: i8,
) -> (r: Result<RawInstruction, u64>)
    requires
        4 <= sources_start <= keys@.len(),
        offset != 0,
    ensures
        raw_encodes(
            r,
            withdraw_withheld_tokens_from_accounts_encoding_at(
                keys@[0],
                keys@[1],
                keys@[2],
                *balance,
                keys@[3],
                keys@.subrange(4, sources_start as int),
                keys@.subrange(sources_start as int, keys@.len() as int),
                ProofPlace::InstructionOffset(offset),
            ),
        ),
{
    let v: Vec<_> = keys.iter().map(|p| LedgerKey::new_from_array(p.bytes)).collect();
    let r: Vec<_> = v.iter().collect();
    let location = ProofLocation::InstructionOffset(offset.try_into().unwrap(), &Zeroable::zeroed());
    inner_withdraw_withheld_tokens_from_accounts(&v[0], &v[1], &v[2], &PodAeCiphertext(balance.0), &v[3], &r[4..sources_start], &r[sources_start..], location)
        .map(|i| (i.program_id.to_bytes(), i.accounts.iter().map(|m| (m.pubkey.to_bytes(), m.is_signer, m.is_writable)).collect(), i.data))
        .map_err(u64::from)
}

/// Calls `inner_withdraw_withheld_tokens_from_accounts` of
/// `spl_token_2022::extension::confidential_transfer_fee::instruction` with
/// the proof in a context account. `keys` holds the token program, the
/// mint, the destination, the authority and the context account, then the
/// signers up to index `sources_start`, then the sources. It refuses a
/// program that is not the token program with extensions, then more than
/// 255 sources; else the instruction names the program that it was given
/// and has the accounts and the data that
/// `withdraw_withheld_tokens_from_accounts_encoding_at` states.
#[verifier::external_body]
fn raw_withdraw_with_proof_account(keys: &Vec<Pubkey>, sources_start: usize, balance: &AeCiphertext) -> (r:
    Result<RawInstruction, u64>)
    requires
        5 <= sources_start <= keys@.len(),
    ensures
        raw_encodes(
            r,
            withdraw_withheld_tokens_from_accounts_encoding_at(
                keys@[0],
                keys@[1],
                keys@[2],
                *balance,
                keys@[3],
                keys@.subrange(5, sources_start as int),
                keys@.subrange(sources_start as int, keys@.len() as int),
                ProofPlace::ContextStateAccount(keys@[4]),
            ),
        ),
{
    let v: Vec<_> = keys.iter().map(|p| LedgerKey::new_from_array(p.bytes)).collect();
    let r: Vec<_> = v.iter().collect();
    let location = ProofLocation::ContextStateAccount(&v[4]);
    inner_withdraw_withheld_tokens_from_accounts(&v[0], &v[1], &v[2], &PodAeCiphertext(balance.0), &v[3], &r[5..sources_start], &r[sources_start..], location)
        .map(|i| (i.program_id.to_bytes(), i.accounts.iter().map(|m| (m.pubkey.to_bytes(), m.is_signer, m.is_writable)).collect(), i.data))
        .map_err(u64::from)
}

/// Puts the keys of `more` at the end of `keys`.
fn push_keys(keys: &mut Vec<Pubkey>, more: &Vec<Pubkey>)
    ensures
        final(keys)@ == old(keys)@ + more@,
{
    let mut i: usize = 0;
    while i < more.len()
        invariant
            i <= more.len(),
            keys@ == old(keys)@ + more@.subrange(0, i as int),
        decreases more.len() - i,
    {
        keys.push(more[i]);
        i += 1;
    }
    assert(more@.subrange(0, more@.len() as int) == more@);
}

/// The instruction that moves the confidential fees withheld in `sources`
/// to `destination`, with its proof in the next instruction or in a context
/// account.
pub fn withdraw_withheld_tokens_from_accounts(
    program_id: &Pubkey,
    mint: &Pubkey,
    destination: &Pubkey,
    new_decryptable_available_balance: &AeCiphertext,
    authority: &Pubkey,
    signers: &Vec<Pubkey>,
    sources: &Vec<Pubkey>,
    context_state_account: Option<&Pubkey>,
) -> (r: Result<Instruction, ProgramError>)
    ensures
        encodes(
            r,
            withdraw_withheld_tokens_from_accounts_encoding(
                *program_id,
                *mint,
                *destination,
                *new_decryptable_available_balance,
                *authority,
                signers@,
                sources@,
                opt_key(context_state_account),
            ),
        ),
{
    let mut keys: Vec<Pubkey> = Vec::new();
    keys.push(*program_id);
    keys.push(*mint);
    keys.push(*destination);
    keys.push(*authority);
    if let Some(account) = context_state_account {
        keys.push(*account);
    }
    let ghost fixed = keys@;
    push_keys(&mut keys, signers);
    let sources_start = keys.len();
    push_keys(&mut keys, sources);
    assert(keys@.subrange(fixed.len() as int, sources_start as int) =~= signers@);
    assert(keys@.subrange(sources_start as int, keys@.len() as int) =~= sources@);
    let raw = match context_state_account {
        None => raw_withdraw_with_proof_at_offset(
            &keys,
            sources_start,
            new_decryptable_available_balance,
            NEXT_INSTRUCTION,
        ),
        Some(_) => raw_withdraw_with_proof_account(
            &keys,
            sources_start,
            new_decryptable_available_balance,
        ),
    };
    Instruction::from_encoder(raw)
}

} // verus!
