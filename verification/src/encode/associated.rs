//! The associated-account program: the address of an owner's account for a
//! mint, and the instructions that create that account.
use crate::instruction::{raw_view, AccountMeta, Instruction, InstructionView, RawInstruction};
use crate::programs::spec_system_program_id;
use crate::pubkey::Pubkey;
use solana_program::pubkey::Pubkey as LedgerKey;
use vstd::prelude::*;

verus! {

/// The associated-account program.
pub const ASSOCIATED_TOKEN_PROGRAM_ID: [u8; 32] = [
    140, 151, 37, 143, 78, 36, 137, 241, 187, 61, 16, 41, 20, 142, 13, 131,
    11, 90, 19, 153, 218, 255, 16, 132, 4, 142, 123, 216, 219, 233, 248, 89,
];

/// The address of the associated-account program.
pub open spec fn spec_associated_token_program_id() -> Pubkey {
    Pubkey { bytes: ASSOCIATED_TOKEN_PROGRAM_ID }
}

/// The address that the associated-account program derives for the account
/// of `wallet` for `mint` under the token program `token_program`, if the
/// search for one succeeds.
pub uninterp spec fn associated_address(
    wallet: Pubkey,
    mint: Pubkey,
    token_program: Pubkey,
) -> Option<Pubkey>;

/// Calls `Pubkey::try_find_program_address` of `solana_program` with the
/// seeds that `spl_associated_token_account` derives its addresses from
/// (the wallet, the token program and the mint, in that order) and with the
/// associated-account program's id. The address depends on these keys
/// alone.
#[verifier::external_body]
fn find_associated_address(wallet: &Pubkey, mint: &Pubkey, token_program: &Pubkey) -> (r: Option<
    Pubkey,
>)
    ensures
        r == associated_address(*wallet, *mint, *token_program),
{
    LedgerKey::try_find_program_address(
        &[&wallet.bytes, &token_program.bytes, &mint.bytes],
        &spl_associated_token_account::id(),
    )
    .map(|(address, _)| Pubkey { bytes: address.to_bytes() })
}

/// The address of the account of `wallet` for `mint` under `token_program`.
pub fn get_associated_token_address_with_program_id(
    wallet: &Pubkey,
    mint: &Pubkey,
    token_program: &Pubkey,
) -> (r: Option<Pubkey>)
    ensures
        r == associated_address(*wallet, *mint, *token_program),
{
    find_associated_address(wallet, mint, token_program)
}

/// The instruction that creates the associated account `associated` of
/// `wallet` for `mint`, paid for by `funding`. The idempotent form does
/// nothing where the account exists already.
pub open spec fn create_associated_instruction(
    funding: Pubkey,
    wallet: Pubkey,
    mint: Pubkey,
    token_program: Pubkey,
    associated: Pubkey,
    idempotent: bool,
) -> InstructionView {
    InstructionView {
        program_id: spec_associated_token_program_id(),
        accounts: seq![
            AccountMeta { pubkey: funding, is_signer: true, is_writable: true },
            AccountMeta { pubkey: associated, is_signer: false, is_writable: true },
            AccountMeta { pubkey: wallet, is_signer: false, is_writable: false },
            AccountMeta { pubkey: mint, is_signer: false, is_writable: false },
            AccountMeta { pubkey: spec_system_program_id(), is_signer: false, is_writable: false },
            AccountMeta { pubkey: token_program, is_signer: false, is_writable: false },
        ],
        data: if idempotent {
            seq![1u8]
        } else {
            seq![0u8]
        },
    }
}

/// Calls `create_associated_token_account` of
/// `spl_associated_token_account::instruction`, which stops where no
/// address can be derived. It names the funding account (signing, written),
/// the derived account (written), the wallet, the mint, the system program
/// and the token program, and its data are the one byte 0.
#[verifier::external_body]
fn raw_create_associated_token_account(
    funding: &Pubkey,
    wallet: &Pubkey,
    mint: &Pubkey,
    token_program: &Pubkey,
) -> (r: RawInstruction)
    requires
        associated_address(*wallet, *mint, *token_program) is Some,
    ensures
        raw_view(r) == create_associated_instruction(
            *funding,
            *wallet,
            *mint,
            *token_program,
            associated_address(*wallet, *mint, *token_program)->Some_0,
            false,
        ),
{
    let k = |p: &Pubkey| LedgerKey::new_from_array(p.bytes);
    let i = spl_associated_token_account::instruction::create_associated_token_account(&k(funding), &k(wallet), &k(mint), &k(token_program));
    (i.program_id.to_bytes(), i.accounts.iter().map(|m| (m.pubkey.to_bytes(), m.is_signer, m.is_writable)).collect(), i.data)
}

/// Calls `create_associated_token_account_idempotent` of
/// `spl_associated_token_account::instruction`, which stops where no
/// address can be derived. It names the same accounts as the plain form,
/// and its data are the one byte 1.
#[verifier::external_body]
fn raw_create_associated_token_account_idempotent(
    funding: &Pubkey,
    wallet: &Pubkey,
    mint: &Pubkey,
    token_program: &Pubkey,
) -> (r: RawInstruction)
    requires
        associated_address(*wallet, *mint, *token_program) is Some,
    ensures
        raw_view(r) == create_associated_instruction(
            *funding,
            *wallet,
            *mint,
            *token_program,
            associated_address(*wallet, *mint, *token_program)->Some_0,
            true,
        ),
{
    let k = |p: &Pubkey| LedgerKey::new_from_array(p.bytes);
    let i = spl_associated_token_account::instruction::create_associated_token_account_idempotent(&k(funding), &k(wallet), &k(mint), &k(token_program));
    (i.program_id.to_bytes(), i.accounts.iter().map(|m| (m.pubkey.to_bytes(), m.is_signer, m.is_writable)).collect(), i.data)
}

/// What creating the associated account gives: the instruction, or nothing
/// where no address can be derived for the account.
pub open spec fn create_associated(
    funding: Pubkey,
    wallet: Pubkey,
    mint: Pubkey,
    token_program: Pubkey,
    idempotent: bool,
) -> Option<InstructionView> {
    match associated_address(wallet, mint, token_program) {
        Some(associated) => Some(
            create_associated_instruction(
                funding,
                wallet,
                mint,
                token_program,
                associated,
                idempotent,
            ),
        ),
        None => None,
    }
}

/// True when `r` holds the instruction that `expected` names, or nothing
/// where it names none.
pub open spec fn gives(r: Option<Instruction>, expected: Option<InstructionView>) -> bool {
    match expected {
        Some(v) => r is Some && r->Some_0@ == v,
        None => r is None,
    }
}

/// The instruction that creates the associated account of `wallet` for
/// `mint`, or nothing where no address can be derived for it.
pub fn create_associated_token_account(
    funding: &Pubkey,
    wallet: &Pubkey,
    mint: &Pubkey,
    token_program: &Pubkey,
) -> (r: Option<Instruction>)
    ensures
        gives(r, create_associated(*funding, *wallet, *mint, *token_program, false)),
{
    match find_associated_address(wallet, mint, token_program) {
        Some(_) => Some(
            Instruction::from_raw(
                raw_create_associated_token_account(funding, wallet, mint, token_program),
            ),
        ),
        None => None,
    }
}

/// The instruction that creates the associated account of `wallet` for
/// `mint` unless it exists, or nothing where no address can be derived for
/// it.
pub fn create_associated_token_account_idempotent(
    funding: &Pubkey,
    wallet: &Pubkey,
    mint: &Pubkey,
    token_program: &Pubkey,
) -> (r: Option<Instruction>)
    ensures
        gives(r, create_associated(*funding, *wallet, *mint, *token_program, true)),
{
    match find_associated_address(wallet, mint, token_program) {
        Some(_) => Some(
            Instruction::from_raw(
                raw_create_associated_token_account_idempotent(funding, wallet, mint, token_program),
            ),
        ),
        None => None,
    }
}

} // verus!
