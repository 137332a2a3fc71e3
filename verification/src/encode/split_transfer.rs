//! The confidential transfers whose proofs were verified beforehand, each
//! into a context account of its own.
use crate::confidential::{
    AeCiphertext, CloseSplitContextStateAccounts, SourceDecryptHandles,
    TransferSplitContextStateAccounts, TransferWithFeeSplitContextStateAccounts,
};
use crate::encode::parts::{flag, readonly, signing, writable};
use crate::error::{ProgramError, INCORRECT_PROGRAM_ID};
use crate::instruction::{
    encodes, raw_encodes, AccountMeta, Instruction, InstructionView, RawInstruction,
};
use crate::programs::{is_token_2022, spec_token_2022_id};
use crate::pubkey::Pubkey;
use solana_program::pubkey::Pubkey as LedgerKey;
use spl_token_2022::extension::confidential_transfer::instruction::{
    transfer_with_fee_and_split_proofs, transfer_with_split_proofs,
    CloseSplitContextStateAccounts as LedgerCloseAccounts,
    TransferSplitContextStateAccounts as LedgerSplitAccounts,
    TransferWithFeeSplitContextStateAccounts as LedgerFeeSplitAccounts,
};
use spl_token_2022::solana_zk_token_sdk::zk_token_elgamal::pod::AeCiphertext as PodAeCiphertext;
use vstd::prelude::*;

verus! {

/// The accounts that a transfer names for its proofs, after the source, the
/// mint and the destination. Where the transfer closes the context
/// accounts, they are written to, the destination of their lamports
/// follows them, then their authority, which signs, and the proof program.
/// Where it leaves them open, they are only read. The source's authority
/// comes last and signs.
pub open spec fn split_context_accounts(
    c: TransferSplitContextStateAccounts,
    authority: Pubkey,
) -> Seq<AccountMeta> {
    match c.close_split_context_state_accounts {
        Some(close) => seq![
            writable(c.equality_proof),
            writable(c.ciphertext_validity_proof),
            writable(c.range_proof),
            writable(close.lamport_destination),
            signing(c.authority),
            readonly(close.zk_token_proof_program),
            signing(authority),
        ],
        None => seq![
            readonly(c.equality_proof),
            readonly(c.ciphertext_validity_proof),
            readonly(c.range_proof),
            signing(authority),
        ],
    }
}

/// The accounts that a transfer with a fee names for its proofs, after the
/// source, the mint and the destination; they follow the same rule as
/// those of a transfer without a fee.
pub open spec fn fee_split_context_accounts(
    c: TransferWithFeeSplitContextStateAccounts,
    authority: Pubkey,
) -> Seq<AccountMeta> {
    match c.close_split_context_state_accounts {
        Some(close) => seq![
            writable(c.equality_proof),
            writable(c.transfer_amount_ciphertext_validity_proof),
            writable(c.fee_sigma_proof),
            writable(c.fee_ciphertext_validity_proof),
            writable(c.range_proof),
            writable(close.lamport_destination),
            signing(c.authority),
            readonly(close.zk_token_proof_program),
            signing(authority),
        ],
        None => seq![
            readonly(c.equality_proof),
            readonly(c.transfer_amount_ciphertext_validity_proof),
            readonly(c.fee_sigma_proof),
            readonly(c.fee_ciphertext_validity_proof),
            readonly(c.range_proof),
            signing(authority),
        ],
    }
}

/// The data of a transfer whose proofs are in context accounts: the
/// numbers of the extension and of the instruction, the new decryptable
/// balance of the source, whether the program is to do nothing while a
/// context account is uninitialized, whether it is to close the context
/// accounts, and the source's decryption handles.
pub open spec fn split_transfer_data(
    balance: AeCiphertext,
    no_op: bool,
    close: bool,
    handles: SourceDecryptHandles,
) -> Seq<u8> {
    seq![27u8, 13u8] + balance@ + seq![flag(no_op), flag(close)] + handles@
}

/// What `transfer_with_split_proofs` of
/// `spl_token_2022::extension::confidential_transfer::instruction` gives
/// for these arguments: the error "incorrect program id" unless the program
/// is the token program with extensions, and else the instruction of that
/// program with these accounts and data.
pub open spec fn transfer_with_split_proofs_encoding(
    program_id: Pubkey,
    source: Pubkey,
    mint: Pubkey,
    destination: Pubkey,
    new_source_decryptable_available_balance: AeCiphertext,
    authority: Pubkey,
    context_accounts: TransferSplitContextStateAccounts,
    source_decrypt_handles: SourceDecryptHandles,
) -> Result<InstructionView, ProgramError> {
    if !is_token_2022(program_id) {
        Err(ProgramError { code: INCORRECT_PROGRAM_ID })
    } else {
        Ok(
            InstructionView {
                program_id,
                accounts: seq![writable(source), readonly(mint), writable(destination)]
                    + split_context_accounts(context_accounts, authority),
                data: split_transfer_data(
                    new_source_decryptable_available_balance,
                    context_accounts.no_op_on_uninitialized_split_context_state,
                    context_accounts.close_split_context_state_accounts is Some,
                    source_decrypt_handles,
                ),
            },
        )
    }
}

/// What `transfer_with_fee_and_split_proofs` of
/// `spl_token_2022::extension::confidential_transfer::instruction` gives
/// for these arguments: the error "incorrect program id" unless the program
/// is the token program with extensions, and else the instruction of that
/// program with these accounts and data. The data are those of a transfer
/// without a fee.
pub open spec fn transfer_with_fee_and_split_proofs_encoding(
    program_id: Pubkey,
    source: Pubkey,
    mint: Pubkey,
    destination: Pubkey,
    new_source_decryptable_available_balance: AeCiphertext,
    authority: Pubkey,
    context_accounts: TransferWithFeeSplitContextStateAccounts,
    source_decrypt_handles: SourceDecryptHandles,
) -> Result<InstructionView, ProgramError> {
    if !is_token_2022(program_id) {
        Err(ProgramError { code: INCORRECT_PROGRAM_ID })
    } else {
        Ok(
            InstructionView {
                program_id,
                accounts: seq![writable(source), readonly(mint), writable(destination)]
                    + fee_split_context_accounts(context_accounts, authority),
                data: split_transfer_data(
                    new_source_decryptable_available_balance,
                    context_accounts.no_op_on_uninitialized_split_context_state,
                    context_accounts.close_split_context_state_accounts is Some,
                    source_decrypt_handles,
                ),
            },
        )
    }
}

/// True when one of the accounts of `instruction` is `key`.
pub open spec fn names_account(instruction: InstructionView, key: Pubkey) -> bool {
    exists|i: int| 0 <= i < instruction.accounts.len() && instruction.accounts[i].pubkey == key
}

/// For the token program with extensions a transfer with split proofs is
/// always encoded. The instruction names the context account of each of
/// its three proofs, whether it closes them or not, and its data hold the
/// source's new decryptable balance behind the two numbers that they start
/// with.
pub proof fn lemma_split_transfer_names_its_context_accounts(
    source: Pubkey,
    mint: Pubkey,
    destination: Pubkey,
    balance: AeCiphertext,
    authority: Pubkey,
    context_accounts: TransferSplitContextStateAccounts,
    handles: SourceDecryptHandles,
)
    ensures
        ({
            let r = transfer_with_split_proofs_encoding(
                spec_token_2022_id(),
                source,
                mint,
                destination,
                balance,
                authority,
                context_accounts,
                handles,
            );
            &&& r is Ok
            &&& names_account(r->Ok_0, context_accounts.equality_proof)
            &&& names_account(r->Ok_0, context_accounts.ciphertext_validity_proof)
            &&& names_account(r->Ok_0, context_accounts.range_proof)
            &&& r->Ok_0.data.subrange(2, 38) == balance@
        }),
{
    let r = transfer_with_split_proofs_encoding(
        spec_token_2022_id(),
        source,
        mint,
        destination,
        balance,
        authority,
        context_accounts,
        handles,
    );
    let v = r->Ok_0;
    assert(v.accounts[3].pubkey == context_accounts.equality_proof);
    assert(v.accounts[4].pubkey == context_accounts.ciphertext_validity_proof);
    assert(v.accounts[5].pubkey == context_accounts.range_proof);
    assert(v.data.subrange(2, 38) =~= balance@);
}

/// For the token program with extensions a transfer with a fee and split
/// proofs is always encoded. The instruction names the context account of
/// each of its five proofs, whether it closes them or not, and its data
/// hold the source's new decryptable balance behind the two numbers that
/// they start with.
pub proof fn lemma_split_transfer_with_fee_names_its_context_accounts(
    source: Pubkey,
    mint: Pubkey,
    destination: Pubkey,
    balance: AeCiphertext,
    authority: Pubkey,
    context_accounts: TransferWithFeeSplitContextStateAccounts,
    handles: SourceDecryptHandles,
)
    ensures
        ({
            let r = transfer_with_fee_and_split_proofs_encoding(
                spec_token_2022_id(),
                source,
                mint,
                destination,
                balance,
                authority,
                context_accounts,
                handles,
            );
            &&& r is Ok
            &&& names_account(r->Ok_0, context_accounts.equality_proof)
            &&& names_account(r->Ok_0, context_accounts.transfer_amount_ciphertext_validity_proof)
            &&& names_account(r->Ok_0, context_accounts.fee_sigma_proof)
            &&& names_account(r->Ok_0, context_accounts.fee_ciphertext_validity_proof)
            &&& names_account(r->Ok_0, context_accounts.range_proof)
            &&& r->Ok_0.data.subrange(2, 38) == balance@
        }),
{
    let r = transfer_with_fee_and_split_proofs_encoding(
        spec_token_2022_id(),
        source,
        mint,
        destination,
        balance,
        authority,
        context_accounts,
        handles,
    );
    let v = r->Ok_0;
    assert(v.accounts[3].pubkey == context_accounts.equality_proof);
    assert(v.accounts[4].pubkey == context_accounts.transfer_amount_ciphertext_validity_proof);
    assert(v.accounts[5].pubkey == context_accounts.fee_sigma_proof);
    assert(v.accounts[6].pubkey == context_accounts.fee_ciphertext_validity_proof);
    assert(v.accounts[7].pubkey == context_accounts.range_proof);
    assert(v.data.subrange(2, 38) =~= balance@);
}

/// The context accounts of a transfer whose keys are, in order: the
/// equality proof, the ciphertext-validity proof, the range proof and the
/// authority, then, where the accounts are to be closed, the destination of
/// their lamports and the proof program.
pub open spec fn split_accounts(keys: Seq<Pubkey>, no_op: bool, close: bool) -> TransferSplitContextStateAccounts {
    TransferSplitContextStateAccounts {
        equality_proof: keys[0],
        ciphertext_validity_proof: keys[1],
        range_proof: keys[2],
        authority: keys[3],
        no_op_on_uninitialized_split_context_state: no_op,
        close_split_context_state_accounts: if close {
            Some(
                CloseSplitContextStateAccounts {
                    lamport_destination: keys[4],
                    zk_token_proof_program: keys[5],
                },
            )
        } else {
            None
        },
    }
}

/// The context accounts of a transfer with a fee whose keys are, in order:
/// the equality proof, the ciphertext-validity proof of the amount, the
/// fee-sigma proof, the ciphertext-validity proof of the fee, the range
/// proof and the authority, then, where the accounts are to be closed, the
/// destination of their lamports and the proof program.
pub open spec fn fee_split_accounts(keys: Seq<Pubkey>, no_op: bool, close: bool) -> TransferWithFeeSplitContextStateAccounts {
    TransferWithFeeSplitContextStateAccounts {
        equality_proof: keys[0],
        transfer_amount_ciphertext_validity_proof: keys[1],
        fee_sigma_proof: keys[2],
        fee_ciphertext_validity_proof: keys[3],
        range_proof: keys[4],
        authority: keys[5],
        no_op_on_uninitialized_split_context_state: no_op,
        close_split_context_state_accounts: if close {
            Some(
                CloseSplitContextStateAccounts {
                    lamport_destination: keys[6],
                    zk_token_proof_program: keys[7],
                },
            )
        } else {
            None
        },
    }
}

/// Calls `transfer_with_split_proofs` of
/// `spl_token_2022::extension::confidential_transfer::instruction` for
/// context accounts that stay open. The first five keys are the token program,
/// the source, the mint, the destination and the source's authority; the
/// keys after them are the context accounts as `split_accounts` reads them.
/// It refuses a program that is not the token program with extensions;
/// else the instruction names the program that it was given and has the
/// accounts and the data that the encoding states.
#[verifier::external_body]
fn raw_split_transfer(
    keys: [&Pubkey; 9],
    no_op: bool,
    balance: &AeCiphertext,
    handles: &SourceDecryptHandles,
) -> (r: Result<RawInstruction, u64>)
    ensures
        raw_encodes(
            r,
            transfer_with_split_proofs_encoding(
                *keys[0],
                *keys[1],
                *keys[2],
                *keys[3],
                *balance,
                *keys[4],
                split_accounts(
                    seq![*keys[5], *keys[6], *keys[7], *keys[8]],
                    no_op,
                    false,
                ),
                *handles,
            ),
        ),
{
    let [p, s, m, d, a, e, v, r, u] = &keys.map(|p| LedgerKey::new_from_array(p.bytes));
    let c = LedgerSplitAccounts {
        equality_proof: e, ciphertext_validity_proof: v, range_proof: r, authority: u,
        no_op_on_uninitialized_split_context_state: no_op,
        close_split_context_state_accounts: None
    };
    transfer_with_split_proofs(p, s, m, d, PodAeCiphertext(balance.0), a, c, &bytemuck::cast(handles.0))
        .map(|i| (i.program_id.to_bytes(), i.accounts.iter().map(|m| (m.pubkey.to_bytes(), m.is_signer, m.is_writable)).collect(), i.data))
        .map_err(u64::from)
}

/// Calls `transfer_with_split_proofs` of
/// `spl_token_2022::extension::confidential_transfer::instruction` for
/// context accounts that the transfer closes. The first five keys are the token program,
/// the source, the mint, the destination and the source's authority; the
/// keys after them are the context accounts as `split_accounts` reads them.
/// It refuses a program that is not the token program with extensions;
/// else the instruction names the program that it was given and has the
/// accounts and the data that the encoding states.
#[verifier::external_body]
fn raw_split_transfer_closing(
    keys: [&Pubkey; 11],
    no_op: bool,
    balance: &AeCiphertext,
    handles: &SourceDecryptHandles,
) -> (r: Result<RawInstruction, u64>)
    ensures
        raw_encodes(
            r,
            transfer_with_split_proofs_encoding(
                *keys[0],
                *keys[1],
                *keys[2],
                *keys[3],
                *balance,
                *keys[4],
                split_accounts(
                    seq![*keys[5], *keys[6], *keys[7], *keys[8], *keys[9], *keys[10]],
                    no_op,
                    true,
                ),
                *handles,
            ),
        ),
{
    let [p, s, m, d, a, e, v, r, u, l, z] = &keys.map(|p| LedgerKey::new_from_array(p.bytes));
    let c = LedgerSplitAccounts {
        equality_proof: e, ciphertext_validity_proof: v, range_proof: r, authority: u,
        no_op_on_uninitialized_split_context_state: no_op,
        close_split_context_state_accounts: Some(LedgerCloseAccounts { lamport_destination: l, zk_token_proof_program: z })
    };
    transfer_with_split_proofs(p, s, m, d, PodAeCiphertext(balance.0), a, c, &bytemuck::cast(handles.0))
        .map(|i| (i.program_id.to_bytes(), i.accounts.iter().map(|m| (m.pubkey.to_bytes(), m.is_signer, m.is_writable)).collect(), i.data))
        .map_err(u64::from)
}

/// Calls `transfer_with_fee_and_split_proofs` of
/// `spl_token_2022::extension::confidential_transfer::instruction` for
/// context accounts that stay open. The first five keys are the token program,
/// the source, the mint, the destination and the source's authority; the
/// keys after them are the context accounts as `fee_split_accounts` reads them.
/// It refuses a program that is not the token program with extensions;
/// else the instruction names the program that it was given and has the
/// accounts and the data that the encoding states.
#[verifier::external_body]
fn raw_split_transfer_with_fee(
    keys: [&Pubkey; 11],
    no_op: bool,
    balance: &AeCiphertext,
    handles: &SourceDecryptHandles,
) -> (r: Result<RawInstruction, u64>)
    ensures
        raw_encodes(
            r,
            transfer_with_fee_and_split_proofs_encoding(
                *keys[0],
                *keys[1],
                *keys[2],
                *keys[3],
                *balance,
                *keys[4],
                fee_split_accounts(
                    seq![*keys[5], *keys[6], *keys[7], *keys[8], *keys[9], *keys[10]],
                    no_op,
                    false,
                ),
                *handles,
            ),
        ),
{
    let [p, s, m, d, a, e, v, g, f, r, u] = &keys.map(|p| LedgerKey::new_from_array(p.bytes));
    let c = LedgerFeeSplitAccounts {
        equality_proof: e, transfer_amount_ciphertext_validity_proof: v, fee_sigma_proof: g,
        fee_ciphertext_validity_proof: f, range_proof: r, authority: u, no_op_on_uninitialized_split_context_state: no_op,
        close_split_context_state_accounts: None
    };
    transfer_with_fee_and_split_proofs(p, s, m, d, PodAeCiphertext(balance.0), a, c, &bytemuck::cast(handles.0))
        .map(|i| (i.program_id.to_bytes(), i.accounts.iter().map(|m| (m.pubkey.to_bytes(), m.is_signer, m.is_writable)).collect(), i.data))
        .map_err(u64::from)
}

/// Calls `transfer_with_fee_and_split_proofs` of
/// `spl_token_2022::extension::confidential_transfer::instruction` for
/// context accounts that the transfer closes. The first five keys are the token program,
/// the source, the mint, the destination and the source's authority; the
/// keys after them are the context accounts as `fee_split_accounts` reads them.
/// It refuses a program that is not the token program with extensions;
/// else the instruction names the program that it was given and has the
/// accounts and the data that the encoding states.
#[verifier::external_body]
fn raw_split_transfer_with_fee_closing(
    keys: [&Pubkey; 13],
    no_op: bool,
    balance: &AeCiphertext,
    handles: &SourceDecryptHandles,
) -> (r: Result<RawInstruction, u64>)
    ensures
        raw_encodes(
            r,
            transfer_with_fee_and_split_proofs_encoding(
                *keys[0],
                *keys[1],
                *keys[2],
                *keys[3],
                *balance,
                *keys[4],
                fee_split_accounts(
                    seq![*keys[5], *keys[6], *keys[7], *keys[8], *keys[9], *keys[10], *keys[11], *keys[12]],
                    no_op,
                    true,
                ),
                *handles,
            ),
        ),
{
    let [p, s, m, d, a, e, v, g, f, r, u, l, z] = &keys.map(|p| LedgerKey::new_from_array(p.bytes));
    let c = LedgerFeeSplitAccounts {
        equality_proof: e, transfer_amount_ciphertext_validity_proof: v, fee_sigma_proof: g,
        fee_ciphertext_validity_proof: f, range_proof: r, authority: u, no_op_on_uninitialized_split_context_state: no_op,
        close_split_context_state_accounts: Some(LedgerCloseAccounts { lamport_destination: l, zk_token_proof_program: z })
    };
    transfer_with_fee_and_split_proofs(p, s, m, d, PodAeCiphertext(balance.0), a, c, &bytemuck::cast(handles.0))
        .map(|i| (i.program_id.to_bytes(), i.accounts.iter().map(|m| (m.pubkey.to_bytes(), m.is_signer, m.is_writable)).collect(), i.data))
        .map_err(u64::from)
}

/// The instruction of a confidential transfer whose proofs are in context
/// accounts.
pub fn split_transfer(
    program_id: &Pubkey,
    source: &Pubkey,
    mint: &Pubkey,
    destination: &Pubkey,
    new_source_decryptable_available_balance: &AeCiphertext,
    authority: &Pubkey,
    context_accounts: &TransferSplitContextStateAccounts,
    source_decrypt_handles: &SourceDecryptHandles,
) -> (r: Result<Instruction, ProgramError>)
    ensures
        encodes(
            r,
            transfer_with_split_proofs_encoding(
                *program_id,
                *source,
                *mint,
                *destination,
                *new_source_decryptable_available_balance,
                *authority,
                *context_accounts,
                *source_decrypt_handles,
            ),
        ),
{
    let c = context_accounts;
    let raw = match &c.close_split_context_state_accounts {
        None => raw_split_transfer(
            [
                program_id,
                source,
                mint,
                destination,
                authority,
                &c.equality_proof,
                &c.ciphertext_validity_proof,
                &c.range_proof,
                &c.authority,
            ],
            c.no_op_on_uninitialized_split_context_state,
            new_source_decryptable_available_balance,
            source_decrypt_handles,
        ),
        Some(close) => raw_split_transfer_closing(
            [
                program_id,
                source,
                mint,
                destination,
                authority,
                &c.equality_proof,
                &c.ciphertext_validity_proof,
                &c.range_proof,
                &c.authority,
                &close.lamport_destination,
                &close.zk_token_proof_program,
            ],
            c.no_op_on_uninitialized_split_context_state,
            new_source_decryptable_available_balance,
            source_decrypt_handles,
        ),
    };
    Instruction::from_encoder(raw)
}

/// The instruction of a confidential transfer with a fee whose proofs are
/// in context accounts.
pub fn split_transfer_with_fee(
    program_id: &Pubkey,
    source: &Pubkey,
    mint: &Pubkey,
    destination: &Pubkey,
    new_source_decryptable_available_balance: &AeCiphertext,
    authority: &Pubkey,
    context_accounts: &TransferWithFeeSplitContextStateAccounts,
    source_decrypt_handles: &SourceDecryptHandles,
) -> (r: Result<Instruction, ProgramError>)
    ensures
        encodes(
            r,
            transfer_with_fee_and_split_proofs_encoding(
                *program_id,
                *source,
                *mint,
                *destination,
                *new_source_decryptable_available_balance,
                *authority,
                *context_accounts,
                *source_decrypt_handles,
            ),
        ),
{
    let c = context_accounts;
    let raw = match &c.close_split_context_state_accounts {
        None => raw_split_transfer_with_fee(
            [
                program_id,
                source,
                mint,
                destination,
                authority,
                &c.equality_proof,
                &c.transfer_amount_ciphertext_validity_proof,
                &c.fee_sigma_proof,
                &c.fee_ciphertext_validity_proof,
                &c.range_proof,
                &c.authority,
            ],
            c.no_op_on_uninitialized_split_context_state,
            new_source_decryptable_available_balance,
            source_decrypt_handles,
        ),
        Some(close) => raw_split_transfer_with_fee_closing(
            [
                program_id,
                source,
                mint,
                destination,
                authority,
                &c.equality_proof,
                &c.transfer_amount_ciphertext_validity_proof,
                &c.fee_sigma_proof,
                &c.fee_ciphertext_validity_proof,
                &c.range_proof,
                &c.authority,
                &close.lamport_destination,
                &close.zk_token_proof_program,
            ],
            c.no_op_on_uninitialized_split_context_state,
            new_source_decryptable_available_balance,
            source_decrypt_handles,
        ),
    };
    Instruction::from_encoder(raw)
}

} // verus!
