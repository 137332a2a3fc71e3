//! Zero-knowledge proofs as the bytes in which they are handed to the proof
//! program, and the accounts in which the program keeps what it verified.
use crate::instruction::{
    create_account_instruction, push_instruction, system_create_account, views, AccountMeta,
    Instruction, InstructionView,
};
use crate::programs::{spec_zk_token_proof_program_id, zk_token_proof_program_id};
use crate::pubkey::Pubkey;
use spl_token_2022::solana_zk_token_sdk::instruction::{
    BatchedGroupedCiphertext2HandlesValidityProofContext, BatchedRangeProofContext,
    CiphertextCommitmentEqualityProofContext, FeeSigmaProofContext, WithdrawProofContext,
};
use spl_token_2022::solana_zk_token_sdk::zk_token_proof_state::ProofContextState;
use std::mem::size_of;
use vstd::prelude::*;

verus! {

/// The instructions of the proof program, in the order of their numbers.
#[derive(Clone, Copy, Debug, PartialEq, Eq, Structural)]
pub enum ProofInstruction {
    CloseContextState,
    VerifyZeroBalance,
    VerifyWithdraw,
    VerifyCiphertextCiphertextEquality,
    VerifyTransfer,
    VerifyTransferWithFee,
    VerifyPubkeyValidity,
    VerifyRangeProofU64,
    VerifyBatchedRangeProofU64,
    VerifyBatchedRangeProofU128,
    VerifyBatchedRangeProofU256,
    VerifyCiphertextCommitmentEquality,
    VerifyGroupedCiphertext2HandlesValidity,
    VerifyBatchedGroupedCiphertext2HandlesValidity,
    VerifyFeeSigma,
}

impl ProofInstruction {
    /// The number of the instruction.
    pub open spec fn spec_code(self) -> u8 {
        match self {
            ProofInstruction::CloseContextState => 0,
            ProofInstruction::VerifyZeroBalance => 1,
            ProofInstruction::VerifyWithdraw => 2,
            ProofInstruction::VerifyCiphertextCiphertextEquality => 3,
            ProofInstruction::VerifyTransfer => 4,
            ProofInstruction::VerifyTransferWithFee => 5,
            ProofInstruction::VerifyPubkeyValidity => 6,
            ProofInstruction::VerifyRangeProofU64 => 7,
            ProofInstruction::VerifyBatchedRangeProofU64 => 8,
            ProofInstruction::VerifyBatchedRangeProofU128 => 9,
            ProofInstruction::VerifyBatchedRangeProofU256 => 10,
            ProofInstruction::VerifyCiphertextCommitmentEquality => 11,
            ProofInstruction::VerifyGroupedCiphertext2HandlesValidity => 12,
            ProofInstruction::VerifyBatchedGroupedCiphertext2HandlesValidity => 13,
            ProofInstruction::VerifyFeeSigma => 14,
        }
    }

    /// The number of the instruction.
    pub fn code(self) -> (r: u8)
        ensures
            r == self.spec_code(),
    {
        match self {
            ProofInstruction::CloseContextState => 0,
            ProofInstruction::VerifyZeroBalance => 1,
            ProofInstruction::VerifyWithdraw => 2,
            ProofInstruction::VerifyCiphertextCiphertextEquality => 3,
            ProofInstruction::VerifyTransfer => 4,
            ProofInstruction::VerifyTransferWithFee => 5,
            ProofInstruction::VerifyPubkeyValidity => 6,
            ProofInstruction::VerifyRangeProofU64 => 7,
            ProofInstruction::VerifyBatchedRangeProofU64 => 8,
            ProofInstruction::VerifyBatchedRangeProofU128 => 9,
            ProofInstruction::VerifyBatchedRangeProofU256 => 10,
            ProofInstruction::VerifyCiphertextCommitmentEquality => 11,
            ProofInstruction::VerifyGroupedCiphertext2HandlesValidity => 12,
            ProofInstruction::VerifyBatchedGroupedCiphertext2HandlesValidity => 13,
            ProofInstruction::VerifyFeeSigma => 14,
        }
    }

    /// The instruction that has the proof program verify `proof_data` and,
    /// where a context account is named, keep what it verified in that
    /// account: the account, written, and its authority. The data are the
    /// number of the instruction and then the proof.
    pub open spec fn spec_encode_verify_proof(
        self,
        context_state_info: Option<ContextStateInfo>,
        proof_data: Seq<u8>,
    ) -> InstructionView {
        InstructionView {
            program_id: spec_zk_token_proof_program_id(),
            accounts: match context_state_info {
                Some(info) => seq![
                    AccountMeta {
                        pubkey: info.context_state_account,
                        is_signer: false,
                        is_writable: true,
                    },
                    AccountMeta {
                        pubkey: info.context_state_authority,
                        is_signer: false,
                        is_writable: false,
                    },
                ],
                None => Seq::empty(),
            },
            data: seq![self.spec_code()] + proof_data,
        }
    }

    /// The instruction that has the proof program verify `proof_data`.
    pub fn encode_verify_proof(
        self,
        context_state_info: Option<ContextStateInfo>,
        proof_data: &Vec<u8>,
    ) -> (r: Instruction)
        ensures
            r@ == self.spec_encode_verify_proof(context_state_info, proof_data@),
    {
        let mut accounts: Vec<AccountMeta> = Vec::new();
        if let Some(info) = context_state_info {
            accounts.push(AccountMeta::new(info.context_state_account, false));
            accounts.push(AccountMeta::new_readonly(info.context_state_authority, false));
        }
        let mut data: Vec<u8> = Vec::new();
        data.push(self.code());
        let mut i: usize = 0;
        while i < proof_data.len()
            invariant
                i <= proof_data.len(),
                data@ == seq![self.spec_code()] + proof_data@.subrange(0, i as int),
            decreases proof_data.len() - i,
        {
            data.push(proof_data[i]);
            i += 1;
        }
        assert(proof_data@.subrange(0, proof_data@.len() as int) == proof_data@);
        assert(accounts@ =~= self.spec_encode_verify_proof(
            context_state_info,
            proof_data@,
        ).accounts);
        Instruction { program_id: zk_token_proof_program_id(), accounts, data }
    }
}

/// A context account and the key that may close it.
#[derive(Clone, Copy, Debug)]
pub struct ContextStateInfo {
    pub context_state_account: Pubkey,
    pub context_state_authority: Pubkey,
}

/// The instruction that closes a context account and moves its lamports to
/// `destination_account`; the account's authority signs.
pub open spec fn spec_close_context_state(
    context_state_info: ContextStateInfo,
    destination_account: Pubkey,
) -> InstructionView {
    InstructionView {
        program_id: spec_zk_token_proof_program_id(),
        accounts: seq![
            AccountMeta {
                pubkey: context_state_info.context_state_account,
                is_signer: false,
                is_writable: true,
            },
            AccountMeta { pubkey: destination_account, is_signer: false, is_writable: true },
            AccountMeta {
                pubkey: context_state_info.context_state_authority,
                is_signer: true,
                is_writable: false,
            },
        ],
        data: seq![0u8],
    }
}

/// The instruction that closes a context account.
pub fn close_context_state(context_state_info: ContextStateInfo, destination_account: &Pubkey) -> (r:
    Instruction)
    ensures
        r@ == spec_close_context_state(context_state_info, *destination_account),
{
    let mut accounts: Vec<AccountMeta> = Vec::new();
    accounts.push(AccountMeta::new(context_state_info.context_state_account, false));
    accounts.push(AccountMeta::new(*destination_account, false));
    accounts.push(AccountMeta::new_readonly(context_state_info.context_state_authority, true));
    let mut data: Vec<u8> = Vec::new();
    data.push(ProofInstruction::CloseContextState.code());
    assert(accounts@ =~= spec_close_context_state(context_state_info, *destination_account).accounts);
    assert(data@ =~= seq![0u8]);
    Instruction { program_id: zk_token_proof_program_id(), accounts, data }
}

/// The kinds of proof whose verified context is kept in an account of its
/// own.
#[derive(Clone, Copy, Debug, PartialEq, Eq, Structural)]
pub enum ProofKind {
    /// A withdrawal is covered by the balance.
    Withdraw,
    /// A ciphertext and a commitment hold the same amount.
    Equality,
    /// The ciphertexts of an amount are well-formed.
    CiphertextValidity,
    /// The amounts of a transfer are in range.
    Range,
    /// The amounts of a transfer with a fee are in range.
    RangeWithFee,
    /// The fee is what the fee rate gives.
    FeeSigma,
}

impl ProofKind {
    /// The instruction that verifies a proof of this kind.
    pub open spec fn spec_instruction(self) -> ProofInstruction {
        match self {
            ProofKind::Withdraw => ProofInstruction::VerifyWithdraw,
            ProofKind::Equality => ProofInstruction::VerifyCiphertextCommitmentEquality,
            ProofKind::CiphertextValidity => ProofInstruction::VerifyBatchedGroupedCiphertext2HandlesValidity,
            ProofKind::Range => ProofInstruction::VerifyBatchedRangeProofU128,
            ProofKind::RangeWithFee => ProofInstruction::VerifyBatchedRangeProofU256,
            ProofKind::FeeSigma => ProofInstruction::VerifyFeeSigma,
        }
    }

    /// The instruction that verifies a proof of this kind.
    pub fn instruction(self) -> (r: ProofInstruction)
        ensures
            r == self.spec_instruction(),
    {
        match self {
            ProofKind::Withdraw => ProofInstruction::VerifyWithdraw,
            ProofKind::Equality => ProofInstruction::VerifyCiphertextCommitmentEquality,
            ProofKind::CiphertextValidity => ProofInstruction::VerifyBatchedGroupedCiphertext2HandlesValidity,
            ProofKind::Range => ProofInstruction::VerifyBatchedRangeProofU128,
            ProofKind::RangeWithFee => ProofInstruction::VerifyBatchedRangeProofU256,
            ProofKind::FeeSigma => ProofInstruction::VerifyFeeSigma,
        }
    }

    /// The size in bytes of the account that keeps the verified context of
    /// a proof of this kind: 33 bytes for the authority and the kind, then
    /// the context.
    pub open spec fn spec_context_state_size(self) -> usize {
        match self {
            ProofKind::Withdraw => 129,
            ProofKind::Equality => 161,
            ProofKind::CiphertextValidity => 289,
            ProofKind::Range => 297,
            ProofKind::RangeWithFee => 297,
            ProofKind::FeeSigma => 137,
        }
    }

    /// The size in bytes of the account that keeps the verified context of
    /// a proof of this kind.
    pub fn context_state_size(self) -> (r: usize)
        ensures
            r == self.spec_context_state_size(),
    {
        match self {
            ProofKind::Withdraw => withdraw_context_state_size(),
            ProofKind::Equality => equality_context_state_size(),
            ProofKind::CiphertextValidity => ciphertext_validity_context_state_size(),
            ProofKind::Range => range_context_state_size(),
            ProofKind::RangeWithFee => range_context_state_size(),
            ProofKind::FeeSigma => fee_sigma_context_state_size(),
        }
    }
}

/// Asks `std::mem::size_of` for the size of the proof library's
/// `ProofContextState<WithdrawProofContext>`: the 32 bytes of its
/// authority, one byte for the kind of proof, and a context of 96 bytes,
/// without padding.
#[verifier::external_body]
fn withdraw_context_state_size() -> (r: usize)
    ensures
        r == 129,
{
    size_of::<ProofContextState<WithdrawProofContext>>()
}

/// Asks `std::mem::size_of` for the size of the proof library's
/// `ProofContextState<CiphertextCommitmentEqualityProofContext>`: 33 bytes
/// and a context of 128 bytes, without padding.
#[verifier::external_body]
fn equality_context_state_size() -> (r: usize)
    ensures
        r == 161,
{
    size_of::<ProofContextState<CiphertextCommitmentEqualityProofContext>>()
}

/// Asks `std::mem::size_of` for the size of the proof library's
/// `ProofContextState<BatchedGroupedCiphertext2HandlesValidityProofContext>`:
/// 33 bytes and a context of 256 bytes, without padding.
#[verifier::external_body]
fn ciphertext_validity_context_state_size() -> (r: usize)
    ensures
        r == 289,
{
    size_of::<ProofContextState<BatchedGroupedCiphertext2HandlesValidityProofContext>>()
}

/// Asks `std::mem::size_of` for the size of the proof library's
/// `ProofContextState<BatchedRangeProofContext>`: 33 bytes and a context
/// of 264 bytes, without padding.
#[verifier::external_body]
fn range_context_state_size() -> (r: usize)
    ensures
        r == 297,
{
    size_of::<ProofContextState<BatchedRangeProofContext>>()
}

/// Asks `std::mem::size_of` for the size of the proof library's
/// `ProofContextState<FeeSigmaProofContext>`: 33 bytes and a context of
/// 104 bytes, without padding.
#[verifier::external_body]
fn fee_sigma_context_state_size() -> (r: usize)
    ensures
        r == 137,
{
    size_of::<ProofContextState<FeeSigmaProofContext>>()
}

/// The two instructions that set up the context account of one proof: the
/// account is created, paid for by `payer` with `rent` lamports, with the
/// size of the proof's context and owned by the proof program; then the
/// proof is verified into it.
pub open spec fn proof_context_state_instructions(
    kind: ProofKind,
    payer: Pubkey,
    context_state_account: Pubkey,
    context_state_authority: Pubkey,
    proof_data: Seq<u8>,
    rent: u64,
) -> Seq<InstructionView> {
    seq![
        create_account_instruction(
            payer,
            context_state_account,
            rent,
            kind.spec_context_state_size() as u64,
            spec_zk_token_proof_program_id(),
        ),
        kind.spec_instruction().spec_encode_verify_proof(
            Some(ContextStateInfo { context_state_account, context_state_authority }),
            proof_data,
        ),
    ]
}

/// Puts the two instructions that set up the context account of one proof
/// at the end of `instructions`.
pub fn push_proof_context_state(
    instructions: &mut Vec<Instruction>,
    kind: ProofKind,
    payer: &Pubkey,
    context_state_account: &Pubkey,
    context_state_authority: &Pubkey,
    proof_data: &Vec<u8>,
    rent: u64,
)
    ensures
        views(final(instructions)@) == views(old(instructions)@)
            + proof_context_state_instructions(
            kind,
            *payer,
            *context_state_account,
            *context_state_authority,
            proof_data@,
            rent,
        ),
{
    let space = kind.context_state_size();
    let create = system_create_account(
        payer,
        context_state_account,
        rent,
        space as u64,
        &zk_token_proof_program_id(),
    );
    let verify = kind.instruction().encode_verify_proof(
        Some(
            ContextStateInfo {
                context_state_account: *context_state_account,
                context_state_authority: *context_state_authority,
            },
        ),
        proof_data,
    );
    push_instruction(instructions, create);
    push_instruction(instructions, verify);
    assert(views(instructions@) =~= views(old(instructions)@) + proof_context_state_instructions(
        kind,
        *payer,
        *context_state_account,
        *context_state_authority,
        proof_data@,
        rent,
    ));
}

/// The two instructions that set up the context account of one proof.
pub fn proof_context_state(
    kind: ProofKind,
    payer: &Pubkey,
    context_state_account: &Pubkey,
    context_state_authority: &Pubkey,
    proof_data: &Vec<u8>,
    rent: u64,
) -> (r: Vec<Instruction>)
    ensures
        views(r@) == proof_context_state_instructions(
            kind,
            *payer,
            *context_state_account,
            *context_state_authority,
            proof_data@,
            rent,
        ),
{
    let mut instructions: Vec<Instruction> = Vec::new();
    assert(views(instructions@) =~= Seq::<InstructionView>::empty());
    push_proof_context_state(
        &mut instructions,
        kind,
        payer,
        context_state_account,
        context_state_authority,
        proof_data,
        rent,
    );
    assert(Seq::<InstructionView>::empty() + proof_context_state_instructions(
        kind,
        *payer,
        *context_state_account,
        *context_state_authority,
        proof_data@,
        rent,
    ) =~= proof_context_state_instructions(
        kind,
        *payer,
        *context_state_account,
        *context_state_authority,
        proof_data@,
        rent,
    ));
    instructions
}

} // verus!
