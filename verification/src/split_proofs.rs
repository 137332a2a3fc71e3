//! Confidential transfers whose proof is too large for one transaction.
//!
//! The proof is split into pieces. Each piece is verified into a context
//! account of its own, by a transaction of its own, and the transfer
//! instruction names all the context accounts. In the parallel form every
//! one of these transactions also carries a copy of the transfer
//! instruction, and the transactions are submitted together.
//!
//! The ledger runs the transfer only where every context account exists
//! already. Which of the transactions is confirmed last is therefore the
//! one whose transfer takes effect; the library does not order or repeat
//! submissions. The whole transfer has succeeded when every transaction
//! has; after a partial failure the caller starts again from a fresh
//! snapshot of the account.
use crate::confidential::{
    ae_decryption, debited, AeCiphertext, AeKey, ElGamalKeypair, SourceDecryptHandles,
    TransferAccountInfo, TransferSplitContextStateAccounts, TransferWithFeeSplitContextStateAccounts,
};
use crate::encode::split_transfer::{
    split_transfer, split_transfer_with_fee, transfer_with_fee_and_split_proofs_encoding,
    transfer_with_split_proofs_encoding,
};
use crate::error::TokenError;
use crate::instruction::{
    create_account_instruction, push_instruction, system_create_account, views, Instruction,
    InstructionView,
};
use crate::optional_keys::ElGamalPubkey;
use crate::programs::{spec_zk_token_proof_program_id, zk_token_proof_program_id};
use crate::proof_generation::{
    are_split_transfer_proofs, SplitTransferProofData, SplitTransferWithFeeProofData,
    MAXIMUM_SPLIT_TRANSFER_AMOUNT,
};
use crate::proofs::{
    close_context_state, proof_context_state, proof_context_state_instructions,
    push_proof_context_state, spec_close_context_state, ContextStateInfo, ProofInstruction,
    ProofKind,
};
use crate::pubkey::Pubkey;
use crate::token::{Token, TokenView};
use crate::transfer::{transfers, TransferInstructions, TransferInstructionsView};
use vstd::prelude::*;

verus! {

/// Where one attempt at a split-proof transfer stands. Nothing of an
/// attempt outlives it: a new attempt starts at `Snapshotted`.
#[derive(Clone, Copy, Debug, PartialEq, Eq, Structural)]
pub enum SplitTransferState {
    /// The account was read.
    Snapshotted,
    /// The proofs and the transfer instruction were made.
    ProofsGenerated,
    /// The transactions were handed to the network.
    ScratchAccountsSubmitted,
    /// Every transaction succeeded.
    AllConfirmed,
    /// A transaction failed: the caller starts again.
    PartialFailure,
}

/// True when every transaction of an attempt succeeded.
pub open spec fn all_succeeded(outcomes: Seq<bool>) -> bool {
    forall|i: int| 0 <= i < outcomes.len() ==> outcomes[i]
}

/// What happens to an attempt.
#[derive(Clone, Copy, Debug, PartialEq, Eq, Structural)]
pub enum SplitTransferEvent {
    /// The proofs and the transfer instruction were made.
    ProofsGenerated,
    /// The transactions were handed to the network.
    Submitted,
    /// Every transaction has reported; `all_succeeded` tells whether each
    /// of them succeeded.
    Joined { all_succeeded: bool },
    /// The caller starts again after a failure.
    Retried,
}

/// Tells whether every transaction of an attempt succeeded.
pub fn all_outcomes_succeeded(outcomes: &Vec<bool>) -> (r: bool)
    ensures
        r == all_succeeded(outcomes@),
{
    let mut i: usize = 0;
    while i < outcomes.len()
        invariant
            i <= outcomes.len(),
            forall|j: int| 0 <= j < i ==> outcomes@[j],
        decreases outcomes.len() - i,
    {
        if !outcomes[i] {
            return false;
        }
        i += 1;
    }
    true
}

impl SplitTransferState {
    /// The state that an event leads to, or nothing where the event cannot
    /// happen in this state. The transactions are joined, not raced: the
    /// attempt is confirmed only when all of them succeeded, and a failed
    /// attempt can only start again from a fresh snapshot.
    pub open spec fn spec_next(self, event: SplitTransferEvent) -> Option<SplitTransferState> {
        match (self, event) {
            (SplitTransferState::Snapshotted, SplitTransferEvent::ProofsGenerated) => Some(
                SplitTransferState::ProofsGenerated,
            ),
            (SplitTransferState::ProofsGenerated, SplitTransferEvent::Submitted) => Some(
                SplitTransferState::ScratchAccountsSubmitted,
            ),
            (
                SplitTransferState::ScratchAccountsSubmitted,
                SplitTransferEvent::Joined { all_succeeded },
            ) => Some(
                if all_succeeded {
                    SplitTransferState::AllConfirmed
                } else {
                    SplitTransferState::PartialFailure
                },
            ),
            (SplitTransferState::PartialFailure, SplitTransferEvent::Retried) => Some(
                SplitTransferState::Snapshotted,
            ),
            _ => None,
        }
    }

    /// The state that an event leads to, or nothing where the event cannot
    /// happen in this state.
    pub fn next(self, event: SplitTransferEvent) -> (r: Option<SplitTransferState>)
        ensures
            r == self.spec_next(event),
    {
        match self {
            SplitTransferState::Snapshotted => match event {
                SplitTransferEvent::ProofsGenerated => Some(SplitTransferState::ProofsGenerated),
                _ => None,
            },
            SplitTransferState::ProofsGenerated => match event {
                SplitTransferEvent::Submitted => Some(SplitTransferState::ScratchAccountsSubmitted),
                _ => None,
            },
            SplitTransferState::ScratchAccountsSubmitted => match event {
                SplitTransferEvent::Joined { all_succeeded } => if all_succeeded {
                    Some(SplitTransferState::AllConfirmed)
                } else {
                    Some(SplitTransferState::PartialFailure)
                },
                _ => None,
            },
            SplitTransferState::PartialFailure => match event {
                SplitTransferEvent::Retried => Some(SplitTransferState::Snapshotted),
                _ => None,
            },
            SplitTransferState::AllConfirmed => None,
        }
    }
}

/// An attempt that runs its course ends confirmed exactly when every one
/// of its transactions succeeded, whatever their number and in whatever
/// order they reported.
pub proof fn lemma_attempt_is_confirmed_when_all_succeed(outcomes: Seq<bool>)
    ensures
        ({
            let submitted = SplitTransferState::Snapshotted.spec_next(
                SplitTransferEvent::ProofsGenerated,
            )->Some_0.spec_next(SplitTransferEvent::Submitted)->Some_0;
            let end = submitted.spec_next(
                SplitTransferEvent::Joined { all_succeeded: all_succeeded(outcomes) },
            );
            &&& end is Some
            &&& end->Some_0 == SplitTransferState::AllConfirmed <==> all_succeeded(outcomes)
            &&& end->Some_0 == SplitTransferState::PartialFailure <==> !all_succeeded(outcomes)
        }),
{
}

/// The instructions of a list, followed by the transfer instruction where
/// there is one.
pub open spec fn with_optional_transfer(
    first: Seq<InstructionView>,
    transfer_instruction: Option<InstructionView>,
) -> Seq<InstructionView> {
    match transfer_instruction {
        Some(transfer) => first.push(transfer),
        None => first,
    }
}

/// The view of an optional instruction.
pub open spec fn opt_instruction(instruction: Option<&Instruction>) -> Option<InstructionView> {
    match instruction {
        Some(i) => Some(i@),
        None => None,
    }
}

/// Puts a copy of the transfer instruction, where there is one, at the end
/// of `instructions`.
fn push_optional_transfer(
    instructions: &mut Vec<Instruction>,
    transfer_instruction: Option<&Instruction>,
)
    ensures
        views(final(instructions)@) == with_optional_transfer(
            views(old(instructions)@),
            opt_instruction(transfer_instruction),
        ),
{
    if let Some(transfer) = transfer_instruction {
        push_instruction(instructions, transfer.clone());
    }
}

/// The rent of the context accounts of a transfer, one amount for each
/// account, as the network gave them for the accounts' sizes.
#[derive(Clone, Copy, Debug)]
pub struct SplitTransferRents {
    pub equality_proof: u64,
    pub ciphertext_validity_proof: u64,
    pub range_proof: u64,
}

/// The rent of the context accounts of a transfer with a fee.
#[derive(Clone, Copy, Debug)]
pub struct SplitTransferWithFeeRents {
    pub equality_proof: u64,
    pub transfer_amount_ciphertext_validity_proof: u64,
    pub fee_sigma_proof: u64,
    pub fee_ciphertext_validity_proof: u64,
    pub range_proof: u64,
}

/// The transactions of a split-proof transfer, as lists of instructions.
#[derive(Debug)]
pub struct SplitTransferTransactions {
    /// Sets up the equality and ciphertext-validity accounts, then
    /// transfers.
    pub equality_and_ciphertext_validity: Vec<Instruction>,
    /// Sets up the range account, then transfers.
    pub range: Vec<Instruction>,
}

/// The transactions of a split-proof transfer with a fee, as lists of
/// instructions.
#[derive(Debug)]
pub struct SplitTransferWithFeeTransactions {
    /// Sets up the equality and amount-validity accounts, then transfers.
    pub equality_and_ciphertext_validity: Vec<Instruction>,
    /// Sets up the fee-sigma and fee-validity accounts, then transfers.
    pub fee_sigma_and_ciphertext_validity: Vec<Instruction>,
    /// Sets up the range account, then transfers.
    pub range: Vec<Instruction>,
}

/// True when the split proofs of a transfer of `transfer_amount` can be
/// made: the amount has at most 48 bits, the keys and the available
/// balance can be read, and the decryptable balance decrypts, under
/// `aes_key`, to at least the amount.
pub open spec fn can_prove_split_transfer(
    account_info: TransferAccountInfo,
    transfer_amount: u64,
    elgamal_keypair: Seq<u8>,
    aes_key: Seq<u8>,
    destination_elgamal_pubkey: Seq<u8>,
    auditor_elgamal_pubkey: Option<&ElGamalPubkey>,
) -> bool {
    transfer_amount <= MAXIMUM_SPLIT_TRANSFER_AMOUNT && account_info.can_prove_transfer(
        transfer_amount,
        elgamal_keypair,
        aes_key,
        destination_elgamal_pubkey,
        auditor_elgamal_pubkey,
    )
}

/// The instructions that set up the context accounts of two proofs, one
/// after the other, and then transfer where a transfer instruction is
/// given.
pub open spec fn two_proofs_with_transfer(
    payer: Pubkey,
    authority: Pubkey,
    first: (ProofKind, Pubkey, Seq<u8>, u64),
    second: (ProofKind, Pubkey, Seq<u8>, u64),
    transfer_instruction: Option<InstructionView>,
) -> Seq<InstructionView> {
    with_optional_transfer(
        proof_context_state_instructions(first.0, payer, first.1, authority, first.2, first.3)
            + proof_context_state_instructions(
            second.0,
            payer,
            second.1,
            authority,
            second.2,
            second.3,
        ),
        transfer_instruction,
    )
}

/// The instructions that set up the context account of one proof and then
/// transfer where a transfer instruction is given.
pub open spec fn one_proof_with_transfer(
    payer: Pubkey,
    authority: Pubkey,
    proof: (ProofKind, Pubkey, Seq<u8>, u64),
    transfer_instruction: Option<InstructionView>,
) -> Seq<InstructionView> {
    with_optional_transfer(
        proof_context_state_instructions(proof.0, payer, proof.1, authority, proof.2, proof.3),
        transfer_instruction,
    )
}

impl TokenView {
    /// What a transfer whose proofs are in context accounts gives: the one
    /// transfer instruction, which is to get the accounts of the mint's
    /// transfer hook.
    pub open spec fn transfer_with_split_proofs(
        self,
        source: Pubkey,
        destination: Pubkey,
        authority: Pubkey,
        context_state_accounts: TransferSplitContextStateAccounts,
        new_decryptable_available_balance: AeCiphertext,
        source_decrypt_handles: SourceDecryptHandles,
    ) -> Result<TransferInstructionsView, TokenError> {
        match transfer_with_split_proofs_encoding(
            self.program_id,
            source,
            self.pubkey,
            destination,
            new_decryptable_available_balance,
            authority,
            context_state_accounts,
            source_decrypt_handles,
        ) {
            Err(e) => Err(TokenError::Program(e)),
            Ok(instruction) => Ok(
                TransferInstructionsView {
                    instructions: seq![instruction],
                    hook_instruction: Some(0usize),
                    additional_compute_budget: None,
                },
            ),
        }
    }

    /// What a transfer with a fee whose proofs are in context accounts
    /// gives.
    pub open spec fn transfer_with_fee_and_split_proofs(
        self,
        source: Pubkey,
        destination: Pubkey,
        authority: Pubkey,
        context_state_accounts: TransferWithFeeSplitContextStateAccounts,
        new_decryptable_available_balance: AeCiphertext,
        source_decrypt_handles: SourceDecryptHandles,
    ) -> Result<TransferInstructionsView, TokenError> {
        match transfer_with_fee_and_split_proofs_encoding(
            self.program_id,
            source,
            self.pubkey,
            destination,
            new_decryptable_available_balance,
            authority,
            context_state_accounts,
            source_decrypt_handles,
        ) {
            Err(e) => Err(TokenError::Program(e)),
            Ok(instruction) => Ok(
                TransferInstructionsView {
                    instructions: seq![instruction],
                    hook_instruction: Some(0usize),
                    additional_compute_budget: None,
                },
            ),
        }
    }
}

impl Token {
    /// The two transactions that set up the context account of a
    /// withdrawal proof: the first creates the account, the second verifies
    /// the proof into it.
    pub fn create_withdraw_proof_context_state(
        &self,
        context_state_account: &Pubkey,
        context_state_authority: &Pubkey,
        withdraw_proof_data: &Vec<u8>,
        rent: u64,
    ) -> (r: (Vec<Instruction>, Vec<Instruction>))
        ensures
            views(r.0@) + views(r.1@) == proof_context_state_instructions(
                ProofKind::Withdraw,
                self@.payer,
                *context_state_account,
                *context_state_authority,
                withdraw_proof_data@,
                rent,
            ),
            r.0@.len() == 1,
            r.1@.len() == 1,
    {
        self.context_state_in_two_steps(
            ProofKind::Withdraw,
            context_state_account,
            context_state_authority,
            withdraw_proof_data,
            rent,
        )
    }

    /// The two transactions that set up the context account of one proof
    /// where both instructions do not fit in one: the first creates the
    /// account, the second verifies the proof into it.
    pub fn context_state_in_two_steps(
        &self,
        kind: ProofKind,
        context_state_account: &Pubkey,
        context_state_authority: &Pubkey,
        proof_data: &Vec<u8>,
        rent: u64,
    ) -> (r: (Vec<Instruction>, Vec<Instruction>))
        ensures
            views(r.0@) + views(r.1@) == proof_context_state_instructions(
                kind,
                self@.payer,
                *context_state_account,
                *context_state_authority,
                proof_data@,
                rent,
            ),
            r.0@.len() == 1,
            r.1@.len() == 1,
    {
        let create = system_create_account(
            &self.payer,
            context_state_account,
            rent,
            kind.context_state_size() as u64,
            &zk_token_proof_program_id(),
        );
        let verify = kind.instruction().encode_verify_proof(
            Some(
                ContextStateInfo {
                    context_state_account: *context_state_account,
                    context_state_authority: *context_state_authority,
                },
            ),
            proof_data,
        );
        let mut first: Vec<Instruction> = Vec::new();
        let mut second: Vec<Instruction> = Vec::new();
        assert(views(first@) =~= Seq::<InstructionView>::empty());
        assert(views(second@) =~= Seq::<InstructionView>::empty());
        push_instruction(&mut first, create);
        push_instruction(&mut second, verify);
        assert(views(first@) + views(second@) =~= seq![create@, verify@]);
        assert(views(first@).len() == 1);
        assert(views(second@).len() == 1);
        (first, second)
    }

    /// The transaction that sets up the context account of the equality
    /// proof of a transfer.
    pub fn create_equality_proof_context_state_for_transfer(
        &self,
        context_state_accounts: &TransferSplitContextStateAccounts,
        equality_proof_data: &Vec<u8>,
        rent: u64,
    ) -> (r: Vec<Instruction>)
        ensures
            views(r@) == proof_context_state_instructions(
                ProofKind::Equality,
                self@.payer,
                context_state_accounts.equality_proof,
                context_state_accounts.authority,
                equality_proof_data@,
                rent,
            ),
    {
        proof_context_state(
            ProofKind::Equality,
            &self.payer,
            &context_state_accounts.equality_proof,
            &context_state_accounts.authority,
            equality_proof_data,
            rent,
        )
    }

    /// The transaction that sets up the context account of the
    /// ciphertext-validity proof of a transfer.
    pub fn create_ciphertext_validity_proof_context_state_for_transfer(
        &self,
        context_state_accounts: &TransferSplitContextStateAccounts,
        ciphertext_validity_proof_data: &Vec<u8>,
        rent: u64,
    ) -> (r: Vec<Instruction>)
        ensures
            views(r@) == proof_context_state_instructions(
                ProofKind::CiphertextValidity,
                self@.payer,
                context_state_accounts.ciphertext_validity_proof,
                context_state_accounts.authority,
                ciphertext_validity_proof_data@,
                rent,
            ),
    {
        proof_context_state(
            ProofKind::CiphertextValidity,
            &self.payer,
            &context_state_accounts.ciphertext_validity_proof,
            &context_state_accounts.authority,
            ciphertext_validity_proof_data,
            rent,
        )
    }

    /// The transaction that sets up the context accounts of two proofs and
    /// then, where a transfer instruction is given, transfers.
    pub fn two_proofs_with_optional_transfer(
        &self,
        authority: &Pubkey,
        first: (ProofKind, &Pubkey, &Vec<u8>, u64),
        second: (ProofKind, &Pubkey, &Vec<u8>, u64),
        transfer_instruction: Option<&Instruction>,
    ) -> (r: Vec<Instruction>)
        ensures
            views(r@) == two_proofs_with_transfer(
                self@.payer,
                *authority,
                (first.0, *first.1, first.2@, first.3),
                (second.0, *second.1, second.2@, second.3),
                opt_instruction(transfer_instruction),
            ),
    {
        let mut instructions: Vec<Instruction> = Vec::new();
        assert(views(instructions@) =~= Seq::<InstructionView>::empty());
        push_proof_context_state(
            &mut instructions,
            first.0,
            &self.payer,
            first.1,
            authority,
            first.2,
            first.3,
        );
        push_proof_context_state(
            &mut instructions,
            second.0,
            &self.payer,
            second.1,
            authority,
            second.2,
            second.3,
        );
        assert(views(instructions@) =~= proof_context_state_instructions(
            first.0,
            self@.payer,
            *first.1,
            *authority,
            first.2@,
            first.3,
        ) + proof_context_state_instructions(
            second.0,
            self@.payer,
            *second.1,
            *authority,
            second.2@,
            second.3,
        ));
        push_optional_transfer(&mut instructions, transfer_instruction);
        instructions
    }

    /// The transaction that sets up the context account of one proof and
    /// then, where a transfer instruction is given, transfers.
    pub fn one_proof_with_optional_transfer(
        &self,
        authority: &Pubkey,
        proof: (ProofKind, &Pubkey, &Vec<u8>, u64),
        transfer_instruction: Option<&Instruction>,
    ) -> (r: Vec<Instruction>)
        ensures
            views(r@) == one_proof_with_transfer(
                self@.payer,
                *authority,
                (proof.0, *proof.1, proof.2@, proof.3),
                opt_instruction(transfer_instruction),
            ),
    {
        let mut instructions = proof_context_state(
            proof.0,
            &self.payer,
            proof.1,
            authority,
            proof.2,
            proof.3,
        );
        push_optional_transfer(&mut instructions, transfer_instruction);
        instructions
    }

    /// The transaction that sets up the equality and ciphertext-validity
    /// context accounts of a transfer.
    pub fn create_equality_and_ciphertext_validity_proof_context_states_for_transfer(
        &self,
        context_state_accounts: &TransferSplitContextStateAccounts,
        equality_proof_data: &Vec<u8>,
        ciphertext_validity_proof_data: &Vec<u8>,
        rents: &SplitTransferRents,
    ) -> (r: Vec<Instruction>)
        ensures
            views(r@) == two_proofs_with_transfer(
                self@.payer,
                context_state_accounts.authority,
                (
                    ProofKind::Equality,
                    context_state_accounts.equality_proof,
                    equality_proof_data@,
                    rents.equality_proof,
                ),
                (
                    ProofKind::CiphertextValidity,
                    context_state_accounts.ciphertext_validity_proof,
                    ciphertext_validity_proof_data@,
                    rents.ciphertext_validity_proof,
                ),
                None,
            ),
    {
        self.two_proofs_with_optional_transfer(
            &context_state_accounts.authority,
            (
                ProofKind::Equality,
                &context_state_accounts.equality_proof,
                equality_proof_data,
                rents.equality_proof,
            ),
            (
                ProofKind::CiphertextValidity,
                &context_state_accounts.ciphertext_validity_proof,
                ciphertext_validity_proof_data,
                rents.ciphertext_validity_proof,
            ),
            None,
        )
    }

    /// The transaction that sets up the equality and ciphertext-validity
    /// context accounts of a transfer and then transfers.
    pub fn create_equality_and_ciphertext_validity_proof_context_states_for_transfer_parallel(
        &self,
        context_state_accounts: &TransferSplitContextStateAccounts,
        equality_proof_data: &Vec<u8>,
        ciphertext_validity_proof_data: &Vec<u8>,
        transfer_instruction: &Instruction,
        rents: &SplitTransferRents,
    ) -> (r: Vec<Instruction>)
        ensures
            views(r@) == two_proofs_with_transfer(
                self@.payer,
                context_state_accounts.authority,
                (
                    ProofKind::Equality,
                    context_state_accounts.equality_proof,
                    equality_proof_data@,
                    rents.equality_proof,
                ),
                (
                    ProofKind::CiphertextValidity,
                    context_state_accounts.ciphertext_validity_proof,
                    ciphertext_validity_proof_data@,
                    rents.ciphertext_validity_proof,
                ),
                Some(transfer_instruction@),
            ),
    {
        self.two_proofs_with_optional_transfer(
            &context_state_accounts.authority,
            (
                ProofKind::Equality,
                &context_state_accounts.equality_proof,
                equality_proof_data,
                rents.equality_proof,
            ),
            (
                ProofKind::CiphertextValidity,
                &context_state_accounts.ciphertext_validity_proof,
                ciphertext_validity_proof_data,
                rents.ciphertext_validity_proof,
            ),
            Some(transfer_instruction),
        )
    }

    /// The two transactions that set up the range-proof context account of
    /// a transfer: the proof is as large as one transaction, so the account
    /// is created by a transaction of its own.
    pub fn create_range_proof_context_state_for_transfer(
        &self,
        context_state_accounts: &TransferSplitContextStateAccounts,
        range_proof_data: &Vec<u8>,
        rent: u64,
    ) -> (r: (Vec<Instruction>, Vec<Instruction>))
        ensures
            views(r.0@) + views(r.1@) == proof_context_state_instructions(
                ProofKind::Range,
                self@.payer,
                context_state_accounts.range_proof,
                context_state_accounts.authority,
                range_proof_data@,
                rent,
            ),
            r.0@.len() == 1,
            r.1@.len() == 1,
    {
        self.context_state_in_two_steps(
            ProofKind::Range,
            &context_state_accounts.range_proof,
            &context_state_accounts.authority,
            range_proof_data,
            rent,
        )
    }

    /// The transaction that sets up the range-proof context account of a
    /// transfer and then transfers.
    pub fn create_range_proof_context_state_for_transfer_parallel(
        &self,
        context_state_accounts: &TransferSplitContextStateAccounts,
        range_proof_data: &Vec<u8>,
        transfer_instruction: &Instruction,
        rent: u64,
    ) -> (r: Vec<Instruction>)
        ensures
            views(r@) == one_proof_with_transfer(
                self@.payer,
                context_state_accounts.authority,
                (ProofKind::Range, context_state_accounts.range_proof, range_proof_data@, rent),
                Some(transfer_instruction@),
            ),
    {
        self.one_proof_with_optional_transfer(
            &context_state_accounts.authority,
            (ProofKind::Range, &context_state_accounts.range_proof, range_proof_data, rent),
            Some(transfer_instruction),
        )
    }

    /// The instruction that closes a context account of the proof program.
    pub fn confidential_transfer_close_context_state(
        &self,
        context_state_account: &Pubkey,
        lamport_destination_account: &Pubkey,
        context_state_authority: &Pubkey,
    ) -> (r: Vec<Instruction>)
        ensures
            views(r@) == seq![
                spec_close_context_state(
                    ContextStateInfo {
                        context_state_account: *context_state_account,
                        context_state_authority: *context_state_authority,
                    },
                    *lamport_destination_account,
                ),
            ],
    {
        crate::instruction::single_instruction(
            close_context_state(
                ContextStateInfo {
                    context_state_account: *context_state_account,
                    context_state_authority: *context_state_authority,
                },
                lamport_destination_account,
            ),
        )
    }

    /// The transaction that sets up the equality and amount-validity
    /// context accounts of a transfer with a fee.
    pub fn create_equality_and_ciphertext_validity_proof_context_states_for_transfer_with_fee(
        &self,
        context_state_accounts: &TransferWithFeeSplitContextStateAccounts,
        equality_proof_data: &Vec<u8>,
        ciphertext_validity_proof_data: &Vec<u8>,
        rents: &SplitTransferWithFeeRents,
    ) -> (r: Vec<Instruction>)
        ensures
            views(r@) == two_proofs_with_transfer(
                self@.payer,
                context_state_accounts.authority,
                (
                    ProofKind::Equality,
                    context_state_accounts.equality_proof,
                    equality_proof_data@,
                    rents.equality_proof,
                ),
                (
                    ProofKind::CiphertextValidity,
                    context_state_accounts.transfer_amount_ciphertext_validity_proof,
                    ciphertext_validity_proof_data@,
                    rents.transfer_amount_ciphertext_validity_proof,
                ),
                None,
            ),
    {
        self.two_proofs_with_optional_transfer(
            &context_state_accounts.authority,
            (
                ProofKind::Equality,
                &context_state_accounts.equality_proof,
                equality_proof_data,
                rents.equality_proof,
            ),
            (
                ProofKind::CiphertextValidity,
                &context_state_accounts.transfer_amount_ciphertext_validity_proof,
                ciphertext_validity_proof_data,
                rents.transfer_amount_ciphertext_validity_proof,
            ),
            None,
        )
    }

    /// The transaction that sets up the equality and amount-validity
    /// context accounts of a transfer with a fee and then transfers.
    pub fn create_equality_and_ciphertext_validity_proof_context_states_for_transfer_with_fee_parallel(
        &self,
        context_state_accounts: &TransferWithFeeSplitContextStateAccounts,
        equality_proof_data: &Vec<u8>,
        ciphertext_validity_proof_data: &Vec<u8>,
        transfer_instruction: &Instruction,
        rents: &SplitTransferWithFeeRents,
    ) -> (r: Vec<Instruction>)
        ensures
            views(r@) == two_proofs_with_transfer(
                self@.payer,
                context_state_accounts.authority,
                (
                    ProofKind::Equality,
                    context_state_accounts.equality_proof,
                    equality_proof_data@,
                    rents.equality_proof,
                ),
                (
                    ProofKind::CiphertextValidity,
                    context_state_accounts.transfer_amount_ciphertext_validity_proof,
                    ciphertext_validity_proof_data@,
                    rents.transfer_amount_ciphertext_validity_proof,
                ),
                Some(transfer_instruction@),
            ),
    {
        self.two_proofs_with_optional_transfer(
            &context_state_accounts.authority,
            (
                ProofKind::Equality,
                &context_state_accounts.equality_proof,
                equality_proof_data,
                rents.equality_proof,
            ),
            (
                ProofKind::CiphertextValidity,
                &context_state_accounts.transfer_amount_ciphertext_validity_proof,
                ciphertext_validity_proof_data,
                rents.transfer_amount_ciphertext_validity_proof,
            ),
            Some(transfer_instruction),
        )
    }

    /// The transaction that sets up the fee-sigma and fee-validity context
    /// accounts of a transfer with a fee.
    pub fn create_fee_sigma_and_ciphertext_validity_proof_context_states_for_transfer_with_fee(
        &self,
        context_state_accounts: &TransferWithFeeSplitContextStateAccounts,
        fee_sigma_proof_data: &Vec<u8>,
        fee_ciphertext_validity_proof_data: &Vec<u8>,
        rents: &SplitTransferWithFeeRents,
    ) -> (r: Vec<Instruction>)
        ensures
            views(r@) == two_proofs_with_transfer(
                self@.payer,
                context_state_accounts.authority,
                (
                    ProofKind::FeeSigma,
                    context_state_accounts.fee_sigma_proof,
                    fee_sigma_proof_data@,
                    rents.fee_sigma_proof,
                ),
                (
                    ProofKind::CiphertextValidity,
                    context_state_accounts.fee_ciphertext_validity_proof,
                    fee_ciphertext_validity_proof_data@,
                    rents.fee_ciphertext_validity_proof,
                ),
                None,
            ),
    {
        self.two_proofs_with_optional_transfer(
            &context_state_accounts.authority,
            (
                ProofKind::FeeSigma,
                &context_state_accounts.fee_sigma_proof,
                fee_sigma_proof_data,
                rents.fee_sigma_proof,
            ),
            (
                ProofKind::CiphertextValidity,
                &context_state_accounts.fee_ciphertext_validity_proof,
                fee_ciphertext_validity_proof_data,
                rents.fee_ciphertext_validity_proof,
            ),
            None,
        )
    }

    /// The transaction that sets up the fee-sigma and fee-validity context
    /// accounts of a transfer with a fee and then transfers.
    pub fn create_fee_sigma_and_ciphertext_validity_proof_context_states_for_transfer_with_fee_parallel(
        &self,
        context_state_accounts: &TransferWithFeeSplitContextStateAccounts,
        fee_sigma_proof_data: &Vec<u8>,
        fee_ciphertext_validity_proof_data: &Vec<u8>,
        transfer_instruction: &Instruction,
        rents: &SplitTransferWithFeeRents,
    ) -> (r: Vec<Instruction>)
        ensures
            views(r@) == two_proofs_with_transfer(
                self@.payer,
                context_state_accounts.authority,
                (
                    ProofKind::FeeSigma,
                    context_state_accounts.fee_sigma_proof,
                    fee_sigma_proof_data@,
                    rents.fee_sigma_proof,
                ),
                (
                    ProofKind::CiphertextValidity,
                    context_state_accounts.fee_ciphertext_validity_proof,
                    fee_ciphertext_validity_proof_data@,
                    rents.fee_ciphertext_validity_proof,
                ),
                Some(transfer_instruction@),
            ),
    {
        self.two_proofs_with_optional_transfer(
            &context_state_accounts.authority,
            (
                ProofKind::FeeSigma,
                &context_state_accounts.fee_sigma_proof,
                fee_sigma_proof_data,
                rents.fee_sigma_proof,
            ),
            (
                ProofKind::CiphertextValidity,
                &context_state_accounts.fee_ciphertext_validity_proof,
                fee_ciphertext_validity_proof_data,
                rents.fee_ciphertext_validity_proof,
            ),
            Some(transfer_instruction),
        )
    }

    /// The transaction that sets up the range-proof context account of a
    /// transfer with a fee.
    pub fn create_range_proof_context_state_for_transfer_with_fee(
        &self,
        context_state_accounts: &TransferWithFeeSplitContextStateAccounts,
        range_proof_data: &Vec<u8>,
        rent: u64,
    ) -> (r: Vec<Instruction>)
        ensures
            views(r@) == one_proof_with_transfer(
                self@.payer,
                context_state_accounts.authority,
                (
                    ProofKind::RangeWithFee,
                    context_state_accounts.range_proof,
                    range_proof_data@,
                    rent,
                ),
                None,
            ),
    {
        self.one_proof_with_optional_transfer(
            &context_state_accounts.authority,
            (ProofKind::RangeWithFee, &context_state_accounts.range_proof, range_proof_data, rent),
            None,
        )
    }

    /// The transaction that sets up the range-proof context account of a
    /// transfer with a fee and then transfers.
    pub fn create_range_proof_context_state_for_transfer_with_fee_parallel(
        &self,
        context_state_accounts: &TransferWithFeeSplitContextStateAccounts,
        range_proof_data: &Vec<u8>,
        transfer_instruction: &Instruction,
        rent: u64,
    ) -> (r: Vec<Instruction>)
        ensures
            views(r@) == one_proof_with_transfer(
                self@.payer,
                context_state_accounts.authority,
                (
                    ProofKind::RangeWithFee,
                    context_state_accounts.range_proof,
                    range_proof_data@,
                    rent,
                ),
                Some(transfer_instruction@),
            ),
    {
        self.one_proof_with_optional_transfer(
            &context_state_accounts.authority,
            (ProofKind::RangeWithFee, &context_state_accounts.range_proof, range_proof_data, rent),
            Some(transfer_instruction),
        )
    }

    /// The transfer instruction of a transfer whose proofs are in context
    /// accounts, given the source's new decryptable balance.
    pub fn confidential_transfer_transfer_with_split_proofs_with(
        &self,
        source_account: &Pubkey,
        destination_account: &Pubkey,
        source_authority: &Pubkey,
        context_state_accounts: &TransferSplitContextStateAccounts,
        new_decryptable_available_balance: &AeCiphertext,
        source_decrypt_handles: &SourceDecryptHandles,
    ) -> (r: Result<TransferInstructions, TokenError>)
        ensures
            transfers(
                r,
                self@.transfer_with_split_proofs(
                    *source_account,
                    *destination_account,
                    *source_authority,
                    *context_state_accounts,
                    *new_decryptable_available_balance,
                    *source_decrypt_handles,
                ),
            ),
    {
        match split_transfer(
            &self.program_id,
            source_account,
            &self.pubkey,
            destination_account,
            new_decryptable_available_balance,
            source_authority,
            context_state_accounts,
            source_decrypt_handles,
        ) {
            Err(e) => Err(TokenError::Program(e)),
            Ok(instruction) => Ok(
                TransferInstructions {
                    instructions: crate::instruction::single_instruction(instruction),
                    hook_instruction: Some(0),
                    additional_compute_budget: None,
                },
            ),
        }
    }

    /// The transfer instruction of a transfer of `transfer_amount` tokens
    /// whose proofs were verified into context accounts beforehand.
    ///
    /// The source's new decryptable balance decrypts to the old one less
    /// the amount; where the old one cannot be decrypted or is too small,
    /// the account cannot be decrypted. Whether the context accounts fit
    /// the amount and the account is for the ledger to decide.
    pub fn confidential_transfer_transfer_with_split_proofs(
        &self,
        source_account: &Pubkey,
        destination_account: &Pubkey,
        source_authority: &Pubkey,
        context_state_accounts: &TransferSplitContextStateAccounts,
        transfer_amount: u64,
        account_info: &TransferAccountInfo,
        source_aes_key: &AeKey,
        source_decrypt_handles: &SourceDecryptHandles,
    ) -> (r: Result<TransferInstructions, TokenError>)
        ensures
            match debited(
                source_aes_key@,
                account_info.decryptable_available_balance@,
                transfer_amount,
            ) {
                None => r is Err && r->Err_0 == TokenError::AccountDecryption,
                Some(left) => exists|balance: AeCiphertext|
                    ae_decryption(source_aes_key@, balance@) == Some(left) && #[trigger] transfers(
                        r,
                        self@.transfer_with_split_proofs(
                            *source_account,
                            *destination_account,
                            *source_authority,
                            *context_state_accounts,
                            balance,
                            *source_decrypt_handles,
                        ),
                    ),
            },
    {
        let balance = match account_info.new_decryptable_available_balance(
            transfer_amount,
            source_aes_key,
        ) {
            Ok(balance) => balance,
            Err(e) => {
                return Err(e);
            },
        };
        let r = self.confidential_transfer_transfer_with_split_proofs_with(
            source_account,
            destination_account,
            source_authority,
            context_state_accounts,
            &balance,
            source_decrypt_handles,
        );
        assert(transfers(
            r,
            self@.transfer_with_split_proofs(
                *source_account,
                *destination_account,
                *source_authority,
                *context_state_accounts,
                balance,
                *source_decrypt_handles,
            ),
        ));
        r
    }

    /// The transfer instruction of a transfer with a fee whose proofs are
    /// in context accounts, given the source's new decryptable balance.
    pub fn confidential_transfer_transfer_with_fee_and_split_proofs_with(
        &self,
        source_account: &Pubkey,
        destination_account: &Pubkey,
        source_authority: &Pubkey,
        context_state_accounts: &TransferWithFeeSplitContextStateAccounts,
        new_decryptable_available_balance: &AeCiphertext,
        source_decrypt_handles: &SourceDecryptHandles,
    ) -> (r: Result<TransferInstructions, TokenError>)
        ensures
            transfers(
                r,
                self@.transfer_with_fee_and_split_proofs(
                    *source_account,
                    *destination_account,
                    *source_authority,
                    *context_state_accounts,
                    *new_decryptable_available_balance,
                    *source_decrypt_handles,
                ),
            ),
    {
        match split_transfer_with_fee(
            &self.program_id,
            source_account,
            &self.pubkey,
            destination_account,
            new_decryptable_available_balance,
            source_authority,
            context_state_accounts,
            source_decrypt_handles,
        ) {
            Err(e) => Err(TokenError::Program(e)),
            Ok(instruction) => Ok(
                TransferInstructions {
                    instructions: crate::instruction::single_instruction(instruction),
                    hook_instruction: Some(0),
                    additional_compute_budget: None,
                },
            ),
        }
    }

    /// The transfer instruction of a transfer of `transfer_amount` tokens
    /// with a fee whose proofs were verified into context accounts
    /// beforehand.
    pub fn confidential_transfer_transfer_with_fee_and_split_proofs(
        &self,
        source_account: &Pubkey,
        destination_account: &Pubkey,
        source_authority: &Pubkey,
        context_state_accounts: &TransferWithFeeSplitContextStateAccounts,
        transfer_amount: u64,
        account_info: &TransferAccountInfo,
        source_aes_key: &AeKey,
        source_decrypt_handles: &SourceDecryptHandles,
    ) -> (r: Result<TransferInstructions, TokenError>)
        ensures
            match debited(
                source_aes_key@,
                account_info.decryptable_available_balance@,
                transfer_amount,
            ) {
                None => r is Err && r->Err_0 == TokenError::AccountDecryption,
                Some(left) => exists|balance: AeCiphertext|
                    ae_decryption(source_aes_key@, balance@) == Some(left) && #[trigger] transfers(
                        r,
                        self@.transfer_with_fee_and_split_proofs(
                            *source_account,
                            *destination_account,
                            *source_authority,
                            *context_state_accounts,
                            balance,
                            *source_decrypt_handles,
                        ),
                    ),
            },
    {
        let balance = match account_info.new_decryptable_available_balance(
            transfer_amount,
            source_aes_key,
        ) {
            Ok(balance) => balance,
            Err(e) => {
                return Err(e);
            },
        };
        let r = self.confidential_transfer_transfer_with_fee_and_split_proofs_with(
            source_account,
            destination_account,
            source_authority,
            context_state_accounts,
            &balance,
            source_decrypt_handles,
        );
        assert(transfers(
            r,
            self@.transfer_with_fee_and_split_proofs(
                *source_account,
                *destination_account,
                *source_authority,
                *context_state_accounts,
                balance,
                *source_decrypt_handles,
            ),
        ));
        r
    }

    /// The first half of a transfer with split proofs in parallel: the
    /// proofs are made, then the transfer instruction, which names the
    /// context accounts and carries the handles that came with the proofs.
    ///
    /// Where the proofs cannot be made (a key or the available balance
    /// cannot be read, the amount has more than 48 bits, or the
    /// decryptable balance does not decrypt to at least the amount) the
    /// result is the proof-generation error; it can be that error also
    /// where they can, since the library that makes them may give up.
    /// Proofs that were made have the sizes of their kinds and start with
    /// the keys they are for. The caller resolves the hook accounts of the
    /// transfer instruction, asks for the rent of the three context
    /// accounts, and goes on with `split_transfer_transactions`.
    pub fn confidential_transfer_transfer_with_split_proofs_in_parallel(
        &self,
        source_account: &Pubkey,
        destination_account: &Pubkey,
        source_authority: &Pubkey,
        context_state_accounts: &TransferSplitContextStateAccounts,
        transfer_amount: u64,
        account_info: &TransferAccountInfo,
        source_elgamal_keypair: &ElGamalKeypair,
        source_aes_key: &AeKey,
        destination_elgamal_pubkey: &ElGamalPubkey,
        auditor_elgamal_pubkey: Option<&ElGamalPubkey>,
    ) -> (r: Result<(SplitTransferProofData, TransferInstructions), TokenError>)
        ensures
            !can_prove_split_transfer(
                *account_info,
                transfer_amount,
                source_elgamal_keypair@,
                source_aes_key@,
                destination_elgamal_pubkey@,
                auditor_elgamal_pubkey,
            ) ==> r is Err && r->Err_0 == TokenError::ProofGeneration,
            r matches Ok(made) ==> are_split_transfer_proofs(
                made.0,
                source_elgamal_keypair@,
                destination_elgamal_pubkey@,
                auditor_elgamal_pubkey,
            ),
            (r is Err && r->Err_0 == TokenError::ProofGeneration) || exists|
                balance: AeCiphertext,
                handles: SourceDecryptHandles,
            |
                ae_decryption(source_aes_key@, balance@) == debited(
                    source_aes_key@,
                    account_info.decryptable_available_balance@,
                    transfer_amount,
                ) && (r is Ok ==> r->Ok_0.0.source_decrypt_handles == handles)
                    && match #[trigger] self@.transfer_with_split_proofs(
                    *source_account,
                    *destination_account,
                    *source_authority,
                    *context_state_accounts,
                    balance,
                    handles,
                ) {
                    Ok(transfer) => r is Ok && r->Ok_0.1@ == transfer,
                    Err(e) => r is Err && r->Err_0 == e,
                },
    {
        let proofs = match account_info.generate_split_transfer_proof_data(
            transfer_amount,
            source_elgamal_keypair,
            source_aes_key,
            destination_elgamal_pubkey,
            auditor_elgamal_pubkey,
        ) {
            Some(proofs) => proofs,
            None => {
                return Err(TokenError::ProofGeneration);
            },
        };
        let balance = match account_info.new_decryptable_available_balance(
            transfer_amount,
            source_aes_key,
        ) {
            Ok(balance) => balance,
            Err(e) => {
                return Err(e);
            },
        };
        let handles = proofs.source_decrypt_handles;
        let transfer = self.confidential_transfer_transfer_with_split_proofs_with(
            source_account,
            destination_account,
            source_authority,
            context_state_accounts,
            &balance,
            &handles,
        );
        let ghost expected = self@.transfer_with_split_proofs(
            *source_account,
            *destination_account,
            *source_authority,
            *context_state_accounts,
            balance,
            handles,
        );
        match transfer {
            Ok(transfer) => {
                assert(expected is Ok && transfer@ == expected->Ok_0);
                Ok((proofs, transfer))
            },
            Err(e) => {
                assert(expected is Err && expected->Err_0 == e);
                Err(e)
            },
        }
    }

    /// The second half of a transfer with split proofs in parallel: the
    /// two transactions. Each sets up context accounts and ends with a copy
    /// of the same transfer instruction.
    pub fn split_transfer_transactions(
        &self,
        context_state_accounts: &TransferSplitContextStateAccounts,
        proofs: &SplitTransferProofData,
        transfer_instruction: &Instruction,
        rents: &SplitTransferRents,
    ) -> (r: SplitTransferTransactions)
        ensures
            views(r.equality_and_ciphertext_validity@) == two_proofs_with_transfer(
                self@.payer,
                context_state_accounts.authority,
                (
                    ProofKind::Equality,
                    context_state_accounts.equality_proof,
                    proofs.equality_proof_data@,
                    rents.equality_proof,
                ),
                (
                    ProofKind::CiphertextValidity,
                    context_state_accounts.ciphertext_validity_proof,
                    proofs.ciphertext_validity_proof_data@,
                    rents.ciphertext_validity_proof,
                ),
                Some(transfer_instruction@),
            ),
            views(r.range@) == one_proof_with_transfer(
                self@.payer,
                context_state_accounts.authority,
                (
                    ProofKind::Range,
                    context_state_accounts.range_proof,
                    proofs.range_proof_data@,
                    rents.range_proof,
                ),
                Some(transfer_instruction@),
            ),
    {
        let equality_and_ciphertext_validity =
            self.create_equality_and_ciphertext_validity_proof_context_states_for_transfer_parallel(
            context_state_accounts,
            &proofs.equality_proof_data,
            &proofs.ciphertext_validity_proof_data,
            transfer_instruction,
            rents,
        );
        let range = self.create_range_proof_context_state_for_transfer_parallel(
            context_state_accounts,
            &proofs.range_proof_data,
            transfer_instruction,
            rents.range_proof,
        );
        SplitTransferTransactions { equality_and_ciphertext_validity, range }
    }

    /// The first half of a transfer with a fee and split proofs in
    /// parallel, given the proofs: the transfer instruction, which names
    /// the context accounts and carries the handles that came with the
    /// proofs.
    ///
    /// A balance that cannot be decrypted or is too small ends the
    /// operation. The caller resolves the hook accounts of the transfer
    /// instruction, asks for the rent of the five context accounts, and
    /// goes on with `split_transfer_with_fee_transactions`.
    pub fn confidential_transfer_transfer_with_fee_and_split_proofs_in_parallel(
        &self,
        source_account: &Pubkey,
        destination_account: &Pubkey,
        source_authority: &Pubkey,
        context_state_accounts: &TransferWithFeeSplitContextStateAccounts,
        transfer_amount: u64,
        account_info: &TransferAccountInfo,
        source_aes_key: &AeKey,
        proofs: &SplitTransferWithFeeProofData,
    ) -> (r: Result<TransferInstructions, TokenError>)
        ensures
            match debited(
                source_aes_key@,
                account_info.decryptable_available_balance@,
                transfer_amount,
            ) {
                None => r is Err && r->Err_0 == TokenError::AccountDecryption,
                Some(left) => exists|balance: AeCiphertext|
                    ae_decryption(source_aes_key@, balance@) == Some(left) && #[trigger] transfers(
                        r,
                        self@.transfer_with_fee_and_split_proofs(
                            *source_account,
                            *destination_account,
                            *source_authority,
                            *context_state_accounts,
                            balance,
                            proofs.source_decrypt_handles,
                        ),
                    ),
            },
    {
        self.confidential_transfer_transfer_with_fee_and_split_proofs(
            source_account,
            destination_account,
            source_authority,
            context_state_accounts,
            transfer_amount,
            account_info,
            source_aes_key,
            &proofs.source_decrypt_handles,
        )
    }

    /// The second half of a transfer with a fee and split proofs in
    /// parallel: the three transactions. Each sets up context accounts and
    /// ends with a copy of the same transfer instruction.
    pub fn split_transfer_with_fee_transactions(
        &self,
        context_state_accounts: &TransferWithFeeSplitContextStateAccounts,
        proofs: &SplitTransferWithFeeProofData,
        transfer_instruction: &Instruction,
        rents: &SplitTransferWithFeeRents,
    ) -> (r: SplitTransferWithFeeTransactions)
        ensures
            views(r.equality_and_ciphertext_validity@) == two_proofs_with_transfer(
                self@.payer,
                context_state_accounts.authority,
                (
                    ProofKind::Equality,
                    context_state_accounts.equality_proof,
                    proofs.equality_proof_data@,
                    rents.equality_proof,
                ),
                (
                    ProofKind::CiphertextValidity,
                    context_state_accounts.transfer_amount_ciphertext_validity_proof,
                    proofs.transfer_amount_ciphertext_validity_proof_data@,
                    rents.transfer_amount_ciphertext_validity_proof,
                ),
                Some(transfer_instruction@),
            ),
            views(r.fee_sigma_and_ciphertext_validity@) == two_proofs_with_transfer(
                self@.payer,
                context_state_accounts.authority,
                (
                    ProofKind::FeeSigma,
                    context_state_accounts.fee_sigma_proof,
                    proofs.fee_sigma_proof_data@,
                    rents.fee_sigma_proof,
                ),
                (
                    ProofKind::CiphertextValidity,
                    context_state_accounts.fee_ciphertext_validity_proof,
                    proofs.fee_ciphertext_validity_proof_data@,
                    rents.fee_ciphertext_validity_proof,
                ),
                Some(transfer_instruction@),
            ),
            views(r.range@) == one_proof_with_transfer(
                self@.payer,
                context_state_accounts.authority,
                (
                    ProofKind::RangeWithFee,
                    context_state_accounts.range_proof,
                    proofs.range_proof_data@,
                    rents.range_proof,
                ),
                Some(transfer_instruction@),
            ),
    {
        let equality_and_ciphertext_validity =
            self.create_equality_and_ciphertext_validity_proof_context_states_for_transfer_with_fee_parallel(
            context_state_accounts,
            &proofs.equality_proof_data,
            &proofs.transfer_amount_ciphertext_validity_proof_data,
            transfer_instruction,
            rents,
        );
        let fee_sigma_and_ciphertext_validity =
            self.create_fee_sigma_and_ciphertext_validity_proof_context_states_for_transfer_with_fee_parallel(
            context_state_accounts,
            &proofs.fee_sigma_proof_data,
            &proofs.fee_ciphertext_validity_proof_data,
            transfer_instruction,
            rents,
        );
        let range = self.create_range_proof_context_state_for_transfer_with_fee_parallel(
            context_state_accounts,
            &proofs.range_proof_data,
            transfer_instruction,
            rents.range_proof,
        );
        SplitTransferWithFeeTransactions {
            equality_and_ciphertext_validity,
            fee_sigma_and_ciphertext_validity,
            range,
        }
    }
}

/// Every transaction of a split-proof transfer in parallel ends with the
/// same transfer instruction, whichever of them the network confirms last.
pub proof fn lemma_transactions_carry_the_transfer(
    payer: Pubkey,
    authority: Pubkey,
    first: (ProofKind, Pubkey, Seq<u8>, u64),
    second: (ProofKind, Pubkey, Seq<u8>, u64),
    third: (ProofKind, Pubkey, Seq<u8>, u64),
    transfer_instruction: InstructionView,
)
    ensures
        two_proofs_with_transfer(payer, authority, first, second, Some(transfer_instruction)).last()
            == transfer_instruction,
        one_proof_with_transfer(payer, authority, third, Some(transfer_instruction)).last()
            == transfer_instruction,
        two_proofs_with_transfer(payer, authority, first, second, Some(transfer_instruction)).len()
            == 5,
        one_proof_with_transfer(payer, authority, third, Some(transfer_instruction)).len() == 3,
{
}

} // verus!
