//! The confidential operations that carry a proof. A proof is either in a
//! context account, verified beforehand, or in the instruction that
//! follows the operation's own.
//!
//! Each operation comes twice. The form whose name ends in `_with` takes
//! the proof and the new ciphertexts as arguments and says exactly which
//! instructions it gives. The other form makes them first, with the
//! caller's keys: proofs and ciphertexts are randomized, so it promises
//! what holds whichever came out.
use crate::account::BaseAccount;
use crate::confidential::{
    account_withheld_amount_in, add_ciphertexts, ae_decryption, ae_encrypt, ciphertext_sum,
    confidential_account_in, credited, debited, mint_withheld_amount_in, read_account_withheld_amount,
    read_confidential_account, read_mint_withheld_amount, AeCiphertext, AeKey,
    ApplyPendingBalanceAccountInfo, ConfidentialTransferAccount, ElGamalCiphertext, ElGamalKeypair,
    ElGamalSecretKey, EmptyAccountAccountInfo, TransferAccountInfo, WithdrawAccountInfo,
    WithheldTokensInfo,
};
use crate::encode::{confidential_transfer, confidential_transfer_fee, withheld};
use crate::error::{ProgramError, TokenError};
use crate::instruction::{
    for_one, instructs, one_instruction, push_instruction, views, Instruction, InstructionView,
};
use crate::optional_keys::ElGamalPubkey;
use crate::proof_generation::{
    can_prove_key_pair, is_key_pair_proof, is_transfer_proof, is_transfer_with_fee_proof,
    is_withdraw_proof, pubkey_validity_proof_data, reads_elgamal_pubkey,
};
use crate::proofs::ProofInstruction;
use crate::pubkey::Pubkey;
use crate::signers::{get_multisig_signers, multisig_signers};
use crate::token::{opt_key, Token, TokenView};
use crate::transfer::{transfers, TransferInstructions, TransferInstructionsView};
use vstd::prelude::*;

verus! {

/// The largest number of pending credits of an account that is configured
/// without one.
pub const DEFAULT_MAXIMUM_PENDING_BALANCE_CREDIT_COUNTER: u64 = 65536;

/// The compute-unit limit of a confidential transfer with a fee whose
/// proof is verified in the same transaction.
pub const TRANSFER_WITH_FEE_COMPUTE_BUDGET: u32 = 500_000;

/// The view of an optional proof.
pub open spec fn opt_bytes(proof_data: Option<&Vec<u8>>) -> Option<Seq<u8>> {
    match proof_data {
        Some(p) => Some(p@),
        None => None,
    }
}

/// The instructions of an operation with a proof: generating the proof
/// comes first, so a missing proof is reported before anything else; then
/// the operation's own instruction, and after it, unless the proof is in a
/// context account, the instruction that verifies it.
pub open spec fn with_proof(
    first: Result<InstructionView, ProgramError>,
    verify: ProofInstruction,
    context_state_account: Option<Pubkey>,
    proof_data: Option<Seq<u8>>,
) -> Result<Seq<InstructionView>, TokenError> {
    if context_state_account is None && proof_data is None {
        Err(TokenError::ProofGeneration)
    } else {
        match first {
            Err(e) => Err(TokenError::Program(e)),
            Ok(instruction) => if context_state_account is Some {
                Ok(seq![instruction])
            } else {
                Ok(seq![instruction, verify.spec_encode_verify_proof(None, proof_data->Some_0)])
            },
        }
    }
}

/// Puts the instruction of an operation and the instruction that verifies
/// its proof together.
pub fn attach_proof(
    first: Result<Instruction, ProgramError>,
    verify: ProofInstruction,
    context_state_account: Option<&Pubkey>,
    proof_data: Option<&Vec<u8>>,
) -> (r: Result<Vec<Instruction>, TokenError>)
    requires
        context_state_account is Some || proof_data is Some,
    ensures
        forall|expected: Result<InstructionView, ProgramError>|
            crate::instruction::encodes(first, expected) ==> instructs(
                r,
                with_proof(expected, verify, opt_key(context_state_account), opt_bytes(proof_data)),
            ),
{
    match first {
        Err(e) => Err(TokenError::Program(e)),
        Ok(instruction) => {
            let mut instructions: Vec<Instruction> = Vec::new();
            assert(views(instructions@) =~= Seq::<InstructionView>::empty());
            push_instruction(&mut instructions, instruction);
            if context_state_account.is_none() {
                let proof = proof_data.unwrap();
                let verification = verify.encode_verify_proof(None, proof);
                push_instruction(&mut instructions, verification);
                assert(views(instructions@) =~= seq![instruction@, verification@]);
            } else {
                assert(views(instructions@) =~= seq![instruction@]);
            }
            Ok(instructions)
        },
    }
}

impl TokenView {
    /// What configuring an account for confidential transfers gives.
    pub open spec fn configure_token_account(
        self,
        account: Pubkey,
        authority: Pubkey,
        context_state_account: Option<Pubkey>,
        maximum_pending_balance_credit_counter: Option<u64>,
        proof_data: Option<Seq<u8>>,
        decryptable_zero_balance: AeCiphertext,
        signing_pubkeys: Seq<Pubkey>,
    ) -> Result<Seq<InstructionView>, TokenError> {
        with_proof(
            confidential_transfer::configure_account_encoding(
                self.program_id,
                account,
                self.pubkey,
                decryptable_zero_balance,
                match maximum_pending_balance_credit_counter {
                    Some(n) => n,
                    None => DEFAULT_MAXIMUM_PENDING_BALANCE_CREDIT_COUNTER,
                },
                authority,
                multisig_signers(authority, signing_pubkeys),
                context_state_account,
            ),
            ProofInstruction::VerifyPubkeyValidity,
            context_state_account,
            proof_data,
        )
    }

    /// What emptying a confidential account gives.
    pub open spec fn empty_account(
        self,
        account: Pubkey,
        authority: Pubkey,
        context_state_account: Option<Pubkey>,
        proof_data: Option<Seq<u8>>,
        signing_pubkeys: Seq<Pubkey>,
    ) -> Result<Seq<InstructionView>, TokenError> {
        with_proof(
            confidential_transfer::empty_account_encoding(
                self.program_id,
                account,
                authority,
                multisig_signers(authority, signing_pubkeys),
                context_state_account,
            ),
            ProofInstruction::VerifyZeroBalance,
            context_state_account,
            proof_data,
        )
    }

    /// What withdrawing from a confidential balance gives.
    pub open spec fn confidential_withdraw(
        self,
        account: Pubkey,
        authority: Pubkey,
        context_state_account: Option<Pubkey>,
        withdraw_amount: u64,
        decimals: u8,
        proof_data: Option<Seq<u8>>,
        new_decryptable_available_balance: AeCiphertext,
        signing_pubkeys: Seq<Pubkey>,
    ) -> Result<Seq<InstructionView>, TokenError> {
        with_proof(
            confidential_transfer::withdraw_encoding(
                self.program_id,
                account,
                self.pubkey,
                withdraw_amount,
                decimals,
                new_decryptable_available_balance,
                authority,
                multisig_signers(authority, signing_pubkeys),
                context_state_account,
            ),
            ProofInstruction::VerifyWithdraw,
            context_state_account,
            proof_data,
        )
    }

    /// What a confidential transfer gives: its instructions, of which the
    /// first is to get the accounts of the mint's transfer hook.
    pub open spec fn confidential_transfer(
        self,
        source: Pubkey,
        destination: Pubkey,
        authority: Pubkey,
        context_state_account: Option<Pubkey>,
        proof_data: Option<Seq<u8>>,
        new_decryptable_available_balance: AeCiphertext,
        signing_pubkeys: Seq<Pubkey>,
    ) -> Result<TransferInstructionsView, TokenError> {
        match with_proof(
            confidential_transfer::transfer_encoding(
                self.program_id,
                source,
                self.pubkey,
                destination,
                new_decryptable_available_balance,
                authority,
                multisig_signers(authority, signing_pubkeys),
                context_state_account,
            ),
            ProofInstruction::VerifyTransfer,
            context_state_account,
            proof_data,
        ) {
            Err(e) => Err(e),
            Ok(instructions) => Ok(
                TransferInstructionsView {
                    instructions,
                    hook_instruction: Some(0usize),
                    additional_compute_budget: None,
                },
            ),
        }
    }

    /// What a confidential transfer with a fee gives: its instructions, of
    /// which the first is to get the accounts of the mint's transfer hook,
    /// and the compute-unit limit that verifying its proof needs.
    pub open spec fn confidential_transfer_with_fee(
        self,
        source: Pubkey,
        destination: Pubkey,
        authority: Pubkey,
        context_state_account: Option<Pubkey>,
        proof_data: Option<Seq<u8>>,
        new_decryptable_available_balance: AeCiphertext,
        signing_pubkeys: Seq<Pubkey>,
    ) -> Result<TransferInstructionsView, TokenError> {
        match with_proof(
            confidential_transfer::transfer_with_fee_encoding(
                self.program_id,
                source,
                self.pubkey,
                destination,
                new_decryptable_available_balance,
                authority,
                multisig_signers(authority, signing_pubkeys),
                context_state_account,
            ),
            ProofInstruction::VerifyTransferWithFee,
            context_state_account,
            proof_data,
        ) {
            Err(e) => Err(e),
            Ok(instructions) => Ok(
                TransferInstructionsView {
                    instructions,
                    hook_instruction: Some(0usize),
                    additional_compute_budget: Some(TRANSFER_WITH_FEE_COMPUTE_BUDGET),
                },
            ),
        }
    }

    /// What withdrawing the confidential fees withheld in the mint gives.
    pub open spec fn withdraw_withheld_from_mint(
        self,
        destination_account: Pubkey,
        withdraw_withheld_authority: Pubkey,
        context_state_account: Option<Pubkey>,
        proof_data: Option<Seq<u8>>,
        new_decryptable_available_balance: AeCiphertext,
        signing_pubkeys: Seq<Pubkey>,
    ) -> Result<Seq<InstructionView>, TokenError> {
        with_proof(
            confidential_transfer_fee::withdraw_withheld_tokens_from_mint_encoding(
                self.program_id,
                self.pubkey,
                destination_account,
                new_decryptable_available_balance,
                withdraw_withheld_authority,
                multisig_signers(withdraw_withheld_authority, signing_pubkeys),
                context_state_account,
            ),
            ProofInstruction::VerifyCiphertextCiphertextEquality,
            context_state_account,
            proof_data,
        )
    }

    /// What withdrawing the confidential fees withheld in accounts gives.
    pub open spec fn withdraw_withheld_from_accounts(
        self,
        destination_account: Pubkey,
        withdraw_withheld_authority: Pubkey,
        context_state_account: Option<Pubkey>,
        proof_data: Option<Seq<u8>>,
        new_decryptable_available_balance: AeCiphertext,
        sources: Seq<Pubkey>,
        signing_pubkeys: Seq<Pubkey>,
    ) -> Result<Seq<InstructionView>, TokenError> {
        with_proof(
            withheld::withdraw_withheld_tokens_from_accounts_encoding(
                self.program_id,
                self.pubkey,
                destination_account,
                new_decryptable_available_balance,
                withdraw_withheld_authority,
                multisig_signers(withdraw_withheld_authority, signing_pubkeys),
                sources,
                context_state_account,
            ),
            ProofInstruction::VerifyCiphertextCiphertextEquality,
            context_state_account,
            proof_data,
        )
    }

    /// What the confidential-transfer extension stores in an account of
    /// this mint, from what a lookup of the account found.
    pub open spec fn confidential_account(self, found: Option<BaseAccount>) -> Result<
        ConfidentialTransferAccount,
        TokenError,
    > {
        match found {
            None => Err(TokenError::AccountNotFound),
            Some(account) => match self.unpack_account_info(account.owner, account.data@) {
                Err(e) => Err(e),
                Ok(_) => match confidential_account_in(account.data@) {
                    Err(e) => Err(TokenError::Program(e)),
                    Ok(state) => Ok(state),
                },
            },
        }
    }
}

/// The sum of the fees withheld in the accounts that lookups found, in
/// order, starting from `total`: the first account that is missing,
/// invalid, or without a well-formed withheld amount gives its error.
pub open spec fn aggregate_withheld(
    token: TokenView,
    found: Seq<Option<BaseAccount>>,
    total: ElGamalCiphertext,
) -> Result<ElGamalCiphertext, TokenError>
    decreases found.len(),
{
    if found.len() == 0 {
        Ok(total)
    } else {
        match aggregate_withheld(token, found.drop_last(), total) {
            Err(e) => Err(e),
            Ok(sum) => match found.last() {
                None => Err(TokenError::AccountNotFound),
                Some(account) => match token.unpack_account_info(account.owner, account.data@) {
                    Err(e) => Err(e),
                    Ok(_) => match account_withheld_amount_in(account.data@) {
                        Err(e) => Err(TokenError::Program(e)),
                        Ok(amount) => match ciphertext_sum(sum@, amount@) {
                            None => Err(TokenError::AccountDecryption),
                            Some(next) => Ok(next),
                        },
                    },
                },
            },
        }
    }
}

impl Token {
    /// What the confidential-transfer extension stores in an account of
    /// this mint, from what a lookup of the account found.
    pub fn confidential_account(&self, found: Option<BaseAccount>) -> (r: Result<
        ConfidentialTransferAccount,
        TokenError,
    >)
        ensures
            r == self@.confidential_account(found),
    {
        let info = match self.get_account_info(found) {
            Ok(info) => info,
            Err(e) => {
                return Err(e);
            },
        };
        match read_confidential_account(&info.data) {
            Ok(state) => Ok(state),
            Err(e) => Err(TokenError::Program(e)),
        }
    }

    /// The encrypted fees that are withheld in the mint, from what a lookup
    /// of the mint found.
    pub fn mint_withheld_tokens_info(&self, found: Option<BaseAccount>) -> (r: Result<
        WithheldTokensInfo,
        TokenError,
    >)
        ensures
            match found {
                None => r is Err && r->Err_0 == TokenError::AccountNotFound,
                Some(account) => match self@.unpack_mint_info(account.owner, account.data@) {
                    Err(e) => r is Err && r->Err_0 == e,
                    Ok(_) => match mint_withheld_amount_in(account.data@) {
                        Err(e) => r is Err && r->Err_0 == TokenError::Program(e),
                        Ok(amount) => r is Ok && r->Ok_0.withheld_amount == amount,
                    },
                },
            },
    {
        let info = match self.get_mint_info(found) {
            Ok(info) => info,
            Err(e) => {
                return Err(e);
            },
        };
        match read_mint_withheld_amount(&info.data) {
            Ok(amount) => Ok(WithheldTokensInfo::new(&amount)),
            Err(e) => Err(TokenError::Program(e)),
        }
    }

    /// The sum of the encrypted fees that are withheld in accounts of this
    /// mint, from what the lookups of the accounts found, in order.
    pub fn accounts_withheld_tokens_info(&self, found: Vec<Option<BaseAccount>>) -> (r: Result<
        WithheldTokensInfo,
        TokenError,
    >)
        ensures
            match aggregate_withheld(self@, found@, ElGamalCiphertext::zero()) {
                Ok(sum) => r is Ok && r->Ok_0.withheld_amount == sum,
                Err(e) => r is Err && r->Err_0 == e,
            },
    {
        let ghost all = found@;
        let count = found.len();
        assert(all.len() == count);
        let zero = ElGamalCiphertext::zeroed();
        let mut total = zero;
        let mut rest = found;
        let mut taken: Vec<Option<BaseAccount>> = Vec::new();
        // The lookups are taken from the back and then handled from the
        // front.
        while rest.len() > 0
            invariant
                rest@.len() + taken@.len() == all.len(),
                all.len() <= usize::MAX,
                forall|j: int| 0 <= j < rest@.len() ==> rest@[j] == all[j],
                forall|j: int| 0 <= j < taken@.len() ==> taken@[j] == all[all.len() - 1 - j],
            decreases rest.len(),
        {
            let last = rest.pop().unwrap();
            taken.push(last);
        }
        let mut done: usize = 0;
        assert(all.subrange(0, 0) =~= Seq::<Option<BaseAccount>>::empty());
        while taken.len() > 0
            invariant
                done + taken@.len() == all.len(),
                all.len() <= usize::MAX,
                all == found@,
                zero == ElGamalCiphertext::zero(),
                forall|j: int| 0 <= j < taken@.len() ==> taken@[j] == all[all.len() - 1 - j],
                aggregate_withheld(self@, all.subrange(0, done as int), zero) == Ok::<
                    ElGamalCiphertext,
                    TokenError,
                >(total),
            decreases taken.len(),
        {
            let next = taken.pop().unwrap();
            assert(next == all[done as int]);
            assert(all.subrange(0, done + 1).drop_last() == all.subrange(0, done as int));
            assert(all.subrange(0, done + 1).last() == all[done as int]);
            let step: Result<ElGamalCiphertext, TokenError> = match self.get_account_info(next) {
                Err(e) => Err(e),
                Ok(info) => match read_account_withheld_amount(&info.data) {
                    Err(e) => Err(TokenError::Program(e)),
                    Ok(amount) => match add_ciphertexts(&total, &amount) {
                        None => Err(TokenError::AccountDecryption),
                        Some(sum) => Ok(sum),
                    },
                },
            };
            assert(aggregate_withheld(self@, all.subrange(0, done + 1), zero) == step);
            match step {
                Ok(sum) => {
                    total = sum;
                },
                Err(e) => {
                    proof {
                        lemma_first_withheld_error_stays(self@, all, zero, done + 1);
                    }
                    return Err(e);
                },
            }
            done += 1;
        }
        assert(all.subrange(0, all.len() as int) == all);
        Ok(WithheldTokensInfo::new(&total))
    }

    /// The instructions that configure `account` for confidential
    /// transfers, given the proof of the account's key, unless that is in a
    /// context account, and the encrypted zero balance.
    pub fn confidential_transfer_configure_token_account_with(
        &self,
        account: &Pubkey,
        authority: &Pubkey,
        context_state_account: Option<&Pubkey>,
        maximum_pending_balance_credit_counter: Option<u64>,
        proof_data: Option<&Vec<u8>>,
        decryptable_zero_balance: &AeCiphertext,
        signing_pubkeys: &Vec<Pubkey>,
    ) -> (r: Result<Vec<Instruction>, TokenError>)
        ensures
            instructs(
                r,
                self@.configure_token_account(
                    *account,
                    *authority,
                    opt_key(context_state_account),
                    maximum_pending_balance_credit_counter,
                    opt_bytes(proof_data),
                    *decryptable_zero_balance,
                    signing_pubkeys@,
                ),
            ),
    {
        let multisig_signers = get_multisig_signers(authority, signing_pubkeys);
        if context_state_account.is_none() && proof_data.is_none() {
            return Err(TokenError::ProofGeneration);
        }
        let maximum = match maximum_pending_balance_credit_counter {
            Some(n) => n,
            None => DEFAULT_MAXIMUM_PENDING_BALANCE_CREDIT_COUNTER,
        };
        attach_proof(
            confidential_transfer::configure_account(
                &self.program_id,
                account,
                &self.pubkey,
                decryptable_zero_balance,
                maximum,
                authority,
                &multisig_signers,
                context_state_account,
            ),
            ProofInstruction::VerifyPubkeyValidity,
            context_state_account,
            proof_data,
        )
    }

    /// The instructions that configure `account` for confidential
    /// transfers. Without a context account, a proof of the key pair is
    /// made and verified in the same transaction. The account starts with
    /// a zero balance, encrypted under `aes_key`.
    pub fn confidential_transfer_configure_token_account(
        &self,
        account: &Pubkey,
        authority: &Pubkey,
        context_state_account: Option<&Pubkey>,
        maximum_pending_balance_credit_counter: Option<u64>,
        elgamal_keypair: &ElGamalKeypair,
        aes_key: &AeKey,
        signing_pubkeys: &Vec<Pubkey>,
    ) -> (r: Result<Vec<Instruction>, TokenError>)
        ensures
            exists|proof_data: Option<Seq<u8>>, zero: AeCiphertext|
                ae_decryption(aes_key@, zero@) == Some(0u64) && (proof_data is Some <==> (
                context_state_account is None && can_prove_key_pair(elgamal_keypair@))) && (
                proof_data matches Some(p) ==> is_key_pair_proof(p, elgamal_keypair@))
                    && #[trigger] instructs(
                    r,
                    self@.configure_token_account(
                        *account,
                        *authority,
                        opt_key(context_state_account),
                        maximum_pending_balance_credit_counter,
                        proof_data,
                        zero,
                        signing_pubkeys@,
                    ),
                ),
    {
        let proof_data = if context_state_account.is_some() {
            None
        } else {
            pubkey_validity_proof_data(elgamal_keypair)
        };
        let zero = ae_encrypt(aes_key, 0);
        let proof = proof_data.as_ref();
        let r = self.confidential_transfer_configure_token_account_with(
            account,
            authority,
            context_state_account,
            maximum_pending_balance_credit_counter,
            proof,
            &zero,
            signing_pubkeys,
        );
        assert(instructs(
            r,
            self@.configure_token_account(
                *account,
                *authority,
                opt_key(context_state_account),
                maximum_pending_balance_credit_counter,
                opt_bytes(proof),
                zero,
                signing_pubkeys@,
            ),
        ));
        r
    }

    /// The instructions that prepare the confidential account `account` for
    /// closing, given the proof that its balance is zero unless that is in
    /// a context account.
    pub fn confidential_transfer_empty_account_with(
        &self,
        account: &Pubkey,
        authority: &Pubkey,
        context_state_account: Option<&Pubkey>,
        proof_data: Option<&Vec<u8>>,
        signing_pubkeys: &Vec<Pubkey>,
    ) -> (r: Result<Vec<Instruction>, TokenError>)
        ensures
            instructs(
                r,
                self@.empty_account(
                    *account,
                    *authority,
                    opt_key(context_state_account),
                    opt_bytes(proof_data),
                    signing_pubkeys@,
                ),
            ),
    {
        let multisig_signers = get_multisig_signers(authority, signing_pubkeys);
        if context_state_account.is_none() && proof_data.is_none() {
            return Err(TokenError::ProofGeneration);
        }
        attach_proof(
            confidential_transfer::empty_account(
                &self.program_id,
                account,
                authority,
                &multisig_signers,
                context_state_account,
            ),
            ProofInstruction::VerifyZeroBalance,
            context_state_account,
            proof_data,
        )
    }

    /// The instructions that prepare the confidential account `account` for
    /// closing. Without a context account, the proof that the balance is
    /// zero is made and verified in the same transaction.
    pub fn confidential_transfer_empty_account(
        &self,
        account: &Pubkey,
        authority: &Pubkey,
        context_state_account: Option<&Pubkey>,
        account_info: &EmptyAccountAccountInfo,
        elgamal_keypair: &ElGamalKeypair,
        signing_pubkeys: &Vec<Pubkey>,
    ) -> (r: Result<Vec<Instruction>, TokenError>)
        ensures
            exists|proof_data: Option<Seq<u8>>|
                (proof_data is Some <==> (context_state_account is None && account_info.can_prove(
                    elgamal_keypair@,
                ))) && (proof_data matches Some(p) ==> account_info.is_proof(p, elgamal_keypair@))
                    && #[trigger] instructs(
                    r,
                    self@.empty_account(
                        *account,
                        *authority,
                        opt_key(context_state_account),
                        proof_data,
                        signing_pubkeys@,
                    ),
                ),
    {
        let proof_data = if context_state_account.is_some() {
            None
        } else {
            account_info.generate_proof_data(elgamal_keypair)
        };
        let proof = proof_data.as_ref();
        let r = self.confidential_transfer_empty_account_with(
            account,
            authority,
            context_state_account,
            proof,
            signing_pubkeys,
        );
        assert(instructs(
            r,
            self@.empty_account(
                *account,
                *authority,
                opt_key(context_state_account),
                opt_bytes(proof),
                signing_pubkeys@,
            ),
        ));
        r
    }

    /// The instructions that withdraw `withdraw_amount` tokens from the
    /// confidential balance of `account`, given the proof, unless that is
    /// in a context account, and the new decryptable balance.
    pub fn confidential_transfer_withdraw_with(
        &self,
        account: &Pubkey,
        authority: &Pubkey,
        context_state_account: Option<&Pubkey>,
        withdraw_amount: u64,
        decimals: u8,
        proof_data: Option<&Vec<u8>>,
        new_decryptable_available_balance: &AeCiphertext,
        signing_pubkeys: &Vec<Pubkey>,
    ) -> (r: Result<Vec<Instruction>, TokenError>)
        ensures
            instructs(
                r,
                self@.confidential_withdraw(
                    *account,
                    *authority,
                    opt_key(context_state_account),
                    withdraw_amount,
                    decimals,
                    opt_bytes(proof_data),
                    *new_decryptable_available_balance,
                    signing_pubkeys@,
                ),
            ),
    {
        let multisig_signers = get_multisig_signers(authority, signing_pubkeys);
        if context_state_account.is_none() && proof_data.is_none() {
            return Err(TokenError::ProofGeneration);
        }
        attach_proof(
            confidential_transfer::withdraw(
                &self.program_id,
                account,
                &self.pubkey,
                withdraw_amount,
                decimals,
                new_decryptable_available_balance,
                authority,
                &multisig_signers,
                context_state_account,
            ),
            ProofInstruction::VerifyWithdraw,
            context_state_account,
            proof_data,
        )
    }

    /// The instructions that withdraw `withdraw_amount` tokens from the
    /// confidential balance of `account`.
    ///
    /// Without a context account the proof is made first; a proof that
    /// cannot be made ends the operation. The new decryptable balance
    /// decrypts to the old one less the amount; where the old one cannot be
    /// decrypted or is too small, the account cannot be decrypted.
    pub fn confidential_transfer_withdraw(
        &self,
        account: &Pubkey,
        authority: &Pubkey,
        context_state_account: Option<&Pubkey>,
        withdraw_amount: u64,
        decimals: u8,
        account_info: &WithdrawAccountInfo,
        elgamal_keypair: &ElGamalKeypair,
        aes_key: &AeKey,
        signing_pubkeys: &Vec<Pubkey>,
    ) -> (r: Result<Vec<Instruction>, TokenError>)
        ensures
            context_state_account is None && !account_info.can_prove(
                withdraw_amount,
                elgamal_keypair@,
                aes_key@,
            ) ==> r is Err && r->Err_0 == TokenError::ProofGeneration,
            context_state_account is Some && debited(
                aes_key@,
                account_info.decryptable_available_balance@,
                withdraw_amount,
            ) is None ==> r is Err && r->Err_0 == TokenError::AccountDecryption,
            (if context_state_account is None {
                account_info.can_prove(
                    withdraw_amount,
                    elgamal_keypair@,
                    aes_key@,
                )
            } else {
                debited(
                    aes_key@,
                    account_info.decryptable_available_balance@,
                    withdraw_amount,
                ) is Some
            }) ==> exists|proof_data: Option<Seq<u8>>, balance: AeCiphertext|
                {
                    &&& ae_decryption(aes_key@, balance@) == debited(
                        aes_key@,
                        account_info.decryptable_available_balance@,
                        withdraw_amount,
                    )
                    &&& proof_data is Some <==> context_state_account is None
                    &&& proof_data matches Some(p) ==> is_withdraw_proof(p, elgamal_keypair@)
                    &&& #[trigger] instructs(
                        r,
                        self@.confidential_withdraw(
                            *account,
                            *authority,
                            opt_key(context_state_account),
                            withdraw_amount,
                            decimals,
                            proof_data,
                            balance,
                            signing_pubkeys@,
                        ),
                    )
                },
    {
        let proof_data = if context_state_account.is_some() {
            None
        } else {
            match account_info.generate_proof_data(withdraw_amount, elgamal_keypair, aes_key) {
                Some(proof) => Some(proof),
                None => {
                    return Err(TokenError::ProofGeneration);
                },
            }
        };
        let balance = match account_info.new_decryptable_available_balance(withdraw_amount, aes_key) {
            Ok(balance) => balance,
            Err(e) => {
                return Err(e);
            },
        };
        let proof = proof_data.as_ref();
        let r = self.confidential_transfer_withdraw_with(
            account,
            authority,
            context_state_account,
            withdraw_amount,
            decimals,
            proof,
            &balance,
            signing_pubkeys,
        );
        assert(instructs(
            r,
            self@.confidential_withdraw(
                *account,
                *authority,
                opt_key(context_state_account),
                withdraw_amount,
                decimals,
                opt_bytes(proof),
                balance,
                signing_pubkeys@,
            ),
        ));
        r
    }

    /// The instructions of a confidential transfer, given the proof, unless
    /// that is in a context account, and the source's new decryptable
    /// balance.
    pub fn confidential_transfer_transfer_with(
        &self,
        source_account: &Pubkey,
        destination_account: &Pubkey,
        source_authority: &Pubkey,
        context_state_account: Option<&Pubkey>,
        proof_data: Option<&Vec<u8>>,
        new_decryptable_available_balance: &AeCiphertext,
        signing_pubkeys: &Vec<Pubkey>,
    ) -> (r: Result<TransferInstructions, TokenError>)
        ensures
            transfers(
                r,
                self@.confidential_transfer(
                    *source_account,
                    *destination_account,
                    *source_authority,
                    opt_key(context_state_account),
                    opt_bytes(proof_data),
                    *new_decryptable_available_balance,
                    signing_pubkeys@,
                ),
            ),
    {
        let multisig_signers = get_multisig_signers(source_authority, signing_pubkeys);
        if context_state_account.is_none() && proof_data.is_none() {
            return Err(TokenError::ProofGeneration);
        }
        match attach_proof(
            confidential_transfer::transfer(
                &self.program_id,
                source_account,
                &self.pubkey,
                destination_account,
                new_decryptable_available_balance,
                source_authority,
                &multisig_signers,
                context_state_account,
            ),
            ProofInstruction::VerifyTransfer,
            context_state_account,
            proof_data,
        ) {
            Ok(instructions) => Ok(
                TransferInstructions {
                    instructions,
                    hook_instruction: Some(0),
                    additional_compute_budget: None,
                },
            ),
            Err(e) => Err(e),
        }
    }

    /// The instructions of a confidential transfer of `transfer_amount`
    /// tokens.
    ///
    /// Without a context account the proof is made first; a proof that
    /// cannot be made ends the operation. The source's new decryptable
    /// balance decrypts to the old one less the amount; where the old one
    /// cannot be decrypted or is too small, the account cannot be
    /// decrypted.
    pub fn confidential_transfer_transfer(
        &self,
        source_account: &Pubkey,
        destination_account: &Pubkey,
        source_authority: &Pubkey,
        context_state_account: Option<&Pubkey>,
        transfer_amount: u64,
        account_info: &TransferAccountInfo,
        source_elgamal_keypair: &ElGamalKeypair,
        source_aes_key: &AeKey,
        destination_elgamal_pubkey: &ElGamalPubkey,
        auditor_elgamal_pubkey: Option<&ElGamalPubkey>,
        signing_pubkeys: &Vec<Pubkey>,
    ) -> (r: Result<TransferInstructions, TokenError>)
        ensures
            context_state_account is None && !account_info.can_prove_transfer(
                transfer_amount,
                source_elgamal_keypair@,
                source_aes_key@,
                destination_elgamal_pubkey@,
                auditor_elgamal_pubkey,
            ) ==> r is Err && r->Err_0 == TokenError::ProofGeneration,
            context_state_account is Some && debited(
                source_aes_key@,
                account_info.decryptable_available_balance@,
                transfer_amount,
            ) is None ==> r is Err && r->Err_0 == TokenError::AccountDecryption,
            (if context_state_account is None {
                account_info.can_prove_transfer(
                    transfer_amount,
                    source_elgamal_keypair@,
                    source_aes_key@,
                    destination_elgamal_pubkey@,
                    auditor_elgamal_pubkey,
                )
            } else {
                debited(
                    source_aes_key@,
                    account_info.decryptable_available_balance@,
                    transfer_amount,
                ) is Some
            }) ==> exists|proof_data: Option<Seq<u8>>, balance: AeCiphertext|
                {
                    &&& ae_decryption(source_aes_key@, balance@) == debited(
                        source_aes_key@,
                        account_info.decryptable_available_balance@,
                        transfer_amount,
                    )
                    &&& proof_data is Some <==> context_state_account is None
                    &&& proof_data matches Some(p) ==> is_transfer_proof(
                        p,
                        source_elgamal_keypair@,
                        destination_elgamal_pubkey@,
                        auditor_elgamal_pubkey,
                    )
                    &&& #[trigger] transfers(
                        r,
                        self@.confidential_transfer(
                            *source_account,
                            *destination_account,
                            *source_authority,
                            opt_key(context_state_account),
                            proof_data,
                            balance,
                            signing_pubkeys@,
                        ),
                    )
                },
    {
        let proof_data = if context_state_account.is_some() {
            None
        } else {
            match account_info.generate_transfer_proof_data(
                transfer_amount,
                source_elgamal_keypair,
                source_aes_key,
                destination_elgamal_pubkey,
                auditor_elgamal_pubkey,
            ) {
                Some(proof) => Some(proof),
                None => {
                    return Err(TokenError::ProofGeneration);
                },
            }
        };
        let balance = match account_info.new_decryptable_available_balance(
            transfer_amount,
            source_aes_key,
        ) {
            Ok(balance) => balance,
            Err(e) => {
                return Err(e);
            },
        };
        let proof = proof_data.as_ref();
        let r = self.confidential_transfer_transfer_with(
            source_account,
            destination_account,
            source_authority,
            context_state_account,
            proof,
            &balance,
            signing_pubkeys,
        );
        assert(transfers(
            r,
            self@.confidential_transfer(
                *source_account,
                *destination_account,
                *source_authority,
                opt_key(context_state_account),
                opt_bytes(proof),
                balance,
                signing_pubkeys@,
            ),
        ));
        r
    }

    /// The instructions of a confidential transfer with a fee, given the
    /// proof, unless that is in a context account, and the source's new
    /// decryptable balance.
    pub fn confidential_transfer_transfer_with_fee_with(
        &self,
        source_account: &Pubkey,
        destination_account: &Pubkey,
        source_authority: &Pubkey,
        context_state_account: Option<&Pubkey>,
        proof_data: Option<&Vec<u8>>,
        new_decryptable_available_balance: &AeCiphertext,
        signing_pubkeys: &Vec<Pubkey>,
    ) -> (r: Result<TransferInstructions, TokenError>)
        ensures
            transfers(
                r,
                self@.confidential_transfer_with_fee(
                    *source_account,
                    *destination_account,
                    *source_authority,
                    opt_key(context_state_account),
                    opt_bytes(proof_data),
                    *new_decryptable_available_balance,
                    signing_pubkeys@,
                ),
            ),
    {
        let multisig_signers = get_multisig_signers(source_authority, signing_pubkeys);
        if context_state_account.is_none() && proof_data.is_none() {
            return Err(TokenError::ProofGeneration);
        }
        match attach_proof(
            confidential_transfer::transfer_with_fee(
                &self.program_id,
                source_account,
                &self.pubkey,
                destination_account,
                new_decryptable_available_balance,
                source_authority,
                &multisig_signers,
                context_state_account,
            ),
            ProofInstruction::VerifyTransferWithFee,
            context_state_account,
            proof_data,
        ) {
            Ok(instructions) => Ok(
                TransferInstructions {
                    instructions,
                    hook_instruction: Some(0),
                    additional_compute_budget: Some(TRANSFER_WITH_FEE_COMPUTE_BUDGET),
                },
            ),
            Err(e) => Err(e),
        }
    }

    /// The instructions of a confidential transfer of `transfer_amount`
    /// tokens with a fee. The transaction is to be assembled with a limit
    /// of 500 000 compute units.
    ///
    /// Without a context account the proof is made first; a proof that
    /// cannot be made ends the operation. The source's new decryptable
    /// balance decrypts to the old one less the amount; where the old one
    /// cannot be decrypted or is too small, the account cannot be
    /// decrypted.
    pub fn confidential_transfer_transfer_with_fee(
        &self,
        source_account: &Pubkey,
        destination_account: &Pubkey,
        source_authority: &Pubkey,
        context_state_account: Option<&Pubkey>,
        transfer_amount: u64,
        account_info: &TransferAccountInfo,
        source_elgamal_keypair: &ElGamalKeypair,
        source_aes_key: &AeKey,
        destination_elgamal_pubkey: &ElGamalPubkey,
        auditor_elgamal_pubkey: Option<&ElGamalPubkey>,
        withdraw_withheld_authority_elgamal_pubkey: &ElGamalPubkey,
        fee_rate_basis_points: u16,
        maximum_fee: u64,
        signing_pubkeys: &Vec<Pubkey>,
    ) -> (r: Result<TransferInstructions, TokenError>)
        ensures
            context_state_account is None && !(account_info.can_prove_transfer(
                transfer_amount,
                source_elgamal_keypair@,
                source_aes_key@,
                destination_elgamal_pubkey@,
                auditor_elgamal_pubkey,
            ) && reads_elgamal_pubkey(withdraw_withheld_authority_elgamal_pubkey@)) ==> r is Err && r->Err_0 == TokenError::ProofGeneration,
            context_state_account is Some && debited(
                source_aes_key@,
                account_info.decryptable_available_balance@,
                transfer_amount,
            ) is None ==> r is Err && r->Err_0 == TokenError::AccountDecryption,
            (if context_state_account is None {
                (account_info.can_prove_transfer(
                    transfer_amount,
                    source_elgamal_keypair@,
                    source_aes_key@,
                    destination_elgamal_pubkey@,
                    auditor_elgamal_pubkey,
                ) && reads_elgamal_pubkey(withdraw_withheld_authority_elgamal_pubkey@))
            } else {
                debited(
                    source_aes_key@,
                    account_info.decryptable_available_balance@,
                    transfer_amount,
                ) is Some
            }) ==> exists|proof_data: Option<Seq<u8>>, balance: AeCiphertext|
                {
                    &&& ae_decryption(source_aes_key@, balance@) == debited(
                        source_aes_key@,
                        account_info.decryptable_available_balance@,
                        transfer_amount,
                    )
                    &&& proof_data is Some <==> context_state_account is None
                    &&& proof_data matches Some(p) ==> is_transfer_with_fee_proof(
                        p,
                        source_elgamal_keypair@,
                        destination_elgamal_pubkey@,
                        auditor_elgamal_pubkey,
                        withdraw_withheld_authority_elgamal_pubkey@,
                        fee_rate_basis_points,
                        maximum_fee,
                    )
                    &&& #[trigger] transfers(
                        r,
                        self@.confidential_transfer_with_fee(
                            *source_account,
                            *destination_account,
                            *source_authority,
                            opt_key(context_state_account),
                            proof_data,
                            balance,
                            signing_pubkeys@,
                        ),
                    )
                },
    {
        let proof_data = if context_state_account.is_some() {
            None
        } else {
            match account_info.generate_transfer_with_fee_proof_data(
                transfer_amount,
                source_elgamal_keypair,
                source_aes_key,
                destination_elgamal_pubkey,
                auditor_elgamal_pubkey,
                withdraw_withheld_authority_elgamal_pubkey,
                fee_rate_basis_points,
                maximum_fee,
            ) {
                Some(proof) => Some(proof),
                None => {
                    return Err(TokenError::ProofGeneration);
                },
            }
        };
        let balance = match account_info.new_decryptable_available_balance(
            transfer_amount,
            source_aes_key,
        ) {
            Ok(balance) => balance,
            Err(e) => {
                return Err(e);
            },
        };
        let proof = proof_data.as_ref();
        let r = self.confidential_transfer_transfer_with_fee_with(
            source_account,
            destination_account,
            source_authority,
            context_state_account,
            proof,
            &balance,
            signing_pubkeys,
        );
        assert(transfers(
            r,
            self@.confidential_transfer_with_fee(
                *source_account,
                *destination_account,
                *source_authority,
                opt_key(context_state_account),
                opt_bytes(proof),
                balance,
                signing_pubkeys@,
            ),
        ));
        r
    }

    /// The instruction that adds the pending balance of `account` to its
    /// available balance, given the number of credits that the caller saw
    /// and the new decryptable balance.
    pub fn confidential_transfer_apply_pending_balance_with(
        &self,
        account: &Pubkey,
        authority: &Pubkey,
        expected_pending_balance_credit_counter: u64,
        new_decryptable_available_balance: &AeCiphertext,
        signing_pubkeys: &Vec<Pubkey>,
    ) -> (r: Result<Vec<Instruction>, TokenError>)
        ensures
            instructs(
                r,
                for_one(
                    confidential_transfer::apply_pending_balance_encoding(
                        self@.program_id,
                        *account,
                        expected_pending_balance_credit_counter,
                        *new_decryptable_available_balance,
                        *authority,
                        multisig_signers(*authority, signing_pubkeys@),
                    ),
                ),
            ),
    {
        let multisig_signers = get_multisig_signers(authority, signing_pubkeys);
        one_instruction(
            confidential_transfer::apply_pending_balance(
                &self.program_id,
                account,
                expected_pending_balance_credit_counter,
                new_decryptable_available_balance,
                authority,
                &multisig_signers,
            ),
        )
    }

    /// The instruction that adds the pending balance of `account` to its
    /// available balance. The new decryptable balance decrypts to the sum
    /// of the two; where a part cannot be decrypted, the account cannot be
    /// decrypted.
    pub fn confidential_transfer_apply_pending_balance(
        &self,
        account: &Pubkey,
        authority: &Pubkey,
        account_info: &ApplyPendingBalanceAccountInfo,
        elgamal_secret_key: &ElGamalSecretKey,
        aes_key: &AeKey,
        signing_pubkeys: &Vec<Pubkey>,
    ) -> (r: Result<Vec<Instruction>, TokenError>)
        ensures
            match credited(elgamal_secret_key@, aes_key@, *account_info) {
                None => r is Err && r->Err_0 == TokenError::AccountDecryption,
                Some(total) => exists|balance: AeCiphertext|
                    ae_decryption(aes_key@, balance@) == Some(total) && #[trigger] instructs(
                        r,
                        for_one(
                            confidential_transfer::apply_pending_balance_encoding(
                                self@.program_id,
                                *account,
                                account_info.pending_balance_credit_counter,
                                balance,
                                *authority,
                                multisig_signers(*authority, signing_pubkeys@),
                            ),
                        ),
                    ),
            },
    {
        let expected = account_info.pending_balance_credit_counter();
        let balance = match account_info.new_decryptable_available_balance(
            elgamal_secret_key,
            aes_key,
        ) {
            Ok(balance) => balance,
            Err(e) => {
                return Err(e);
            },
        };
        let r = self.confidential_transfer_apply_pending_balance_with(
            account,
            authority,
            expected,
            &balance,
            signing_pubkeys,
        );
        assert(instructs(
            r,
            for_one(
                confidential_transfer::apply_pending_balance_encoding(
                    self@.program_id,
                    *account,
                    account_info.pending_balance_credit_counter,
                    balance,
                    *authority,
                    multisig_signers(*authority, signing_pubkeys@),
                ),
            ),
        ));
        r
    }

    /// The instructions that move the confidential fees withheld in the
    /// mint to `destination_account`, given the proof unless that is in a
    /// context account.
    pub fn confidential_transfer_withdraw_withheld_tokens_from_mint_with(
        &self,
        destination_account: &Pubkey,
        withdraw_withheld_authority: &Pubkey,
        context_state_account: Option<&Pubkey>,
        proof_data: Option<&Vec<u8>>,
        new_decryptable_available_balance: &AeCiphertext,
        signing_pubkeys: &Vec<Pubkey>,
    ) -> (r: Result<Vec<Instruction>, TokenError>)
        ensures
            instructs(
                r,
                self@.withdraw_withheld_from_mint(
                    *destination_account,
                    *withdraw_withheld_authority,
                    opt_key(context_state_account),
                    opt_bytes(proof_data),
                    *new_decryptable_available_balance,
                    signing_pubkeys@,
                ),
            ),
    {
        let multisig_signers = get_multisig_signers(withdraw_withheld_authority, signing_pubkeys);
        if context_state_account.is_none() && proof_data.is_none() {
            return Err(TokenError::ProofGeneration);
        }
        attach_proof(
            confidential_transfer_fee::withdraw_withheld_tokens_from_mint(
                &self.program_id,
                &self.pubkey,
                destination_account,
                new_decryptable_available_balance,
                withdraw_withheld_authority,
                &multisig_signers,
                context_state_account,
            ),
            ProofInstruction::VerifyCiphertextCiphertextEquality,
            context_state_account,
            proof_data,
        )
    }

    /// The instructions that move the confidential fees withheld in the
    /// mint to `destination_account`. Without a context account the proof
    /// is made and verified in the same transaction.
    pub fn confidential_transfer_withdraw_withheld_tokens_from_mint(
        &self,
        destination_account: &Pubkey,
        withdraw_withheld_authority: &Pubkey,
        context_state_account: Option<&Pubkey>,
        withheld_tokens_info: &WithheldTokensInfo,
        withdraw_withheld_authority_elgamal_keypair: &ElGamalKeypair,
        destination_elgamal_pubkey: &ElGamalPubkey,
        new_decryptable_available_balance: &AeCiphertext,
        signing_pubkeys: &Vec<Pubkey>,
    ) -> (r: Result<Vec<Instruction>, TokenError>)
        ensures
            exists|proof_data: Option<Seq<u8>>|
                (proof_data is Some <==> (context_state_account is None
                    && withheld_tokens_info.can_prove(
                    withdraw_withheld_authority_elgamal_keypair@,
                    destination_elgamal_pubkey@,
                ))) && (proof_data matches Some(p) ==> withheld_tokens_info.is_proof(
                    p,
                    withdraw_withheld_authority_elgamal_keypair@,
                    destination_elgamal_pubkey@,
                )) && #[trigger] instructs(
                    r,
                    self@.withdraw_withheld_from_mint(
                        *destination_account,
                        *withdraw_withheld_authority,
                        opt_key(context_state_account),
                        proof_data,
                        *new_decryptable_available_balance,
                        signing_pubkeys@,
                    ),
                ),
    {
        let proof_data = if context_state_account.is_some() {
            None
        } else {
            withheld_tokens_info.generate_proof_data(
                withdraw_withheld_authority_elgamal_keypair,
                destination_elgamal_pubkey,
            )
        };
        let proof = proof_data.as_ref();
        let r = self.confidential_transfer_withdraw_withheld_tokens_from_mint_with(
            destination_account,
            withdraw_withheld_authority,
            context_state_account,
            proof,
            new_decryptable_available_balance,
            signing_pubkeys,
        );
        assert(instructs(
            r,
            self@.withdraw_withheld_from_mint(
                *destination_account,
                *withdraw_withheld_authority,
                opt_key(context_state_account),
                opt_bytes(proof),
                *new_decryptable_available_balance,
                signing_pubkeys@,
            ),
        ));
        r
    }

    /// The instructions that move the confidential fees withheld in
    /// `sources` to `destination_account`, given the proof unless that is
    /// in a context account.
    pub fn confidential_transfer_withdraw_withheld_tokens_from_accounts_with(
        &self,
        destination_account: &Pubkey,
        withdraw_withheld_authority: &Pubkey,
        context_state_account: Option<&Pubkey>,
        proof_data: Option<&Vec<u8>>,
        new_decryptable_available_balance: &AeCiphertext,
        sources: &Vec<Pubkey>,
        signing_pubkeys: &Vec<Pubkey>,
    ) -> (r: Result<Vec<Instruction>, TokenError>)
        ensures
            instructs(
                r,
                self@.withdraw_withheld_from_accounts(
                    *destination_account,
                    *withdraw_withheld_authority,
                    opt_key(context_state_account),
                    opt_bytes(proof_data),
                    *new_decryptable_available_balance,
                    sources@,
                    signing_pubkeys@,
                ),
            ),
    {
        let multisig_signers = get_multisig_signers(withdraw_withheld_authority, signing_pubkeys);
        if context_state_account.is_none() && proof_data.is_none() {
            return Err(TokenError::ProofGeneration);
        }
        attach_proof(
            withheld::withdraw_withheld_tokens_from_accounts(
                &self.program_id,
                &self.pubkey,
                destination_account,
                new_decryptable_available_balance,
                withdraw_withheld_authority,
                &multisig_signers,
                sources,
                context_state_account,
            ),
            ProofInstruction::VerifyCiphertextCiphertextEquality,
            context_state_account,
            proof_data,
        )
    }

    /// The instructions that move the confidential fees withheld in
    /// `sources` to `destination_account`. Without a context account the
    /// proof is made and verified in the same transaction.
    pub fn confidential_transfer_withdraw_withheld_tokens_from_accounts(
        &self,
        destination_account: &Pubkey,
        withdraw_withheld_authority: &Pubkey,
        context_state_account: Option<&Pubkey>,
        withheld_tokens_info: &WithheldTokensInfo,
        withdraw_withheld_authority_elgamal_keypair: &ElGamalKeypair,
        destination_elgamal_pubkey: &ElGamalPubkey,
        new_decryptable_available_balance: &AeCiphertext,
        sources: &Vec<Pubkey>,
        signing_pubkeys: &Vec<Pubkey>,
    ) -> (r: Result<Vec<Instruction>, TokenError>)
        ensures
            exists|proof_data: Option<Seq<u8>>|
                (proof_data is Some <==> (context_state_account is None
                    && withheld_tokens_info.can_prove(
                    withdraw_withheld_authority_elgamal_keypair@,
                    destination_elgamal_pubkey@,
                ))) && (proof_data matches Some(p) ==> withheld_tokens_info.is_proof(
                    p,
                    withdraw_withheld_authority_elgamal_keypair@,
                    destination_elgamal_pubkey@,
                )) && #[trigger] instructs(
                    r,
                    self@.withdraw_withheld_from_accounts(
                        *destination_account,
                        *withdraw_withheld_authority,
                        opt_key(context_state_account),
                        proof_data,
                        *new_decryptable_available_balance,
                        sources@,
                        signing_pubkeys@,
                    ),
                ),
    {
        let proof_data = if context_state_account.is_some() {
            None
        } else {
            withheld_tokens_info.generate_proof_data(
                withdraw_withheld_authority_elgamal_keypair,
                destination_elgamal_pubkey,
            )
        };
        let proof = proof_data.as_ref();
        let r = self.confidential_transfer_withdraw_withheld_tokens_from_accounts_with(
            destination_account,
            withdraw_withheld_authority,
            context_state_account,
            proof,
            new_decryptable_available_balance,
            sources,
            signing_pubkeys,
        );
        assert(instructs(
            r,
            self@.withdraw_withheld_from_accounts(
                *destination_account,
                *withdraw_withheld_authority,
                opt_key(context_state_account),
                opt_bytes(proof),
                *new_decryptable_available_balance,
                sources@,
                signing_pubkeys@,
            ),
        ));
        r
    }
}

/// An error among the first lookups is the error of the whole list.
pub proof fn lemma_first_withheld_error_stays(
    token: TokenView,
    found: Seq<Option<BaseAccount>>,
    total: ElGamalCiphertext,
    n: int,
)
    requires
        0 <= n <= found.len(),
        aggregate_withheld(token, found.subrange(0, n), total) is Err,
    ensures
        aggregate_withheld(token, found, total) == aggregate_withheld(
            token,
            found.subrange(0, n),
            total,
        ),
    decreases found.len() - n,
{
    if n < found.len() {
        assert(found.subrange(0, n + 1).drop_last() == found.subrange(0, n));
        lemma_first_withheld_error_stays(token, found, total, n + 1);
    } else {
        assert(found.subrange(0, n) == found);
    }
}

} // verus!
