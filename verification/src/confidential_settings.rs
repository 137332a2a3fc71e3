//! The operations of the confidential-transfer extensions that need no proof
//! and no key, one instruction each.
use crate::encode::{confidential_transfer, confidential_transfer_fee};
use crate::error::TokenError;
use crate::instruction::{for_one, instructs, one_instruction, Instruction};
use crate::optional_keys::ElGamalPubkey;
use crate::pubkey::Pubkey;
use crate::signers::{get_multisig_signers, multisig_signers};
use crate::token::Token;
use vstd::prelude::*;

verus! {

impl Token {
    /// Changes how the mint treats confidential transfers.
    pub fn confidential_transfer_update_mint(
        &self,
        authority: &Pubkey,
        auto_approve_new_account: bool,
        auditor_elgamal_pubkey: Option<ElGamalPubkey>,
        signing_pubkeys: &Vec<Pubkey>,
    ) -> (r: Result<Vec<Instruction>, TokenError>)
        ensures
            instructs(r, for_one(confidential_transfer::update_mint_encoding(
                self@.program_id,
                self@.pubkey,
                *authority,
                multisig_signers(*authority, signing_pubkeys@),
                auto_approve_new_account,
                auditor_elgamal_pubkey,
            ))),
    {
        let multisig_signers = get_multisig_signers(authority, signing_pubkeys);
        one_instruction(confidential_transfer::update_mint(
            &self.program_id,
            &self.pubkey,
            authority,
            &multisig_signers,
            auto_approve_new_account,
            auditor_elgamal_pubkey,
        ))
    }

    /// Approves `account` for confidential transfers.
    pub fn confidential_transfer_approve_account(
        &self,
        account: &Pubkey,
        authority: &Pubkey,
        signing_pubkeys: &Vec<Pubkey>,
    ) -> (r: Result<Vec<Instruction>, TokenError>)
        ensures
            instructs(r, for_one(confidential_transfer::approve_account_encoding(
                self@.program_id,
                *account,
                self@.pubkey,
                *authority,
                multisig_signers(*authority, signing_pubkeys@),
            ))),
    {
        let multisig_signers = get_multisig_signers(authority, signing_pubkeys);
        one_instruction(confidential_transfer::approve_account(
            &self.program_id,
            account,
            &self.pubkey,
            authority,
            &multisig_signers,
        ))
    }

    /// Moves `amount` tokens of `account` into its pending confidential
    /// balance.
    pub fn confidential_transfer_deposit(
        &self,
        account: &Pubkey,
        authority: &Pubkey,
        amount: u64,
        decimals: u8,
        signing_pubkeys: &Vec<Pubkey>,
    ) -> (r: Result<Vec<Instruction>, TokenError>)
        ensures
            instructs(r, for_one(confidential_transfer::deposit_encoding(
                self@.program_id,
                *account,
                self@.pubkey,
                amount,
                decimals,
                *authority,
                multisig_signers(*authority, signing_pubkeys@),
            ))),
    {
        let multisig_signers = get_multisig_signers(authority, signing_pubkeys);
        one_instruction(confidential_transfer::deposit(
            &self.program_id,
            account,
            &self.pubkey,
            amount,
            decimals,
            authority,
            &multisig_signers,
        ))
    }

    /// Lets `account` receive confidential transfers.
    pub fn confidential_transfer_enable_confidential_credits(
        &self,
        account: &Pubkey,
        authority: &Pubkey,
        signing_pubkeys: &Vec<Pubkey>,
    ) -> (r: Result<Vec<Instruction>, TokenError>)
        ensures
            instructs(r, for_one(confidential_transfer::enable_confidential_credits_encoding(
                self@.program_id,
                *account,
                *authority,
                multisig_signers(*authority, signing_pubkeys@),
            ))),
    {
        let multisig_signers = get_multisig_signers(authority, signing_pubkeys);
        one_instruction(confidential_transfer::enable_confidential_credits(
            &self.program_id,
            account,
            authority,
            &multisig_signers,
        ))
    }

    /// Stops `account` from receiving confidential transfers.
    pub fn confidential_transfer_disable_confidential_credits(
        &self,
        account: &Pubkey,
        authority: &Pubkey,
        signing_pubkeys: &Vec<Pubkey>,
    ) -> (r: Result<Vec<Instruction>, TokenError>)
        ensures
            instructs(r, for_one(confidential_transfer::disable_confidential_credits_encoding(
                self@.program_id,
                *account,
                *authority,
                multisig_signers(*authority, signing_pubkeys@),
            ))),
    {
        let multisig_signers = get_multisig_signers(authority, signing_pubkeys);
        one_instruction(confidential_transfer::disable_confidential_credits(
            &self.program_id,
            account,
            authority,
            &multisig_signers,
        ))
    }

    /// Lets the confidential account `account` receive plain transfers.
    pub fn confidential_transfer_enable_non_confidential_credits(
        &self,
        account: &Pubkey,
        authority: &Pubkey,
        signing_pubkeys: &Vec<Pubkey>,
    ) -> (r: Result<Vec<Instruction>, TokenError>)
        ensures
            instructs(r, for_one(confidential_transfer::enable_non_confidential_credits_encoding(
                self@.program_id,
                *account,
                *authority,
                multisig_signers(*authority, signing_pubkeys@),
            ))),
    {
        let multisig_signers = get_multisig_signers(authority, signing_pubkeys);
        one_instruction(confidential_transfer::enable_non_confidential_credits(
            &self.program_id,
            account,
            authority,
            &multisig_signers,
        ))
    }

    /// Stops the confidential account `account` from receiving plain transfers.
    pub fn confidential_transfer_disable_non_confidential_credits(
        &self,
        account: &Pubkey,
        authority: &Pubkey,
        signing_pubkeys: &Vec<Pubkey>,
    ) -> (r: Result<Vec<Instruction>, TokenError>)
        ensures
            instructs(r, for_one(confidential_transfer::disable_non_confidential_credits_encoding(
                self@.program_id,
                *account,
                *authority,
                multisig_signers(*authority, signing_pubkeys@),
            ))),
    {
        let multisig_signers = get_multisig_signers(authority, signing_pubkeys);
        one_instruction(confidential_transfer::disable_non_confidential_credits(
            &self.program_id,
            account,
            authority,
            &multisig_signers,
        ))
    }

    /// Moves the confidential fees withheld in `sources` to the mint.
    pub fn confidential_transfer_harvest_withheld_tokens_to_mint(
        &self,
        sources: &Vec<Pubkey>,
    ) -> (r: Result<Vec<Instruction>, TokenError>)
        ensures
            instructs(r, for_one(confidential_transfer_fee::harvest_withheld_tokens_to_mint_encoding(
                self@.program_id,
                self@.pubkey,
                sources@,
            ))),
    {
        one_instruction(confidential_transfer_fee::harvest_withheld_tokens_to_mint(
            &self.program_id,
            &self.pubkey,
            sources,
        ))
    }

    /// Lets confidential fees be harvested to the mint.
    pub fn confidential_transfer_enable_harvest_to_mint(
        &self,
        withdraw_withheld_authority: &Pubkey,
        signing_pubkeys: &Vec<Pubkey>,
    ) -> (r: Result<Vec<Instruction>, TokenError>)
        ensures
            instructs(r, for_one(confidential_transfer_fee::enable_harvest_to_mint_encoding(
                self@.program_id,
                self@.pubkey,
                *withdraw_withheld_authority,
                multisig_signers(*withdraw_withheld_authority, signing_pubkeys@),
            ))),
    {
        let multisig_signers = get_multisig_signers(withdraw_withheld_authority, signing_pubkeys);
        one_instruction(confidential_transfer_fee::enable_harvest_to_mint(
            &self.program_id,
            &self.pubkey,
            withdraw_withheld_authority,
            &multisig_signers,
        ))
    }

    /// Stops confidential fees from being harvested to the mint.
    pub fn confidential_transfer_disable_harvest_to_mint(
        &self,
        withdraw_withheld_authority: &Pubkey,
        signing_pubkeys: &Vec<Pubkey>,
    ) -> (r: Result<Vec<Instruction>, TokenError>)
        ensures
            instructs(r, for_one(confidential_transfer_fee::disable_harvest_to_mint_encoding(
                self@.program_id,
                self@.pubkey,
                *withdraw_withheld_authority,
                multisig_signers(*withdraw_withheld_authority, signing_pubkeys@),
            ))),
    {
        let multisig_signers = get_multisig_signers(withdraw_withheld_authority, signing_pubkeys);
        one_instruction(confidential_transfer_fee::disable_harvest_to_mint(
            &self.program_id,
            &self.pubkey,
            withdraw_withheld_authority,
            &multisig_signers,
        ))
    }
}

} // verus!
