//! The operations that set what a mint's or an account's extensions hold, one
//! instruction each.
use crate::encode::{
    cpi_guard, default_account_state, group_member_pointer, group_pointer, interest_bearing_mint,
    memo_transfer, metadata_pointer, transfer_fee, transfer_hook,
};
use crate::error::TokenError;
use crate::instruction::{for_one, instructs, one_instruction, Instruction};
use crate::pubkey::Pubkey;
use crate::signers::{get_multisig_signers, multisig_signers};
use crate::state::AccountState;
use crate::token::Token;
use vstd::prelude::*;

verus! {

impl Token {
    /// Sets the transfer fee of the mint.
    pub fn set_transfer_fee(
        &self,
        authority: &Pubkey,
        transfer_fee_basis_points: u16,
        maximum_fee: u64,
        signing_pubkeys: &Vec<Pubkey>,
    ) -> (r: Result<Vec<Instruction>, TokenError>)
        ensures
            instructs(r, for_one(transfer_fee::set_transfer_fee_encoding(
                self@.program_id,
                self@.pubkey,
                *authority,
                multisig_signers(*authority, signing_pubkeys@),
                transfer_fee_basis_points,
                maximum_fee,
            ))),
    {
        let multisig_signers = get_multisig_signers(authority, signing_pubkeys);
        one_instruction(transfer_fee::set_transfer_fee(
            &self.program_id,
            &self.pubkey,
            authority,
            &multisig_signers,
            transfer_fee_basis_points,
            maximum_fee,
        ))
    }

    /// Transfers `amount` tokens and states the fee that the sender expects.
    /// The handle must hold the decimals.
    pub fn transfer_with_fee(
        &self,
        source: &Pubkey,
        destination: &Pubkey,
        authority: &Pubkey,
        amount: u64,
        fee: u64,
        signing_pubkeys: &Vec<Pubkey>,
    ) -> (r: Result<Vec<Instruction>, TokenError>)
        ensures
            instructs(
                r,
                match self@.decimals {
                    Some(decimals) => for_one(
                        transfer_fee::transfer_checked_with_fee_encoding(
                            self@.program_id,
                            *source,
                            self@.pubkey,
                            *destination,
                            *authority,
                            multisig_signers(*authority, signing_pubkeys@),
                            amount,
                            decimals,
                            fee,
                        ),
                    ),
                    None => Err(TokenError::MissingDecimals),
                },
            ),
    {
        let multisig_signers = get_multisig_signers(authority, signing_pubkeys);
        match self.decimals {
            Some(decimals) => one_instruction(transfer_fee::transfer_checked_with_fee(
                &self.program_id,
                source,
                &self.pubkey,
                destination,
                authority,
                &multisig_signers,
                amount,
                decimals,
                fee,
            )),
            None => Err(TokenError::MissingDecimals),
        }
    }

    /// Moves the fees withheld in `sources` to the mint.
    pub fn harvest_withheld_tokens_to_mint(
        &self,
        sources: &Vec<Pubkey>,
    ) -> (r: Result<Vec<Instruction>, TokenError>)
        ensures
            instructs(r, for_one(transfer_fee::harvest_withheld_tokens_to_mint_encoding(
                self@.program_id,
                self@.pubkey,
                sources@,
            ))),
    {
        one_instruction(transfer_fee::harvest_withheld_tokens_to_mint(
            &self.program_id,
            &self.pubkey,
            sources,
        ))
    }

    /// Moves the fees withheld in the mint to `destination`.
    pub fn withdraw_withheld_tokens_from_mint(
        &self,
        destination: &Pubkey,
        authority: &Pubkey,
        signing_pubkeys: &Vec<Pubkey>,
    ) -> (r: Result<Vec<Instruction>, TokenError>)
        ensures
            instructs(r, for_one(transfer_fee::withdraw_withheld_tokens_from_mint_encoding(
                self@.program_id,
                self@.pubkey,
                *destination,
                *authority,
                multisig_signers(*authority, signing_pubkeys@),
            ))),
    {
        let multisig_signers = get_multisig_signers(authority, signing_pubkeys);
        one_instruction(transfer_fee::withdraw_withheld_tokens_from_mint(
            &self.program_id,
            &self.pubkey,
            destination,
            authority,
            &multisig_signers,
        ))
    }

    /// Moves the fees withheld in `sources` to `destination`.
    pub fn withdraw_withheld_tokens_from_accounts(
        &self,
        destination: &Pubkey,
        authority: &Pubkey,
        sources: &Vec<Pubkey>,
        signing_pubkeys: &Vec<Pubkey>,
    ) -> (r: Result<Vec<Instruction>, TokenError>)
        ensures
            instructs(r, for_one(transfer_fee::withdraw_withheld_tokens_from_accounts_encoding(
                self@.program_id,
                self@.pubkey,
                *destination,
                *authority,
                multisig_signers(*authority, signing_pubkeys@),
                sources@,
            ))),
    {
        let multisig_signers = get_multisig_signers(authority, signing_pubkeys);
        one_instruction(transfer_fee::withdraw_withheld_tokens_from_accounts(
            &self.program_id,
            &self.pubkey,
            destination,
            authority,
            &multisig_signers,
            sources,
        ))
    }

    /// Changes the state in which new accounts of the mint start.
    pub fn set_default_account_state(
        &self,
        authority: &Pubkey,
        state: &AccountState,
        signing_pubkeys: &Vec<Pubkey>,
    ) -> (r: Result<Vec<Instruction>, TokenError>)
        ensures
            instructs(r, for_one(default_account_state::update_default_account_state_encoding(
                self@.program_id,
                self@.pubkey,
                *authority,
                multisig_signers(*authority, signing_pubkeys@),
                *state,
            ))),
    {
        let multisig_signers = get_multisig_signers(authority, signing_pubkeys);
        one_instruction(default_account_state::update_default_account_state(
            &self.program_id,
            &self.pubkey,
            authority,
            &multisig_signers,
            *state,
        ))
    }

    /// Makes `account` require a memo with each incoming transfer.
    pub fn enable_required_transfer_memos(
        &self,
        account: &Pubkey,
        authority: &Pubkey,
        signing_pubkeys: &Vec<Pubkey>,
    ) -> (r: Result<Vec<Instruction>, TokenError>)
        ensures
            instructs(r, for_one(memo_transfer::enable_required_transfer_memos_encoding(
                self@.program_id,
                *account,
                *authority,
                multisig_signers(*authority, signing_pubkeys@),
            ))),
    {
        let multisig_signers = get_multisig_signers(authority, signing_pubkeys);
        one_instruction(memo_transfer::enable_required_transfer_memos(
            &self.program_id,
            account,
            authority,
            &multisig_signers,
        ))
    }

    /// Stops `account` from requiring memos.
    pub fn disable_required_transfer_memos(
        &self,
        account: &Pubkey,
        authority: &Pubkey,
        signing_pubkeys: &Vec<Pubkey>,
    ) -> (r: Result<Vec<Instruction>, TokenError>)
        ensures
            instructs(r, for_one(memo_transfer::disable_required_transfer_memos_encoding(
                self@.program_id,
                *account,
                *authority,
                multisig_signers(*authority, signing_pubkeys@),
            ))),
    {
        let multisig_signers = get_multisig_signers(authority, signing_pubkeys);
        one_instruction(memo_transfer::disable_required_transfer_memos(
            &self.program_id,
            account,
            authority,
            &multisig_signers,
        ))
    }

    /// Guards `account` against use through other programs.
    pub fn enable_cpi_guard(
        &self,
        account: &Pubkey,
        authority: &Pubkey,
        signing_pubkeys: &Vec<Pubkey>,
    ) -> (r: Result<Vec<Instruction>, TokenError>)
        ensures
            instructs(r, for_one(cpi_guard::enable_cpi_guard_encoding(
                self@.program_id,
                *account,
                *authority,
                multisig_signers(*authority, signing_pubkeys@),
            ))),
    {
        let multisig_signers = get_multisig_signers(authority, signing_pubkeys);
        one_instruction(cpi_guard::enable_cpi_guard(
            &self.program_id,
            account,
            authority,
            &multisig_signers,
        ))
    }

    /// Lifts the guard of `account`.
    pub fn disable_cpi_guard(
        &self,
        account: &Pubkey,
        authority: &Pubkey,
        signing_pubkeys: &Vec<Pubkey>,
    ) -> (r: Result<Vec<Instruction>, TokenError>)
        ensures
            instructs(r, for_one(cpi_guard::disable_cpi_guard_encoding(
                self@.program_id,
                *account,
                *authority,
                multisig_signers(*authority, signing_pubkeys@),
            ))),
    {
        let multisig_signers = get_multisig_signers(authority, signing_pubkeys);
        one_instruction(cpi_guard::disable_cpi_guard(
            &self.program_id,
            account,
            authority,
            &multisig_signers,
        ))
    }

    /// Changes the interest rate of the mint.
    pub fn update_interest_rate(
        &self,
        authority: &Pubkey,
        new_rate: i16,
        signing_pubkeys: &Vec<Pubkey>,
    ) -> (r: Result<Vec<Instruction>, TokenError>)
        ensures
            instructs(r, for_one(interest_bearing_mint::update_rate_encoding(
                self@.program_id,
                self@.pubkey,
                *authority,
                multisig_signers(*authority, signing_pubkeys@),
                new_rate,
            ))),
    {
        let multisig_signers = get_multisig_signers(authority, signing_pubkeys);
        one_instruction(interest_bearing_mint::update_rate(
            &self.program_id,
            &self.pubkey,
            authority,
            &multisig_signers,
            new_rate,
        ))
    }

    /// Changes the transfer-hook program of the mint.
    pub fn update_transfer_hook_program_id(
        &self,
        authority: &Pubkey,
        new_program_id: Option<Pubkey>,
        signing_pubkeys: &Vec<Pubkey>,
    ) -> (r: Result<Vec<Instruction>, TokenError>)
        ensures
            instructs(r, for_one(transfer_hook::update_encoding(
                self@.program_id,
                self@.pubkey,
                *authority,
                multisig_signers(*authority, signing_pubkeys@),
                new_program_id,
            ))),
    {
        let multisig_signers = get_multisig_signers(authority, signing_pubkeys);
        one_instruction(transfer_hook::update(
            &self.program_id,
            &self.pubkey,
            authority,
            &multisig_signers,
            new_program_id,
        ))
    }

    /// Changes the metadata address of the mint.
    pub fn update_metadata_address(
        &self,
        authority: &Pubkey,
        new_metadata_address: Option<Pubkey>,
        signing_pubkeys: &Vec<Pubkey>,
    ) -> (r: Result<Vec<Instruction>, TokenError>)
        ensures
            instructs(r, for_one(metadata_pointer::update_encoding(
                self@.program_id,
                self@.pubkey,
                *authority,
                multisig_signers(*authority, signing_pubkeys@),
                new_metadata_address,
            ))),
    {
        let multisig_signers = get_multisig_signers(authority, signing_pubkeys);
        one_instruction(metadata_pointer::update(
            &self.program_id,
            &self.pubkey,
            authority,
            &multisig_signers,
            new_metadata_address,
        ))
    }

    /// Changes the group address of the mint.
    pub fn update_group_address(
        &self,
        authority: &Pubkey,
        new_group_address: Option<Pubkey>,
        signing_pubkeys: &Vec<Pubkey>,
    ) -> (r: Result<Vec<Instruction>, TokenError>)
        ensures
            instructs(r, for_one(group_pointer::update_encoding(
                self@.program_id,
                self@.pubkey,
                *authority,
                multisig_signers(*authority, signing_pubkeys@),
                new_group_address,
            ))),
    {
        let multisig_signers = get_multisig_signers(authority, signing_pubkeys);
        one_instruction(group_pointer::update(
            &self.program_id,
            &self.pubkey,
            authority,
            &multisig_signers,
            new_group_address,
        ))
    }

    /// Changes the group-member address of the mint.
    pub fn update_group_member_address(
        &self,
        authority: &Pubkey,
        new_member_address: Option<Pubkey>,
        signing_pubkeys: &Vec<Pubkey>,
    ) -> (r: Result<Vec<Instruction>, TokenError>)
        ensures
            instructs(r, for_one(group_member_pointer::update_encoding(
                self@.program_id,
                self@.pubkey,
                *authority,
                multisig_signers(*authority, signing_pubkeys@),
                new_member_address,
            ))),
    {
        let multisig_signers = get_multisig_signers(authority, signing_pubkeys);
        one_instruction(group_member_pointer::update(
            &self.program_id,
            &self.pubkey,
            authority,
            &multisig_signers,
            new_member_address,
        ))
    }
}

} // verus!
