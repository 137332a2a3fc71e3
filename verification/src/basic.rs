//! The operations on mints and accounts that take one instruction of the token
//! program. Each gives the instructions to assemble; the caller assembles and
//! submits them.
use crate::encode::token::{
    approve, approve_checked, approve_checked_encoding, approve_encoding, burn, burn_checked,
    burn_checked_encoding, burn_encoding, freeze_account, freeze_account_encoding, mint_to,
    mint_to_checked, mint_to_checked_encoding, mint_to_encoding, reallocate, reallocate_encoding,
    revoke, revoke_encoding, set_authority, set_authority_encoding, sync_native,
    sync_native_encoding, thaw_account, thaw_account_encoding, withdraw_excess_lamports,
    withdraw_excess_lamports_encoding,
};
use crate::error::TokenError;
use crate::instruction::{for_one, instructs, one_instruction, Instruction};
use crate::pubkey::Pubkey;
use crate::signers::{get_multisig_signers, multisig_signers};
use crate::state::{AuthorityType, ExtensionType};
use crate::token::{copied_key, opt_key, Token};
use vstd::prelude::*;

verus! {

impl Token {
    /// Assigns a new authority to the mint or account `account`, or removes the
    /// authority.
    pub fn set_authority(
        &self,
        account: &Pubkey,
        authority: &Pubkey,
        new_authority: Option<&Pubkey>,
        authority_type: AuthorityType,
        signing_pubkeys: &Vec<Pubkey>,
    ) -> (r: Result<Vec<Instruction>, TokenError>)
        ensures
            instructs(r, for_one(set_authority_encoding(
                self@.program_id,
                *account,
                opt_key(new_authority),
                authority_type,
                *authority,
                multisig_signers(*authority, signing_pubkeys@),
            ))),
    {
        let multisig_signers = get_multisig_signers(authority, signing_pubkeys);
        one_instruction(set_authority(
            &self.program_id,
            account,
            copied_key(new_authority),
            authority_type,
            authority,
            &multisig_signers,
        ))
    }

    /// Mints `amount` new tokens to `destination`; with decimals on the handle,
    /// the program checks them.
    pub fn mint_to(
        &self,
        destination: &Pubkey,
        authority: &Pubkey,
        amount: u64,
        signing_pubkeys: &Vec<Pubkey>,
    ) -> (r: Result<Vec<Instruction>, TokenError>)
        ensures
            instructs(
                r,
                for_one(
                    match self@.decimals {
                        Some(decimals) => mint_to_checked_encoding(
                            self@.program_id,
                            self@.pubkey,
                            *destination,
                            *authority,
                            multisig_signers(*authority, signing_pubkeys@),
                            amount,
                            decimals,
                        ),
                        None => mint_to_encoding(
                            self@.program_id,
                            self@.pubkey,
                            *destination,
                            *authority,
                            multisig_signers(*authority, signing_pubkeys@),
                            amount,
                        ),
                    },
                ),
            ),
    {
        let multisig_signers = get_multisig_signers(authority, signing_pubkeys);
        match self.decimals {
            Some(decimals) => one_instruction(mint_to_checked(
                &self.program_id,
                &self.pubkey,
                destination,
                authority,
                &multisig_signers,
                amount,
                decimals,
            )),
            None => one_instruction(mint_to(
                &self.program_id,
                &self.pubkey,
                destination,
                authority,
                &multisig_signers,
                amount,
            )),
        }
    }

    /// Burns `amount` tokens of `source`; with decimals on the handle, the
    /// program checks them.
    pub fn burn(
        &self,
        source: &Pubkey,
        authority: &Pubkey,
        amount: u64,
        signing_pubkeys: &Vec<Pubkey>,
    ) -> (r: Result<Vec<Instruction>, TokenError>)
        ensures
            instructs(
                r,
                for_one(
                    match self@.decimals {
                        Some(decimals) => burn_checked_encoding(
                            self@.program_id,
                            *source,
                            self@.pubkey,
                            *authority,
                            multisig_signers(*authority, signing_pubkeys@),
                            amount,
                            decimals,
                        ),
                        None => burn_encoding(
                            self@.program_id,
                            *source,
                            self@.pubkey,
                            *authority,
                            multisig_signers(*authority, signing_pubkeys@),
                            amount,
                        ),
                    },
                ),
            ),
    {
        let multisig_signers = get_multisig_signers(authority, signing_pubkeys);
        match self.decimals {
            Some(decimals) => one_instruction(burn_checked(
                &self.program_id,
                source,
                &self.pubkey,
                authority,
                &multisig_signers,
                amount,
                decimals,
            )),
            None => one_instruction(burn(
                &self.program_id,
                source,
                &self.pubkey,
                authority,
                &multisig_signers,
                amount,
            )),
        }
    }

    /// Lets `delegate` spend up to `amount` tokens of `source`; with decimals
    /// on the handle, the program checks them.
    pub fn approve(
        &self,
        source: &Pubkey,
        delegate: &Pubkey,
        authority: &Pubkey,
        amount: u64,
        signing_pubkeys: &Vec<Pubkey>,
    ) -> (r: Result<Vec<Instruction>, TokenError>)
        ensures
            instructs(
                r,
                for_one(
                    match self@.decimals {
                        Some(decimals) => approve_checked_encoding(
                            self@.program_id,
                            *source,
                            self@.pubkey,
                            *delegate,
                            *authority,
                            multisig_signers(*authority, signing_pubkeys@),
                            amount,
                            decimals,
                        ),
                        None => approve_encoding(
                            self@.program_id,
                            *source,
                            *delegate,
                            *authority,
                            multisig_signers(*authority, signing_pubkeys@),
                            amount,
                        ),
                    },
                ),
            ),
    {
        let multisig_signers = get_multisig_signers(authority, signing_pubkeys);
        match self.decimals {
            Some(decimals) => one_instruction(approve_checked(
                &self.program_id,
                source,
                &self.pubkey,
                delegate,
                authority,
                &multisig_signers,
                amount,
                decimals,
            )),
            None => one_instruction(approve(
                &self.program_id,
                source,
                delegate,
                authority,
                &multisig_signers,
                amount,
            )),
        }
    }

    /// Revokes the delegate of `source`.
    pub fn revoke(
        &self,
        source: &Pubkey,
        authority: &Pubkey,
        signing_pubkeys: &Vec<Pubkey>,
    ) -> (r: Result<Vec<Instruction>, TokenError>)
        ensures
            instructs(r, for_one(revoke_encoding(
                self@.program_id,
                *source,
                *authority,
                multisig_signers(*authority, signing_pubkeys@),
            ))),
    {
        let multisig_signers = get_multisig_signers(authority, signing_pubkeys);
        one_instruction(revoke(&self.program_id, source, authority, &multisig_signers))
    }

    /// Freezes a token account.
    pub fn freeze(
        &self,
        account: &Pubkey,
        authority: &Pubkey,
        signing_pubkeys: &Vec<Pubkey>,
    ) -> (r: Result<Vec<Instruction>, TokenError>)
        ensures
            instructs(r, for_one(freeze_account_encoding(
                self@.program_id,
                *account,
                self@.pubkey,
                *authority,
                multisig_signers(*authority, signing_pubkeys@),
            ))),
    {
        let multisig_signers = get_multisig_signers(authority, signing_pubkeys);
        one_instruction(freeze_account(
            &self.program_id,
            account,
            &self.pubkey,
            authority,
            &multisig_signers,
        ))
    }

    /// Thaws a frozen token account.
    pub fn thaw(
        &self,
        account: &Pubkey,
        authority: &Pubkey,
        signing_pubkeys: &Vec<Pubkey>,
    ) -> (r: Result<Vec<Instruction>, TokenError>)
        ensures
            instructs(r, for_one(thaw_account_encoding(
                self@.program_id,
                *account,
                self@.pubkey,
                *authority,
                multisig_signers(*authority, signing_pubkeys@),
            ))),
    {
        let multisig_signers = get_multisig_signers(authority, signing_pubkeys);
        one_instruction(thaw_account(
            &self.program_id,
            account,
            &self.pubkey,
            authority,
            &multisig_signers,
        ))
    }

    /// Brings the amount of a wrapped-native account in line with its lamports.
    pub fn sync_native(&self, account: &Pubkey) -> (r: Result<Vec<Instruction>, TokenError>)
        ensures
            instructs(r, for_one(sync_native_encoding(self@.program_id, *account))),
    {
        one_instruction(sync_native(&self.program_id, account))
    }

    /// Enlarges a token account so that it can hold the given extensions; the
    /// handle's payer pays.
    pub fn reallocate(
        &self,
        account: &Pubkey,
        authority: &Pubkey,
        extension_types: &Vec<ExtensionType>,
        signing_pubkeys: &Vec<Pubkey>,
    ) -> (r: Result<Vec<Instruction>, TokenError>)
        ensures
            instructs(r, for_one(reallocate_encoding(
                self@.program_id,
                *account,
                self@.payer,
                *authority,
                multisig_signers(*authority, signing_pubkeys@),
                extension_types@,
            ))),
    {
        let multisig_signers = get_multisig_signers(authority, signing_pubkeys);
        one_instruction(reallocate(
            &self.program_id,
            account,
            &self.payer,
            authority,
            &multisig_signers,
            extension_types,
        ))
    }

    /// Moves the lamports that `source` holds beyond its rent to `destination`.
    pub fn withdraw_excess_lamports(
        &self,
        source: &Pubkey,
        destination: &Pubkey,
        authority: &Pubkey,
        signing_pubkeys: &Vec<Pubkey>,
    ) -> (r: Result<Vec<Instruction>, TokenError>)
        ensures
            instructs(r, for_one(withdraw_excess_lamports_encoding(
                self@.program_id,
                *source,
                *destination,
                *authority,
                multisig_signers(*authority, signing_pubkeys@),
            ))),
    {
        let multisig_signers = get_multisig_signers(authority, signing_pubkeys);
        one_instruction(withdraw_excess_lamports(
            &self.program_id,
            source,
            destination,
            authority,
            &multisig_signers,
        ))
    }
}

} // verus!
