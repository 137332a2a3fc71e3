//! Transfers of tokens, with the accounts that a mint's transfer hook asks
//! for.
use crate::account::{unpacked_account, BaseAccount};
use crate::encode::associated::{
    associated_address, create_associated, create_associated_token_account_idempotent,
};
use crate::encode::{token, transfer_fee};
use crate::error::{ProgramError, TokenError};
use crate::instruction::{
    extend_accounts, push_instruction, views, AccountMeta, Instruction, InstructionView,
};
use crate::programs::spec_native_mint;
use crate::pubkey::Pubkey;
use crate::signers::{get_multisig_signers, multisig_signers};
use crate::token::{Token, TokenView};
use vstd::prelude::*;

verus! {

/// The instructions of a transfer, and what is left to do before they are
/// assembled.
#[derive(Debug)]
pub struct TransferInstructions {
    pub instructions: Vec<Instruction>,
    /// The index of the instruction for which the caller is to ask the
    /// mint's transfer hook, through the network, for further accounts, to
    /// be put at the end of its accounts; none where nothing is to be
    /// resolved.
    pub hook_instruction: Option<usize>,
    /// The compute-unit limit to assemble the transaction with, if it needs
    /// one.
    pub additional_compute_budget: Option<u32>,
}

/// A transfer's instructions as mathematical values.
pub struct TransferInstructionsView {
    pub instructions: Seq<InstructionView>,
    pub hook_instruction: Option<usize>,
    pub additional_compute_budget: Option<u32>,
}

impl View for TransferInstructions {
    type V = TransferInstructionsView;

    open spec fn view(&self) -> TransferInstructionsView {
        TransferInstructionsView {
            instructions: views(self.instructions@),
            hook_instruction: self.hook_instruction,
            additional_compute_budget: self.additional_compute_budget,
        }
    }
}

/// True when `r` holds the transfer or the error that `expected` names.
pub open spec fn transfers(
    r: Result<TransferInstructions, TokenError>,
    expected: Result<TransferInstructionsView, TokenError>,
) -> bool {
    match expected {
        Ok(v) => r is Ok && r->Ok_0@ == v,
        Err(e) => r is Err && r->Err_0 == e,
    }
}

/// `instruction` with `extra` at the end of its accounts.
pub open spec fn with_accounts(instruction: InstructionView, extra: Seq<AccountMeta>) -> InstructionView {
    InstructionView { accounts: instruction.accounts + extra, ..instruction }
}

impl TokenView {
    /// The instruction that transfers `amount` tokens, and whether the
    /// caller is to resolve the hook's accounts for it.
    ///
    /// With decimals on the handle the transfer is a checked one: with a
    /// configured list of hook accounts these are put at the end of its
    /// accounts as they are, and nothing is to be resolved; without one the
    /// caller resolves them. Without decimals the transfer is unchecked and
    /// carries no hook accounts.
    pub open spec fn transfer_instruction(
        self,
        source: Pubkey,
        destination: Pubkey,
        authority: Pubkey,
        amount: u64,
        signing_pubkeys: Seq<Pubkey>,
    ) -> Result<(InstructionView, bool), ProgramError> {
        let signers = multisig_signers(authority, signing_pubkeys);
        match self.decimals {
            Some(decimals) => match token::transfer_checked_encoding(
                self.program_id,
                source,
                self.pubkey,
                destination,
                authority,
                signers,
                amount,
                decimals,
            ) {
                Err(e) => Err(e),
                Ok(instruction) => match self.transfer_hook_accounts {
                    Some(hook_accounts) => Ok((with_accounts(instruction, hook_accounts), false)),
                    None => Ok((instruction, true)),
                },
            },
            None => match token::transfer_encoding(
                self.program_id,
                source,
                destination,
                authority,
                signers,
                amount,
            ) {
                Err(e) => Err(e),
                Ok(instruction) => Ok((instruction, false)),
            },
        }
    }

    /// What `transfer` gives.
    pub open spec fn transfer(
        self,
        source: Pubkey,
        destination: Pubkey,
        authority: Pubkey,
        amount: u64,
        signing_pubkeys: Seq<Pubkey>,
    ) -> Result<TransferInstructionsView, TokenError> {
        match self.transfer_instruction(source, destination, authority, amount, signing_pubkeys) {
            Err(e) => Err(TokenError::Program(e)),
            Ok((instruction, resolve)) => Ok(
                TransferInstructionsView {
                    instructions: seq![instruction],
                    hook_instruction: if resolve {
                        Some(0usize)
                    } else {
                        None
                    },
                    additional_compute_budget: None,
                },
            ),
        }
    }

    /// What `create_recipient_associated_account_and_transfer` gives.
    pub open spec fn create_recipient_associated_account_and_transfer(
        self,
        source: Pubkey,
        destination: Pubkey,
        destination_owner: Pubkey,
        authority: Pubkey,
        amount: u64,
        fee: Option<u64>,
        signing_pubkeys: Seq<Pubkey>,
    ) -> Result<TransferInstructionsView, TokenError> {
        if Some(destination) != associated_address(destination_owner, self.pubkey, self.program_id) {
            Err(TokenError::AccountInvalidAssociatedAddress)
        } else {
            let create = create_associated(
                self.payer,
                destination_owner,
                self.pubkey,
                self.program_id,
                true,
            )->Some_0;
            match fee {
                Some(fee) => match self.decimals {
                    None => Err(TokenError::MissingDecimals),
                    Some(decimals) => match transfer_fee::transfer_checked_with_fee_encoding(
                        self.program_id,
                        source,
                        self.pubkey,
                        destination,
                        authority,
                        multisig_signers(authority, signing_pubkeys),
                        amount,
                        decimals,
                        fee,
                    ) {
                        Err(e) => Err(TokenError::Program(e)),
                        Ok(instruction) => Ok(
                            TransferInstructionsView {
                                instructions: seq![create, instruction],
                                hook_instruction: None,
                                additional_compute_budget: None,
                            },
                        ),
                    },
                },
                None => match self.transfer_instruction(
                    source,
                    destination,
                    authority,
                    amount,
                    signing_pubkeys,
                ) {
                    Err(e) => Err(TokenError::Program(e)),
                    Ok((instruction, resolve)) => Ok(
                        TransferInstructionsView {
                            instructions: seq![create, instruction],
                            hook_instruction: if resolve {
                                Some(1usize)
                            } else {
                                None
                            },
                            additional_compute_budget: None,
                        },
                    ),
                },
            }
        }
    }

    /// What `empty_and_close_account` gives, for an account that was read.
    pub open spec fn empty_and_close(
        self,
        account_to_close: Pubkey,
        lamports_destination: Pubkey,
        tokens_destination: Pubkey,
        authority: Pubkey,
        signing_pubkeys: Seq<Pubkey>,
        amount: u64,
        destination_data: Option<Seq<u8>>,
    ) -> Result<Seq<InstructionView>, ProgramError> {
        let signers = multisig_signers(authority, signing_pubkeys);
        match (if Some(self.pubkey) != spec_native_mint(self.program_id) && amount > 0 {
            match (match self.decimals {
                Some(decimals) => token::transfer_checked_encoding(
                    self.program_id,
                    account_to_close,
                    self.pubkey,
                    tokens_destination,
                    authority,
                    signers,
                    amount,
                    decimals,
                ),
                None => token::transfer_encoding(
                    self.program_id,
                    account_to_close,
                    tokens_destination,
                    authority,
                    signers,
                    amount,
                ),
            }) {
                Ok(i) => Ok(seq![i]),
                Err(e) => Err(e),
            }
        } else {
            Ok(Seq::empty())
        }) {
            Err(e) => Err(e),
            Ok(first) => match self.close_instructions(
                account_to_close,
                lamports_destination,
                authority,
                signing_pubkeys,
                destination_data,
            ) {
                Err(e) => Err(e),
                Ok(close) => Ok(first + close),
            },
        }
    }
}

impl Token {
    /// The instruction that transfers `amount` tokens, and whether the
    /// caller is to resolve the hook's accounts for it.
    pub fn transfer_instruction(
        &self,
        source: &Pubkey,
        destination: &Pubkey,
        authority: &Pubkey,
        amount: u64,
        signing_pubkeys: &Vec<Pubkey>,
    ) -> (r: Result<(Instruction, bool), ProgramError>)
        ensures
            match self@.transfer_instruction(
                *source,
                *destination,
                *authority,
                amount,
                signing_pubkeys@,
            ) {
                Ok((instruction, resolve)) => r is Ok && r->Ok_0.0@ == instruction && r->Ok_0.1
                    == resolve,
                Err(e) => r is Err && r->Err_0 == e,
            },
    {
        let multisig_signers = get_multisig_signers(authority, signing_pubkeys);
        match self.decimals {
            Some(decimals) => {
                let mut instruction = match token::transfer_checked(
                    &self.program_id,
                    source,
                    &self.pubkey,
                    destination,
                    authority,
                    &multisig_signers,
                    amount,
                    decimals,
                ) {
                    Ok(instruction) => instruction,
                    Err(e) => {
                        return Err(e);
                    },
                };
                match &self.transfer_hook_accounts {
                    Some(transfer_hook_accounts) => {
                        extend_accounts(&mut instruction, transfer_hook_accounts);
                        Ok((instruction, false))
                    },
                    None => Ok((instruction, true)),
                }
            },
            None => match token::transfer(
                &self.program_id,
                source,
                destination,
                authority,
                &multisig_signers,
                amount,
            ) {
                Ok(instruction) => Ok((instruction, false)),
                Err(e) => Err(e),
            },
        }
    }

    /// The instructions that transfer `amount` tokens from `source` to
    /// `destination`.
    pub fn transfer(
        &self,
        source: &Pubkey,
        destination: &Pubkey,
        authority: &Pubkey,
        amount: u64,
        signing_pubkeys: &Vec<Pubkey>,
    ) -> (r: Result<TransferInstructions, TokenError>)
        ensures
            transfers(
                r,
                self@.transfer(*source, *destination, *authority, amount, signing_pubkeys@),
            ),
    {
        match self.transfer_instruction(source, destination, authority, amount, signing_pubkeys) {
            Err(e) => Err(TokenError::Program(e)),
            Ok((instruction, resolve_hook_accounts)) => {
                let mut instructions: Vec<Instruction> = Vec::new();
                assert(views(instructions@) =~= Seq::<InstructionView>::empty());
                push_instruction(&mut instructions, instruction);
                assert(views(instructions@) =~= seq![instruction@]);
                Ok(
                    TransferInstructions {
                        instructions,
                        hook_instruction: if resolve_hook_accounts {
                            Some(0)
                        } else {
                            None
                        },
                        additional_compute_budget: None,
                    },
                )
            },
        }
    }

    /// The instructions that transfer tokens to the associated account of
    /// `destination_owner`, which is created first unless it exists.
    /// `destination` must be that account's address. With a fee given, the
    /// transfer states it; the handle must then hold the decimals.
    pub fn create_recipient_associated_account_and_transfer(
        &self,
        source: &Pubkey,
        destination: &Pubkey,
        destination_owner: &Pubkey,
        authority: &Pubkey,
        amount: u64,
        fee: Option<u64>,
        signing_pubkeys: &Vec<Pubkey>,
    ) -> (r: Result<TransferInstructions, TokenError>)
        ensures
            transfers(
                r,
                self@.create_recipient_associated_account_and_transfer(
                    *source,
                    *destination,
                    *destination_owner,
                    *authority,
                    amount,
                    fee,
                    signing_pubkeys@,
                ),
            ),
    {
        let multisig_signers = get_multisig_signers(authority, signing_pubkeys);
        let matches_associated = match self.get_associated_token_address(destination_owner) {
            Some(address) => *destination == address,
            None => false,
        };
        if !matches_associated {
            return Err(TokenError::AccountInvalidAssociatedAddress);
        }
        let create = create_associated_token_account_idempotent(
            &self.payer,
            destination_owner,
            &self.pubkey,
            &self.program_id,
        ).unwrap();
        let mut instructions: Vec<Instruction> = Vec::new();
        assert(views(instructions@) =~= Seq::<InstructionView>::empty());
        push_instruction(&mut instructions, create);
        let mut resolve_hook_accounts = false;
        match fee {
            Some(fee) => {
                let decimals = match self.decimals {
                    Some(decimals) => decimals,
                    None => {
                        return Err(TokenError::MissingDecimals);
                    },
                };
                match transfer_fee::transfer_checked_with_fee(
                    &self.program_id,
                    source,
                    &self.pubkey,
                    destination,
                    authority,
                    &multisig_signers,
                    amount,
                    decimals,
                    fee,
                ) {
                    Ok(instruction) => {
                        push_instruction(&mut instructions, instruction);
                        assert(views(instructions@) =~= seq![create@, instruction@]);
                    },
                    Err(e) => {
                        return Err(TokenError::Program(e));
                    },
                }
            },
            None => match self.transfer_instruction(
                source,
                destination,
                authority,
                amount,
                signing_pubkeys,
            ) {
                Ok((instruction, resolve)) => {
                    push_instruction(&mut instructions, instruction);
                    assert(views(instructions@) =~= seq![create@, instruction@]);
                    resolve_hook_accounts = resolve;
                },
                Err(e) => {
                    return Err(TokenError::Program(e));
                },
            },
        }
        Ok(
            TransferInstructions {
                instructions,
                hook_instruction: if resolve_hook_accounts {
                    Some(1)
                } else {
                    None
                },
                additional_compute_budget: None,
            },
        )
    }

    /// The instructions that empty and close the account `account_to_close`
    /// of this mint: its tokens, if it holds any and the mint is not the
    /// native one, go to `tokens_destination`, its lamports to
    /// `lamports_destination`.
    ///
    /// `found` is what a lookup of the account gave; it must be a valid
    /// account of this mint. `destination_data` are the data of the
    /// lamports' destination where a lookup found it.
    pub fn empty_and_close_account(
        &self,
        account_to_close: &Pubkey,
        lamports_destination: &Pubkey,
        tokens_destination: &Pubkey,
        authority: &Pubkey,
        signing_pubkeys: &Vec<Pubkey>,
        found: Option<BaseAccount>,
        destination_data: Option<&Vec<u8>>,
    ) -> (r: Result<Vec<Instruction>, TokenError>)
        requires
            spec_native_mint(self@.program_id) is Some,
        ensures
            match found {
                None => r is Err && r->Err_0 == TokenError::AccountNotFound,
                Some(account) => match self@.unpack_account_info(account.owner, account.data@) {
                    Err(e) => r is Err && r->Err_0 == e,
                    Ok(state) => crate::instruction::instructs(
                        r,
                        crate::instruction::for_all(
                            self@.empty_and_close(
                                *account_to_close,
                                *lamports_destination,
                                *tokens_destination,
                                *authority,
                                signing_pubkeys@,
                                state.amount,
                                match destination_data {
                                    Some(data) => Some(data@),
                                    None => None,
                                },
                            ),
                        ),
                    ),
                },
            },
    {
        let multisig_signers = get_multisig_signers(authority, signing_pubkeys);
        let account_state = match self.get_account_info(found) {
            Ok(info) => info,
            Err(e) => {
                return Err(e);
            },
        };
        let amount = account_state.base.amount;
        let mut instructions: Vec<Instruction> = Vec::new();
        assert(views(instructions@) =~= Seq::<InstructionView>::empty());
        if !self.is_native() && amount > 0 {
            let transfer = match self.decimals {
                Some(decimals) => token::transfer_checked(
                    &self.program_id,
                    account_to_close,
                    &self.pubkey,
                    tokens_destination,
                    authority,
                    &multisig_signers,
                    amount,
                    decimals,
                ),
                None => token::transfer(
                    &self.program_id,
                    account_to_close,
                    tokens_destination,
                    authority,
                    &multisig_signers,
                    amount,
                ),
            };
            match transfer {
                Ok(instruction) => push_instruction(&mut instructions, instruction),
                Err(e) => {
                    return Err(TokenError::Program(e));
                },
            }
        }
        match self.push_close(
            &mut instructions,
            account_to_close,
            lamports_destination,
            authority,
            signing_pubkeys,
            destination_data,
        ) {
            Ok(()) => Ok(instructions),
            Err(e) => Err(TokenError::Program(e)),
        }
    }
}

} // verus!
