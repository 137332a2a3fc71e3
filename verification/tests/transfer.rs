use solana_program::instruction::Instruction as LedgerInstruction;
use solana_program::program_option::COption;
use solana_program::program_pack::Pack;
use solana_program::pubkey::Pubkey as LedgerKey;
use spl_token_2022::state::{Account as LedgerAccount, AccountState as LedgerAccountState};
use token_client::account::BaseAccount;
use token_client::error::TokenError;
use token_client::instruction::{AccountMeta, Instruction};
use token_client::programs::token_2022_id;
use token_client::pubkey::Pubkey;
use token_client::token::Token;

fn key(byte: u8) -> Pubkey {
    Pubkey::new_from_array([byte; 32])
}

fn lk(byte: u8) -> LedgerKey {
    LedgerKey::new_from_array([byte; 32])
}

fn from_ledger(instruction: &LedgerInstruction) -> Instruction {
    Instruction {
        program_id: Pubkey::new_from_array(instruction.program_id.to_bytes()),
        accounts: instruction
            .accounts
            .iter()
            .map(|m| AccountMeta {
                pubkey: Pubkey::new_from_array(m.pubkey.to_bytes()),
                is_signer: m.is_signer,
                is_writable: m.is_writable,
            })
            .collect(),
        data: instruction.data.clone(),
    }
}

fn assert_same(ours: &Instruction, theirs: &LedgerInstruction) {
    let theirs = from_ledger(theirs);
    assert_eq!(ours.program_id, theirs.program_id);
    assert_eq!(ours.accounts, theirs.accounts);
    assert_eq!(ours.data, theirs.data);
}

fn token() -> Token {
    Token::new(&token_2022_id(), &key(11), Some(9), key(12))
}

fn checked(signers: &[&LedgerKey], amount: u64) -> LedgerInstruction {
    spl_token_2022::instruction::transfer_checked(
        &spl_token_2022::id(),
        &lk(1),
        &lk(11),
        &lk(2),
        &lk(3),
        signers,
        amount,
        9,
    )
    .unwrap()
}

#[test]
fn without_configured_hook_accounts_they_are_to_be_resolved() {
    let transfer = token().transfer(&key(1), &key(2), &key(3), 10, &vec![key(3)]).unwrap();
    assert_eq!(transfer.hook_instruction, Some(0));
    assert_eq!(transfer.additional_compute_budget, None);
    assert_eq!(transfer.instructions.len(), 1);
    assert_same(&transfer.instructions[0], &checked(&[], 10));
}

#[test]
fn configured_hook_accounts_are_appended_as_they_are() {
    let hooks = vec![AccountMeta::new_readonly(key(40), false), AccountMeta::new(key(41), false)];
    let token = token().with_transfer_hook_accounts(hooks.clone());
    let transfer = token.transfer(&key(1), &key(2), &key(3), 10, &vec![key(3)]).unwrap();
    assert_eq!(transfer.hook_instruction, None);
    let mut expected = from_ledger(&checked(&[], 10));
    expected.accounts.extend(hooks);
    assert_eq!(transfer.instructions[0].accounts, expected.accounts);
    assert_eq!(transfer.instructions[0].data, expected.data);
}

#[test]
fn without_decimals_the_transfer_is_unchecked() {
    let token = Token::new(&token_2022_id(), &key(11), None, key(12));
    let transfer = token.transfer(&key(1), &key(2), &key(3), 10, &vec![key(4), key(5)]).unwrap();
    assert_eq!(transfer.hook_instruction, None);
    #[allow(deprecated)]
    let expected = spl_token_2022::instruction::transfer(
        &spl_token_2022::id(),
        &lk(1),
        &lk(2),
        &lk(3),
        &[&lk(4), &lk(5)],
        10,
    )
    .unwrap();
    assert_same(&transfer.instructions[0], &expected);
}

#[test]
fn co_signers_are_listed_in_the_instruction() {
    let transfer = token().transfer(&key(1), &key(2), &key(3), 10, &vec![key(4), key(3)]).unwrap();
    assert_same(&transfer.instructions[0], &checked(&[&lk(4), &lk(3)], 10));
}

#[test]
fn the_recipients_account_is_created_before_the_transfer() {
    let token = token();
    let destination = token.get_associated_token_address(&key(6)).unwrap();
    let transfer = token
        .create_recipient_associated_account_and_transfer(
            &key(1),
            &destination,
            &key(6),
            &key(3),
            10,
            None,
            &vec![key(3)],
        )
        .unwrap();
    assert_eq!(transfer.instructions.len(), 2);
    assert_eq!(transfer.hook_instruction, Some(1));
    assert_same(
        &transfer.instructions[0],
        &spl_associated_token_account::instruction::create_associated_token_account_idempotent(
            &lk(12),
            &lk(6),
            &lk(11),
            &spl_token_2022::id(),
        ),
    );
    assert_eq!(transfer.instructions[0].data, vec![1]);
    assert_eq!(transfer.instructions[1].accounts[2].pubkey, destination);
}

#[test]
fn the_recipients_address_must_be_the_associated_one() {
    let result = token().create_recipient_associated_account_and_transfer(
        &key(1),
        &key(2),
        &key(6),
        &key(3),
        10,
        None,
        &vec![],
    );
    assert_eq!(result.unwrap_err(), TokenError::AccountInvalidAssociatedAddress);
}

#[test]
fn a_transfer_with_a_fee_states_the_fee_and_needs_decimals() {
    let token = token();
    let destination = token.get_associated_token_address(&key(6)).unwrap();
    let transfer = token
        .create_recipient_associated_account_and_transfer(
            &key(1),
            &destination,
            &key(6),
            &key(3),
            10,
            Some(2),
            &vec![key(3)],
        )
        .unwrap();
    assert_eq!(transfer.hook_instruction, None);
    assert_same(
        &transfer.instructions[1],
        &spl_token_2022::extension::transfer_fee::instruction::transfer_checked_with_fee(
            &spl_token_2022::id(),
            &lk(1),
            &lk(11),
            &LedgerKey::new_from_array(destination.to_bytes()),
            &lk(3),
            &[],
            10,
            9,
            2,
        )
        .unwrap(),
    );
    let bare = Token::new(&token_2022_id(), &key(11), None, key(12));
    let destination = bare.get_associated_token_address(&key(6)).unwrap();
    assert_eq!(
        bare.create_recipient_associated_account_and_transfer(
            &key(1),
            &destination,
            &key(6),
            &key(3),
            10,
            Some(2),
            &vec![],
        )
        .unwrap_err(),
        TokenError::MissingDecimals
    );
    assert_eq!(
        bare.transfer_with_fee(&key(1), &key(2), &key(3), 10, 2, &vec![]).unwrap_err(),
        TokenError::MissingDecimals
    );
}

fn account(amount: u64) -> BaseAccount {
    let state = LedgerAccount {
        mint: lk(11),
        owner: lk(7),
        amount,
        delegate: COption::None,
        state: LedgerAccountState::Initialized,
        is_native: COption::None,
        delegated_amount: 0,
        close_authority: COption::None,
    };
    let mut data = vec![0u8; LedgerAccount::LEN];
    LedgerAccount::pack(state, &mut data).unwrap();
    BaseAccount { lamports: 1, data, owner: token_2022_id(), executable: false, rent_epoch: 0 }
}

#[test]
fn an_account_with_tokens_is_emptied_before_it_is_closed() {
    let instructions = token()
        .empty_and_close_account(&key(1), &key(2), &key(4), &key(3), &vec![key(3)], Some(account(25)), None)
        .unwrap();
    assert_eq!(instructions.len(), 2);
    assert_same(
        &instructions[0],
        &spl_token_2022::instruction::transfer_checked(
            &spl_token_2022::id(),
            &lk(1),
            &lk(11),
            &lk(4),
            &lk(3),
            &[],
            25,
            9,
        )
        .unwrap(),
    );
    assert_same(
        &instructions[1],
        &spl_token_2022::instruction::close_account(&spl_token_2022::id(), &lk(1), &lk(2), &lk(3), &[])
            .unwrap(),
    );
}

#[test]
fn an_empty_account_is_closed_at_once() {
    let instructions = token()
        .empty_and_close_account(&key(1), &key(2), &key(4), &key(3), &vec![], Some(account(0)), None)
        .unwrap();
    assert_eq!(instructions.len(), 1);
    assert_eq!(
        token()
            .empty_and_close_account(&key(1), &key(2), &key(4), &key(3), &vec![], None, None)
            .unwrap_err(),
        TokenError::AccountNotFound
    );
}
