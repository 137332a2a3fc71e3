use solana_program::instruction::Instruction as LedgerInstruction;
use solana_program::program_error::ProgramError as LedgerProgramError;
use solana_program::pubkey::Pubkey as LedgerKey;
use spl_token_2022::extension as ledger_extension;
use spl_token_2022::extension::default_account_state::instruction as ledger_state;
use spl_token_2022::extension::transfer_fee::instruction as ledger_fee;
use spl_token_2022::extension::ExtensionType as LedgerExtensionType;
use spl_token_2022::instruction::AuthorityType as LedgerAuthorityType;
use spl_token_2022::state::AccountState as LedgerAccountState;
use spl_token_group_interface::instruction as ledger_group;
use spl_token_metadata_interface::instruction as ledger_metadata;
use spl_token_metadata_interface::state::Field as LedgerField;
use token_client::encode::{
    cpi_guard, default_account_state, group_member_pointer, group_pointer, interest_bearing_mint,
    memo_transfer, metadata_pointer, token, token_group, token_metadata, transfer_fee,
    transfer_hook,
};
use token_client::error::{ProgramError, INCORRECT_PROGRAM_ID};
use token_client::instruction::{AccountMeta, Instruction};
use token_client::optional_keys::OptionalNonZeroPubkey;
use token_client::programs::{token_2022_id, token_id};
use token_client::pubkey::Pubkey;
use token_client::state::{AccountState, AuthorityType, ExtensionType, Field};

fn key(byte: u8) -> Pubkey {
    Pubkey::new_from_array([byte; 32])
}

fn lk(byte: u8) -> LedgerKey {
    LedgerKey::new_from_array([byte; 32])
}

fn program() -> Pubkey {
    token_2022_id()
}

fn lprogram() -> LedgerKey {
    spl_token_2022::id()
}

fn from_ledger(instruction: &LedgerInstruction) -> Instruction {
    Instruction {
        program_id: Pubkey::new_from_array(instruction.program_id.to_bytes()),
        accounts: instruction
            .accounts
            .iter()
            .map(|m| AccountMeta {
                pubkey: Pubkey::new_from_array(m.pubkey.to_bytes()),
                is_signer: m.is_signer,
                is_writable: m.is_writable,
            })
            .collect(),
        data: instruction.data.clone(),
    }
}

fn check(ours: Result<Instruction, ProgramError>, theirs: Result<LedgerInstruction, LedgerProgramError>) {
    match (ours, theirs) {
        (Ok(a), Ok(b)) => {
            let b = from_ledger(&b);
            assert_eq!(a.program_id, b.program_id);
            assert_eq!(a.accounts, b.accounts);
            assert_eq!(a.data, b.data);
        }
        (Err(a), Err(b)) => assert_eq!(a.code, u64::from(b)),
        (a, b) => panic!("one failed, the other did not: {:?} / {:?}", a, b),
    }
}

fn check_plain(ours: Instruction, theirs: LedgerInstruction) {
    check(Ok(ours), Ok(theirs));
}

#[test]
fn mint_and_account_initializers_are_the_ledgers() {
    check(
        token::initialize_mint(&program(), &key(1), &key(2), Some(key(3)), 9),
        spl_token_2022::instruction::initialize_mint(&lprogram(), &lk(1), &lk(2), Some(&lk(3)), 9),
    );
    check(
        token::initialize_mint(&program(), &key(1), &key(2), None, 0),
        spl_token_2022::instruction::initialize_mint(&lprogram(), &lk(1), &lk(2), None, 0),
    );
    check(
        token::initialize_account(&program(), &key(1), &key(2), &key(3)),
        spl_token_2022::instruction::initialize_account(&lprogram(), &lk(1), &lk(2), &lk(3)),
    );
    check(
        token::initialize_multisig(&program(), &key(1), &vec![key(2), key(3)], 2),
        spl_token_2022::instruction::initialize_multisig(&lprogram(), &lk(1), &[&lk(2), &lk(3)], 2),
    );
    check(
        token::initialize_multisig(&program(), &key(1), &vec![key(2)], 5),
        spl_token_2022::instruction::initialize_multisig(&lprogram(), &lk(1), &[&lk(2)], 5),
    );
    check(
        token::initialize_mint_close_authority(&program(), &key(1), Some(key(2))),
        spl_token_2022::instruction::initialize_mint_close_authority(&lprogram(), &lk(1), Some(&lk(2))),
    );
    check(
        token::initialize_immutable_owner(&program(), &key(1)),
        spl_token_2022::instruction::initialize_immutable_owner(&lprogram(), &lk(1)),
    );
    check(
        token::initialize_non_transferable_mint(&program(), &key(1)),
        spl_token_2022::instruction::initialize_non_transferable_mint(&lprogram(), &lk(1)),
    );
    check(
        token::initialize_permanent_delegate(&program(), &key(1), &key(2)),
        spl_token_2022::instruction::initialize_permanent_delegate(&lprogram(), &lk(1), &lk(2)),
    );
    check(
        token::create_native_mint(&program(), &key(1)),
        spl_token_2022::instruction::create_native_mint(&lprogram(), &lk(1)),
    );
}

#[test]
fn an_unknown_program_is_refused_as_the_ledger_refuses_it() {
    let result = token::mint_to(&key(9), &key(1), &key(2), &key(3), &vec![], 1);
    assert_eq!(result.unwrap_err(), ProgramError { code: INCORRECT_PROGRAM_ID });
    check(
        token::initialize_immutable_owner(&token_id(), &key(1)),
        spl_token_2022::instruction::initialize_immutable_owner(&spl_token::id(), &lk(1)),
    );
}

#[test]
fn transfers_and_approvals_are_the_ledgers() {
    #[allow(deprecated)]
    let plain = spl_token_2022::instruction::transfer(&lprogram(), &lk(1), &lk(2), &lk(3), &[&lk(4)], 5);
    check(token::transfer(&program(), &key(1), &key(2), &key(3), &vec![key(4)], 5), plain);
    check(
        token::transfer_checked(&program(), &key(1), &key(2), &key(3), &key(4), &vec![], 5, 6),
        spl_token_2022::instruction::transfer_checked(&lprogram(), &lk(1), &lk(2), &lk(3), &lk(4), &[], 5, 6),
    );
    check(
        token::approve(&program(), &key(1), &key(2), &key(3), &vec![key(4), key(5)], 5),
        spl_token_2022::instruction::approve(&lprogram(), &lk(1), &lk(2), &lk(3), &[&lk(4), &lk(5)], 5),
    );
    check(
        token::approve_checked(&program(), &key(1), &key(2), &key(3), &key(4), &vec![], 5, 6),
        spl_token_2022::instruction::approve_checked(&lprogram(), &lk(1), &lk(2), &lk(3), &lk(4), &[], 5, 6),
    );
    check(
        token::revoke(&program(), &key(1), &key(2), &vec![]),
        spl_token_2022::instruction::revoke(&lprogram(), &lk(1), &lk(2), &[]),
    );
}

#[test]
fn minting_and_burning_are_the_ledgers() {
    check(
        token::mint_to(&program(), &key(1), &key(2), &key(3), &vec![key(4)], 77),
        spl_token_2022::instruction::mint_to(&lprogram(), &lk(1), &lk(2), &lk(3), &[&lk(4)], 77),
    );
    check(
        token::mint_to_checked(&program(), &key(1), &key(2), &key(3), &vec![], 77, 2),
        spl_token_2022::instruction::mint_to_checked(&lprogram(), &lk(1), &lk(2), &lk(3), &[], 77, 2),
    );
    check(
        token::burn(&program(), &key(1), &key(2), &key(3), &vec![], 77),
        spl_token_2022::instruction::burn(&lprogram(), &lk(1), &lk(2), &lk(3), &[], 77),
    );
    check(
        token::burn_checked(&program(), &key(1), &key(2), &key(3), &vec![key(4)], 77, 2),
        spl_token_2022::instruction::burn_checked(&lprogram(), &lk(1), &lk(2), &lk(3), &[&lk(4)], 77, 2),
    );
}

#[test]
fn account_settings_are_the_ledgers() {
    check(
        token::close_account(&program(), &key(1), &key(2), &key(3), &vec![]),
        spl_token_2022::instruction::close_account(&lprogram(), &lk(1), &lk(2), &lk(3), &[]),
    );
    check(
        token::freeze_account(&program(), &key(1), &key(2), &key(3), &vec![key(4)]),
        spl_token_2022::instruction::freeze_account(&lprogram(), &lk(1), &lk(2), &lk(3), &[&lk(4)]),
    );
    check(
        token::thaw_account(&program(), &key(1), &key(2), &key(3), &vec![]),
        spl_token_2022::instruction::thaw_account(&lprogram(), &lk(1), &lk(2), &lk(3), &[]),
    );
    check(
        token::sync_native(&program(), &key(1)),
        spl_token_2022::instruction::sync_native(&lprogram(), &lk(1)),
    );
    check(
        token::withdraw_excess_lamports(&program(), &key(1), &key(2), &key(3), &vec![key(4)]),
        spl_token_2022::instruction::withdraw_excess_lamports(&lprogram(), &lk(1), &lk(2), &lk(3), &[&lk(4)]),
    );
    check(
        token::reallocate(
            &program(),
            &key(1),
            &key(2),
            &key(3),
            &vec![],
            &vec![ExtensionType::MemoTransfer, ExtensionType::CpiGuard],
        ),
        spl_token_2022::instruction::reallocate(
            &lprogram(),
            &lk(1),
            &lk(2),
            &lk(3),
            &[],
            &[LedgerExtensionType::MemoTransfer, LedgerExtensionType::CpiGuard],
        ),
    );
}

#[test]
fn every_kind_of_authority_is_set_as_the_ledger_sets_it() {
    let kinds = [
        (AuthorityType::MintTokens, LedgerAuthorityType::MintTokens),
        (AuthorityType::FreezeAccount, LedgerAuthorityType::FreezeAccount),
        (AuthorityType::AccountOwner, LedgerAuthorityType::AccountOwner),
        (AuthorityType::CloseAccount, LedgerAuthorityType::CloseAccount),
        (AuthorityType::TransferFeeConfig, LedgerAuthorityType::TransferFeeConfig),
        (AuthorityType::WithheldWithdraw, LedgerAuthorityType::WithheldWithdraw),
        (AuthorityType::CloseMint, LedgerAuthorityType::CloseMint),
        (AuthorityType::InterestRate, LedgerAuthorityType::InterestRate),
        (AuthorityType::PermanentDelegate, LedgerAuthorityType::PermanentDelegate),
        (AuthorityType::ConfidentialTransferMint, LedgerAuthorityType::ConfidentialTransferMint),
        (AuthorityType::TransferHookProgramId, LedgerAuthorityType::TransferHookProgramId),
        (
            AuthorityType::ConfidentialTransferFeeConfig,
            LedgerAuthorityType::ConfidentialTransferFeeConfig,
        ),
        (AuthorityType::MetadataPointer, LedgerAuthorityType::MetadataPointer),
        (AuthorityType::GroupPointer, LedgerAuthorityType::GroupPointer),
        (AuthorityType::GroupMemberPointer, LedgerAuthorityType::GroupMemberPointer),
    ];
    for (ours, theirs) in kinds {
        check(
            token::set_authority(&program(), &key(1), Some(key(2)), ours, &key(3), &vec![key(4)]),
            spl_token_2022::instruction::set_authority(
                &lprogram(),
                &lk(1),
                Some(&lk(2)),
                theirs,
                &lk(3),
                &[&lk(4)],
            ),
        );
    }
    check(
        token::set_authority(&program(), &key(1), None, AuthorityType::CloseMint, &key(3), &vec![]),
        spl_token_2022::instruction::set_authority(
            &lprogram(),
            &lk(1),
            None,
            LedgerAuthorityType::CloseMint,
            &lk(3),
            &[],
        ),
    );
}

#[test]
fn transfer_fee_instructions_are_the_ledgers() {
    check(
        transfer_fee::initialize_transfer_fee_config(&program(), &key(1), Some(key(2)), None, 25, 1000),
        ledger_fee::initialize_transfer_fee_config(&lprogram(), &lk(1), Some(&lk(2)), None, 25, 1000),
    );
    check(
        transfer_fee::transfer_checked_with_fee(
            &program(),
            &key(1),
            &key(2),
            &key(3),
            &key(4),
            &vec![key(5)],
            100,
            6,
            3,
        ),
        ledger_fee::transfer_checked_with_fee(&lprogram(), &lk(1), &lk(2), &lk(3), &lk(4), &[&lk(5)], 100, 6, 3),
    );
    check(
        transfer_fee::withdraw_withheld_tokens_from_mint(&program(), &key(1), &key(2), &key(3), &vec![]),
        ledger_fee::withdraw_withheld_tokens_from_mint(&lprogram(), &lk(1), &lk(2), &lk(3), &[]),
    );
    check(
        transfer_fee::withdraw_withheld_tokens_from_accounts(
            &program(),
            &key(1),
            &key(2),
            &key(3),
            &vec![key(4)],
            &vec![key(5), key(6)],
        ),
        ledger_fee::withdraw_withheld_tokens_from_accounts(
            &lprogram(),
            &lk(1),
            &lk(2),
            &lk(3),
            &[&lk(4)],
            &[&lk(5), &lk(6)],
        ),
    );
    check(
        transfer_fee::harvest_withheld_tokens_to_mint(&program(), &key(1), &vec![key(2), key(3)]),
        ledger_fee::harvest_withheld_tokens_to_mint(&lprogram(), &lk(1), &[&lk(2), &lk(3)]),
    );
    check(
        transfer_fee::set_transfer_fee(&program(), &key(1), &key(2), &vec![], 30, 2000),
        ledger_fee::set_transfer_fee(&lprogram(), &lk(1), &lk(2), &[], 30, 2000),
    );
}

#[test]
fn default_account_state_instructions_are_the_ledgers() {
    let states = [
        (AccountState::Uninitialized, LedgerAccountState::Uninitialized),
        (AccountState::Initialized, LedgerAccountState::Initialized),
        (AccountState::Frozen, LedgerAccountState::Frozen),
    ];
    for (ours, theirs) in states {
        check(
            default_account_state::initialize_default_account_state(&program(), &key(1), ours),
            ledger_state::initialize_default_account_state(&lprogram(), &lk(1), &theirs),
        );
        check(
            default_account_state::update_default_account_state(
                &program(),
                &key(1),
                &key(2),
                &vec![key(3)],
                ours,
            ),
            ledger_state::update_default_account_state(&lprogram(), &lk(1), &lk(2), &[&lk(3)], &theirs),
        );
    }
}

#[test]
fn pointer_and_rate_instructions_are_the_ledgers() {
    check(
        interest_bearing_mint::initialize(&program(), &key(1), Some(key(2)), -5),
        ledger_extension::interest_bearing_mint::instruction::initialize(&lprogram(), &lk(1), Some(lk(2)), -5),
    );
    check(
        interest_bearing_mint::update_rate(&program(), &key(1), &key(2), &vec![], 7),
        ledger_extension::interest_bearing_mint::instruction::update_rate(&lprogram(), &lk(1), &lk(2), &[], 7),
    );
    check(
        transfer_hook::initialize(&program(), &key(1), Some(key(2)), Some(key(3))),
        ledger_extension::transfer_hook::instruction::initialize(&lprogram(), &lk(1), Some(lk(2)), Some(lk(3))),
    );
    check(
        transfer_hook::update(&program(), &key(1), &key(2), &vec![key(4)], None),
        ledger_extension::transfer_hook::instruction::update(&lprogram(), &lk(1), &lk(2), &[&lk(4)], None),
    );
    check(
        metadata_pointer::initialize(&program(), &key(1), None, Some(key(3))),
        ledger_extension::metadata_pointer::instruction::initialize(&lprogram(), &lk(1), None, Some(lk(3))),
    );
    check(
        metadata_pointer::update(&program(), &key(1), &key(2), &vec![], Some(key(3))),
        ledger_extension::metadata_pointer::instruction::update(&lprogram(), &lk(1), &lk(2), &[], Some(lk(3))),
    );
    check(
        group_pointer::initialize(&program(), &key(1), Some(key(2)), Some(key(3))),
        ledger_extension::group_pointer::instruction::initialize(&lprogram(), &lk(1), Some(lk(2)), Some(lk(3))),
    );
    check(
        group_pointer::update(&program(), &key(1), &key(2), &vec![], Some(key(3))),
        ledger_extension::group_pointer::instruction::update(&lprogram(), &lk(1), &lk(2), &[], Some(lk(3))),
    );
    check(
        group_member_pointer::initialize(&program(), &key(1), Some(key(2)), None),
        ledger_extension::group_member_pointer::instruction::initialize(&lprogram(), &lk(1), Some(lk(2)), None),
    );
    check(
        group_member_pointer::update(&program(), &key(1), &key(2), &vec![], Some(key(3))),
        ledger_extension::group_member_pointer::instruction::update(&lprogram(), &lk(1), &lk(2), &[], Some(lk(3))),
    );
}

#[test]
fn memo_and_guard_instructions_are_the_ledgers() {
    check(
        memo_transfer::enable_required_transfer_memos(&program(), &key(1), &key(2), &vec![]),
        ledger_extension::memo_transfer::instruction::enable_required_transfer_memos(&lprogram(), &lk(1), &lk(2), &[]),
    );
    check(
        memo_transfer::disable_required_transfer_memos(&program(), &key(1), &key(2), &vec![key(3)]),
        ledger_extension::memo_transfer::instruction::disable_required_transfer_memos(
            &lprogram(),
            &lk(1),
            &lk(2),
            &[&lk(3)],
        ),
    );
    check(
        cpi_guard::enable_cpi_guard(&program(), &key(1), &key(2), &vec![]),
        ledger_extension::cpi_guard::instruction::enable_cpi_guard(&lprogram(), &lk(1), &lk(2), &[]),
    );
    check(
        cpi_guard::disable_cpi_guard(&program(), &key(1), &key(2), &vec![]),
        ledger_extension::cpi_guard::instruction::disable_cpi_guard(&lprogram(), &lk(1), &lk(2), &[]),
    );
}

#[test]
fn metadata_instructions_are_the_interfaces() {
    check_plain(
        token_metadata::initialize(&program(), &key(1), &key(2), &key(3), &key(4), "n", "s", "u"),
        ledger_metadata::initialize(
            &lprogram(),
            &lk(1),
            &lk(2),
            &lk(3),
            &lk(4),
            "n".to_string(),
            "s".to_string(),
            "u".to_string(),
        ),
    );
    let fields = [
        (Field::Name, LedgerField::Name),
        (Field::Symbol, LedgerField::Symbol),
        (Field::Uri, LedgerField::Uri),
        (Field::Key("colour".to_string()), LedgerField::Key("colour".to_string())),
    ];
    for (ours, theirs) in fields {
        check_plain(
            token_metadata::update_field(&program(), &key(1), &key(2), &ours, "v"),
            ledger_metadata::update_field(&lprogram(), &lk(1), &lk(2), theirs, "v".to_string()),
        );
    }
    check_plain(
        token_metadata::remove_key(&program(), &key(1), &key(2), "colour", true),
        ledger_metadata::remove_key(&lprogram(), &lk(1), &lk(2), "colour".to_string(), true),
    );
    check_plain(
        token_metadata::update_authority(
            &program(),
            &key(1),
            &key(2),
            OptionalNonZeroPubkey::try_from(Some(key(3))).unwrap(),
        ),
        ledger_metadata::update_authority(&lprogram(), &lk(1), &lk(2), Some(lk(3)).try_into().unwrap()),
    );
    check_plain(
        token_metadata::update_authority(
            &program(),
            &key(1),
            &key(2),
            OptionalNonZeroPubkey::try_from(None).unwrap(),
        ),
        ledger_metadata::update_authority(&lprogram(), &lk(1), &lk(2), None.try_into().unwrap()),
    );
}

#[test]
fn group_instructions_are_the_interfaces() {
    check_plain(
        token_group::initialize_group(&program(), &key(1), &key(2), &key(3), Some(key(4)), 10),
        ledger_group::initialize_group(&lprogram(), &lk(1), &lk(2), &lk(3), Some(lk(4)), 10),
    );
    check_plain(
        token_group::update_group_max_size(&program(), &key(1), &key(2), 20),
        ledger_group::update_group_max_size(&lprogram(), &lk(1), &lk(2), 20),
    );
    check_plain(
        token_group::update_group_authority(&program(), &key(1), &key(2), None),
        ledger_group::update_group_authority(&lprogram(), &lk(1), &lk(2), None),
    );
    check_plain(
        token_group::initialize_member(&program(), &key(1), &key(2), &key(3), &key(4), &key(5)),
        ledger_group::initialize_member(&lprogram(), &lk(1), &lk(2), &lk(3), &lk(4), &lk(5)),
    );
}
