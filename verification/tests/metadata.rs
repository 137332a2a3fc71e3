use solana_program::instruction::Instruction as LedgerInstruction;
use solana_program::program_option::COption;
use solana_program::pubkey::Pubkey as LedgerKey;
use spl_token_2022::extension::{
    BaseStateWithExtensions, ExtensionType as LedgerExtensionType, StateWithExtensionsMut,
    StateWithExtensionsOwned,
};
use spl_token_2022::state::Mint as LedgerMint;
use spl_token_group_interface::state::{TokenGroup, TokenGroupMember};
use spl_token_metadata_interface::state::TokenMetadata;
use token_client::account::BaseAccount;
use token_client::error::{ProgramError, TokenError, INVALID_ARGUMENT};
use token_client::instruction::{AccountMeta, Instruction};
use token_client::metadata::{additional_rent, GroupExtension};
use token_client::programs::token_2022_id;
use token_client::pubkey::Pubkey;
use token_client::state::Field;
use token_client::token::Token;

fn key(byte: u8) -> Pubkey {
    Pubkey::new_from_array([byte; 32])
}

fn lk(byte: u8) -> LedgerKey {
    LedgerKey::new_from_array([byte; 32])
}

fn p() -> LedgerKey {
    spl_token_2022::id()
}

fn from_ledger(instruction: &LedgerInstruction) -> Instruction {
    Instruction {
        program_id: Pubkey::new_from_array(instruction.program_id.to_bytes()),
        accounts: instruction
            .accounts
            .iter()
            .map(|m| AccountMeta {
                pubkey: Pubkey::new_from_array(m.pubkey.to_bytes()),
                is_signer: m.is_signer,
                is_writable: m.is_writable,
            })
            .collect(),
        data: instruction.data.clone(),
    }
}

fn assert_same(ours: &Instruction, theirs: &LedgerInstruction) {
    let theirs = from_ledger(theirs);
    assert_eq!(ours.program_id, theirs.program_id);
    assert_eq!(ours.accounts, theirs.accounts);
    assert_eq!(ours.data, theirs.data);
}

fn token() -> Token {
    Token::new(&token_2022_id(), &key(11), Some(9), key(12))
}

fn mint_account(extensions: &[LedgerExtensionType]) -> BaseAccount {
    let len = LedgerExtensionType::try_calculate_account_len::<LedgerMint>(extensions).unwrap();
    let mut data = vec![0u8; len];
    let mut state = StateWithExtensionsMut::<LedgerMint>::unpack_uninitialized(&mut data).unwrap();
    for extension in extensions {
        match extension {
            LedgerExtensionType::TokenGroup => {
                state.init_extension::<TokenGroup>(true).unwrap();
            }
            LedgerExtensionType::TokenGroupMember => {
                state.init_extension::<TokenGroupMember>(true).unwrap();
            }
            _ => unreachable!(),
        }
    }
    state.base = LedgerMint {
        mint_authority: COption::Some(lk(1)),
        supply: 0,
        decimals: 9,
        is_initialized: true,
        freeze_authority: COption::None,
    };
    state.pack_base();
    state.init_account_type().unwrap();
    BaseAccount { lamports: 100, data, owner: token_2022_id(), executable: false, rent_epoch: 0 }
}

#[test]
fn metadata_are_initialized_in_the_mint() {
    let instructions = token().token_metadata_initialize(
        &key(1),
        &key(2),
        "name".to_string(),
        "sym".to_string(),
        "uri".to_string(),
    );
    assert_eq!(instructions.len(), 1);
    assert_same(
        &instructions[0],
        &spl_token_metadata_interface::instruction::initialize(
            &p(),
            &lk(11),
            &lk(1),
            &lk(11),
            &lk(2),
            "name".to_string(),
            "sym".to_string(),
            "uri".to_string(),
        ),
    );
}

#[test]
fn rent_is_moved_before_the_metadata_grow() {
    let token = token();
    let with_rent = token.token_metadata_initialize_with_rent_transfer(
        &key(5),
        &key(1),
        &key(2),
        "n".to_string(),
        "s".to_string(),
        "u".to_string(),
        40,
    );
    assert_eq!(with_rent.len(), 2);
    assert_same(
        &with_rent[0],
        &solana_program::system_instruction::transfer(&lk(5), &lk(11), 40),
    );
    let without = token.token_metadata_update_field_with_rent_transfer(
        &key(5),
        &key(1),
        Field::Uri,
        "v".to_string(),
        0,
    );
    assert_eq!(without.len(), 1);
    assert_same(
        &without[0],
        &spl_token_metadata_interface::instruction::update_field(
            &p(),
            &lk(11),
            &lk(1),
            spl_token_metadata_interface::state::Field::Uri,
            "v".to_string(),
        ),
    );
}

#[test]
fn the_missing_rent_is_never_negative() {
    assert_eq!(additional_rent(100, 30), 70);
    assert_eq!(additional_rent(30, 100), 0);
    assert_eq!(additional_rent(30, 30), 0);
    assert_eq!(additional_rent(u64::MAX, 0), u64::MAX);
}

#[test]
fn the_new_size_for_metadata_is_the_ledgers() {
    let account = mint_account(&[]);
    let ours = token().new_metadata_account_len(&account, "name", "sym", "uri").unwrap();
    let state = StateWithExtensionsOwned::<LedgerMint>::unpack(account.data.clone()).unwrap();
    let metadata = TokenMetadata {
        name: "name".to_string(),
        symbol: "sym".to_string(),
        uri: "uri".to_string(),
        ..Default::default()
    };
    assert_eq!(
        ours,
        state.try_get_new_account_len_for_variable_len_extension(&metadata).unwrap()
    );
    assert!(ours > account.data.len());
    assert!(matches!(
        token().updated_metadata_account_len(&account, &Field::Name, "x").unwrap_err(),
        TokenError::Program(_)
    ));
    let stranger = BaseAccount { owner: key(1), ..mint_account(&[]) };
    assert_eq!(
        token().new_metadata_account_len(&stranger, "n", "s", "u").unwrap_err(),
        TokenError::AccountInvalidOwner
    );
}

#[test]
fn a_group_that_exists_needs_no_more_room() {
    let token = token();
    let with_group = mint_account(&[LedgerExtensionType::TokenGroup]);
    assert_eq!(
        token.fixed_len_extension_account_len(&with_group, GroupExtension::TokenGroup).unwrap(),
        None
    );
    let plain = mint_account(&[]);
    let state = StateWithExtensionsOwned::<LedgerMint>::unpack(plain.data.clone()).unwrap();
    assert_eq!(
        token.fixed_len_extension_account_len(&plain, GroupExtension::TokenGroup).unwrap(),
        Some(state.try_get_new_account_len::<TokenGroup>().unwrap())
    );
    assert_eq!(
        token.fixed_len_extension_account_len(&plain, GroupExtension::TokenGroupMember).unwrap(),
        Some(state.try_get_new_account_len::<TokenGroupMember>().unwrap())
    );
    let with_member = mint_account(&[LedgerExtensionType::TokenGroupMember]);
    assert_eq!(
        token.fixed_len_extension_account_len(&with_member, GroupExtension::TokenGroupMember).unwrap(),
        None
    );
}

#[test]
fn the_zero_key_is_no_update_authority() {
    let zero = Pubkey::new_from_array([0; 32]);
    assert_eq!(
        token().token_metadata_update_authority(&key(1), Some(zero)).unwrap_err(),
        TokenError::Program(ProgramError { code: INVALID_ARGUMENT })
    );
    let instructions = token().token_metadata_update_authority(&key(1), Some(key(2))).unwrap();
    assert_same(
        &instructions[0],
        &spl_token_metadata_interface::instruction::update_authority(
            &p(),
            &lk(11),
            &lk(1),
            Some(lk(2)).try_into().unwrap(),
        ),
    );
    let removed = token().token_metadata_update_authority(&key(1), None).unwrap();
    assert_same(
        &removed[0],
        &spl_token_metadata_interface::instruction::update_authority(
            &p(),
            &lk(11),
            &lk(1),
            None.try_into().unwrap(),
        ),
    );
}

#[test]
fn groups_and_members_are_initialized_in_the_mint() {
    let token = token();
    assert_same(
        &token.token_group_initialize(&key(1), &key(2), 10)[0],
        &spl_token_group_interface::instruction::initialize_group(
            &p(),
            &lk(11),
            &lk(11),
            &lk(1),
            Some(lk(2)),
            10,
        ),
    );
    assert_same(
        &token.token_group_update_max_size(&key(2), 20)[0],
        &spl_token_group_interface::instruction::update_group_max_size(&p(), &lk(11), &lk(2), 20),
    );
    assert_same(
        &token.token_group_update_authority(&key(2), Some(key(3)))[0],
        &spl_token_group_interface::instruction::update_group_authority(
            &p(),
            &lk(11),
            &lk(2),
            Some(lk(3)),
        ),
    );
    assert_same(
        &token.token_group_initialize_member(&key(1), &key(4), &key(5))[0],
        &spl_token_group_interface::instruction::initialize_member(
            &p(),
            &lk(11),
            &lk(11),
            &lk(1),
            &lk(4),
            &lk(5),
        ),
    );
    assert_eq!(
        token.token_group_initialize_with_rent_transfer(&key(6), &key(1), &key(2), 10, 5).len(),
        2
    );
    assert_eq!(
        token
            .token_group_initialize_member_with_rent_transfer(&key(6), &key(1), &key(4), &key(5), 0)
            .len(),
        1
    );
    assert_same(
        &token.token_metadata_remove_key(&key(1), "k".to_string(), false)[0],
        &spl_token_metadata_interface::instruction::remove_key(
            &p(),
            &lk(11),
            &lk(1),
            "k".to_string(),
            false,
        ),
    );
    assert_same(
        &token.token_metadata_update_field(&key(1), Field::Key("k".to_string()), "v".to_string())[0],
        &spl_token_metadata_interface::instruction::update_field(
            &p(),
            &lk(11),
            &lk(1),
            spl_token_metadata_interface::state::Field::Key("k".to_string()),
            "v".to_string(),
        ),
    );
}
