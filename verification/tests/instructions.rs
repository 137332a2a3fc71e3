use token_client::instruction::{AccountMeta, Instruction};
use token_client::programs::{
    native_mint, native_mint_decimals, token_2022_id, token_id, zk_token_proof_program_id,
    COMPUTE_BUDGET_PROGRAM_ID, MEMO_PROGRAM_ID, NATIVE_MINT, NATIVE_MINT_2022, SYSTEM_PROGRAM_ID,
};
use token_client::pubkey::Pubkey;

fn key(byte: u8) -> Pubkey {
    Pubkey::new_from_array([byte; 32])
}

#[test]
fn program_ids_are_those_of_the_ledger() {
    assert_eq!(token_2022_id().to_bytes(), spl_token_2022::id().to_bytes());
    assert_eq!(token_id().to_bytes(), spl_token::id().to_bytes());
    assert_eq!(NATIVE_MINT_2022, spl_token_2022::native_mint::id().to_bytes());
    assert_eq!(NATIVE_MINT, spl_token::native_mint::id().to_bytes());
    assert_eq!(SYSTEM_PROGRAM_ID, solana_program::system_program::id().to_bytes());
    assert_eq!(MEMO_PROGRAM_ID, spl_memo::id().to_bytes());
    assert_eq!(
        COMPUTE_BUDGET_PROGRAM_ID,
        solana_sdk::compute_budget::id().to_bytes()
    );
    assert_eq!(
        zk_token_proof_program_id().to_bytes(),
        spl_token_2022::solana_zk_token_sdk::zk_token_proof_program::id().to_bytes()
    );
}

#[test]
fn native_mint_is_known_for_the_two_token_programs_only() {
    assert_eq!(
        native_mint(&token_2022_id()),
        Some(Pubkey::new_from_array(NATIVE_MINT_2022))
    );
    assert_eq!(native_mint(&token_id()), Some(Pubkey::new_from_array(NATIVE_MINT)));
    assert_eq!(native_mint(&key(1)), None);
    assert_eq!(native_mint_decimals(&token_id()), Some(9));
    assert_eq!(native_mint_decimals(&token_2022_id()), Some(9));
    assert_eq!(native_mint_decimals(&key(1)), None);
}

#[test]
fn cloning_an_instruction_keeps_every_field() {
    let instruction = Instruction {
        program_id: key(1),
        accounts: vec![AccountMeta::new(key(2), true), AccountMeta::new_readonly(key(3), false)],
        data: vec![1, 2, 3],
    };
    let copy = instruction.clone();
    assert_eq!(copy.program_id, key(1));
    assert_eq!(copy.accounts, instruction.accounts);
    assert_eq!(copy.data, vec![1, 2, 3]);
}

fn from_ledger(instruction: &solana_program::instruction::Instruction) -> Instruction {
    Instruction {
        program_id: Pubkey::new_from_array(instruction.program_id.to_bytes()),
        accounts: instruction
            .accounts
            .iter()
            .map(|m| AccountMeta {
                pubkey: Pubkey::new_from_array(m.pubkey.to_bytes()),
                is_signer: m.is_signer,
                is_writable: m.is_writable,
            })
            .collect(),
        data: instruction.data.clone(),
    }
}

fn same(a: &Instruction, b: &Instruction) -> bool {
    a.program_id == b.program_id && a.accounts == b.accounts && a.data == b.data
}

fn ledger_key(byte: u8) -> solana_program::pubkey::Pubkey {
    solana_program::pubkey::Pubkey::new_from_array([byte; 32])
}

#[test]
fn create_account_has_the_stated_accounts_and_data() {
    let instruction =
        token_client::instruction::system_create_account(&key(1), &key(2), 0x0102, 82, &key(3));
    assert_eq!(instruction.program_id, Pubkey::new_from_array(SYSTEM_PROGRAM_ID));
    assert_eq!(
        instruction.accounts,
        vec![AccountMeta::new(key(1), true), AccountMeta::new(key(2), true)]
    );
    let mut data = vec![0u8, 0, 0, 0];
    data.extend_from_slice(&[2, 1, 0, 0, 0, 0, 0, 0]);
    data.extend_from_slice(&[82, 0, 0, 0, 0, 0, 0, 0]);
    data.extend_from_slice(&[3; 32]);
    assert_eq!(instruction.data, data);
    let expected = solana_program::system_instruction::create_account(
        &ledger_key(1),
        &ledger_key(2),
        0x0102,
        82,
        &ledger_key(3),
    );
    assert!(same(&instruction, &from_ledger(&expected)));
}

#[test]
fn system_transfer_has_the_stated_accounts_and_data() {
    let instruction = token_client::instruction::system_transfer(&key(1), &key(2), 5);
    assert_eq!(instruction.program_id, Pubkey::new_from_array(SYSTEM_PROGRAM_ID));
    assert_eq!(
        instruction.accounts,
        vec![AccountMeta::new(key(1), true), AccountMeta::new(key(2), false)]
    );
    assert_eq!(instruction.data, vec![2, 0, 0, 0, 5, 0, 0, 0, 0, 0, 0, 0]);
}

#[test]
fn compute_unit_limit_has_the_stated_data() {
    let instruction = token_client::instruction::set_compute_unit_limit(500_000);
    assert_eq!(
        instruction.program_id,
        Pubkey::new_from_array(COMPUTE_BUDGET_PROGRAM_ID)
    );
    assert!(instruction.accounts.is_empty());
    assert_eq!(instruction.data, vec![2, 0x20, 0xa1, 0x07, 0x00]);
}

#[test]
fn memo_lists_each_signer_and_carries_the_text() {
    let instruction =
        token_client::instruction::build_memo("hello".as_bytes(), &vec![key(4), key(5)]);
    assert_eq!(instruction.program_id, Pubkey::new_from_array(MEMO_PROGRAM_ID));
    assert_eq!(
        instruction.accounts,
        vec![
            AccountMeta::new_readonly(key(4), true),
            AccountMeta::new_readonly(key(5), true)
        ]
    );
    assert_eq!(instruction.data, b"hello".to_vec());
}

#[test]
fn extend_accounts_appends_in_order() {
    let mut instruction = Instruction {
        program_id: key(1),
        accounts: vec![AccountMeta::new(key(2), true)],
        data: vec![9],
    };
    let extra = vec![AccountMeta::new_readonly(key(3), false), AccountMeta::new(key(4), false)];
    token_client::instruction::extend_accounts(&mut instruction, &extra);
    assert_eq!(
        instruction.accounts,
        vec![
            AccountMeta::new(key(2), true),
            AccountMeta::new_readonly(key(3), false),
            AccountMeta::new(key(4), false)
        ]
    );
    assert_eq!(instruction.data, vec![9]);
    assert_eq!(instruction.program_id, key(1));
}

#[test]
fn raw_instruction_is_read_field_by_field() {
    let raw = ([7u8; 32], vec![([8u8; 32], true, false), ([9u8; 32], false, true)], vec![1, 2]);
    let instruction = Instruction::from_raw(raw);
    assert_eq!(instruction.program_id, key(7));
    assert_eq!(
        instruction.accounts,
        vec![
            AccountMeta { pubkey: key(8), is_signer: true, is_writable: false },
            AccountMeta { pubkey: key(9), is_signer: false, is_writable: true }
        ]
    );
    assert_eq!(instruction.data, vec![1, 2]);
}
