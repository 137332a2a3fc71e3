use token_client::encode::{cpi_guard, default_account_state, group_member_pointer, group_pointer, interest_bearing_mint, memo_transfer, metadata_pointer, token_group, token_metadata, transfer_fee, transfer_hook};
use token_client::error::{ProgramError, INCORRECT_PROGRAM_ID, INVALID_ARGUMENT, INVALID_INSTRUCTION_DATA};
use token_client::instruction::{AccountMeta, Instruction};
use token_client::optional_keys::OptionalNonZeroPubkey;
use token_client::programs::{token_2022_id, token_id};
use token_client::pubkey::Pubkey;
use token_client::state::{AccountState, Field};

fn address(byte: u8) -> Pubkey {
    Pubkey::new_from_array([byte; 32])
}

fn writable(pubkey: Pubkey) -> AccountMeta {
    AccountMeta { pubkey, is_signer: false, is_writable: true }
}

fn readonly(pubkey: Pubkey) -> AccountMeta {
    AccountMeta { pubkey, is_signer: false, is_writable: false }
}

fn signing(pubkey: Pubkey) -> AccountMeta {
    AccountMeta { pubkey, is_signer: true, is_writable: false }
}

fn authorized(pubkey: Pubkey, signers: &[Pubkey]) -> Vec<AccountMeta> {
    let mut accounts = vec![AccountMeta { pubkey, is_signer: signers.is_empty(), is_writable: false }];
    accounts.extend(signers.iter().map(|k| signing(*k)));
    accounts
}

fn cosigners(some: bool, byte: u8) -> Vec<Pubkey> {
    if some {
        vec![address(byte), address(byte + 20)]
    } else {
        Vec::new()
    }
}

fn optional(none: bool, byte: u8) -> Option<Pubkey> {
    if none {
        None
    } else {
        Some(address(byte))
    }
}

fn packed(key: Option<Pubkey>) -> Vec<u8> {
    match key {
        Some(k) => [vec![1], k.bytes.to_vec()].concat(),
        None => vec![0],
    }
}

fn text(text: &str) -> Vec<u8> {
    [u32::try_from(text.len()).unwrap().to_le_bytes().to_vec(), text.as_bytes().to_vec()].concat()
}

fn stored_field(field: &Field) -> Vec<u8> {
    match field {
        Field::Name => vec![0],
        Field::Symbol => vec![1],
        Field::Uri => vec![2],
        Field::Key(key) => [vec![3], text(key)].concat(),
    }
}

fn stored(key: Option<Pubkey>) -> Vec<u8> {
    match key {
        Some(k) => k.bytes.to_vec(),
        None => vec![0; 32],
    }
}

fn laid_out(
    r: Result<Instruction, ProgramError>,
    program_id: Pubkey,
    accounts: &[AccountMeta],
    data: &[u8],
) {
    let r = r.unwrap();
    assert_eq!(r.program_id, program_id);
    assert_eq!(r.accounts, accounts);
    assert_eq!(r.data, data);
}

fn refused(r: Result<Instruction, ProgramError>, code: u64) {
    assert_eq!(r.err(), Some(ProgramError { code }));
}

#[test]
fn transfer_fee_initialize_transfer_fee_config_is_laid_out() {
    for case in [false, true] {
        let mint = address(1);
        let transfer_fee_config_authority = optional(case, 2);
        let withdraw_withheld_authority = optional(case, 3);
        let transfer_fee_basis_points: u16 = 304 + u16::from(case);
        let maximum_fee: u64 = 1000000000005 + u64::from(case);
        let build = |program_id: Pubkey| {
            transfer_fee::initialize_transfer_fee_config(
                &program_id,
                &mint,
                transfer_fee_config_authority,
                withdraw_withheld_authority,
                transfer_fee_basis_points,
                maximum_fee,
            )
        };
        let accounts = vec![writable(mint)];
        let data =
            [vec![26, 0], packed(transfer_fee_config_authority), packed(withdraw_withheld_authority), transfer_fee_basis_points.to_le_bytes().to_vec(), maximum_fee.to_le_bytes().to_vec()].concat();
        laid_out(build(token_2022_id()), token_2022_id(), &accounts, &data);
        refused(build(token_id()), INCORRECT_PROGRAM_ID);
        refused(build(address(200)), INCORRECT_PROGRAM_ID);
    }
}

#[test]
fn transfer_fee_transfer_checked_with_fee_is_laid_out() {
    for case in [false, true] {
        let source = address(1);
        let mint = address(2);
        let destination = address(3);
        let authority = address(4);
        let signers = cosigners(case, 105);
        let amount: u64 = 1000000000006 + u64::from(case);
        let decimals: u8 = 7 + u8::from(case);
        let fee: u64 = 1000000000008 + u64::from(case);
        let build = |program_id: Pubkey| {
            transfer_fee::transfer_checked_with_fee(
                &program_id,
                &source,
                &mint,
                &destination,
                &authority,
                &signers,
                amount,
                decimals,
                fee,
            )
        };
        let accounts =
            [vec![writable(source), readonly(mint), writable(destination)], authorized(authority, &signers)].concat();
        let data =
            [vec![26, 1], amount.to_le_bytes().to_vec(), vec![decimals], fee.to_le_bytes().to_vec()].concat();
        laid_out(build(token_2022_id()), token_2022_id(), &accounts, &data);
        refused(build(token_id()), INCORRECT_PROGRAM_ID);
        refused(build(address(200)), INCORRECT_PROGRAM_ID);
    }
}

#[test]
fn transfer_fee_withdraw_withheld_tokens_from_mint_is_laid_out() {
    for case in [false, true] {
        let mint = address(1);
        let destination = address(2);
        let authority = address(3);
        let signers = cosigners(case, 104);
        let build = |program_id: Pubkey| {
            transfer_fee::withdraw_withheld_tokens_from_mint(
                &program_id,
                &mint,
                &destination,
                &authority,
                &signers,
            )
        };
        let accounts =
            [vec![writable(mint), writable(destination)], authorized(authority, &signers)].concat();
        let data = vec![26, 2];
        laid_out(build(token_2022_id()), token_2022_id(), &accounts, &data);
        refused(build(token_id()), INCORRECT_PROGRAM_ID);
        refused(build(address(200)), INCORRECT_PROGRAM_ID);
    }
}

#[test]
fn transfer_fee_withdraw_withheld_tokens_from_accounts_is_laid_out() {
    for case in [false, true] {
        let mint = address(1);
        let destination = address(2);
        let authority = address(3);
        let signers = cosigners(case, 104);
        let sources = cosigners(case, 105);
        let build = |program_id: Pubkey| {
            transfer_fee::withdraw_withheld_tokens_from_accounts(
                &program_id,
                &mint,
                &destination,
                &authority,
                &signers,
                &sources,
            )
        };
        let accounts =
            [vec![readonly(mint), writable(destination)], authorized(authority, &signers), sources.iter().map(|k| writable(*k)).collect()].concat();
        let data = vec![26, 3, u8::try_from(sources.len()).unwrap()];
        laid_out(build(token_2022_id()), token_2022_id(), &accounts, &data);
        refused(build(token_id()), INCORRECT_PROGRAM_ID);
        refused(build(address(200)), INCORRECT_PROGRAM_ID);
    }
}

#[test]
fn transfer_fee_harvest_withheld_tokens_to_mint_is_laid_out() {
    for case in [false, true] {
        let mint = address(1);
        let sources = cosigners(case, 102);
        let build = |program_id: Pubkey| {
            transfer_fee::harvest_withheld_tokens_to_mint(&program_id, &mint, &sources)
        };
        let accounts =
            [vec![writable(mint)], sources.iter().map(|k| writable(*k)).collect()].concat();
        let data = vec![26, 4];
        laid_out(build(token_2022_id()), token_2022_id(), &accounts, &data);
        refused(build(token_id()), INCORRECT_PROGRAM_ID);
        refused(build(address(200)), INCORRECT_PROGRAM_ID);
    }
}

#[test]
fn transfer_fee_set_transfer_fee_is_laid_out() {
    for case in [false, true] {
        let mint = address(1);
        let authority = address(2);
        let signers = cosigners(case, 103);
        let transfer_fee_basis_points: u16 = 304 + u16::from(case);
        let maximum_fee: u64 = 1000000000005 + u64::from(case);
        let build = |program_id: Pubkey| {
            transfer_fee::set_transfer_fee(
                &program_id,
                &mint,
                &authority,
                &signers,
                transfer_fee_basis_points,
                maximum_fee,
            )
        };
        let accounts = [vec![writable(mint)], authorized(authority, &signers)].concat();
        let data =
            [vec![26, 5], transfer_fee_basis_points.to_le_bytes().to_vec(), maximum_fee.to_le_bytes().to_vec()].concat();
        laid_out(build(token_2022_id()), token_2022_id(), &accounts, &data);
        refused(build(token_id()), INCORRECT_PROGRAM_ID);
        refused(build(address(200)), INCORRECT_PROGRAM_ID);
    }
}

#[test]
fn default_account_state_initialize_default_account_state_is_laid_out() {
    for case in [false, true] {
        let mint = address(1);
        let state = if case { AccountState::Initialized } else { AccountState::Frozen };
        let build = |program_id: Pubkey| {
            default_account_state::initialize_default_account_state(&program_id, &mint, state)
        };
        let accounts = vec![writable(mint)];
        let data = vec![28, 0, state as u8];
        laid_out(build(token_2022_id()), token_2022_id(), &accounts, &data);
        refused(build(token_id()), INCORRECT_PROGRAM_ID);
        refused(build(address(200)), INCORRECT_PROGRAM_ID);
    }
}

#[test]
fn default_account_state_update_default_account_state_is_laid_out() {
    for case in [false, true] {
        let mint = address(1);
        let freeze_authority = address(2);
        let signers = cosigners(case, 103);
        let state = if case { AccountState::Initialized } else { AccountState::Frozen };
        let build = |program_id: Pubkey| {
            default_account_state::update_default_account_state(
                &program_id,
                &mint,
                &freeze_authority,
                &signers,
                state,
            )
        };
        let accounts = [vec![writable(mint)], authorized(freeze_authority, &signers)].concat();
        let data = vec![28, 1, state as u8];
        laid_out(build(token_2022_id()), token_2022_id(), &accounts, &data);
        refused(build(token_id()), INCORRECT_PROGRAM_ID);
        refused(build(address(200)), INCORRECT_PROGRAM_ID);
    }
}

#[test]
fn interest_bearing_mint_initialize_is_laid_out() {
    for case in [false, true] {
        let mint = address(1);
        let rate_authority = optional(case, 2);
        let rate = if case { -303i16 } else { 303i16 };
        let build = |program_id: Pubkey| {
            interest_bearing_mint::initialize(&program_id, &mint, rate_authority, rate)
        };
        let accounts = vec![writable(mint)];
        let data = [vec![33, 0], stored(rate_authority), rate.to_le_bytes().to_vec()].concat();
        laid_out(build(token_2022_id()), token_2022_id(), &accounts, &data);
        refused(build(token_id()), INCORRECT_PROGRAM_ID);
        refused(build(address(200)), INCORRECT_PROGRAM_ID);
        refused(
            interest_bearing_mint::initialize(&token_2022_id(), &mint, Some(address(0)), rate),
            INVALID_ARGUMENT,
        );
    }
}

#[test]
fn interest_bearing_mint_update_rate_is_laid_out() {
    for case in [false, true] {
        let mint = address(1);
        let rate_authority = address(2);
        let signers = cosigners(case, 103);
        let rate = if case { -304i16 } else { 304i16 };
        let build = |program_id: Pubkey| {
            interest_bearing_mint::update_rate(&program_id, &mint, &rate_authority, &signers, rate)
        };
        let accounts = [vec![writable(mint)], authorized(rate_authority, &signers)].concat();
        let data = [vec![33, 1], rate.to_le_bytes().to_vec()].concat();
        laid_out(build(token_2022_id()), token_2022_id(), &accounts, &data);
        refused(build(token_id()), INCORRECT_PROGRAM_ID);
        refused(build(address(200)), INCORRECT_PROGRAM_ID);
    }
}

#[test]
fn transfer_hook_initialize_is_laid_out() {
    for case in [false, true] {
        let mint = address(1);
        let authority = optional(case, 2);
        let transfer_hook_program_id = optional(case, 3);
        let build = |program_id: Pubkey| {
            transfer_hook::initialize(&program_id, &mint, authority, transfer_hook_program_id)
        };
        let accounts = vec![writable(mint)];
        let data = [vec![36, 0], stored(authority), stored(transfer_hook_program_id)].concat();
        laid_out(build(token_2022_id()), token_2022_id(), &accounts, &data);
        refused(build(token_id()), INCORRECT_PROGRAM_ID);
        refused(build(address(200)), INCORRECT_PROGRAM_ID);
        refused(
            transfer_hook::initialize(&token_2022_id(), &mint, Some(address(0)), transfer_hook_program_id),
            INVALID_ARGUMENT,
        );
        refused(
            transfer_hook::initialize(&token_2022_id(), &mint, authority, Some(address(0))),
            INVALID_ARGUMENT,
        );
    }
}

#[test]
fn transfer_hook_update_is_laid_out() {
    for case in [false, true] {
        let mint = address(1);
        let authority = address(2);
        let signers = cosigners(case, 103);
        let transfer_hook_program_id = optional(case, 4);
        let build = |program_id: Pubkey| {
            transfer_hook::update(
                &program_id,
                &mint,
                &authority,
                &signers,
                transfer_hook_program_id,
            )
        };
        let accounts = [vec![writable(mint)], authorized(authority, &signers)].concat();
        let data = [vec![36, 1], stored(transfer_hook_program_id)].concat();
        laid_out(build(token_2022_id()), token_2022_id(), &accounts, &data);
        refused(build(token_id()), INCORRECT_PROGRAM_ID);
        refused(build(address(200)), INCORRECT_PROGRAM_ID);
        refused(
            transfer_hook::update(&token_2022_id(), &mint, &authority, &signers, Some(address(0))),
            INVALID_ARGUMENT,
        );
    }
}

#[test]
fn metadata_pointer_initialize_is_laid_out() {
    for case in [false, true] {
        let mint = address(1);
        let authority = optional(case, 2);
        let metadata_address = optional(case, 3);
        let build = |program_id: Pubkey| {
            metadata_pointer::initialize(&program_id, &mint, authority, metadata_address)
        };
        let accounts = vec![writable(mint)];
        let data = [vec![39, 0], stored(authority), stored(metadata_address)].concat();
        laid_out(build(token_2022_id()), token_2022_id(), &accounts, &data);
        refused(build(token_id()), INCORRECT_PROGRAM_ID);
        refused(build(address(200)), INCORRECT_PROGRAM_ID);
        refused(
            metadata_pointer::initialize(&token_2022_id(), &mint, Some(address(0)), metadata_address),
            INVALID_ARGUMENT,
        );
        refused(
            metadata_pointer::initialize(&token_2022_id(), &mint, authority, Some(address(0))),
            INVALID_ARGUMENT,
        );
    }
}

#[test]
fn metadata_pointer_update_is_laid_out() {
    for case in [false, true] {
        let mint = address(1);
        let authority = address(2);
        let signers = cosigners(case, 103);
        let metadata_address = optional(case, 4);
        let build = |program_id: Pubkey| {
            metadata_pointer::update(&program_id, &mint, &authority, &signers, metadata_address)
        };
        let accounts = [vec![writable(mint)], authorized(authority, &signers)].concat();
        let data = [vec![39, 1], stored(metadata_address)].concat();
        laid_out(build(token_2022_id()), token_2022_id(), &accounts, &data);
        refused(build(token_id()), INCORRECT_PROGRAM_ID);
        refused(build(address(200)), INCORRECT_PROGRAM_ID);
        refused(
            metadata_pointer::update(&token_2022_id(), &mint, &authority, &signers, Some(address(0))),
            INVALID_ARGUMENT,
        );
    }
}

#[test]
fn group_pointer_initialize_is_laid_out() {
    for case in [false, true] {
        let mint = address(1);
        let authority = optional(case, 2);
        let group_address = optional(case, 3);
        let build = |program_id: Pubkey| {
            group_pointer::initialize(&program_id, &mint, authority, group_address)
        };
        let accounts = vec![writable(mint)];
        let data = [vec![40, 0], stored(authority), stored(group_address)].concat();
        laid_out(build(token_2022_id()), token_2022_id(), &accounts, &data);
        refused(build(token_id()), INCORRECT_PROGRAM_ID);
        refused(build(address(200)), INCORRECT_PROGRAM_ID);
        refused(
            group_pointer::initialize(&token_2022_id(), &mint, Some(address(0)), group_address),
            INVALID_ARGUMENT,
        );
        refused(
            group_pointer::initialize(&token_2022_id(), &mint, authority, Some(address(0))),
            INVALID_ARGUMENT,
        );
    }
}

#[test]
fn group_pointer_update_is_laid_out() {
    for case in [false, true] {
        let mint = address(1);
        let authority = address(2);
        let signers = cosigners(case, 103);
        let group_address = optional(case, 4);
        let build = |program_id: Pubkey| {
            group_pointer::update(&program_id, &mint, &authority, &signers, group_address)
        };
        let accounts = [vec![writable(mint)], authorized(authority, &signers)].concat();
        let data = [vec![40, 1], stored(group_address)].concat();
        laid_out(build(token_2022_id()), token_2022_id(), &accounts, &data);
        refused(build(token_id()), INCORRECT_PROGRAM_ID);
        refused(build(address(200)), INCORRECT_PROGRAM_ID);
        refused(
            group_pointer::update(&token_2022_id(), &mint, &authority, &signers, Some(address(0))),
            INVALID_ARGUMENT,
        );
    }
}

#[test]
fn group_member_pointer_initialize_is_laid_out() {
    for case in [false, true] {
        let mint = address(1);
        let authority = optional(case, 2);
        let member_address = optional(case, 3);
        let build = |program_id: Pubkey| {
            group_member_pointer::initialize(&program_id, &mint, authority, member_address)
        };
        let accounts = vec![writable(mint)];
        let data = [vec![41, 0], stored(authority), stored(member_address)].concat();
        laid_out(build(token_2022_id()), token_2022_id(), &accounts, &data);
        refused(build(token_id()), INCORRECT_PROGRAM_ID);
        refused(build(address(200)), INCORRECT_PROGRAM_ID);
        refused(
            group_member_pointer::initialize(&token_2022_id(), &mint, Some(address(0)), member_address),
            INVALID_ARGUMENT,
        );
        refused(
            group_member_pointer::initialize(&token_2022_id(), &mint, authority, Some(address(0))),
            INVALID_ARGUMENT,
        );
    }
}

#[test]
fn group_member_pointer_update_is_laid_out() {
    for case in [false, true] {
        let mint = address(1);
        let authority = address(2);
        let signers = cosigners(case, 103);
        let member_address = optional(case, 4);
        let build = |program_id: Pubkey| {
            group_member_pointer::update(&program_id, &mint, &authority, &signers, member_address)
        };
        let accounts = [vec![writable(mint)], authorized(authority, &signers)].concat();
        let data = [vec![41, 1], stored(member_address)].concat();
        laid_out(build(token_2022_id()), token_2022_id(), &accounts, &data);
        refused(build(token_id()), INCORRECT_PROGRAM_ID);
        refused(build(address(200)), INCORRECT_PROGRAM_ID);
        refused(
            group_member_pointer::update(&token_2022_id(), &mint, &authority, &signers, Some(address(0))),
            INVALID_ARGUMENT,
        );
    }
}

#[test]
fn memo_transfer_enable_required_transfer_memos_is_laid_out() {
    for case in [false, true] {
        let account = address(1);
        let owner = address(2);
        let signers = cosigners(case, 103);
        let build = |program_id: Pubkey| {
            memo_transfer::enable_required_transfer_memos(&program_id, &account, &owner, &signers)
        };
        let accounts = [vec![writable(account)], authorized(owner, &signers)].concat();
        let data = vec![30, 0];
        laid_out(build(token_2022_id()), token_2022_id(), &accounts, &data);
        refused(build(token_id()), INCORRECT_PROGRAM_ID);
        refused(build(address(200)), INCORRECT_PROGRAM_ID);
    }
}

#[test]
fn memo_transfer_disable_required_transfer_memos_is_laid_out() {
    for case in [false, true] {
        let account = address(1);
        let owner = address(2);
        let signers = cosigners(case, 103);
        let build = |program_id: Pubkey| {
            memo_transfer::disable_required_transfer_memos(&program_id, &account, &owner, &signers)
        };
        let accounts = [vec![writable(account)], authorized(owner, &signers)].concat();
        let data = vec![30, 1];
        laid_out(build(token_2022_id()), token_2022_id(), &accounts, &data);
        refused(build(token_id()), INCORRECT_PROGRAM_ID);
        refused(build(address(200)), INCORRECT_PROGRAM_ID);
    }
}

#[test]
fn cpi_guard_enable_cpi_guard_is_laid_out() {
    for case in [false, true] {
        let account = address(1);
        let owner = address(2);
        let signers = cosigners(case, 103);
        let build = |program_id: Pubkey| {
            cpi_guard::enable_cpi_guard(&program_id, &account, &owner, &signers)
        };
        let accounts = [vec![writable(account)], authorized(owner, &signers)].concat();
        let data = vec![34, 0];
        laid_out(build(token_2022_id()), token_2022_id(), &accounts, &data);
        refused(build(token_id()), INCORRECT_PROGRAM_ID);
        refused(build(address(200)), INCORRECT_PROGRAM_ID);
    }
}

#[test]
fn cpi_guard_disable_cpi_guard_is_laid_out() {
    for case in [false, true] {
        let account = address(1);
        let owner = address(2);
        let signers = cosigners(case, 103);
        let build = |program_id: Pubkey| {
            cpi_guard::disable_cpi_guard(&program_id, &account, &owner, &signers)
        };
        let accounts = [vec![writable(account)], authorized(owner, &signers)].concat();
        let data = vec![34, 1];
        laid_out(build(token_2022_id()), token_2022_id(), &accounts, &data);
        refused(build(token_id()), INCORRECT_PROGRAM_ID);
        refused(build(address(200)), INCORRECT_PROGRAM_ID);
    }
}

#[test]
fn token_metadata_initialize_is_laid_out() {
    for case in [false, true] {
        let metadata = address(1);
        let update_authority = address(2);
        let mint = address(3);
        let mint_authority = address(4);
        let name = if case { "" } else { "text \u{e9} 5" };
        let symbol = if case { "" } else { "text \u{e9} 6" };
        let uri = if case { "" } else { "text \u{e9} 7" };
        let build = |program_id: Pubkey| {
            token_metadata::initialize(
                &program_id,
                &metadata,
                &update_authority,
                &mint,
                &mint_authority,
                name,
                symbol,
                uri,
            )
        };
        let accounts =
            vec![writable(metadata), readonly(update_authority), readonly(mint), signing(mint_authority)];
        let data =
            [vec![210, 225, 30, 162, 88, 184, 77, 141], text(name), text(symbol), text(uri)].concat();
        let r = build(token_2022_id());
        assert_eq!((r.program_id, &r.accounts), (token_2022_id(), &accounts));
        assert_eq!(r.data, data);
        let r = build(address(200));
        assert_eq!((r.program_id, &r.accounts), (address(200), &accounts));
        assert_eq!(r.data, data);
    }
}

#[test]
fn token_metadata_update_field_is_laid_out() {
    for case in [false, true] {
        let metadata = address(1);
        let update_authority = address(2);
        let field = if case { Field::Key("key \u{fc}".to_string()) } else { Field::Uri };
        let value = if case { "" } else { "text \u{e9} 4" };
        let build = |program_id: Pubkey| {
            token_metadata::update_field(&program_id, &metadata, &update_authority, &field, value)
        };
        let accounts = vec![writable(metadata), signing(update_authority)];
        let data =
            [vec![221, 233, 49, 45, 181, 202, 220, 200], stored_field(&field), text(value)].concat();
        let r = build(token_2022_id());
        assert_eq!((r.program_id, &r.accounts), (token_2022_id(), &accounts));
        assert_eq!(r.data, data);
        let r = build(address(200));
        assert_eq!((r.program_id, &r.accounts), (address(200), &accounts));
        assert_eq!(r.data, data);
    }
}

#[test]
fn token_metadata_remove_key_is_laid_out() {
    for case in [false, true] {
        let metadata = address(1);
        let update_authority = address(2);
        let key = if case { "" } else { "text \u{e9} 3" };
        let idempotent = !case;
        let build = |program_id: Pubkey| {
            token_metadata::remove_key(&program_id, &metadata, &update_authority, key, idempotent)
        };
        let accounts = vec![writable(metadata), signing(update_authority)];
        let data =
            [vec![234, 18, 32, 56, 89, 141, 37, 181, u8::from(idempotent)], text(key)].concat();
        let r = build(token_2022_id());
        assert_eq!((r.program_id, &r.accounts), (token_2022_id(), &accounts));
        assert_eq!(r.data, data);
        let r = build(address(200));
        assert_eq!((r.program_id, &r.accounts), (address(200), &accounts));
        assert_eq!(r.data, data);
    }
}

#[test]
fn token_metadata_update_authority_is_laid_out() {
    let metadata = address(1);
    let current_authority = address(2);
    let new_authority = OptionalNonZeroPubkey(address(3));
    let build = |program_id: Pubkey| {
        token_metadata::update_authority(
            &program_id,
            &metadata,
            &current_authority,
            new_authority,
        )
    };
    let accounts = vec![writable(metadata), signing(current_authority)];
    let data =
        [vec![215, 228, 166, 228, 84, 100, 86, 123], new_authority.0.bytes.to_vec()].concat();
    let r = build(token_2022_id());
    assert_eq!((r.program_id, &r.accounts), (token_2022_id(), &accounts));
    assert_eq!(r.data, data);
    let r = build(address(200));
    assert_eq!((r.program_id, &r.accounts), (address(200), &accounts));
    assert_eq!(r.data, data);
}

#[test]
fn token_group_initialize_group_is_laid_out() {
    for case in [false, true] {
        let group = address(1);
        let mint = address(2);
        let mint_authority = address(3);
        let update_authority = optional(case, 4);
        let max_size: u32 = 70005 + u32::from(case);
        let build = |program_id: Pubkey| {
            token_group::initialize_group(
                &program_id,
                &group,
                &mint,
                &mint_authority,
                update_authority,
                max_size,
            )
        };
        let accounts = vec![writable(group), readonly(mint), signing(mint_authority)];
        let data =
            [vec![121, 113, 108, 39, 54, 51, 0, 4], stored(update_authority), max_size.to_le_bytes().to_vec()].concat();
        let r = build(token_2022_id());
        assert_eq!((r.program_id, &r.accounts), (token_2022_id(), &accounts));
        assert_eq!(r.data, data);
        let r = build(address(200));
        assert_eq!((r.program_id, &r.accounts), (address(200), &accounts));
        assert_eq!(r.data, data);
    }
}

#[test]
fn token_group_update_group_max_size_is_laid_out() {
    for case in [false, true] {
        let group = address(1);
        let update_authority = address(2);
        let max_size: u32 = 70003 + u32::from(case);
        let build = |program_id: Pubkey| {
            token_group::update_group_max_size(&program_id, &group, &update_authority, max_size)
        };
        let accounts = vec![writable(group), signing(update_authority)];
        let data =
            [vec![108, 37, 171, 143, 248, 30, 18, 110], max_size.to_le_bytes().to_vec()].concat();
        let r = build(token_2022_id());
        assert_eq!((r.program_id, &r.accounts), (token_2022_id(), &accounts));
        assert_eq!(r.data, data);
        let r = build(address(200));
        assert_eq!((r.program_id, &r.accounts), (address(200), &accounts));
        assert_eq!(r.data, data);
    }
}

#[test]
fn token_group_update_group_authority_is_laid_out() {
    for case in [false, true] {
        let group = address(1);
        let current_authority = address(2);
        let new_authority = optional(case, 3);
        let build = |program_id: Pubkey| {
            token_group::update_group_authority(
                &program_id,
                &group,
                &current_authority,
                new_authority,
            )
        };
        let accounts = vec![writable(group), signing(current_authority)];
        let data = [vec![161, 105, 88, 1, 237, 221, 216, 203], stored(new_authority)].concat();
        let r = build(token_2022_id());
        assert_eq!((r.program_id, &r.accounts), (token_2022_id(), &accounts));
        assert_eq!(r.data, data);
        let r = build(address(200));
        assert_eq!((r.program_id, &r.accounts), (address(200), &accounts));
        assert_eq!(r.data, data);
    }
}

#[test]
fn token_group_initialize_member_is_laid_out() {
    let member = address(1);
    let member_mint = address(2);
    let member_mint_authority = address(3);
    let group = address(4);
    let group_update_authority = address(5);
    let build = |program_id: Pubkey| {
        token_group::initialize_member(
            &program_id,
            &member,
            &member_mint,
            &member_mint_authority,
            &group,
            &group_update_authority,
        )
    };
    let accounts =
        vec![writable(member), readonly(member_mint), signing(member_mint_authority), writable(group), signing(group_update_authority)];
    let data = vec![152, 32, 222, 176, 223, 237, 116, 134];
    let r = build(token_2022_id());
    assert_eq!((r.program_id, &r.accounts), (token_2022_id(), &accounts));
    assert_eq!(r.data, data);
    let r = build(address(200));
    assert_eq!((r.program_id, &r.accounts), (address(200), &accounts));
    assert_eq!(r.data, data);
}

#[test]
fn each_metadata_field_has_its_number() {
    let fields = [
        Field::Name,
        Field::Symbol,
        Field::Uri,
        Field::Key("colour".to_string()),
        Field::Key(String::new()),
    ];
    for field in fields {
        let r = token_metadata::update_field(&address(9), &address(1), &address(2), &field, "v");
        let data = [
            vec![221, 233, 49, 45, 181, 202, 220, 200],
            stored_field(&field),
            vec![1, 0, 0, 0, b'v'],
        ]
        .concat();
        assert_eq!(r.data, data);
    }
    assert_eq!(stored_field(&Field::Key("colour".to_string())), b"\x03\x06\0\0\0colour");
}

#[test]
fn fees_are_withdrawn_from_at_most_255_accounts() {
    let build = |n: usize| {
        transfer_fee::withdraw_withheld_tokens_from_accounts(
            &token_2022_id(),
            &address(1),
            &address(2),
            &address(3),
            &Vec::new(),
            &vec![address(9); n],
        )
    };
    assert_eq!(build(255).unwrap().data, vec![26, 3, 255]);
    refused(build(256), INVALID_INSTRUCTION_DATA);
    refused(
        transfer_fee::withdraw_withheld_tokens_from_accounts(
            &address(200),
            &address(1),
            &address(2),
            &address(3),
            &Vec::new(),
            &vec![address(9); 256],
        ),
        INCORRECT_PROGRAM_ID,
    );
}
