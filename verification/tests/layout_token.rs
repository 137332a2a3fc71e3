use token_client::encode::token;
use token_client::error::{ProgramError, INCORRECT_PROGRAM_ID, MISSING_REQUIRED_SIGNATURE};
use token_client::instruction::{AccountMeta, Instruction};
use token_client::programs::{token_2022_id, token_id, NATIVE_MINT_2022, RENT_SYSVAR_ID, SYSTEM_PROGRAM_ID};
use token_client::pubkey::Pubkey;
use token_client::state::{AuthorityType, ExtensionType};

fn address(byte: u8) -> Pubkey {
    Pubkey::new_from_array([byte; 32])
}

fn writable(pubkey: Pubkey) -> AccountMeta {
    AccountMeta { pubkey, is_signer: false, is_writable: true }
}

fn readonly(pubkey: Pubkey) -> AccountMeta {
    AccountMeta { pubkey, is_signer: false, is_writable: false }
}

fn signing(pubkey: Pubkey) -> AccountMeta {
    AccountMeta { pubkey, is_signer: true, is_writable: false }
}

fn paying(pubkey: Pubkey) -> AccountMeta {
    AccountMeta { pubkey, is_signer: true, is_writable: true }
}

fn authorized(pubkey: Pubkey, signers: &[Pubkey]) -> Vec<AccountMeta> {
    let mut accounts = vec![AccountMeta { pubkey, is_signer: signers.is_empty(), is_writable: false }];
    accounts.extend(signers.iter().map(|k| signing(*k)));
    accounts
}

fn cosigners(some: bool, byte: u8) -> Vec<Pubkey> {
    if some {
        vec![address(byte), address(byte + 20)]
    } else {
        Vec::new()
    }
}

fn optional(none: bool, byte: u8) -> Option<Pubkey> {
    if none {
        None
    } else {
        Some(address(byte))
    }
}

fn packed(key: Option<Pubkey>) -> Vec<u8> {
    match key {
        Some(k) => [vec![1], k.bytes.to_vec()].concat(),
        None => vec![0],
    }
}

fn text(text: &str) -> Vec<u8> {
    [u32::try_from(text.len()).unwrap().to_le_bytes().to_vec(), text.as_bytes().to_vec()].concat()
}

fn laid_out(
    r: Result<Instruction, ProgramError>,
    program_id: Pubkey,
    accounts: &[AccountMeta],
    data: &[u8],
) {
    let r = r.unwrap();
    assert_eq!(r.program_id, program_id);
    assert_eq!(r.accounts, accounts);
    assert_eq!(r.data, data);
}

fn refused(r: Result<Instruction, ProgramError>, code: u64) {
    assert_eq!(r.err(), Some(ProgramError { code }));
}

#[test]
fn token_initialize_mint_is_laid_out() {
    for case in [false, true] {
        let mint = address(1);
        let mint_authority = address(2);
        let freeze_authority = optional(case, 3);
        let decimals: u8 = 4 + u8::from(case);
        let build = |program_id: Pubkey| {
            token::initialize_mint(&program_id, &mint, &mint_authority, freeze_authority, decimals)
        };
        let accounts = vec![writable(mint), readonly(Pubkey::new_from_array(RENT_SYSVAR_ID))];
        let data =
            [vec![0, decimals], mint_authority.bytes.to_vec(), packed(freeze_authority)].concat();
        laid_out(build(token_2022_id()), token_2022_id(), &accounts, &data);
        laid_out(build(token_id()), token_id(), &accounts, &data);
        refused(build(address(200)), INCORRECT_PROGRAM_ID);
    }
}

#[test]
fn token_initialize_account_is_laid_out() {
    let account = address(1);
    let mint = address(2);
    let owner = address(3);
    let build = |program_id: Pubkey| {
        token::initialize_account(&program_id, &account, &mint, &owner)
    };
    let accounts =
        vec![writable(account), readonly(mint), readonly(owner), readonly(Pubkey::new_from_array(RENT_SYSVAR_ID))];
    let data = vec![1];
    laid_out(build(token_2022_id()), token_2022_id(), &accounts, &data);
    laid_out(build(token_id()), token_id(), &accounts, &data);
    refused(build(address(200)), INCORRECT_PROGRAM_ID);
}

#[test]
fn token_initialize_multisig_is_laid_out() {
    for case in [false, true] {
        let multisig = address(1);
        let members =
            if case { vec![address(31), address(32), address(33)] } else { vec![address(31)] };
        let minimum_signers: u8 = 1 + u8::from(case);
        let build = |program_id: Pubkey| {
            token::initialize_multisig(&program_id, &multisig, &members, minimum_signers)
        };
        let accounts =
            [vec![writable(multisig), readonly(Pubkey::new_from_array(RENT_SYSVAR_ID))], members.iter().map(|k| readonly(*k)).collect()].concat();
        let data = vec![2, minimum_signers];
        laid_out(build(token_2022_id()), token_2022_id(), &accounts, &data);
        laid_out(build(token_id()), token_id(), &accounts, &data);
        refused(build(address(200)), INCORRECT_PROGRAM_ID);
    }
}

#[test]
fn token_transfer_is_laid_out() {
    for case in [false, true] {
        let source = address(1);
        let destination = address(2);
        let authority = address(3);
        let signers = cosigners(case, 104);
        let amount: u64 = 1000000000005 + u64::from(case);
        let build = |program_id: Pubkey| {
            token::transfer(&program_id, &source, &destination, &authority, &signers, amount)
        };
        let accounts =
            [vec![writable(source), writable(destination)], authorized(authority, &signers)].concat();
        let data = [vec![3], amount.to_le_bytes().to_vec()].concat();
        laid_out(build(token_2022_id()), token_2022_id(), &accounts, &data);
        laid_out(build(token_id()), token_id(), &accounts, &data);
        refused(build(address(200)), INCORRECT_PROGRAM_ID);
    }
}

#[test]
fn token_approve_is_laid_out() {
    for case in [false, true] {
        let source = address(1);
        let delegate = address(2);
        let owner = address(3);
        let signers = cosigners(case, 104);
        let amount: u64 = 1000000000005 + u64::from(case);
        let build = |program_id: Pubkey| {
            token::approve(&program_id, &source, &delegate, &owner, &signers, amount)
        };
        let accounts =
            [vec![writable(source), readonly(delegate)], authorized(owner, &signers)].concat();
        let data = [vec![4], amount.to_le_bytes().to_vec()].concat();
        laid_out(build(token_2022_id()), token_2022_id(), &accounts, &data);
        laid_out(build(token_id()), token_id(), &accounts, &data);
        refused(build(address(200)), INCORRECT_PROGRAM_ID);
    }
}

#[test]
fn token_revoke_is_laid_out() {
    for case in [false, true] {
        let source = address(1);
        let owner = address(2);
        let signers = cosigners(case, 103);
        let build = |program_id: Pubkey| token::revoke(&program_id, &source, &owner, &signers);
        let accounts = [vec![writable(source)], authorized(owner, &signers)].concat();
        let data = vec![5];
        laid_out(build(token_2022_id()), token_2022_id(), &accounts, &data);
        laid_out(build(token_id()), token_id(), &accounts, &data);
        refused(build(address(200)), INCORRECT_PROGRAM_ID);
    }
}

#[test]
fn token_set_authority_is_laid_out() {
    for case in [false, true] {
        let owned = address(1);
        let new_authority = optional(case, 2);
        let authority_type =
            if case { AuthorityType::GroupMemberPointer } else { AuthorityType::CloseMint };
        let owner = address(4);
        let signers = cosigners(case, 105);
        let build = |program_id: Pubkey| {
            token::set_authority(
                &program_id,
                &owned,
                new_authority,
                authority_type,
                &owner,
                &signers,
            )
        };
        let accounts = [vec![writable(owned)], authorized(owner, &signers)].concat();
        let data = [vec![6, authority_type as u8], packed(new_authority)].concat();
        laid_out(build(token_2022_id()), token_2022_id(), &accounts, &data);
        laid_out(build(token_id()), token_id(), &accounts, &data);
        refused(build(address(200)), INCORRECT_PROGRAM_ID);
    }
}

#[test]
fn token_mint_to_is_laid_out() {
    for case in [false, true] {
        let mint = address(1);
        let account = address(2);
        let owner = address(3);
        let signers = cosigners(case, 104);
        let amount: u64 = 1000000000005 + u64::from(case);
        let build = |program_id: Pubkey| {
            token::mint_to(&program_id, &mint, &account, &owner, &signers, amount)
        };
        let accounts =
            [vec![writable(mint), writable(account)], authorized(owner, &signers)].concat();
        let data = [vec![7], amount.to_le_bytes().to_vec()].concat();
        laid_out(build(token_2022_id()), token_2022_id(), &accounts, &data);
        laid_out(build(token_id()), token_id(), &accounts, &data);
        refused(build(address(200)), INCORRECT_PROGRAM_ID);
    }
}

#[test]
fn token_burn_is_laid_out() {
    for case in [false, true] {
        let account = address(1);
        let mint = address(2);
        let authority = address(3);
        let signers = cosigners(case, 104);
        let amount: u64 = 1000000000005 + u64::from(case);
        let build = |program_id: Pubkey| {
            token::burn(&program_id, &account, &mint, &authority, &signers, amount)
        };
        let accounts =
            [vec![writable(account), writable(mint)], authorized(authority, &signers)].concat();
        let data = [vec![8], amount.to_le_bytes().to_vec()].concat();
        laid_out(build(token_2022_id()), token_2022_id(), &accounts, &data);
        laid_out(build(token_id()), token_id(), &accounts, &data);
        refused(build(address(200)), INCORRECT_PROGRAM_ID);
    }
}

#[test]
fn token_close_account_is_laid_out() {
    for case in [false, true] {
        let account = address(1);
        let destination = address(2);
        let owner = address(3);
        let signers = cosigners(case, 104);
        let build = |program_id: Pubkey| {
            token::close_account(&program_id, &account, &destination, &owner, &signers)
        };
        let accounts =
            [vec![writable(account), writable(destination)], authorized(owner, &signers)].concat();
        let data = vec![9];
        laid_out(build(token_2022_id()), token_2022_id(), &accounts, &data);
        laid_out(build(token_id()), token_id(), &accounts, &data);
        refused(build(address(200)), INCORRECT_PROGRAM_ID);
    }
}

#[test]
fn token_freeze_account_is_laid_out() {
    for case in [false, true] {
        let account = address(1);
        let mint = address(2);
        let owner = address(3);
        let signers = cosigners(case, 104);
        let build = |program_id: Pubkey| {
            token::freeze_account(&program_id, &account, &mint, &owner, &signers)
        };
        let accounts =
            [vec![writable(account), readonly(mint)], authorized(owner, &signers)].concat();
        let data = vec![10];
        laid_out(build(token_2022_id()), token_2022_id(), &accounts, &data);
        laid_out(build(token_id()), token_id(), &accounts, &data);
        refused(build(address(200)), INCORRECT_PROGRAM_ID);
    }
}

#[test]
fn token_thaw_account_is_laid_out() {
    for case in [false, true] {
        let account = address(1);
        let mint = address(2);
        let owner = address(3);
        let signers = cosigners(case, 104);
        let build = |program_id: Pubkey| {
            token::thaw_account(&program_id, &account, &mint, &owner, &signers)
        };
        let accounts =
            [vec![writable(account), readonly(mint)], authorized(owner, &signers)].concat();
        let data = vec![11];
        laid_out(build(token_2022_id()), token_2022_id(), &accounts, &data);
        laid_out(build(token_id()), token_id(), &accounts, &data);
        refused(build(address(200)), INCORRECT_PROGRAM_ID);
    }
}

#[test]
fn token_transfer_checked_is_laid_out() {
    for case in [false, true] {
        let source = address(1);
        let mint = address(2);
        let destination = address(3);
        let authority = address(4);
        let signers = cosigners(case, 105);
        let amount: u64 = 1000000000006 + u64::from(case);
        let decimals: u8 = 7 + u8::from(case);
        let build = |program_id: Pubkey| {
            token::transfer_checked(
                &program_id,
                &source,
                &mint,
                &destination,
                &authority,
                &signers,
                amount,
                decimals,
            )
        };
        let accounts =
            [vec![writable(source), readonly(mint), writable(destination)], authorized(authority, &signers)].concat();
        let data = [vec![12], amount.to_le_bytes().to_vec(), vec![decimals]].concat();
        laid_out(build(token_2022_id()), token_2022_id(), &accounts, &data);
        laid_out(build(token_id()), token_id(), &accounts, &data);
        refused(build(address(200)), INCORRECT_PROGRAM_ID);
    }
}

#[test]
fn token_approve_checked_is_laid_out() {
    for case in [false, true] {
        let source = address(1);
        let mint = address(2);
        let delegate = address(3);
        let owner = address(4);
        let signers = cosigners(case, 105);
        let amount: u64 = 1000000000006 + u64::from(case);
        let decimals: u8 = 7 + u8::from(case);
        let build = |program_id: Pubkey| {
            token::approve_checked(
                &program_id,
                &source,
                &mint,
                &delegate,
                &owner,
                &signers,
                amount,
                decimals,
            )
        };
        let accounts =
            [vec![writable(source), readonly(mint), readonly(delegate)], authorized(owner, &signers)].concat();
        let data = [vec![13], amount.to_le_bytes().to_vec(), vec![decimals]].concat();
        laid_out(build(token_2022_id()), token_2022_id(), &accounts, &data);
        laid_out(build(token_id()), token_id(), &accounts, &data);
        refused(build(address(200)), INCORRECT_PROGRAM_ID);
    }
}

#[test]
fn token_mint_to_checked_is_laid_out() {
    for case in [false, true] {
        let mint = address(1);
        let account = address(2);
        let owner = address(3);
        let signers = cosigners(case, 104);
        let amount: u64 = 1000000000005 + u64::from(case);
        let decimals: u8 = 6 + u8::from(case);
        let build = |program_id: Pubkey| {
            token::mint_to_checked(&program_id, &mint, &account, &owner, &signers, amount, decimals)
        };
        let accounts =
            [vec![writable(mint), writable(account)], authorized(owner, &signers)].concat();
        let data = [vec![14], amount.to_le_bytes().to_vec(), vec![decimals]].concat();
        laid_out(build(token_2022_id()), token_2022_id(), &accounts, &data);
        laid_out(build(token_id()), token_id(), &accounts, &data);
        refused(build(address(200)), INCORRECT_PROGRAM_ID);
    }
}

#[test]
fn token_burn_checked_is_laid_out() {
    for case in [false, true] {
        let account = address(1);
        let mint = address(2);
        let authority = address(3);
        let signers = cosigners(case, 104);
        let amount: u64 = 1000000000005 + u64::from(case);
        let decimals: u8 = 6 + u8::from(case);
        let build = |program_id: Pubkey| {
            token::burn_checked(
                &program_id,
                &account,
                &mint,
                &authority,
                &signers,
                amount,
                decimals,
            )
        };
        let accounts =
            [vec![writable(account), writable(mint)], authorized(authority, &signers)].concat();
        let data = [vec![15], amount.to_le_bytes().to_vec(), vec![decimals]].concat();
        laid_out(build(token_2022_id()), token_2022_id(), &accounts, &data);
        laid_out(build(token_id()), token_id(), &accounts, &data);
        refused(build(address(200)), INCORRECT_PROGRAM_ID);
    }
}

#[test]
fn token_sync_native_is_laid_out() {
    let account = address(1);
    let build = |program_id: Pubkey| token::sync_native(&program_id, &account);
    let accounts = vec![writable(account)];
    let data = vec![17];
    laid_out(build(token_2022_id()), token_2022_id(), &accounts, &data);
    laid_out(build(token_id()), token_id(), &accounts, &data);
    refused(build(address(200)), INCORRECT_PROGRAM_ID);
}

#[test]
fn token_initialize_mint_close_authority_is_laid_out() {
    for case in [false, true] {
        let mint = address(1);
        let close_authority = optional(case, 2);
        let build = |program_id: Pubkey| {
            token::initialize_mint_close_authority(&program_id, &mint, close_authority)
        };
        let accounts = vec![writable(mint)];
        let data = [vec![25], packed(close_authority)].concat();
        laid_out(build(token_2022_id()), token_2022_id(), &accounts, &data);
        refused(build(token_id()), INCORRECT_PROGRAM_ID);
        refused(build(address(200)), INCORRECT_PROGRAM_ID);
    }
}

#[test]
fn token_initialize_immutable_owner_is_laid_out() {
    let account = address(1);
    let build = |program_id: Pubkey| token::initialize_immutable_owner(&program_id, &account);
    let accounts = vec![writable(account)];
    let data = vec![22];
    laid_out(build(token_2022_id()), token_2022_id(), &accounts, &data);
    laid_out(build(token_id()), token_id(), &accounts, &data);
    refused(build(address(200)), INCORRECT_PROGRAM_ID);
}

#[test]
fn token_reallocate_is_laid_out() {
    for case in [false, true] {
        let account = address(1);
        let payer = address(2);
        let owner = address(3);
        let signers = cosigners(case, 104);
        let extension_types =
            if case { Vec::new() } else { vec![ExtensionType::MemoTransfer, ExtensionType::TokenGroupMember] };
        let build = |program_id: Pubkey| {
            token::reallocate(&program_id, &account, &payer, &owner, &signers, &extension_types)
        };
        let accounts =
            [vec![writable(account), paying(payer), readonly(Pubkey::new_from_array(SYSTEM_PROGRAM_ID))], authorized(owner, &signers)].concat();
        let data =
            [vec![29], extension_types.iter().flat_map(|e| (*e as u16).to_le_bytes()).collect()].concat();
        laid_out(build(token_2022_id()), token_2022_id(), &accounts, &data);
        refused(build(token_id()), INCORRECT_PROGRAM_ID);
        refused(build(address(200)), INCORRECT_PROGRAM_ID);
    }
}

#[test]
fn token_create_native_mint_is_laid_out() {
    let payer = address(1);
    let build = |program_id: Pubkey| token::create_native_mint(&program_id, &payer);
    let accounts =
        vec![paying(payer), writable(Pubkey::new_from_array(NATIVE_MINT_2022)), readonly(Pubkey::new_from_array(SYSTEM_PROGRAM_ID))];
    let data = vec![31];
    laid_out(build(token_2022_id()), token_2022_id(), &accounts, &data);
    refused(build(token_id()), INCORRECT_PROGRAM_ID);
    refused(build(address(200)), INCORRECT_PROGRAM_ID);
}

#[test]
fn token_initialize_non_transferable_mint_is_laid_out() {
    let mint = address(1);
    let build = |program_id: Pubkey| {
        token::initialize_non_transferable_mint(&program_id, &mint)
    };
    let accounts = vec![writable(mint)];
    let data = vec![32];
    laid_out(build(token_2022_id()), token_2022_id(), &accounts, &data);
    refused(build(token_id()), INCORRECT_PROGRAM_ID);
    refused(build(address(200)), INCORRECT_PROGRAM_ID);
}

#[test]
fn token_initialize_permanent_delegate_is_laid_out() {
    let mint = address(1);
    let delegate = address(2);
    let build = |program_id: Pubkey| {
        token::initialize_permanent_delegate(&program_id, &mint, &delegate)
    };
    let accounts = vec![writable(mint)];
    let data = [vec![35], delegate.bytes.to_vec()].concat();
    laid_out(build(token_2022_id()), token_2022_id(), &accounts, &data);
    refused(build(token_id()), INCORRECT_PROGRAM_ID);
    refused(build(address(200)), INCORRECT_PROGRAM_ID);
}

#[test]
fn token_withdraw_excess_lamports_is_laid_out() {
    for case in [false, true] {
        let source = address(1);
        let destination = address(2);
        let authority = address(3);
        let signers = cosigners(case, 104);
        let build = |program_id: Pubkey| {
            token::withdraw_excess_lamports(
                &program_id,
                &source,
                &destination,
                &authority,
                &signers,
            )
        };
        let accounts =
            [vec![writable(source), writable(destination)], authorized(authority, &signers)].concat();
        let data = vec![38];
        laid_out(build(token_2022_id()), token_2022_id(), &accounts, &data);
        refused(build(token_id()), INCORRECT_PROGRAM_ID);
        refused(build(address(200)), INCORRECT_PROGRAM_ID);
    }
}

#[test]
fn a_multisig_needs_between_one_and_eleven_members() {
    let members = |n: u8| (0..n).map(|i| address(40 + i)).collect::<Vec<Pubkey>>();
    let build = |n: u8, m: u8| token::initialize_multisig(&token_2022_id(), &address(1), &members(n), m);
    assert!(build(1, 1).is_ok());
    assert!(build(11, 11).is_ok());
    assert!(build(11, 1).is_ok());
    refused(build(0, 0), MISSING_REQUIRED_SIGNATURE);
    refused(build(0, 1), MISSING_REQUIRED_SIGNATURE);
    refused(build(3, 0), MISSING_REQUIRED_SIGNATURE);
    refused(build(3, 4), MISSING_REQUIRED_SIGNATURE);
    refused(build(12, 2), MISSING_REQUIRED_SIGNATURE);
    refused(build(12, 12), MISSING_REQUIRED_SIGNATURE);
    refused(
        token::initialize_multisig(&address(200), &address(1), &members(0), 0),
        INCORRECT_PROGRAM_ID,
    );
}

#[test]
fn each_kind_of_authority_has_its_number() {
    let kinds = [
        AuthorityType::MintTokens,
        AuthorityType::FreezeAccount,
        AuthorityType::AccountOwner,
        AuthorityType::CloseAccount,
        AuthorityType::TransferFeeConfig,
        AuthorityType::WithheldWithdraw,
        AuthorityType::CloseMint,
        AuthorityType::InterestRate,
        AuthorityType::PermanentDelegate,
        AuthorityType::ConfidentialTransferMint,
        AuthorityType::TransferHookProgramId,
        AuthorityType::ConfidentialTransferFeeConfig,
        AuthorityType::MetadataPointer,
        AuthorityType::GroupPointer,
        AuthorityType::GroupMemberPointer,
    ];
    for (number, kind) in kinds.into_iter().enumerate() {
        let r = token::set_authority(&token_id(), &address(1), None, kind, &address(2), &Vec::new());
        assert_eq!(r.unwrap().data, vec![6, u8::try_from(number).unwrap(), 0]);
    }
}
