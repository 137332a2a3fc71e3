use solana_program::program_option::COption;
use solana_program::pubkey::Pubkey as LedgerKey;
use spl_token_2022::extension::confidential_transfer::ConfidentialTransferAccount as LedgerConfidentialAccount;
use spl_token_2022::extension::confidential_transfer_fee::{
    ConfidentialTransferFeeAmount, ConfidentialTransferFeeConfig,
};
use spl_token_2022::extension::{
    BaseStateWithExtensions, ExtensionType as LedgerExtensionType, StateWithExtensionsMut,
};
use spl_token_2022::solana_zk_token_sdk::encryption::elgamal::{
    ElGamalCiphertext as LedgerCiphertext, ElGamalKeypair as LedgerKeypair,
};
use spl_token_2022::solana_zk_token_sdk::zk_token_elgamal::pod::{
    AeCiphertext as PodAeCiphertext, ElGamalCiphertext as PodElGamalCiphertext,
};
use spl_token_2022::state::{
    Account as LedgerAccount, AccountState as LedgerAccountState, Mint as LedgerMint,
};
use token_client::account::BaseAccount;
use token_client::confidential::{
    ApplyPendingBalanceAccountInfo, EmptyAccountAccountInfo, TransferAccountInfo,
    WithdrawAccountInfo,
};
use token_client::error::TokenError;
use token_client::programs::token_2022_id;
use token_client::pubkey::Pubkey;
use token_client::token::Token;

fn key(byte: u8) -> Pubkey {
    Pubkey::new_from_array([byte; 32])
}

fn lk(byte: u8) -> LedgerKey {
    LedgerKey::new_from_array([byte; 32])
}

fn token() -> Token {
    Token::new(&token_2022_id(), &key(11), Some(9), key(12))
}

fn confidential_account(withheld: Option<PodElGamalCiphertext>) -> BaseAccount {
    let mut extensions = vec![LedgerExtensionType::ConfidentialTransferAccount];
    if withheld.is_some() {
        extensions.push(LedgerExtensionType::ConfidentialTransferFeeAmount);
    }
    let len = LedgerExtensionType::try_calculate_account_len::<LedgerAccount>(&extensions).unwrap();
    let mut data = vec![0u8; len];
    let mut state = StateWithExtensionsMut::<LedgerAccount>::unpack_uninitialized(&mut data).unwrap();
    let extension = state.init_extension::<LedgerConfidentialAccount>(true).unwrap();
    extension.pending_balance_lo = PodElGamalCiphertext([1; 64]);
    extension.pending_balance_hi = PodElGamalCiphertext([2; 64]);
    extension.available_balance = PodElGamalCiphertext([3; 64]);
    extension.decryptable_available_balance = PodAeCiphertext([4; 36]);
    extension.pending_balance_credit_counter = 6u64.into();
    if let Some(amount) = withheld {
        let extension = state.init_extension::<ConfidentialTransferFeeAmount>(true).unwrap();
        extension.withheld_amount = amount;
    }
    state.base = LedgerAccount {
        mint: lk(11),
        owner: lk(7),
        amount: 0,
        delegate: COption::None,
        state: LedgerAccountState::Initialized,
        is_native: COption::None,
        delegated_amount: 0,
        close_authority: COption::None,
    };
    state.pack_base();
    state.init_account_type().unwrap();
    BaseAccount { lamports: 1, data, owner: token_2022_id(), executable: false, rent_epoch: 0 }
}

fn plain_account() -> BaseAccount {
    let mut data = vec![0u8; 165];
    let state = LedgerAccount {
        mint: lk(11),
        owner: lk(7),
        amount: 0,
        delegate: COption::None,
        state: LedgerAccountState::Initialized,
        is_native: COption::None,
        delegated_amount: 0,
        close_authority: COption::None,
    };
    solana_program::program_pack::Pack::pack(state, &mut data).unwrap();
    BaseAccount { lamports: 1, data, owner: token_2022_id(), executable: false, rent_epoch: 0 }
}

#[test]
fn the_confidential_state_is_read_from_the_account() {
    let state = token().confidential_account(Some(confidential_account(None))).unwrap();
    assert_eq!(state.pending_balance_lo.0, [1; 64]);
    assert_eq!(state.pending_balance_hi.0, [2; 64]);
    assert_eq!(state.available_balance.0, [3; 64]);
    assert_eq!(state.decryptable_available_balance.0, [4; 36]);
    assert_eq!(state.pending_balance_credit_counter, 6);
    let transfer = TransferAccountInfo::new(&state);
    assert_eq!(transfer.available_balance.0, [3; 64]);
    assert_eq!(transfer.decryptable_available_balance.0, [4; 36]);
    let withdraw = WithdrawAccountInfo::new(&state);
    assert_eq!(withdraw.decryptable_available_balance.0, [4; 36]);
    let empty = EmptyAccountAccountInfo::new(&state);
    assert_eq!(empty.available_balance.0, [3; 64]);
    let apply = ApplyPendingBalanceAccountInfo::new(&state);
    assert_eq!(apply.pending_balance_credit_counter(), 6);
    assert_eq!(apply.pending_balance_lo.0, [1; 64]);
    assert_eq!(apply.pending_balance_hi.0, [2; 64]);
}

#[test]
fn an_account_without_the_extension_has_no_confidential_state() {
    assert!(matches!(
        token().confidential_account(Some(plain_account())).unwrap_err(),
        TokenError::Program(_)
    ));
    assert_eq!(token().confidential_account(None).unwrap_err(), TokenError::AccountNotFound);
}

#[test]
fn withheld_fees_are_summed_over_the_accounts() {
    let pair = LedgerKeypair::new_rand();
    let first = pair.pubkey().encrypt(5u64);
    let second = pair.pubkey().encrypt(7u64);
    let accounts = vec![
        Some(confidential_account(Some(PodElGamalCiphertext(first.to_bytes())))),
        Some(confidential_account(Some(PodElGamalCiphertext(second.to_bytes())))),
    ];
    let info = token().accounts_withheld_tokens_info(accounts).unwrap();
    let expected = LedgerCiphertext::default() + first + second;
    assert_eq!(info.withheld_amount.0, expected.to_bytes());
    let sum = LedgerCiphertext::from_bytes(&info.withheld_amount.0).unwrap();
    assert_eq!(sum.decrypt_u32(pair.secret()), Some(12));
    let none = token().accounts_withheld_tokens_info(vec![]).unwrap();
    assert_eq!(none.withheld_amount.0, [0; 64]);
    assert_eq!(LedgerCiphertext::default().to_bytes(), [0; 64]);
}

#[test]
fn the_first_bad_account_ends_the_sum() {
    let pair = LedgerKeypair::new_rand();
    let good = Some(confidential_account(Some(PodElGamalCiphertext(
        pair.pubkey().encrypt(5u64).to_bytes(),
    ))));
    assert_eq!(
        token().accounts_withheld_tokens_info(vec![good, None]).unwrap_err(),
        TokenError::AccountNotFound
    );
    assert!(matches!(
        token()
            .accounts_withheld_tokens_info(vec![Some(confidential_account(None))])
            .unwrap_err(),
        TokenError::Program(_)
    ));
    assert_eq!(
        token()
            .accounts_withheld_tokens_info(vec![Some(confidential_account(Some(
                PodElGamalCiphertext([255; 64])
            )))])
            .unwrap_err(),
        TokenError::AccountDecryption
    );
}

#[test]
fn the_fees_withheld_in_the_mint_are_read() {
    let extensions = [LedgerExtensionType::ConfidentialTransferFeeConfig];
    let len = LedgerExtensionType::try_calculate_account_len::<LedgerMint>(&extensions).unwrap();
    let mut data = vec![0u8; len];
    let mut state = StateWithExtensionsMut::<LedgerMint>::unpack_uninitialized(&mut data).unwrap();
    let extension = state.init_extension::<ConfidentialTransferFeeConfig>(true).unwrap();
    extension.withheld_amount = PodElGamalCiphertext([8; 64]);
    state.base = LedgerMint {
        mint_authority: COption::None,
        supply: 0,
        decimals: 9,
        is_initialized: true,
        freeze_authority: COption::None,
    };
    state.pack_base();
    state.init_account_type().unwrap();
    assert_eq!(
        state.get_extension_types().unwrap(),
        vec![LedgerExtensionType::ConfidentialTransferFeeConfig]
    );
    let account =
        BaseAccount { lamports: 1, data, owner: token_2022_id(), executable: false, rent_epoch: 0 };
    let info = token().mint_withheld_tokens_info(Some(account)).unwrap();
    assert_eq!(info.withheld_amount.0, [8; 64]);
    assert_eq!(
        token().mint_withheld_tokens_info(None).unwrap_err(),
        TokenError::AccountNotFound
    );
}
