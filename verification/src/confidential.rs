//! The encrypted values and keys of confidential transfers, as the bytes in
//! which they are stored.
use crate::error::{ProgramError, TokenError};
use crate::pubkey::Pubkey;
use solana_sdk::signer::EncodableKey;
use spl_token_2022::extension::confidential_transfer::ConfidentialTransferAccount as LedgerConfidentialAccount;
use spl_token_2022::extension::confidential_transfer_fee::{
    ConfidentialTransferFeeAmount, ConfidentialTransferFeeConfig,
};
use spl_token_2022::extension::{BaseStateWithExtensions, StateWithExtensionsOwned};
use spl_token_2022::solana_zk_token_sdk::encryption::auth_encryption::{
    AeCiphertext as LedgerAeCiphertext, AeKey as LedgerAeKey,
};
use spl_token_2022::solana_zk_token_sdk::encryption::elgamal::{
    ElGamalCiphertext as LedgerElGamalCiphertext, ElGamalSecretKey as LedgerElGamalSecretKey,
};
use spl_token_2022::state::{Account as LedgerAccount, Mint as LedgerMint};
use vstd::prelude::*;

verus! {

/// A balance encrypted under an authenticated-encryption key: 36 bytes.
#[derive(Clone, Copy, Debug)]
pub struct AeCiphertext(pub [u8; 36]);

impl View for AeCiphertext {
    type V = Seq<u8>;

    open spec fn view(&self) -> Seq<u8> {
        self.0@
    }
}

/// A balance encrypted under an ElGamal key: 64 bytes.
#[derive(Clone, Copy, Debug)]
pub struct ElGamalCiphertext(pub [u8; 64]);

impl View for ElGamalCiphertext {
    type V = Seq<u8>;

    open spec fn view(&self) -> Seq<u8> {
        self.0@
    }
}

impl ElGamalCiphertext {
    /// The ciphertext whose bytes are all zero: the sum of no ciphertexts.
    pub open spec fn zero() -> ElGamalCiphertext {
        ElGamalCiphertext(vstd::array::spec_array_fill_for_copy_type::<u8, 64>(0u8))
    }

    /// The ciphertext whose bytes are all zero.
    pub fn zeroed() -> (r: ElGamalCiphertext)
        ensures
            r == ElGamalCiphertext::zero(),
    {
        ElGamalCiphertext([0u8; 64])
    }
}

/// The two handles with which the source of a transfer decrypts the
/// transferred amount: 32 bytes for the low bits, then 32 for the high bits.
#[derive(Clone, Copy, Debug)]
pub struct SourceDecryptHandles(pub [u8; 64]);

impl View for SourceDecryptHandles {
    type V = Seq<u8>;

    open spec fn view(&self) -> Seq<u8> {
        self.0@
    }
}

/// Where the lamports of the proof context accounts go when a transfer
/// closes them, and the proof program that closes them.
#[derive(Clone, Copy, Debug)]
pub struct CloseSplitContextStateAccounts {
    pub lamport_destination: Pubkey,
    pub zk_token_proof_program: Pubkey,
}

/// The context accounts that hold the verified proofs of a confidential
/// transfer, one for each proof, and the key that may close them.
#[derive(Clone, Copy, Debug)]
pub struct TransferSplitContextStateAccounts {
    pub equality_proof: Pubkey,
    pub ciphertext_validity_proof: Pubkey,
    pub range_proof: Pubkey,
    pub authority: Pubkey,
    /// Let the transfer do nothing, instead of failing, while a context
    /// account is not yet initialized.
    pub no_op_on_uninitialized_split_context_state: bool,
    pub close_split_context_state_accounts: Option<CloseSplitContextStateAccounts>,
}

/// The context accounts that hold the verified proofs of a confidential
/// transfer with a fee, one for each proof, and the key that may close
/// them.
#[derive(Clone, Copy, Debug)]
pub struct TransferWithFeeSplitContextStateAccounts {
    pub equality_proof: Pubkey,
    pub transfer_amount_ciphertext_validity_proof: Pubkey,
    pub fee_sigma_proof: Pubkey,
    pub fee_ciphertext_validity_proof: Pubkey,
    pub range_proof: Pubkey,
    pub authority: Pubkey,
    /// Let the transfer do nothing, instead of failing, while a context
    /// account is not yet initialized.
    pub no_op_on_uninitialized_split_context_state: bool,
    pub close_split_context_state_accounts: Option<CloseSplitContextStateAccounts>,
}

/// A key for authenticated encryption: 16 secret bytes.
#[derive(Clone, Copy, Debug)]
pub struct AeKey(pub [u8; 16]);

impl View for AeKey {
    type V = Seq<u8>;

    open spec fn view(&self) -> Seq<u8> {
        self.0@
    }
}

/// An ElGamal secret key: 32 secret bytes.
#[derive(Clone, Copy, Debug)]
pub struct ElGamalSecretKey(pub [u8; 32]);

impl View for ElGamalSecretKey {
    type V = Seq<u8>;

    open spec fn view(&self) -> Seq<u8> {
        self.0@
    }
}

/// An ElGamal key pair: the 32 bytes of the public key, then the 32 secret
/// bytes.
#[derive(Clone, Copy, Debug)]
pub struct ElGamalKeypair(pub [u8; 64]);

impl View for ElGamalKeypair {
    type V = Seq<u8>;

    open spec fn view(&self) -> Seq<u8> {
        self.0@
    }
}

/// What the confidential-transfer extension stores in a token account, as
/// far as this library reads it.
#[derive(Clone, Copy, Debug)]
pub struct ConfidentialTransferAccount {
    /// The low 16 bits of the pending balance, encrypted.
    pub pending_balance_lo: ElGamalCiphertext,
    /// The high bits of the pending balance, encrypted.
    pub pending_balance_hi: ElGamalCiphertext,
    pub available_balance: ElGamalCiphertext,
    /// The available balance again, encrypted so that the owner can decrypt
    /// it fast.
    pub decryptable_available_balance: AeCiphertext,
    /// How many credits went into the pending balance since it was last
    /// applied.
    pub pending_balance_credit_counter: u64,
}

/// The amount that authenticated decryption with a key gives for a
/// ciphertext, if the ciphertext was made with that key.
pub uninterp spec fn ae_decryption(key: Seq<u8>, ciphertext: Seq<u8>) -> Option<u64>;

/// The amount below 2^32 that ElGamal decryption with a secret key gives
/// for a ciphertext, if there is one.
pub uninterp spec fn elgamal_decryption_u32(secret: Seq<u8>, ciphertext: Seq<u8>) -> Option<u64>;

/// The sum of two ElGamal ciphertexts, which encrypts the sum of their
/// amounts, if both are well-formed.
pub uninterp spec fn ciphertext_sum(a: Seq<u8>, b: Seq<u8>) -> Option<ElGamalCiphertext>;

/// What the confidential-transfer extension stores in the data of a token
/// account, or the error with which the token program refuses them.
pub uninterp spec fn confidential_account_in(data: Seq<u8>) -> Result<
    ConfidentialTransferAccount,
    ProgramError,
>;

/// The encrypted fees that are withheld in the data of a mint, or the
/// error with which the token program refuses them.
pub uninterp spec fn mint_withheld_amount_in(data: Seq<u8>) -> Result<
    ElGamalCiphertext,
    ProgramError,
>;

/// The encrypted fees that are withheld in the data of a token account, or
/// the error with which the token program refuses them.
pub uninterp spec fn account_withheld_amount_in(data: Seq<u8>) -> Result<
    ElGamalCiphertext,
    ProgramError,
>;

/// Calls `AeKey::decrypt` of the encryption library, on the key that
/// `EncodableKey::read` gives for the 16 bytes written as a list of
/// numbers. Decryption depends on the key and the ciphertext alone.
#[verifier::external_body]
pub(crate) fn ae_decrypt(key: &AeKey, ciphertext: &AeCiphertext) -> (r: Option<u64>)
    ensures
        r == ae_decryption(key@, ciphertext@),
{
    let key = LedgerAeKey::read(&mut format!("{:?}", key.0).as_bytes()).unwrap();
    key.decrypt(&LedgerAeCiphertext::from_bytes(&ciphertext.0).unwrap())
}

/// Calls `AeKey::encrypt` of the encryption library, on the key that
/// `EncodableKey::read` gives for the 16 bytes written as a list of
/// numbers. Encryption draws a fresh nonce each time, so two calls differ;
/// whatever ciphertext comes back, decryption with the same key gives the
/// amount again.
#[verifier::external_body]
pub(crate) fn ae_encrypt(key: &AeKey, amount: u64) -> (r: AeCiphertext)
    ensures
        ae_decryption(key@, r@) == Some(amount),
{
    let key = LedgerAeKey::read(&mut format!("{:?}", key.0).as_bytes()).unwrap();
    AeCiphertext(key.encrypt(amount).to_bytes())
}

/// Calls `ElGamalSecretKey::decrypt_u32` of the encryption library.
/// Nothing comes back where the bytes are no secret key, where they are no
/// ciphertext, or where the amount is not below 2^32. The result depends
/// on the key and the ciphertext alone.
#[verifier::external_body]
pub(crate) fn elgamal_decrypt_u32(secret: &ElGamalSecretKey, ciphertext: &ElGamalCiphertext) -> (r:
    Option<u64>)
    ensures
        r == elgamal_decryption_u32(secret@, ciphertext@),
{
    let secret = LedgerElGamalSecretKey::from_bytes(&secret.0)?;
    secret.decrypt_u32(&LedgerElGamalCiphertext::from_bytes(&ciphertext.0)?)
}

/// Adds two ciphertexts with the `+` of the encryption library's
/// `ElGamalCiphertext`. Nothing comes back where one of them is no
/// ciphertext. The result depends on the two ciphertexts alone.
#[verifier::external_body]
pub(crate) fn add_ciphertexts(a: &ElGamalCiphertext, b: &ElGamalCiphertext) -> (r: Option<
    ElGamalCiphertext,
>)
    ensures
        r == ciphertext_sum(a@, b@),
{
    let sum = LedgerElGamalCiphertext::from_bytes(&a.0)? + LedgerElGamalCiphertext::from_bytes(&b.0)?;
    Some(ElGamalCiphertext(sum.to_bytes()))
}

/// Calls `StateWithExtensionsOwned::<Account>::unpack` and then
/// `get_extension::<ConfidentialTransferAccount>` of
/// `spl_token_2022::extension` on a copy of the data, and hands back the
/// fields that this library reads. The result depends on the data alone.
#[verifier::external_body]
pub(crate) fn read_confidential_account(data: &Vec<u8>) -> (r: Result<
    ConfidentialTransferAccount,
    ProgramError,
>)
    ensures
        r == confidential_account_in(data@),
{
    let state = StateWithExtensionsOwned::<LedgerAccount>::unpack(data.clone()).map_err(|e| ProgramError { code: e.into() })?;
    let c = state.get_extension::<LedgerConfidentialAccount>().map_err(|e| ProgramError { code: e.into() })?;
    Ok(ConfidentialTransferAccount {
        pending_balance_lo: ElGamalCiphertext(c.pending_balance_lo.0),
        pending_balance_hi: ElGamalCiphertext(c.pending_balance_hi.0),
        available_balance: ElGamalCiphertext(c.available_balance.0),
        decryptable_available_balance: AeCiphertext(c.decryptable_available_balance.0),
        pending_balance_credit_counter: c.pending_balance_credit_counter.into(),
    })
}

/// Calls `StateWithExtensionsOwned::<Mint>::unpack` and then
/// `get_extension::<ConfidentialTransferFeeConfig>` of
/// `spl_token_2022::extension` on a copy of the data, and hands back the
/// withheld amount. The result depends on the data alone.
#[verifier::external_body]
pub(crate) fn read_mint_withheld_amount(data: &Vec<u8>) -> (r: Result<ElGamalCiphertext, ProgramError>)
    ensures
        r == mint_withheld_amount_in(data@),
{
    let state = StateWithExtensionsOwned::<LedgerMint>::unpack(data.clone()).map_err(|e| ProgramError { code: e.into() })?;
    let c = state.get_extension::<ConfidentialTransferFeeConfig>().map_err(|e| ProgramError { code: e.into() })?;
    Ok(ElGamalCiphertext(c.withheld_amount.0))
}

/// Calls `StateWithExtensionsOwned::<Account>::unpack` and then
/// `get_extension::<ConfidentialTransferFeeAmount>` of
/// `spl_token_2022::extension` on a copy of the data, and hands back the
/// withheld amount. The result depends on the data alone.
#[verifier::external_body]
pub(crate) fn read_account_withheld_amount(data: &Vec<u8>) -> (r: Result<
    ElGamalCiphertext,
    ProgramError,
>)
    ensures
        r == account_withheld_amount_in(data@),
{
    let state = StateWithExtensionsOwned::<LedgerAccount>::unpack(data.clone()).map_err(|e| ProgramError { code: e.into() })?;
    let c = state.get_extension::<ConfidentialTransferFeeAmount>().map_err(|e| ProgramError { code: e.into() })?;
    Ok(ElGamalCiphertext(c.withheld_amount.0))
}

/// What a confidential transfer reads of the source account.
#[derive(Clone, Copy, Debug)]
pub struct TransferAccountInfo {
    pub available_balance: ElGamalCiphertext,
    pub decryptable_available_balance: AeCiphertext,
}

/// What a withdrawal from a confidential balance reads of the account.
#[derive(Clone, Copy, Debug)]
pub struct WithdrawAccountInfo {
    pub available_balance: ElGamalCiphertext,
    pub decryptable_available_balance: AeCiphertext,
}

/// What emptying a confidential account reads of the account.
#[derive(Clone, Copy, Debug)]
pub struct EmptyAccountAccountInfo {
    pub available_balance: ElGamalCiphertext,
}

/// What applying the pending balance reads of the account.
#[derive(Clone, Copy, Debug)]
pub struct ApplyPendingBalanceAccountInfo {
    pub pending_balance_credit_counter: u64,
    pub pending_balance_lo: ElGamalCiphertext,
    pub pending_balance_hi: ElGamalCiphertext,
    pub decryptable_available_balance: AeCiphertext,
}

/// The encrypted fees that a withdrawal of withheld fees is about.
#[derive(Clone, Copy, Debug)]
pub struct WithheldTokensInfo {
    pub withheld_amount: ElGamalCiphertext,
}

/// The balance after `amount` is taken from the balance in `current`: the
/// decrypted balance must exist and be at least `amount`.
pub open spec fn debited(key: Seq<u8>, current: Seq<u8>, amount: u64) -> Option<u64> {
    match ae_decryption(key, current) {
        Some(balance) => if balance >= amount {
            Some((balance - amount) as u64)
        } else {
            None
        },
        None => None,
    }
}

/// Encrypts anew the balance that is left when `amount` is taken from the
/// balance in `current`. The ciphertext decrypts, under the same key, to
/// the old balance less `amount`. Where the old balance cannot be
/// decrypted with the key, or is less than `amount`, the account cannot be
/// decrypted.
pub fn debit_decryptable_balance(current: &AeCiphertext, amount: u64, aes_key: &AeKey) -> (r: Result<
    AeCiphertext,
    TokenError,
>)
    ensures
        match debited(aes_key@, current@, amount) {
            Some(left) => r is Ok && ae_decryption(aes_key@, r->Ok_0@) == Some(left),
            None => r is Err && r->Err_0 == TokenError::AccountDecryption,
        },
{
    match ae_decrypt(aes_key, current) {
        Some(balance) => {
            if balance >= amount {
                Ok(ae_encrypt(aes_key, balance - amount))
            } else {
                Err(TokenError::AccountDecryption)
            }
        },
        None => Err(TokenError::AccountDecryption),
    }
}

impl TransferAccountInfo {
    /// What a transfer reads, out of what the extension stores.
    pub fn new(account: &ConfidentialTransferAccount) -> (r: TransferAccountInfo)
        ensures
            r.available_balance == account.available_balance,
            r.decryptable_available_balance == account.decryptable_available_balance,
    {
        TransferAccountInfo {
            available_balance: account.available_balance,
            decryptable_available_balance: account.decryptable_available_balance,
        }
    }

    /// The decryptable available balance of the source after `amount` was
    /// transferred out of it: see `debit_decryptable_balance`.
    pub fn new_decryptable_available_balance(&self, transfer_amount: u64, aes_key: &AeKey) -> (r:
        Result<AeCiphertext, TokenError>)
        ensures
            match debited(aes_key@, self.decryptable_available_balance@, transfer_amount) {
                Some(left) => r is Ok && ae_decryption(aes_key@, r->Ok_0@) == Some(left),
                None => r is Err && r->Err_0 == TokenError::AccountDecryption,
            },
    {
        debit_decryptable_balance(&self.decryptable_available_balance, transfer_amount, aes_key)
    }
}

impl WithdrawAccountInfo {
    /// What a withdrawal reads, out of what the extension stores.
    pub fn new(account: &ConfidentialTransferAccount) -> (r: WithdrawAccountInfo)
        ensures
            r.available_balance == account.available_balance,
            r.decryptable_available_balance == account.decryptable_available_balance,
    {
        WithdrawAccountInfo {
            available_balance: account.available_balance,
            decryptable_available_balance: account.decryptable_available_balance,
        }
    }

    /// The decryptable available balance after `amount` was withdrawn: see
    /// `debit_decryptable_balance`.
    pub fn new_decryptable_available_balance(&self, withdraw_amount: u64, aes_key: &AeKey) -> (r:
        Result<AeCiphertext, TokenError>)
        ensures
            match debited(aes_key@, self.decryptable_available_balance@, withdraw_amount) {
                Some(left) => r is Ok && ae_decryption(aes_key@, r->Ok_0@) == Some(left),
                None => r is Err && r->Err_0 == TokenError::AccountDecryption,
            },
    {
        debit_decryptable_balance(&self.decryptable_available_balance, withdraw_amount, aes_key)
    }
}

impl EmptyAccountAccountInfo {
    /// What emptying an account reads, out of what the extension stores.
    pub fn new(account: &ConfidentialTransferAccount) -> (r: EmptyAccountAccountInfo)
        ensures
            r.available_balance == account.available_balance,
    {
        EmptyAccountAccountInfo { available_balance: account.available_balance }
    }
}

impl WithheldTokensInfo {
    /// The information on a withheld amount.
    pub fn new(withheld_amount: &ElGamalCiphertext) -> (r: WithheldTokensInfo)
        ensures
            r.withheld_amount == *withheld_amount,
    {
        WithheldTokensInfo { withheld_amount: *withheld_amount }
    }
}

/// The pending balance whose low 16 bits are `lo` and whose further bits
/// are `hi`, if it fits in 64 bits.
pub open spec fn combined_balance(lo: u64, hi: u64) -> Option<u64> {
    if hi * 65536 + lo <= u64::MAX {
        Some((hi * 65536 + lo) as u64)
    } else {
        None
    }
}

/// The available balance after the pending balance was applied, if every
/// part can be decrypted and the sum fits in 64 bits.
pub open spec fn credited(
    secret: Seq<u8>,
    key: Seq<u8>,
    info: ApplyPendingBalanceAccountInfo,
) -> Option<u64> {
    match (
        elgamal_decryption_u32(secret, info.pending_balance_lo@),
        elgamal_decryption_u32(secret, info.pending_balance_hi@),
        ae_decryption(key, info.decryptable_available_balance@),
    ) {
        (Some(lo), Some(hi), Some(current)) => match combined_balance(lo, hi) {
            Some(pending) => if current + pending <= u64::MAX {
                Some((current + pending) as u64)
            } else {
                None
            },
            None => None,
        },
        _ => None,
    }
}

impl ApplyPendingBalanceAccountInfo {
    /// What applying the pending balance reads, out of what the extension
    /// stores.
    pub fn new(account: &ConfidentialTransferAccount) -> (r: ApplyPendingBalanceAccountInfo)
        ensures
            r.pending_balance_credit_counter == account.pending_balance_credit_counter,
            r.pending_balance_lo == account.pending_balance_lo,
            r.pending_balance_hi == account.pending_balance_hi,
            r.decryptable_available_balance == account.decryptable_available_balance,
    {
        ApplyPendingBalanceAccountInfo {
            pending_balance_credit_counter: account.pending_balance_credit_counter,
            pending_balance_lo: account.pending_balance_lo,
            pending_balance_hi: account.pending_balance_hi,
            decryptable_available_balance: account.decryptable_available_balance,
        }
    }

    /// How many credits went into the pending balance.
    pub fn pending_balance_credit_counter(&self) -> (r: u64)
        ensures
            r == self.pending_balance_credit_counter,
    {
        self.pending_balance_credit_counter
    }

    /// The decryptable available balance after the pending balance was
    /// added to it. The ciphertext decrypts, under the same key, to the sum
    /// of the two. Where a part cannot be decrypted, or the sum does not
    /// fit in 64 bits, the account cannot be decrypted.
    pub fn new_decryptable_available_balance(
        &self,
        elgamal_secret_key: &ElGamalSecretKey,
        aes_key: &AeKey,
    ) -> (r: Result<AeCiphertext, TokenError>)
        ensures
            match credited(elgamal_secret_key@, aes_key@, *self) {
                Some(total) => r is Ok && ae_decryption(aes_key@, r->Ok_0@) == Some(total),
                None => r is Err && r->Err_0 == TokenError::AccountDecryption,
            },
    {
        let lo = match elgamal_decrypt_u32(elgamal_secret_key, &self.pending_balance_lo) {
            Some(lo) => lo,
            None => {
                return Err(TokenError::AccountDecryption);
            },
        };
        let hi = match elgamal_decrypt_u32(elgamal_secret_key, &self.pending_balance_hi) {
            Some(hi) => hi,
            None => {
                return Err(TokenError::AccountDecryption);
            },
        };
        let current = match ae_decrypt(aes_key, &self.decryptable_available_balance) {
            Some(current) => current,
            None => {
                return Err(TokenError::AccountDecryption);
            },
        };
        if hi > (u64::MAX - lo) / 65536 {
            assert(hi * 65536 + lo > u64::MAX) by (nonlinear_arith)
                requires
                    hi > (u64::MAX - lo) / 65536,
                    lo <= u64::MAX,
            ;
            return Err(TokenError::AccountDecryption);
        }
        assert(hi * 65536 + lo <= u64::MAX) by (nonlinear_arith)
            requires
                hi <= (u64::MAX - lo) / 65536,
                lo <= u64::MAX,
                hi >= 0,
        ;
        let pending = hi * 65536 + lo;
        if current > u64::MAX - pending {
            return Err(TokenError::AccountDecryption);
        }
        Ok(ae_encrypt(aes_key, current + pending))
    }
}

} // verus!
