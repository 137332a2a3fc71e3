//! Generating the proofs of the confidential operations. The proofs are
//! made by the encryption library, which draws fresh randomness for each:
//! no two calls give the same bytes. What is known of a proof here is when
//! it is made, how long it is, and which keys and ciphertexts it names at
//! its start, where the proof program reads what the proof is about.
use crate::confidential::{
    debited, elgamal_decryption_u32, AeKey, ElGamalKeypair, EmptyAccountAccountInfo,
    SourceDecryptHandles, TransferAccountInfo, WithdrawAccountInfo, WithheldTokensInfo,
};
use crate::encode::parts::zeros;
use crate::optional_keys::ElGamalPubkey;
use crate::pubkey::all_zero;
use bytemuck::bytes_of;
use solana_sdk::signer::EncodableKey;
use spl_token_2022::extension::confidential_transfer::account_info::{
    EmptyAccountAccountInfo as LedgerEmptyInfo, TransferAccountInfo as LedgerTransferInfo,
    WithdrawAccountInfo as LedgerWithdrawInfo,
};
use spl_token_2022::extension::confidential_transfer_fee::account_info::WithheldTokensInfo as LedgerWithheldInfo;
use spl_token_2022::solana_zk_token_sdk::encryption::auth_encryption::AeKey as LedgerAeKey;
use spl_token_2022::solana_zk_token_sdk::encryption::elgamal::{
    ElGamalKeypair as LedgerKeypair, ElGamalPubkey as LedgerElGamalPubkey,
};
use spl_token_2022::solana_zk_token_sdk::instruction::PubkeyValidityData;
use spl_token_2022::solana_zk_token_sdk::zk_token_elgamal::pod::{
    AeCiphertext as PodAeCiphertext, ElGamalCiphertext as PodElGamalCiphertext,
};
use vstd::bytes::{spec_u16_to_le_bytes, spec_u64_to_le_bytes};
use vstd::prelude::*;

verus! {

/// Whether `ElGamalKeypair::from_bytes` of the encryption library reads a
/// key pair from the bytes: a public key in the first 32 and a secret key
/// in the other 32.
pub uninterp spec fn reads_elgamal_keypair(bytes: Seq<u8>) -> bool;

/// Whether `ElGamalPubkey::from_bytes` of the encryption library reads a
/// public key from the bytes.
pub uninterp spec fn reads_elgamal_pubkey(bytes: Seq<u8>) -> bool;

/// Whether `ElGamalCiphertext::from_bytes` of the encryption library reads
/// a ciphertext from the bytes.
pub uninterp spec fn reads_elgamal_ciphertext(bytes: Seq<u8>) -> bool;

/// The largest amount that a transfer with split proofs can move: 48 bits.
pub const MAXIMUM_SPLIT_TRANSFER_AMOUNT: u64 = 0xffff_ffff_ffff;

/// The public key of a key pair: its first 32 bytes.
pub open spec fn public_key(keypair: Seq<u8>) -> Seq<u8> {
    keypair.subrange(0, 32)
}

/// The secret key of a key pair: its last 32 bytes.
pub open spec fn secret_key(keypair: Seq<u8>) -> Seq<u8> {
    keypair.subrange(32, 64)
}

/// The key that a proof names as the auditor's: the auditor's, or 32 zero
/// bytes where there is no auditor.
pub open spec fn auditor_key(auditor: Option<&ElGamalPubkey>) -> Seq<u8> {
    match auditor {
        Some(key) => key@,
        None => zeros(32),
    }
}

/// True when `data` holds `bytes` from position `at` on.
pub open spec fn holds_at(data: Seq<u8>, at: int, bytes: Seq<u8>) -> bool {
    0 <= at && at + bytes.len() <= data.len() && data.subrange(at, at + bytes.len()) == bytes
}

/// The size in bytes of a proof that a public key is well-formed.
pub const PUBKEY_VALIDITY_PROOF_LEN: usize = 96;

/// The size in bytes of a proof that a balance is zero.
pub const ZERO_BALANCE_PROOF_LEN: usize = 192;

/// The size in bytes of the proof of a withdrawal.
pub const WITHDRAW_PROOF_LEN: usize = 992;

/// The size in bytes of the proof of a transfer, in one piece.
pub const TRANSFER_PROOF_LEN: usize = 1536;

/// The size in bytes of the proof of a transfer with a fee, in one piece.
pub const TRANSFER_WITH_FEE_PROOF_LEN: usize = 2282;

/// The size in bytes of a proof that a ciphertext and a commitment hold the
/// same amount.
pub const EQUALITY_PROOF_LEN: usize = 320;

/// The size in bytes of a proof that the ciphertexts of an amount are
/// well-formed.
pub const CIPHERTEXT_VALIDITY_PROOF_LEN: usize = 416;

/// The size in bytes of a proof that the amounts of a transfer are in range.
pub const RANGE_PROOF_LEN: usize = 1000;

/// The size in bytes of a proof that two ciphertexts hold the same amount.
pub const CIPHERTEXT_EQUALITY_PROOF_LEN: usize = 416;

/// True when `r` is nothing or a proof of `len` bytes.
pub open spec fn proof_of_len(r: Option<Vec<u8>>, len: usize) -> bool {
    r matches Some(proof) ==> proof@.len() == len
}

/// True when `r` is nothing or holds three proofs of the sizes of their
/// kinds.
pub open spec fn split_proofs_of_len(r: Option<SplitTransferProofData>) -> bool {
    r matches Some(proofs) ==> {
        &&& proofs.equality_proof_data@.len() == EQUALITY_PROOF_LEN
        &&& proofs.ciphertext_validity_proof_data@.len() == CIPHERTEXT_VALIDITY_PROOF_LEN
        &&& proofs.range_proof_data@.len() == RANGE_PROOF_LEN
    }
}

/// The proofs of a confidential transfer, one for each context account,
/// and the handles that the transfer instruction carries.
#[derive(Debug)]
pub struct SplitTransferProofData {
    pub equality_proof_data: Vec<u8>,
    pub ciphertext_validity_proof_data: Vec<u8>,
    pub range_proof_data: Vec<u8>,
    pub source_decrypt_handles: SourceDecryptHandles,
}

/// The proofs of a confidential transfer with a fee, one for each context
/// account, and the handles that the transfer instruction carries.
#[derive(Debug)]
pub struct SplitTransferWithFeeProofData {
    pub equality_proof_data: Vec<u8>,
    pub transfer_amount_ciphertext_validity_proof_data: Vec<u8>,
    pub fee_sigma_proof_data: Vec<u8>,
    pub fee_ciphertext_validity_proof_data: Vec<u8>,
    pub range_proof_data: Vec<u8>,
    pub source_decrypt_handles: SourceDecryptHandles,
}

/// Calls `PubkeyValidityData::new` of the encryption library, which stops
/// on a secret key that is zero, and hands back the bytes of the proof. A
/// proof is made exactly when `ElGamalKeypair::from_bytes` reads the key
/// pair. It has a fixed size and starts with the public key.
#[verifier::external_body]
fn make_pubkey_validity_proof(elgamal_keypair: &ElGamalKeypair) -> (r: Option<Vec<u8>>)
    requires
        !all_zero(secret_key(elgamal_keypair@)),
    ensures
        proof_of_len(r, PUBKEY_VALIDITY_PROOF_LEN),
        r is Some <==> (reads_elgamal_keypair(elgamal_keypair@)),
        r matches Some(p) ==> holds_at(p@, 0, public_key(elgamal_keypair@)),
{
    let keypair = LedgerKeypair::from_bytes(&elgamal_keypair.0)?;
    PubkeyValidityData::new(&keypair).ok().map(|d| bytes_of(&d).to_vec())
}

/// Calls `EmptyAccountAccountInfo::generate_proof_data` of
/// `spl_token_2022` and hands back the bytes of the proof. A proof is made
/// exactly when the key pair and the available balance can be read. It has
/// a fixed size and starts with the public key and the available balance.
#[verifier::external_body]
fn make_zero_balance_proof(info: &EmptyAccountAccountInfo, elgamal_keypair: &ElGamalKeypair) -> (r:
    Option<Vec<u8>>)
    ensures
        proof_of_len(r, ZERO_BALANCE_PROOF_LEN),
        r is Some <==> (reads_elgamal_keypair(elgamal_keypair@) && reads_elgamal_ciphertext(info.available_balance@)),
        r matches Some(p) ==> holds_at(p@, 0, public_key(elgamal_keypair@)) && holds_at(
            p@,
            32,
            info.available_balance@,
        ),
{
    let keypair = LedgerKeypair::from_bytes(&elgamal_keypair.0)?;
    let info: LedgerEmptyInfo = bytemuck::cast(info.available_balance.0);
    info.generate_proof_data(&keypair).ok().map(|d| bytes_of(&d).to_vec())
}

/// Calls `WithdrawAccountInfo::generate_proof_data` of `spl_token_2022`
/// and hands back the bytes of the proof. A proof is made exactly when the
/// key pair and the available balance can be read and the decryptable
/// balance decrypts to at least the amount. It has a fixed size and starts
/// with the public key.
#[verifier::external_body]
fn make_withdraw_proof(
    info: &WithdrawAccountInfo,
    withdraw_amount: u64,
    elgamal_keypair: &ElGamalKeypair,
    aes_key: &AeKey,
) -> (r: Option<Vec<u8>>)
    ensures
        proof_of_len(r, WITHDRAW_PROOF_LEN),
        r is Some <==> (reads_elgamal_keypair(elgamal_keypair@) && reads_elgamal_ciphertext(info.available_balance@)
            && debited(aes_key@, info.decryptable_available_balance@, withdraw_amount) is Some),
        r matches Some(p) ==> holds_at(p@, 0, public_key(elgamal_keypair@)),
{
    let keypair = LedgerKeypair::from_bytes(&elgamal_keypair.0)?;
    let aes_key = LedgerAeKey::read(&mut format!("{:?}", aes_key.0).as_bytes()).ok()?;
    let info = LedgerWithdrawInfo {
        available_balance: PodElGamalCiphertext(info.available_balance.0),
        decryptable_available_balance: PodAeCiphertext(info.decryptable_available_balance.0),
    };
    info.generate_proof_data(withdraw_amount, &keypair, &aes_key).ok().map(|d| bytes_of(&d).to_vec())
}

/// Calls `TransferAccountInfo::generate_transfer_proof_data` of
/// `spl_token_2022` and hands back the bytes of the proof. A proof is made
/// exactly when the keys and the available balance can be read and the
/// decryptable balance decrypts to at least the amount. It has a fixed
/// size; behind the two ciphertexts of the amount, of 128 bytes each, it
/// names the source's, the destination's and the auditor's key, all zero
/// where there is no auditor.
#[verifier::external_body]
fn make_transfer_proof(
    info: &TransferAccountInfo,
    transfer_amount: u64,
    elgamal_keypair: &ElGamalKeypair,
    aes_key: &AeKey,
    destination_elgamal_pubkey: &ElGamalPubkey,
    auditor_elgamal_pubkey: Option<&ElGamalPubkey>,
) -> (r: Option<Vec<u8>>)
    ensures
        proof_of_len(r, TRANSFER_PROOF_LEN),
        r is Some <==> (reads_elgamal_keypair(elgamal_keypair@) && reads_elgamal_pubkey(destination_elgamal_pubkey@)
            && (auditor_elgamal_pubkey matches Some(a) ==> reads_elgamal_pubkey(a@))
            && reads_elgamal_ciphertext(info.available_balance@)
            && debited(aes_key@, info.decryptable_available_balance@, transfer_amount) is Some),
        r matches Some(p) ==> holds_at(p@, 256, public_key(elgamal_keypair@)) && holds_at(
            p@,
            288,
            destination_elgamal_pubkey@,
        ) && holds_at(p@, 320, auditor_key(auditor_elgamal_pubkey)),
{
    let aes_key = LedgerAeKey::read(&mut format!("{:?}", aes_key.0).as_bytes()).ok()?;
    let auditor = match auditor_elgamal_pubkey { Some(a) => Some(LedgerElGamalPubkey::from_bytes(&a.0)?), None => None };
    let info = LedgerTransferInfo {
        available_balance: PodElGamalCiphertext(info.available_balance.0),
        decryptable_available_balance: PodAeCiphertext(info.decryptable_available_balance.0),
    };
    info.generate_transfer_proof_data(transfer_amount, &LedgerKeypair::from_bytes(&elgamal_keypair.0)?, &aes_key, &LedgerElGamalPubkey::from_bytes(&destination_elgamal_pubkey.0)?, auditor.as_ref())
        .ok().map(|d| bytes_of(&d).to_vec())
}

/// Calls `TransferAccountInfo::generate_transfer_with_fee_proof_data` of
/// `spl_token_2022` and hands back the bytes of the proof. `pubkeys` holds
/// the destination's key, the key of the authority over withheld fees and,
/// where there is one, the auditor's key. A proof is made exactly when the
/// keys and the available balance can be read and the decryptable balance
/// decrypts to at least the amount. It has a fixed size; behind the two
/// ciphertexts of the amount it names the source's, the destination's and
/// the auditor's key and that of the authority over withheld fees, and
/// behind the new balance and the two ciphertexts of the fee it holds the
/// fee's rate and its maximum.
#[verifier::external_body]
fn make_transfer_with_fee_proof(
    info: &TransferAccountInfo,
    transfer_amount: u64,
    elgamal_keypair: &ElGamalKeypair,
    aes_key: &AeKey,
    pubkeys: &Vec<ElGamalPubkey>,
    fee_rate_basis_points: u16,
    maximum_fee: u64,
) -> (r: Option<Vec<u8>>)
    requires
        2 <= pubkeys@.len() <= 3,
    ensures
        proof_of_len(r, TRANSFER_WITH_FEE_PROOF_LEN),
        r is Some <==> (reads_elgamal_keypair(elgamal_keypair@) && reads_elgamal_pubkey(pubkeys@[0]@)
            && reads_elgamal_pubkey(pubkeys@[1]@)
            && (pubkeys@.len() == 3 ==> reads_elgamal_pubkey(pubkeys@[2]@))
            && reads_elgamal_ciphertext(info.available_balance@)
            && debited(aes_key@, info.decryptable_available_balance@, transfer_amount) is Some),
        r matches Some(p) ==> holds_at(p@, 256, public_key(elgamal_keypair@))
            && holds_at(p@, 288, pubkeys@[0]@)
            && holds_at(p@, 320, if pubkeys@.len() == 3 { pubkeys@[2]@ } else { zeros(32) })
            && holds_at(p@, 352, pubkeys@[1]@)
            && holds_at(p@, 640, spec_u16_to_le_bytes(fee_rate_basis_points))
            && holds_at(p@, 642, spec_u64_to_le_bytes(maximum_fee)),
{
    let aes_key = LedgerAeKey::read(&mut format!("{:?}", aes_key.0).as_bytes()).ok()?;
    let keys = pubkeys.iter().map(|k| LedgerElGamalPubkey::from_bytes(&k.0)).collect::<Option<Vec<_>>>()?;
    let info = LedgerTransferInfo {
        available_balance: PodElGamalCiphertext(info.available_balance.0),
        decryptable_available_balance: PodAeCiphertext(info.decryptable_available_balance.0),
    };
    info.generate_transfer_with_fee_proof_data(transfer_amount, &LedgerKeypair::from_bytes(&elgamal_keypair.0)?, &aes_key, &keys[0], keys.get(2), &keys[1], fee_rate_basis_points, maximum_fee)
        .ok().map(|d| bytes_of(&d).to_vec())
}

/// Calls `TransferAccountInfo::generate_split_transfer_proof_data` of
/// `spl_token_2022` and hands back the bytes of the three proofs and of the
/// handles. Proofs are made only when the keys and the available balance
/// can be read, the amount has at most 48 bits and the decryptable balance
/// decrypts to at least the amount. Even then the library gives up where a
/// commitment that it draws at random is the identity, so that nothing
/// says that proofs are made. Each proof has a fixed size; the equality
/// proof starts with the source's public key, the validity proof with the
/// destination's and the auditor's key.
#[verifier::external_body]
fn make_split_transfer_proofs(
    info: &TransferAccountInfo,
    transfer_amount: u64,
    elgamal_keypair: &ElGamalKeypair,
    aes_key: &AeKey,
    destination_elgamal_pubkey: &ElGamalPubkey,
    auditor_elgamal_pubkey: Option<&ElGamalPubkey>,
) -> (r: Option<SplitTransferProofData>)
    ensures
        split_proofs_of_len(r),
        r is Some ==> reads_elgamal_keypair(elgamal_keypair@) && reads_elgamal_pubkey(destination_elgamal_pubkey@)
            && (auditor_elgamal_pubkey matches Some(a) ==> reads_elgamal_pubkey(a@))
            && reads_elgamal_ciphertext(info.available_balance@)
            && transfer_amount <= MAXIMUM_SPLIT_TRANSFER_AMOUNT
            && debited(aes_key@, info.decryptable_available_balance@, transfer_amount) is Some,
        r matches Some(p) ==> holds_at(p.equality_proof_data@, 0, public_key(elgamal_keypair@))
            && holds_at(p.ciphertext_validity_proof_data@, 0, destination_elgamal_pubkey@)
            && holds_at(
            p.ciphertext_validity_proof_data@,
            32,
            auditor_key(auditor_elgamal_pubkey),
        ),
{
    let aes_key = LedgerAeKey::read(&mut format!("{:?}", aes_key.0).as_bytes()).ok()?;
    let auditor = match auditor_elgamal_pubkey { Some(a) => Some(LedgerElGamalPubkey::from_bytes(&a.0)?), None => None };
    let info = LedgerTransferInfo {
        available_balance: PodElGamalCiphertext(info.available_balance.0),
        decryptable_available_balance: PodAeCiphertext(info.decryptable_available_balance.0),
    };
    let (e, v, r, h) = info.generate_split_transfer_proof_data(transfer_amount, &LedgerKeypair::from_bytes(&elgamal_keypair.0)?, &aes_key, &LedgerElGamalPubkey::from_bytes(&destination_elgamal_pubkey.0)?, auditor.as_ref()).ok()?;
    Some(SplitTransferProofData {
        equality_proof_data: bytes_of(&e).to_vec(), ciphertext_validity_proof_data: bytes_of(&v).to_vec(),
        range_proof_data: bytes_of(&r).to_vec(), source_decrypt_handles: SourceDecryptHandles(bytemuck::cast(h)),
    })
}

/// Calls `WithheldTokensInfo::generate_proof_data` of `spl_token_2022` and
/// hands back the bytes of the proof. A proof is made exactly when the
/// keys can be read and the withheld amount decrypts under the secret key.
/// It has a fixed size and starts with the authority's public key, the
/// destination's key and the withheld amount.
#[verifier::external_body]
fn make_withheld_tokens_proof(
    info: &WithheldTokensInfo,
    withdraw_withheld_authority_elgamal_keypair: &ElGamalKeypair,
    destination_elgamal_pubkey: &ElGamalPubkey,
) -> (r: Option<Vec<u8>>)
    ensures
        proof_of_len(r, CIPHERTEXT_EQUALITY_PROOF_LEN),
        r is Some <==> (reads_elgamal_keypair(withdraw_withheld_authority_elgamal_keypair@)
            && reads_elgamal_pubkey(destination_elgamal_pubkey@)
            && elgamal_decryption_u32(
            secret_key(withdraw_withheld_authority_elgamal_keypair@),
            info.withheld_amount@,
        ) is Some),
        r matches Some(p) ==> holds_at(
            p@,
            0,
            public_key(withdraw_withheld_authority_elgamal_keypair@),
        ) && holds_at(p@, 32, destination_elgamal_pubkey@) && holds_at(
            p@,
            64,
            info.withheld_amount@,
        ),
{
    let keypair = LedgerKeypair::from_bytes(&withdraw_withheld_authority_elgamal_keypair.0)?;
    let destination = LedgerElGamalPubkey::from_bytes(&destination_elgamal_pubkey.0)?;
    let info = LedgerWithheldInfo::new(&PodElGamalCiphertext(info.withheld_amount.0));
    info.generate_proof_data(&keypair, &destination).ok().map(|d| bytes_of(&d).to_vec())
}

/// Tells whether the secret key of the pair is zero.
fn secret_is_zero(elgamal_keypair: &ElGamalKeypair) -> (r: bool)
    ensures
        r == all_zero(secret_key(elgamal_keypair@)),
{
    let mut i: usize = 32;
    while i < 64
        invariant
            32 <= i <= 64,
            forall|j: int| 32 <= j < i ==> elgamal_keypair.0[j] == 0,
        decreases 64 - i,
    {
        if elgamal_keypair.0[i] != 0 {
            assert(secret_key(elgamal_keypair@)[i - 32] != 0);
            return false;
        }
        i += 1;
    }
    true
}

/// True when a proof of a key pair can be made: the bytes are a key pair,
/// and its secret key is not zero.
pub open spec fn can_prove_key_pair(keypair: Seq<u8>) -> bool {
    reads_elgamal_keypair(keypair) && !all_zero(secret_key(keypair))
}

/// True of a proof of a key pair: it has the size of its kind and starts
/// with the public key.
pub open spec fn is_key_pair_proof(proof: Seq<u8>, keypair: Seq<u8>) -> bool {
    proof.len() == PUBKEY_VALIDITY_PROOF_LEN && holds_at(proof, 0, public_key(keypair))
}

/// A proof that the public key of the pair is well-formed.
///
/// The proof is made exactly when the bytes are a key pair whose secret key
/// is not zero. It starts with the public key.
pub fn pubkey_validity_proof_data(elgamal_keypair: &ElGamalKeypair) -> (r: Option<Vec<u8>>)
    ensures
        r is Some <==> can_prove_key_pair(elgamal_keypair@),
        r matches Some(p) ==> is_key_pair_proof(p@, elgamal_keypair@),
{
    if secret_is_zero(elgamal_keypair) {
        return None;
    }
    make_pubkey_validity_proof(elgamal_keypair)
}

impl EmptyAccountAccountInfo {
    /// True when a proof that the balance is zero can be made: the key
    /// pair and the available balance can be read.
    pub open spec fn can_prove(self, elgamal_keypair: Seq<u8>) -> bool {
        reads_elgamal_keypair(elgamal_keypair) && reads_elgamal_ciphertext(self.available_balance@)
    }

    /// True of a proof that the balance is zero: it has the size of its
    /// kind and starts with the public key and the available balance.
    pub open spec fn is_proof(self, proof: Seq<u8>, elgamal_keypair: Seq<u8>) -> bool {
        &&& proof.len() == ZERO_BALANCE_PROOF_LEN
        &&& holds_at(proof, 0, public_key(elgamal_keypair))
        &&& holds_at(proof, 32, self.available_balance@)
    }

    /// A proof that the available balance is zero.
    ///
    /// The proof is made exactly when the key pair and the available
    /// balance can be read. It starts with the public key and the
    /// available balance.
    pub fn generate_proof_data(&self, elgamal_keypair: &ElGamalKeypair) -> (r: Option<Vec<u8>>)
        ensures
            r is Some <==> self.can_prove(elgamal_keypair@),
            r matches Some(p) ==> self.is_proof(p@, elgamal_keypair@),
    {
        make_zero_balance_proof(self, elgamal_keypair)
    }
}

impl WithdrawAccountInfo {
    /// True when the proof of a withdrawal can be made: the key pair and
    /// the available balance can be read, and the decryptable balance
    /// decrypts, under `aes_key`, to at least the amount.
    pub open spec fn can_prove(
        self,
        withdraw_amount: u64,
        elgamal_keypair: Seq<u8>,
        aes_key: Seq<u8>,
    ) -> bool {
        &&& reads_elgamal_keypair(elgamal_keypair)
        &&& reads_elgamal_ciphertext(self.available_balance@)
        &&& debited(aes_key, self.decryptable_available_balance@, withdraw_amount) is Some
    }

    /// A proof that the available balance covers the withdrawal.
    ///
    /// The proof is made exactly when `can_prove` holds. It starts with
    /// the public key.
    pub fn generate_proof_data(
        &self,
        withdraw_amount: u64,
        elgamal_keypair: &ElGamalKeypair,
        aes_key: &AeKey,
    ) -> (r: Option<Vec<u8>>)
        ensures
            r is Some <==> self.can_prove(withdraw_amount, elgamal_keypair@, aes_key@),
            r matches Some(p) ==> is_withdraw_proof(p@, elgamal_keypair@),
    {
        make_withdraw_proof(self, withdraw_amount, elgamal_keypair, aes_key)
    }
}

/// True of the proof of a withdrawal: it has the size of its kind and
/// starts with the public key.
pub open spec fn is_withdraw_proof(proof: Seq<u8>, keypair: Seq<u8>) -> bool {
    proof.len() == WITHDRAW_PROOF_LEN && holds_at(proof, 0, public_key(keypair))
}

/// True of the proof of a transfer in one piece: it has the size of its
/// kind, and behind the two ciphertexts of the amount it names the
/// source's, the destination's and the auditor's key.
pub open spec fn is_transfer_proof(
    proof: Seq<u8>,
    keypair: Seq<u8>,
    destination: Seq<u8>,
    auditor: Option<&ElGamalPubkey>,
) -> bool {
    &&& proof.len() == TRANSFER_PROOF_LEN
    &&& holds_at(proof, 256, public_key(keypair))
    &&& holds_at(proof, 288, destination)
    &&& holds_at(proof, 320, auditor_key(auditor))
}

/// True of the proof of a transfer with a fee in one piece: it has the
/// size of its kind; behind the two ciphertexts of the amount it names the
/// source's, the destination's and the auditor's key and that of the
/// authority over withheld fees; further on it holds the fee's rate and
/// its maximum.
pub open spec fn is_transfer_with_fee_proof(
    proof: Seq<u8>,
    keypair: Seq<u8>,
    destination: Seq<u8>,
    auditor: Option<&ElGamalPubkey>,
    withdraw_withheld_authority: Seq<u8>,
    fee_rate_basis_points: u16,
    maximum_fee: u64,
) -> bool {
    &&& proof.len() == TRANSFER_WITH_FEE_PROOF_LEN
    &&& holds_at(proof, 256, public_key(keypair))
    &&& holds_at(proof, 288, destination)
    &&& holds_at(proof, 320, auditor_key(auditor))
    &&& holds_at(proof, 352, withdraw_withheld_authority)
    &&& holds_at(proof, 640, spec_u16_to_le_bytes(fee_rate_basis_points))
    &&& holds_at(proof, 642, spec_u64_to_le_bytes(maximum_fee))
}

/// True of the split proofs of a transfer: each has the size of its kind,
/// the equality proof starts with the source's public key, the validity
/// proof with the destination's and the auditor's key.
pub open spec fn are_split_transfer_proofs(
    proofs: SplitTransferProofData,
    keypair: Seq<u8>,
    destination: Seq<u8>,
    auditor: Option<&ElGamalPubkey>,
) -> bool {
    &&& split_proofs_of_len(Some(proofs))
    &&& holds_at(proofs.equality_proof_data@, 0, public_key(keypair))
    &&& holds_at(proofs.ciphertext_validity_proof_data@, 0, destination)
    &&& holds_at(proofs.ciphertext_validity_proof_data@, 32, auditor_key(auditor))
}

impl TransferAccountInfo {
    /// True when the proofs of a transfer of `transfer_amount` can be
    /// made: the keys and the available balance can be read, and the
    /// decryptable balance decrypts, under `aes_key`, to at least the
    /// amount.
    pub open spec fn can_prove_transfer(
        self,
        transfer_amount: u64,
        elgamal_keypair: Seq<u8>,
        aes_key: Seq<u8>,
        destination_elgamal_pubkey: Seq<u8>,
        auditor_elgamal_pubkey: Option<&ElGamalPubkey>,
    ) -> bool {
        &&& reads_elgamal_keypair(elgamal_keypair)
        &&& reads_elgamal_pubkey(destination_elgamal_pubkey)
        &&& auditor_elgamal_pubkey matches Some(a) ==> reads_elgamal_pubkey(a@)
        &&& reads_elgamal_ciphertext(self.available_balance@)
        &&& debited(aes_key, self.decryptable_available_balance@, transfer_amount) is Some
    }

    /// The proof of a confidential transfer, in one piece.
    ///
    /// The proof is made exactly when `can_prove_transfer` holds. Behind
    /// the two ciphertexts of the amount it names the source's, the
    /// destination's and the auditor's key.
    pub fn generate_transfer_proof_data(
        &self,
        transfer_amount: u64,
        elgamal_keypair: &ElGamalKeypair,
        aes_key: &AeKey,
        destination_elgamal_pubkey: &ElGamalPubkey,
        auditor_elgamal_pubkey: Option<&ElGamalPubkey>,
    ) -> (r: Option<Vec<u8>>)
        ensures
            r is Some <==> self.can_prove_transfer(
                transfer_amount,
                elgamal_keypair@,
                aes_key@,
                destination_elgamal_pubkey@,
                auditor_elgamal_pubkey,
            ),
            r matches Some(p) ==> is_transfer_proof(
                p@,
                elgamal_keypair@,
                destination_elgamal_pubkey@,
                auditor_elgamal_pubkey,
            ),
    {
        make_transfer_proof(
            self,
            transfer_amount,
            elgamal_keypair,
            aes_key,
            destination_elgamal_pubkey,
            auditor_elgamal_pubkey,
        )
    }

    /// The proof of a confidential transfer with a fee, in one piece.
    ///
    /// The proof is made exactly when `can_prove_transfer` holds and the
    /// key of the authority over withheld fees can be read. Behind the two
    /// ciphertexts of the amount it names the source's, the destination's
    /// and the auditor's key and that of the authority over withheld fees;
    /// further on it holds the fee's rate and its maximum.
    pub fn generate_transfer_with_fee_proof_data(
        &self,
        transfer_amount: u64,
        elgamal_keypair: &ElGamalKeypair,
        aes_key: &AeKey,
        destination_elgamal_pubkey: &ElGamalPubkey,
        auditor_elgamal_pubkey: Option<&ElGamalPubkey>,
        withdraw_withheld_authority_elgamal_pubkey: &ElGamalPubkey,
        fee_rate_basis_points: u16,
        maximum_fee: u64,
    ) -> (r: Option<Vec<u8>>)
        ensures
            r is Some <==> (self.can_prove_transfer(
                transfer_amount,
                elgamal_keypair@,
                aes_key@,
                destination_elgamal_pubkey@,
                auditor_elgamal_pubkey,
            ) && reads_elgamal_pubkey(withdraw_withheld_authority_elgamal_pubkey@)),
            r matches Some(p) ==> is_transfer_with_fee_proof(
                p@,
                elgamal_keypair@,
                destination_elgamal_pubkey@,
                auditor_elgamal_pubkey,
                withdraw_withheld_authority_elgamal_pubkey@,
                fee_rate_basis_points,
                maximum_fee,
            ),
    {
        let mut pubkeys: Vec<ElGamalPubkey> = Vec::new();
        pubkeys.push(*destination_elgamal_pubkey);
        pubkeys.push(*withdraw_withheld_authority_elgamal_pubkey);
        if let Some(auditor) = auditor_elgamal_pubkey {
            pubkeys.push(*auditor);
        }
        make_transfer_with_fee_proof(
            self,
            transfer_amount,
            elgamal_keypair,
            aes_key,
            &pubkeys,
            fee_rate_basis_points,
            maximum_fee,
        )
    }

    /// The proofs of a confidential transfer, one for each context
    /// account.
    ///
    /// Proofs are made only when `can_prove_transfer` holds and the amount
    /// has at most 48 bits. The library that makes them gives up where a
    /// commitment that it draws at random is the identity, so that proofs
    /// are not owed even then. The equality proof starts with the source's
    /// public key, the validity proof with the destination's and the
    /// auditor's key.
    pub fn generate_split_transfer_proof_data(
        &self,
        transfer_amount: u64,
        source_elgamal_keypair: &ElGamalKeypair,
        aes_key: &AeKey,
        destination_elgamal_pubkey: &ElGamalPubkey,
        auditor_elgamal_pubkey: Option<&ElGamalPubkey>,
    ) -> (r: Option<SplitTransferProofData>)
        ensures
            r is Some ==> transfer_amount <= MAXIMUM_SPLIT_TRANSFER_AMOUNT
                && self.can_prove_transfer(
                transfer_amount,
                source_elgamal_keypair@,
                aes_key@,
                destination_elgamal_pubkey@,
                auditor_elgamal_pubkey,
            ),
            r matches Some(p) ==> are_split_transfer_proofs(
                p,
                source_elgamal_keypair@,
                destination_elgamal_pubkey@,
                auditor_elgamal_pubkey,
            ),
    {
        make_split_transfer_proofs(
            self,
            transfer_amount,
            source_elgamal_keypair,
            aes_key,
            destination_elgamal_pubkey,
            auditor_elgamal_pubkey,
        )
    }
}

impl WithheldTokensInfo {
    /// True when the proof for a withdrawal of withheld fees can be made:
    /// the keys can be read and the withheld amount decrypts under the
    /// authority's secret key.
    pub open spec fn can_prove(self, keypair: Seq<u8>, destination: Seq<u8>) -> bool {
        &&& reads_elgamal_keypair(keypair)
        &&& reads_elgamal_pubkey(destination)
        &&& elgamal_decryption_u32(secret_key(keypair), self.withheld_amount@) is Some
    }

    /// True of the proof for a withdrawal of withheld fees: it has the
    /// size of its kind and starts with the authority's public key, the
    /// destination's key and the withheld amount.
    pub open spec fn is_proof(self, proof: Seq<u8>, keypair: Seq<u8>, destination: Seq<u8>) -> bool {
        &&& proof.len() == CIPHERTEXT_EQUALITY_PROOF_LEN
        &&& holds_at(proof, 0, public_key(keypair))
        &&& holds_at(proof, 32, destination)
        &&& holds_at(proof, 64, self.withheld_amount@)
    }

    /// A proof that the withheld fees are encrypted anew, for the
    /// destination, without change of amount.
    ///
    /// The proof is made exactly when `can_prove` holds. It starts with
    /// the authority's public key, the destination's key and the withheld
    /// amount.
    pub fn generate_proof_data(
        &self,
        withdraw_withheld_authority_elgamal_keypair: &ElGamalKeypair,
        destination_elgamal_pubkey: &ElGamalPubkey,
    ) -> (r: Option<Vec<u8>>)
        ensures
            r is Some <==> self.can_prove(
                withdraw_withheld_authority_elgamal_keypair@,
                destination_elgamal_pubkey@,
            ),
            r matches Some(p) ==> self.is_proof(
                p@,
                withdraw_withheld_authority_elgamal_keypair@,
                destination_elgamal_pubkey@,
            ),
    {
        make_withheld_tokens_proof(
            self,
            withdraw_withheld_authority_elgamal_keypair,
            destination_elgamal_pubkey,
        )
    }
}

} // verus!
