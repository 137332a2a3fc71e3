use solana_sdk::signer::EncodableKey;
use spl_token_2022::solana_zk_token_sdk::encryption::auth_encryption::AeKey as LedgerAeKey;
use spl_token_2022::solana_zk_token_sdk::encryption::elgamal::ElGamalKeypair as LedgerKeypair;
use token_client::confidential::{
    AeCiphertext, AeKey, ElGamalCiphertext, ElGamalKeypair, EmptyAccountAccountInfo,
    TransferAccountInfo, WithdrawAccountInfo, WithheldTokensInfo,
};
use token_client::optional_keys::ElGamalPubkey;
use token_client::proof_generation::{
    pubkey_validity_proof_data, CIPHERTEXT_EQUALITY_PROOF_LEN, CIPHERTEXT_VALIDITY_PROOF_LEN,
    EQUALITY_PROOF_LEN, MAXIMUM_SPLIT_TRANSFER_AMOUNT, PUBKEY_VALIDITY_PROOF_LEN, RANGE_PROOF_LEN,
    TRANSFER_PROOF_LEN, TRANSFER_WITH_FEE_PROOF_LEN, WITHDRAW_PROOF_LEN, ZERO_BALANCE_PROOF_LEN,
};

const UNREADABLE_KEY: ElGamalPubkey = ElGamalPubkey([255; 32]);
const UNREADABLE_PAIR: ElGamalKeypair = ElGamalKeypair([255; 64]);
const UNREADABLE_CIPHERTEXT: ElGamalCiphertext = ElGamalCiphertext([255; 64]);

fn aes_key(byte: u8) -> (AeKey, LedgerAeKey) {
    let bytes = [byte; 16];
    let text = format!("{:?}", bytes);
    (AeKey(bytes), LedgerAeKey::read(&mut text.as_bytes()).unwrap())
}

fn keypair() -> (ElGamalKeypair, LedgerKeypair) {
    let ledger = LedgerKeypair::new_rand();
    (ElGamalKeypair(ledger.to_bytes()), ledger)
}

fn pubkey() -> ElGamalPubkey {
    ElGamalPubkey(LedgerKeypair::new_rand().pubkey().to_bytes())
}

fn info_with(balance: u64, key: &LedgerAeKey, keypair: &LedgerKeypair) -> TransferAccountInfo {
    TransferAccountInfo {
        available_balance: ElGamalCiphertext(keypair.pubkey().encrypt(balance).to_bytes()),
        decryptable_available_balance: AeCiphertext(key.encrypt(balance).to_bytes()),
    }
}

fn withdraw_info(info: &TransferAccountInfo) -> WithdrawAccountInfo {
    WithdrawAccountInfo {
        available_balance: info.available_balance,
        decryptable_available_balance: info.decryptable_available_balance,
    }
}

#[test]
fn a_key_pair_proof_starts_with_the_public_key() {
    let (pair, _) = keypair();
    let proof = pubkey_validity_proof_data(&pair).unwrap();
    assert_eq!(proof.len(), PUBKEY_VALIDITY_PROOF_LEN);
    assert_eq!(proof[..32], pair.0[..32]);
    assert_ne!(proof, pubkey_validity_proof_data(&pair).unwrap());
}

#[test]
fn no_key_pair_proof_is_made_without_a_key_pair() {
    assert!(pubkey_validity_proof_data(&UNREADABLE_PAIR).is_none());
    let (pair, _) = keypair();
    let mut unreadable_secret = pair.0;
    unreadable_secret[32..].copy_from_slice(&[255; 32]);
    assert!(pubkey_validity_proof_data(&ElGamalKeypair(unreadable_secret)).is_none());
    let mut unreadable_public = pair.0;
    unreadable_public[..32].copy_from_slice(&[255; 32]);
    assert!(pubkey_validity_proof_data(&ElGamalKeypair(unreadable_public)).is_none());
}

#[test]
fn no_key_pair_proof_is_made_for_a_zero_secret() {
    let (pair, _) = keypair();
    let mut bytes = pair.0;
    bytes[32..].copy_from_slice(&[0; 32]);
    assert!(LedgerKeypair::from_bytes(&bytes).is_some());
    assert!(pubkey_validity_proof_data(&ElGamalKeypair(bytes)).is_none());
    bytes[63] = 1;
    assert!(pubkey_validity_proof_data(&ElGamalKeypair(bytes)).is_some());
}

#[test]
fn a_zero_balance_proof_starts_with_the_key_and_the_balance() {
    let (pair, ledger_pair) = keypair();
    for balance in [0u64, 5] {
        let info = EmptyAccountAccountInfo {
            available_balance: ElGamalCiphertext(ledger_pair.pubkey().encrypt(balance).to_bytes()),
        };
        let proof = info.generate_proof_data(&pair).unwrap();
        assert_eq!(proof.len(), ZERO_BALANCE_PROOF_LEN);
        assert_eq!(proof[..32], pair.0[..32]);
        assert_eq!(proof[32..96], info.available_balance.0);
        assert!(info.generate_proof_data(&UNREADABLE_PAIR).is_none());
    }
    let unreadable = EmptyAccountAccountInfo { available_balance: UNREADABLE_CIPHERTEXT };
    assert!(unreadable.generate_proof_data(&pair).is_none());
    let zero = EmptyAccountAccountInfo { available_balance: ElGamalCiphertext([0; 64]) };
    assert_eq!(zero.generate_proof_data(&pair).unwrap()[32..96], [0; 64]);
}

#[test]
fn a_withdraw_proof_is_made_when_the_balance_covers_the_amount() {
    let (key, ledger_key) = aes_key(7);
    let (other_key, _) = aes_key(8);
    let (pair, ledger_pair) = keypair();
    let info = withdraw_info(&info_with(100, &ledger_key, &ledger_pair));
    for amount in [0u64, 1, 100] {
        let proof = info.generate_proof_data(amount, &pair, &key).unwrap();
        assert_eq!(proof.len(), WITHDRAW_PROOF_LEN);
        assert_eq!(proof[..32], pair.0[..32]);
    }
    assert!(info.generate_proof_data(101, &pair, &key).is_none());
    assert!(info.generate_proof_data(u64::MAX, &pair, &key).is_none());
    assert!(info.generate_proof_data(1, &pair, &other_key).is_none());
    assert!(info.generate_proof_data(1, &UNREADABLE_PAIR, &key).is_none());
    let unreadable = WithdrawAccountInfo { available_balance: UNREADABLE_CIPHERTEXT, ..info };
    assert!(unreadable.generate_proof_data(1, &pair, &key).is_none());
    let undecryptable =
        WithdrawAccountInfo { decryptable_available_balance: AeCiphertext([3; 36]), ..info };
    assert!(undecryptable.generate_proof_data(0, &pair, &key).is_none());
}

#[test]
fn a_withdraw_proof_does_not_ask_for_the_pair_that_encrypted_the_balance() {
    let (key, ledger_key) = aes_key(7);
    let (_, ledger_pair) = keypair();
    let (other_pair, _) = keypair();
    let info = withdraw_info(&info_with(100, &ledger_key, &ledger_pair));
    let proof = info.generate_proof_data(40, &other_pair, &key).unwrap();
    assert_eq!(proof[..32], other_pair.0[..32]);
}

#[test]
fn a_transfer_proof_names_the_three_keys() {
    let (key, ledger_key) = aes_key(7);
    let (other_key, _) = aes_key(8);
    let (pair, ledger_pair) = keypair();
    let (destination, auditor) = (pubkey(), pubkey());
    let info = info_with(1 << 50, &ledger_key, &ledger_pair);
    for amount in [0u64, 77, 1 << 50] {
        let proof = info
            .generate_transfer_proof_data(amount, &pair, &key, &destination, Some(&auditor))
            .unwrap();
        assert_eq!(proof.len(), TRANSFER_PROOF_LEN);
        assert_eq!(proof[256..288], pair.0[..32]);
        assert_eq!(proof[288..320], destination.0);
        assert_eq!(proof[320..352], auditor.0);
        let proof =
            info.generate_transfer_proof_data(amount, &pair, &key, &auditor, None).unwrap();
        assert_eq!(proof.len(), TRANSFER_PROOF_LEN);
        assert_eq!(proof[256..288], pair.0[..32]);
        assert_eq!(proof[288..320], auditor.0);
        assert_eq!(proof[320..352], [0; 32]);
    }
    let make = |amount: u64,
                pair: &ElGamalKeypair,
                key: &AeKey,
                destination: &ElGamalPubkey,
                auditor: Option<&ElGamalPubkey>| {
        info.generate_transfer_proof_data(amount, pair, key, destination, auditor)
    };
    assert!(make(1, &pair, &key, &destination, Some(&auditor)).is_some());
    assert!(make((1 << 50) + 1, &pair, &key, &destination, Some(&auditor)).is_none());
    assert!(make(1, &pair, &other_key, &destination, Some(&auditor)).is_none());
    assert!(make(1, &UNREADABLE_PAIR, &key, &destination, Some(&auditor)).is_none());
    assert!(make(1, &pair, &key, &UNREADABLE_KEY, Some(&auditor)).is_none());
    assert!(make(1, &pair, &key, &destination, Some(&UNREADABLE_KEY)).is_none());
    let unreadable = TransferAccountInfo { available_balance: UNREADABLE_CIPHERTEXT, ..info };
    assert!(unreadable
        .generate_transfer_proof_data(1, &pair, &key, &destination, None)
        .is_none());
}

#[test]
fn a_transfer_proof_with_a_fee_names_the_four_keys_and_the_fee() {
    let (key, ledger_key) = aes_key(7);
    let (other_key, _) = aes_key(8);
    let (pair, ledger_pair) = keypair();
    let (destination, auditor, authority) = (pubkey(), pubkey(), pubkey());
    let info = info_with(1_000_000, &ledger_key, &ledger_pair);
    for (amount, rate, maximum) in [(0u64, 0u16, 0u64), (999, 250, 7_000_000_000), (1_000_000, 10_000, 3)] {
        for with_auditor in [true, false] {
            let listed = with_auditor.then_some(&auditor);
            let proof = info
                .generate_transfer_with_fee_proof_data(
                    amount,
                    &pair,
                    &key,
                    &destination,
                    listed,
                    &authority,
                    rate,
                    maximum,
                )
                .unwrap();
            assert_eq!(proof.len(), TRANSFER_WITH_FEE_PROOF_LEN);
            assert_eq!(proof[256..288], pair.0[..32]);
            assert_eq!(proof[288..320], destination.0);
            assert_eq!(proof[320..352], if with_auditor { auditor.0 } else { [0; 32] });
            assert_eq!(proof[352..384], authority.0);
            assert_eq!(proof[640..642], rate.to_le_bytes());
            assert_eq!(proof[642..650], maximum.to_le_bytes());
        }
    }
    let make = |amount: u64,
                pair: &ElGamalKeypair,
                key: &AeKey,
                keys: [&ElGamalPubkey; 3]| {
        info.generate_transfer_with_fee_proof_data(
            amount,
            pair,
            key,
            keys[0],
            Some(keys[1]),
            keys[2],
            100,
            10,
        )
    };
    let keys = [&destination, &auditor, &authority];
    assert!(make(1, &pair, &key, keys).is_some());
    assert!(make(1_000_001, &pair, &key, keys).is_none());
    assert!(make(1, &pair, &other_key, keys).is_none());
    assert!(make(1, &UNREADABLE_PAIR, &key, keys).is_none());
    assert!(make(1, &pair, &key, [&UNREADABLE_KEY, &auditor, &authority]).is_none());
    assert!(make(1, &pair, &key, [&destination, &UNREADABLE_KEY, &authority]).is_none());
    assert!(make(1, &pair, &key, [&destination, &auditor, &UNREADABLE_KEY]).is_none());
    let unreadable = TransferAccountInfo { available_balance: UNREADABLE_CIPHERTEXT, ..info };
    assert!(unreadable
        .generate_transfer_with_fee_proof_data(1, &pair, &key, &destination, None, &authority, 1, 1)
        .is_none());
}

#[test]
fn split_proofs_name_their_keys() {
    let (key, ledger_key) = aes_key(7);
    let (other_key, _) = aes_key(8);
    let (pair, ledger_pair) = keypair();
    let (destination, auditor) = (pubkey(), pubkey());
    let info = info_with(u64::MAX, &ledger_key, &ledger_pair);
    for amount in [0u64, 5, MAXIMUM_SPLIT_TRANSFER_AMOUNT] {
        for with_auditor in [true, false] {
            let listed = with_auditor.then_some(&auditor);
            let proofs = info
                .generate_split_transfer_proof_data(amount, &pair, &key, &destination, listed)
                .unwrap();
            assert_eq!(proofs.equality_proof_data.len(), EQUALITY_PROOF_LEN);
            assert_eq!(proofs.ciphertext_validity_proof_data.len(), CIPHERTEXT_VALIDITY_PROOF_LEN);
            assert_eq!(proofs.range_proof_data.len(), RANGE_PROOF_LEN);
            assert_eq!(proofs.equality_proof_data[..32], pair.0[..32]);
            assert_eq!(proofs.ciphertext_validity_proof_data[..32], destination.0);
            assert_eq!(
                proofs.ciphertext_validity_proof_data[32..64],
                if with_auditor { auditor.0 } else { [0; 32] }
            );
        }
    }
    let make = |info: &TransferAccountInfo,
                amount: u64,
                pair: &ElGamalKeypair,
                key: &AeKey,
                destination: &ElGamalPubkey,
                auditor: Option<&ElGamalPubkey>| {
        info.generate_split_transfer_proof_data(amount, pair, key, destination, auditor)
    };
    assert_eq!(MAXIMUM_SPLIT_TRANSFER_AMOUNT, (1 << 48) - 1);
    assert!(make(&info, 1 << 48, &pair, &key, &destination, None).is_none());
    assert!(make(&info, u64::MAX, &pair, &key, &destination, None).is_none());
    assert!(make(&info, 1, &pair, &other_key, &destination, None).is_none());
    assert!(make(&info, 1, &UNREADABLE_PAIR, &key, &destination, None).is_none());
    assert!(make(&info, 1, &pair, &key, &UNREADABLE_KEY, None).is_none());
    assert!(make(&info, 1, &pair, &key, &destination, Some(&UNREADABLE_KEY)).is_none());
    let small = info_with(9, &ledger_key, &ledger_pair);
    assert!(make(&small, 9, &pair, &key, &destination, None).is_some());
    assert!(make(&small, 10, &pair, &key, &destination, None).is_none());
    let unreadable = TransferAccountInfo { available_balance: UNREADABLE_CIPHERTEXT, ..info };
    assert!(make(&unreadable, 1, &pair, &key, &destination, None).is_none());
}

#[test]
fn a_proof_for_withheld_fees_names_the_keys_and_the_fees() {
    let (pair, ledger_pair) = keypair();
    let (other_pair, _) = keypair();
    let destination = pubkey();
    for amount in [0u64, 3, u32::MAX as u64] {
        let info = WithheldTokensInfo {
            withheld_amount: ElGamalCiphertext(ledger_pair.pubkey().encrypt(amount).to_bytes()),
        };
        let proof = info.generate_proof_data(&pair, &destination).unwrap();
        assert_eq!(proof.len(), CIPHERTEXT_EQUALITY_PROOF_LEN);
        assert_eq!(proof[..32], pair.0[..32]);
        assert_eq!(proof[32..64], destination.0);
        assert_eq!(proof[64..128], info.withheld_amount.0);
        assert!(info.generate_proof_data(&UNREADABLE_PAIR, &destination).is_none());
        assert!(info.generate_proof_data(&pair, &UNREADABLE_KEY).is_none());
    }
    let info = WithheldTokensInfo {
        withheld_amount: ElGamalCiphertext(ledger_pair.pubkey().encrypt(3u64).to_bytes()),
    };
    assert!(info.generate_proof_data(&other_pair, &destination).is_none());
    let large = WithheldTokensInfo {
        withheld_amount: ElGamalCiphertext(ledger_pair.pubkey().encrypt(1u64 << 32).to_bytes()),
    };
    assert!(large.generate_proof_data(&pair, &destination).is_none());
    let unreadable = WithheldTokensInfo { withheld_amount: UNREADABLE_CIPHERTEXT };
    assert!(unreadable.generate_proof_data(&pair, &destination).is_none());
}

#[test]
fn the_other_proofs_are_made_for_a_zero_secret() {
    let (key, ledger_key) = aes_key(7);
    let (pair, ledger_pair) = keypair();
    let mut bytes = pair.0;
    bytes[32..].copy_from_slice(&[0; 32]);
    let zero_secret = ElGamalKeypair(bytes);
    let destination = pubkey();
    let info = info_with(100, &ledger_key, &ledger_pair);
    let empty = EmptyAccountAccountInfo { available_balance: info.available_balance };
    assert_eq!(empty.generate_proof_data(&zero_secret).unwrap()[..32], pair.0[..32]);
    assert!(withdraw_info(&info).generate_proof_data(1, &zero_secret, &key).is_some());
    assert!(info.generate_transfer_proof_data(1, &zero_secret, &key, &destination, None).is_some());
    assert!(info
        .generate_transfer_with_fee_proof_data(1, &zero_secret, &key, &destination, None, &destination, 5, 5)
        .is_some());
    assert!(info
        .generate_split_transfer_proof_data(1, &zero_secret, &key, &destination, None)
        .is_some());
    let withheld = WithheldTokensInfo { withheld_amount: info.available_balance };
    assert!(withheld.generate_proof_data(&zero_secret, &destination).is_none());
}
