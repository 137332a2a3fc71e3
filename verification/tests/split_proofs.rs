use solana_program::instruction::Instruction as LedgerInstruction;
use solana_program::pubkey::Pubkey as LedgerKey;
use solana_sdk::signer::EncodableKey;
use spl_token_2022::extension::confidential_transfer::ciphertext_extraction::SourceDecryptHandles as LedgerHandles;
use spl_token_2022::extension::confidential_transfer::instruction as ledger_confidential;
use spl_token_2022::solana_zk_token_sdk::encryption::auth_encryption::{
    AeCiphertext as LedgerAeCiphertext, AeKey as LedgerAeKey,
};
use spl_token_2022::solana_zk_token_sdk::encryption::elgamal::ElGamalKeypair as LedgerKeypair;
use spl_token_2022::solana_zk_token_sdk::instruction::{
    BatchedGroupedCiphertext2HandlesValidityProofData, BatchedRangeProofU128Data,
    CiphertextCommitmentEqualityProofData,
};
use spl_token_2022::solana_zk_token_sdk::zk_token_elgamal::pod::AeCiphertext as PodAeCiphertext;
use spl_token_2022::solana_zk_token_sdk::zk_token_proof_instruction::{
    ContextStateInfo as LedgerContextStateInfo, ProofInstruction as LedgerProofInstruction,
};
use token_client::confidential::{
    AeCiphertext, AeKey, CloseSplitContextStateAccounts, ElGamalCiphertext, ElGamalKeypair,
    SourceDecryptHandles, TransferAccountInfo, TransferSplitContextStateAccounts,
    TransferWithFeeSplitContextStateAccounts,
};
use token_client::error::TokenError;
use token_client::instruction::{AccountMeta, Instruction};
use token_client::optional_keys::ElGamalPubkey;
use token_client::programs::token_2022_id;
use token_client::proof_generation::SplitTransferWithFeeProofData;
use token_client::pubkey::Pubkey;
use token_client::split_proofs::{
    all_outcomes_succeeded, SplitTransferEvent, SplitTransferRents, SplitTransferState,
    SplitTransferWithFeeRents,
};
use token_client::token::Token;

fn key(byte: u8) -> Pubkey {
    Pubkey::new_from_array([byte; 32])
}

fn lk(byte: u8) -> LedgerKey {
    LedgerKey::new_from_array([byte; 32])
}

fn from_ledger(instruction: &LedgerInstruction) -> Instruction {
    Instruction {
        program_id: Pubkey::new_from_array(instruction.program_id.to_bytes()),
        accounts: instruction
            .accounts
            .iter()
            .map(|m| AccountMeta {
                pubkey: Pubkey::new_from_array(m.pubkey.to_bytes()),
                is_signer: m.is_signer,
                is_writable: m.is_writable,
            })
            .collect(),
        data: instruction.data.clone(),
    }
}

fn assert_same(ours: &Instruction, theirs: &LedgerInstruction) {
    let theirs = from_ledger(theirs);
    assert_eq!(ours.program_id, theirs.program_id);
    assert_eq!(ours.accounts, theirs.accounts);
    assert_eq!(ours.data, theirs.data);
}

fn token() -> Token {
    Token::new(&token_2022_id(), &key(11), Some(9), key(12))
}

fn accounts(close: bool) -> TransferSplitContextStateAccounts {
    TransferSplitContextStateAccounts {
        equality_proof: key(21),
        ciphertext_validity_proof: key(22),
        range_proof: key(23),
        authority: key(24),
        no_op_on_uninitialized_split_context_state: true,
        close_split_context_state_accounts: if close {
            Some(CloseSplitContextStateAccounts {
                lamport_destination: key(25),
                zk_token_proof_program: key(26),
            })
        } else {
            None
        },
    }
}

fn fee_accounts(close: bool) -> TransferWithFeeSplitContextStateAccounts {
    TransferWithFeeSplitContextStateAccounts {
        equality_proof: key(21),
        transfer_amount_ciphertext_validity_proof: key(22),
        fee_sigma_proof: key(27),
        fee_ciphertext_validity_proof: key(28),
        range_proof: key(23),
        authority: key(24),
        no_op_on_uninitialized_split_context_state: false,
        close_split_context_state_accounts: if close {
            Some(CloseSplitContextStateAccounts {
                lamport_destination: key(25),
                zk_token_proof_program: key(26),
            })
        } else {
            None
        },
    }
}

fn ledger_transfer(close: bool, balance: [u8; 36], handles: [u8; 64]) -> LedgerInstruction {
    let (e, v, r, a, l, z) = (lk(21), lk(22), lk(23), lk(24), lk(25), lk(26));
    let context = ledger_confidential::TransferSplitContextStateAccounts {
        equality_proof: &e,
        ciphertext_validity_proof: &v,
        range_proof: &r,
        authority: &a,
        no_op_on_uninitialized_split_context_state: true,
        close_split_context_state_accounts: if close {
            Some(ledger_confidential::CloseSplitContextStateAccounts {
                lamport_destination: &l,
                zk_token_proof_program: &z,
            })
        } else {
            None
        },
    };
    let handles: LedgerHandles = bytemuck::cast(handles);
    ledger_confidential::transfer_with_split_proofs(
        &spl_token_2022::id(),
        &lk(1),
        &lk(11),
        &lk(2),
        PodAeCiphertext(balance),
        &lk(3),
        context,
        &handles,
    )
    .unwrap()
}

fn ledger_transfer_with_fee(close: bool, balance: [u8; 36], handles: [u8; 64]) -> LedgerInstruction {
    let (e, v, g, f, r, a, l, z) = (lk(21), lk(22), lk(27), lk(28), lk(23), lk(24), lk(25), lk(26));
    let context = ledger_confidential::TransferWithFeeSplitContextStateAccounts {
        equality_proof: &e,
        transfer_amount_ciphertext_validity_proof: &v,
        fee_sigma_proof: &g,
        fee_ciphertext_validity_proof: &f,
        range_proof: &r,
        authority: &a,
        no_op_on_uninitialized_split_context_state: false,
        close_split_context_state_accounts: if close {
            Some(ledger_confidential::CloseSplitContextStateAccounts {
                lamport_destination: &l,
                zk_token_proof_program: &z,
            })
        } else {
            None
        },
    };
    let handles: LedgerHandles = bytemuck::cast(handles);
    ledger_confidential::transfer_with_fee_and_split_proofs(
        &spl_token_2022::id(),
        &lk(1),
        &lk(11),
        &lk(2),
        PodAeCiphertext(balance),
        &lk(3),
        context,
        &handles,
    )
    .unwrap()
}

#[test]
fn the_split_transfer_instruction_is_the_ledgers() {
    let balance = AeCiphertext([4; 36]);
    let handles = SourceDecryptHandles([5; 64]);
    for close in [false, true] {
        let transfer = token()
            .confidential_transfer_transfer_with_split_proofs_with(
                &key(1),
                &key(2),
                &key(3),
                &accounts(close),
                &balance,
                &handles,
            )
            .unwrap();
        assert_eq!(transfer.instructions.len(), 1);
        assert_eq!(transfer.hook_instruction, Some(0));
        assert_same(&transfer.instructions[0], &ledger_transfer(close, [4; 36], [5; 64]));
    }
}

#[test]
fn the_split_transfer_with_fee_instruction_is_the_ledgers() {
    let balance = AeCiphertext([4; 36]);
    let handles = SourceDecryptHandles([5; 64]);
    for close in [false, true] {
        let transfer = token()
            .confidential_transfer_transfer_with_fee_and_split_proofs_with(
                &key(1),
                &key(2),
                &key(3),
                &fee_accounts(close),
                &balance,
                &handles,
            )
            .unwrap();
        assert_same(&transfer.instructions[0], &ledger_transfer_with_fee(close, [4; 36], [5; 64]));
    }
}

#[test]
fn a_parallel_transfer_gives_two_transactions_that_end_with_the_transfer() {
    let key_bytes = [7u8; 16];
    let ledger_key = LedgerAeKey::read(&mut format!("{:?}", key_bytes).as_bytes()).unwrap();
    let source = LedgerKeypair::new_rand();
    let destination = LedgerKeypair::new_rand();
    let info = TransferAccountInfo {
        available_balance: ElGamalCiphertext(source.pubkey().encrypt(100u64).to_bytes()),
        decryptable_available_balance: AeCiphertext(ledger_key.encrypt(100).to_bytes()),
    };
    let token = token();
    let (proofs, transfer) = token
        .confidential_transfer_transfer_with_split_proofs_in_parallel(
            &key(1),
            &key(2),
            &key(3),
            &accounts(false),
            40,
            &info,
            &ElGamalKeypair(source.to_bytes()),
            &AeKey(key_bytes),
            &ElGamalPubkey(destination.pubkey().to_bytes()),
            None,
        )
        .unwrap();
    assert_eq!(transfer.instructions.len(), 1);
    assert_eq!(transfer.hook_instruction, Some(0));
    let balance: [u8; 36] = transfer.instructions[0].data[2..38].try_into().unwrap();
    assert_eq!(
        ledger_key.decrypt(&LedgerAeCiphertext::from_bytes(&balance).unwrap()),
        Some(60)
    );
    assert_same(
        &transfer.instructions[0],
        &ledger_transfer(false, balance, proofs.source_decrypt_handles.0),
    );

    let mut resolved = transfer.instructions[0].clone();
    resolved.accounts.push(AccountMeta::new_readonly(key(50), false));
    let rents = SplitTransferRents { equality_proof: 1, ciphertext_validity_proof: 2, range_proof: 3 };
    let transactions = token.split_transfer_transactions(&accounts(false), &proofs, &resolved, &rents);
    let first = &transactions.equality_and_ciphertext_validity;
    let second = &transactions.range;
    assert_eq!(first.len(), 5);
    assert_eq!(second.len(), 3);
    for transaction in [first, second] {
        let last = transaction.last().unwrap();
        assert_eq!(last.accounts, resolved.accounts);
        assert_eq!(last.data, resolved.data);
        assert_eq!(last.program_id, resolved.program_id);
    }
    let zk = spl_token_2022::solana_zk_token_sdk::zk_token_proof_program::id();
    assert_same(
        &first[0],
        &solana_program::system_instruction::create_account(&lk(12), &lk(21), 1, 161, &zk),
    );
    assert_same(
        &first[2],
        &solana_program::system_instruction::create_account(&lk(12), &lk(22), 2, 289, &zk),
    );
    assert_same(
        &second[0],
        &solana_program::system_instruction::create_account(&lk(12), &lk(23), 3, 297, &zk),
    );
    let equality: CiphertextCommitmentEqualityProofData =
        bytemuck::pod_read_unaligned(&proofs.equality_proof_data);
    let validity: BatchedGroupedCiphertext2HandlesValidityProofData =
        bytemuck::pod_read_unaligned(&proofs.ciphertext_validity_proof_data);
    let range: BatchedRangeProofU128Data = bytemuck::pod_read_unaligned(&proofs.range_proof_data);
    let (a, e, v, r) = (lk(24), lk(21), lk(22), lk(23));
    assert_same(
        &first[1],
        &LedgerProofInstruction::VerifyCiphertextCommitmentEquality.encode_verify_proof(
            Some(LedgerContextStateInfo { context_state_account: &e, context_state_authority: &a }),
            &equality,
        ),
    );
    assert_same(
        &first[3],
        &LedgerProofInstruction::VerifyBatchedGroupedCiphertext2HandlesValidity.encode_verify_proof(
            Some(LedgerContextStateInfo { context_state_account: &v, context_state_authority: &a }),
            &validity,
        ),
    );
    assert_same(
        &second[1],
        &LedgerProofInstruction::VerifyBatchedRangeProofU128.encode_verify_proof(
            Some(LedgerContextStateInfo { context_state_account: &r, context_state_authority: &a }),
            &range,
        ),
    );
}

#[test]
fn a_parallel_transfer_that_cannot_be_covered_is_refused() {
    let key_bytes = [7u8; 16];
    let ledger_key = LedgerAeKey::read(&mut format!("{:?}", key_bytes).as_bytes()).unwrap();
    let source = LedgerKeypair::new_rand();
    let info = TransferAccountInfo {
        available_balance: ElGamalCiphertext(source.pubkey().encrypt(10u64).to_bytes()),
        decryptable_available_balance: AeCiphertext(ledger_key.encrypt(10).to_bytes()),
    };
    let result = token().confidential_transfer_transfer_with_split_proofs(
        &key(1),
        &key(2),
        &key(3),
        &accounts(false),
        11,
        &info,
        &AeKey(key_bytes),
        &SourceDecryptHandles([0; 64]),
    );
    assert_eq!(result.unwrap_err(), TokenError::AccountDecryption);
}

#[test]
fn a_parallel_transfer_with_a_fee_gives_three_transactions() {
    let proofs = SplitTransferWithFeeProofData {
        equality_proof_data: vec![1; 4],
        transfer_amount_ciphertext_validity_proof_data: vec![2; 4],
        fee_sigma_proof_data: vec![3; 4],
        fee_ciphertext_validity_proof_data: vec![4; 4],
        range_proof_data: vec![5; 4],
        source_decrypt_handles: SourceDecryptHandles([6; 64]),
    };
    let key_bytes = [7u8; 16];
    let ledger_key = LedgerAeKey::read(&mut format!("{:?}", key_bytes).as_bytes()).unwrap();
    let info = TransferAccountInfo {
        available_balance: ElGamalCiphertext([0; 64]),
        decryptable_available_balance: AeCiphertext(ledger_key.encrypt(10).to_bytes()),
    };
    let token = token();
    let transfer = token
        .confidential_transfer_transfer_with_fee_and_split_proofs_in_parallel(
            &key(1),
            &key(2),
            &key(3),
            &fee_accounts(false),
            4,
            &info,
            &AeKey(key_bytes),
            &proofs,
        )
        .unwrap();
    let balance: [u8; 36] = transfer.instructions[0].data[2..38].try_into().unwrap();
    assert_same(&transfer.instructions[0], &ledger_transfer_with_fee(false, balance, [6; 64]));
    let rents = SplitTransferWithFeeRents {
        equality_proof: 1,
        transfer_amount_ciphertext_validity_proof: 2,
        fee_sigma_proof: 3,
        fee_ciphertext_validity_proof: 4,
        range_proof: 5,
    };
    let transactions = token.split_transfer_with_fee_transactions(
        &fee_accounts(false),
        &proofs,
        &transfer.instructions[0],
        &rents,
    );
    assert_eq!(transactions.equality_and_ciphertext_validity.len(), 5);
    assert_eq!(transactions.fee_sigma_and_ciphertext_validity.len(), 5);
    assert_eq!(transactions.range.len(), 3);
    assert_eq!(transactions.fee_sigma_and_ciphertext_validity[1].data, vec![14, 3, 3, 3, 3]);
    assert_eq!(transactions.fee_sigma_and_ciphertext_validity[3].data, vec![13, 4, 4, 4, 4]);
    assert_eq!(transactions.fee_sigma_and_ciphertext_validity[1].accounts[0].pubkey, key(27));
    assert_eq!(transactions.fee_sigma_and_ciphertext_validity[3].accounts[0].pubkey, key(28));
    assert_eq!(transactions.range[1].data, vec![10, 5, 5, 5, 5]);
    let zk = spl_token_2022::solana_zk_token_sdk::zk_token_proof_program::id();
    assert_same(
        &transactions.fee_sigma_and_ciphertext_validity[0],
        &solana_program::system_instruction::create_account(&lk(12), &lk(27), 3, 137, &zk),
    );
    for transaction in [
        &transactions.equality_and_ciphertext_validity,
        &transactions.fee_sigma_and_ciphertext_validity,
        &transactions.range,
    ] {
        assert_eq!(transaction.last().unwrap().data, transfer.instructions[0].data);
    }
}

#[test]
fn context_accounts_are_set_up_one_by_one() {
    let token = token();
    let context = accounts(false);
    let equality = token.create_equality_proof_context_state_for_transfer(&context, &vec![1], 9);
    assert_eq!(equality.len(), 2);
    assert_eq!(equality[1].data, vec![11, 1]);
    let validity =
        token.create_ciphertext_validity_proof_context_state_for_transfer(&context, &vec![2], 9);
    assert_eq!(validity[1].data, vec![13, 2]);
    assert_eq!(validity[0].accounts[1].pubkey, key(22));
    let rents = SplitTransferRents { equality_proof: 1, ciphertext_validity_proof: 2, range_proof: 3 };
    let both = token.create_equality_and_ciphertext_validity_proof_context_states_for_transfer(
        &context,
        &vec![1],
        &vec![2],
        &rents,
    );
    assert_eq!(both.len(), 4);
    let (create, verify) = token.create_range_proof_context_state_for_transfer(&context, &vec![3], 9);
    assert_eq!(create.len(), 1);
    assert_eq!(verify.len(), 1);
    assert_eq!(verify[0].data, vec![9, 3]);
    let (create, verify) = token.create_withdraw_proof_context_state(&key(1), &key(2), &vec![4], 9);
    assert_eq!(create[0].accounts[1].pubkey, key(1));
    assert_eq!(verify[0].data, vec![2, 4]);
    let fee_context = fee_accounts(false);
    let range = token.create_range_proof_context_state_for_transfer_with_fee(&fee_context, &vec![5], 9);
    assert_eq!(range.len(), 2);
    assert_eq!(range[1].data, vec![10, 5]);
    let closed = token.confidential_transfer_close_context_state(&key(1), &key(2), &key(3));
    assert_eq!(closed.len(), 1);
    assert_eq!(closed[0].data, vec![0]);
}

#[test]
fn an_attempt_succeeds_when_every_transaction_did() {
    let state = SplitTransferState::Snapshotted
        .next(SplitTransferEvent::ProofsGenerated)
        .unwrap()
        .next(SplitTransferEvent::Submitted)
        .unwrap();
    assert_eq!(state, SplitTransferState::ScratchAccountsSubmitted);
    let confirmed = all_outcomes_succeeded(&vec![true, true, true]);
    assert_eq!(
        state.next(SplitTransferEvent::Joined { all_succeeded: confirmed }),
        Some(SplitTransferState::AllConfirmed)
    );
    let failed = all_outcomes_succeeded(&vec![true, false, true]);
    assert_eq!(
        state.next(SplitTransferEvent::Joined { all_succeeded: failed }),
        Some(SplitTransferState::PartialFailure)
    );
    assert!(!all_outcomes_succeeded(&vec![false, false]));
}

#[test]
fn a_failed_attempt_starts_again_from_a_snapshot() {
    assert_eq!(
        SplitTransferState::PartialFailure.next(SplitTransferEvent::Retried),
        Some(SplitTransferState::Snapshotted)
    );
    assert_eq!(SplitTransferState::AllConfirmed.next(SplitTransferEvent::Retried), None);
    assert_eq!(SplitTransferState::Snapshotted.next(SplitTransferEvent::Submitted), None);
    assert_eq!(
        SplitTransferState::ProofsGenerated.next(SplitTransferEvent::Joined { all_succeeded: true }),
        None
    );
}

#[test]
fn a_parallel_transfer_whose_proofs_cannot_be_made_ends_with_that_error() {
    let key_bytes = [7u8; 16];
    let ledger_key = LedgerAeKey::read(&mut format!("{:?}", key_bytes).as_bytes()).unwrap();
    let source = LedgerKeypair::new_rand();
    let pair = ElGamalKeypair(source.to_bytes());
    let destination = ElGamalPubkey(LedgerKeypair::new_rand().pubkey().to_bytes());
    let info_with = |balance: u64| TransferAccountInfo {
        available_balance: ElGamalCiphertext(source.pubkey().encrypt(balance).to_bytes()),
        decryptable_available_balance: AeCiphertext(ledger_key.encrypt(balance).to_bytes()),
    };
    let token = token();
    let run = |info: &TransferAccountInfo,
               amount: u64,
               pair: &ElGamalKeypair,
               aes_key: [u8; 16],
               destination: &ElGamalPubkey,
               auditor: Option<&ElGamalPubkey>| {
        token.confidential_transfer_transfer_with_split_proofs_in_parallel(
            &key(1),
            &key(2),
            &key(3),
            &accounts(false),
            amount,
            info,
            pair,
            &AeKey(aes_key),
            destination,
            auditor,
        )
    };
    let unreadable = ElGamalPubkey([255; 32]);
    let rich = info_with(u64::MAX);
    let poor = info_with(9);
    assert!(run(&poor, 9, &pair, key_bytes, &destination, None).is_ok());
    assert!(run(&rich, (1 << 48) - 1, &pair, key_bytes, &destination, Some(&destination)).is_ok());
    let refused = [
        run(&poor, 10, &pair, key_bytes, &destination, None),
        run(&rich, 1 << 48, &pair, key_bytes, &destination, None),
        run(&poor, 1, &pair, [8; 16], &destination, None),
        run(&poor, 1, &ElGamalKeypair([255; 64]), key_bytes, &destination, None),
        run(&poor, 1, &pair, key_bytes, &unreadable, None),
        run(&poor, 1, &pair, key_bytes, &destination, Some(&unreadable)),
        run(
            &TransferAccountInfo { available_balance: ElGamalCiphertext([255; 64]), ..poor },
            1,
            &pair,
            key_bytes,
            &destination,
            None,
        ),
    ];
    for r in refused {
        assert_eq!(r.unwrap_err(), TokenError::ProofGeneration);
    }
}

#[test]
fn the_proofs_of_a_parallel_transfer_are_for_its_keys() {
    let key_bytes = [7u8; 16];
    let ledger_key = LedgerAeKey::read(&mut format!("{:?}", key_bytes).as_bytes()).unwrap();
    let source = LedgerKeypair::new_rand();
    let destination = ElGamalPubkey(LedgerKeypair::new_rand().pubkey().to_bytes());
    let auditor = ElGamalPubkey(LedgerKeypair::new_rand().pubkey().to_bytes());
    let info = TransferAccountInfo {
        available_balance: ElGamalCiphertext(source.pubkey().encrypt(100u64).to_bytes()),
        decryptable_available_balance: AeCiphertext(ledger_key.encrypt(100).to_bytes()),
    };
    for listed in [Some(&auditor), None] {
        let (proofs, transfer) = token()
            .confidential_transfer_transfer_with_split_proofs_in_parallel(
                &key(1),
                &key(2),
                &key(3),
                &accounts(true),
                100,
                &info,
                &ElGamalKeypair(source.to_bytes()),
                &AeKey(key_bytes),
                &destination,
                listed,
            )
            .unwrap();
        assert_eq!(proofs.equality_proof_data.len(), 320);
        assert_eq!(proofs.ciphertext_validity_proof_data.len(), 416);
        assert_eq!(proofs.range_proof_data.len(), 1000);
        assert_eq!(proofs.equality_proof_data[..32], source.pubkey().to_bytes());
        assert_eq!(proofs.ciphertext_validity_proof_data[..32], destination.0);
        assert_eq!(
            proofs.ciphertext_validity_proof_data[32..64],
            listed.map_or([0; 32], |a| a.0)
        );
        assert_eq!(transfer.instructions[0].data[40..104], proofs.source_decrypt_handles.0);
    }
}
