use solana_program::instruction::Instruction as LedgerInstruction;
use solana_program::pubkey::Pubkey as LedgerKey;
use solana_sdk::signer::EncodableKey;
use spl_token_2022::extension::confidential_transfer::instruction as ledger_confidential;
use spl_token_2022::extension::confidential_transfer_fee::instruction as ledger_fee;
use spl_token_2022::proof::ProofLocation;
use spl_token_2022::solana_zk_token_sdk::encryption::auth_encryption::{
    AeCiphertext as LedgerAeCiphertext, AeKey as LedgerAeKey,
};
use spl_token_2022::solana_zk_token_sdk::encryption::elgamal::ElGamalKeypair as LedgerKeypair;
use spl_token_2022::solana_zk_token_sdk::instruction::{
    PubkeyValidityData, TransferData, WithdrawData, ZeroBalanceProofData,
};
use spl_token_2022::solana_zk_token_sdk::zk_token_elgamal::pod::{
    AeCiphertext as PodAeCiphertext, ElGamalCiphertext as PodElGamalCiphertext,
};
use spl_token_2022::solana_zk_token_sdk::zk_token_proof_instruction::{
    self as ledger_proof, ContextStateInfo as LedgerContextStateInfo,
    ProofInstruction as LedgerProofInstruction,
};
use token_client::confidential::{
    debit_decryptable_balance, AeCiphertext, AeKey, ApplyPendingBalanceAccountInfo,
    ElGamalCiphertext, ElGamalKeypair, ElGamalSecretKey, EmptyAccountAccountInfo,
    TransferAccountInfo, WithdrawAccountInfo,
};
use token_client::error::TokenError;
use token_client::instruction::{AccountMeta, Instruction};
use token_client::optional_keys::ElGamalPubkey;
use token_client::programs::token_2022_id;
use token_client::proofs::{
    close_context_state, proof_context_state, ContextStateInfo, ProofInstruction, ProofKind,
};
use token_client::pubkey::Pubkey;
use token_client::token::Token;

fn key(byte: u8) -> Pubkey {
    Pubkey::new_from_array([byte; 32])
}

fn lk(byte: u8) -> LedgerKey {
    LedgerKey::new_from_array([byte; 32])
}

fn from_ledger(instruction: &LedgerInstruction) -> Instruction {
    Instruction {
        program_id: Pubkey::new_from_array(instruction.program_id.to_bytes()),
        accounts: instruction
            .accounts
            .iter()
            .map(|m| AccountMeta {
                pubkey: Pubkey::new_from_array(m.pubkey.to_bytes()),
                is_signer: m.is_signer,
                is_writable: m.is_writable,
            })
            .collect(),
        data: instruction.data.clone(),
    }
}

fn assert_same(ours: &Instruction, theirs: &LedgerInstruction) {
    let theirs = from_ledger(theirs);
    assert_eq!(ours.program_id, theirs.program_id);
    assert_eq!(ours.accounts, theirs.accounts);
    assert_eq!(ours.data, theirs.data);
}

fn token() -> Token {
    Token::new(&token_2022_id(), &key(11), Some(9), key(12))
}

fn aes_key() -> (AeKey, LedgerAeKey) {
    let bytes = [7u8; 16];
    let text = format!("{:?}", bytes);
    (AeKey(bytes), LedgerAeKey::read(&mut text.as_bytes()).unwrap())
}

fn keypair() -> (ElGamalKeypair, LedgerKeypair) {
    let ledger = LedgerKeypair::new_rand();
    (ElGamalKeypair(ledger.to_bytes()), ledger)
}

fn info_with(balance: u64, ledger_key: &LedgerAeKey, keypair: &LedgerKeypair) -> TransferAccountInfo {
    TransferAccountInfo {
        available_balance: ElGamalCiphertext(keypair.pubkey().encrypt(balance).to_bytes()),
        decryptable_available_balance: AeCiphertext(ledger_key.encrypt(balance).to_bytes()),
    }
}

#[test]
fn the_new_balance_decrypts_to_the_old_one_less_the_amount() {
    let (key, ledger_key) = aes_key();
    let current = AeCiphertext(ledger_key.encrypt(1000).to_bytes());
    let next = debit_decryptable_balance(&current, 300, &key).unwrap();
    let decrypted = ledger_key.decrypt(&LedgerAeCiphertext::from_bytes(&next.0).unwrap());
    assert_eq!(decrypted, Some(700));
    let all = debit_decryptable_balance(&current, 1000, &key).unwrap();
    assert_eq!(ledger_key.decrypt(&LedgerAeCiphertext::from_bytes(&all.0).unwrap()), Some(0));
}

#[test]
fn a_balance_that_is_too_small_or_unreadable_cannot_be_debited() {
    let (key, ledger_key) = aes_key();
    let current = AeCiphertext(ledger_key.encrypt(10).to_bytes());
    assert_eq!(
        debit_decryptable_balance(&current, 11, &key).unwrap_err(),
        TokenError::AccountDecryption
    );
    let other = AeKey([8; 16]);
    assert_eq!(
        debit_decryptable_balance(&current, 1, &other).unwrap_err(),
        TokenError::AccountDecryption
    );
    assert_eq!(
        debit_decryptable_balance(&AeCiphertext([0; 36]), 0, &key).unwrap_err(),
        TokenError::AccountDecryption
    );
}

#[test]
fn account_infos_debit_their_decryptable_balance() {
    let (key, ledger_key) = aes_key();
    let (_, ledger_pair) = keypair();
    let info = info_with(50, &ledger_key, &ledger_pair);
    let next = info.new_decryptable_available_balance(20, &key).unwrap();
    assert_eq!(ledger_key.decrypt(&LedgerAeCiphertext::from_bytes(&next.0).unwrap()), Some(30));
    let withdraw = WithdrawAccountInfo {
        available_balance: info.available_balance,
        decryptable_available_balance: info.decryptable_available_balance,
    };
    let next = withdraw.new_decryptable_available_balance(50, &key).unwrap();
    assert_eq!(ledger_key.decrypt(&LedgerAeCiphertext::from_bytes(&next.0).unwrap()), Some(0));
}

#[test]
fn the_pending_balance_is_added_to_the_available_one() {
    let (key, ledger_key) = aes_key();
    let (_, ledger_pair) = keypair();
    let secret = ElGamalSecretKey(ledger_pair.secret().to_bytes());
    let info = ApplyPendingBalanceAccountInfo {
        pending_balance_credit_counter: 2,
        pending_balance_lo: ElGamalCiphertext(ledger_pair.pubkey().encrypt(5u64).to_bytes()),
        pending_balance_hi: ElGamalCiphertext(ledger_pair.pubkey().encrypt(1u64).to_bytes()),
        decryptable_available_balance: AeCiphertext(ledger_key.encrypt(100).to_bytes()),
    };
    assert_eq!(info.pending_balance_credit_counter(), 2);
    let next = info.new_decryptable_available_balance(&secret, &key).unwrap();
    assert_eq!(
        ledger_key.decrypt(&LedgerAeCiphertext::from_bytes(&next.0).unwrap()),
        Some(100 + 65536 + 5)
    );
    let instructions = token()
        .confidential_transfer_apply_pending_balance(&key_of(1), &key_of(2), &info, &secret, &key, &vec![])
        .unwrap();
    assert_eq!(instructions.len(), 1);
    assert_eq!(instructions[0].accounts[0].pubkey, key_of(1));
}

fn key_of(byte: u8) -> Pubkey {
    key(byte)
}

#[test]
fn a_verify_instruction_is_the_proof_programs() {
    let (_, ledger_pair) = keypair();
    let data = PubkeyValidityData::new(&ledger_pair).unwrap();
    let bytes = bytemuck::bytes_of(&data).to_vec();
    let ours = ProofInstruction::VerifyPubkeyValidity.encode_verify_proof(None, &bytes);
    assert_same(&ours, &ledger_proof::verify_pubkey_validity(None, &data));
    let info = ContextStateInfo { context_state_account: key(1), context_state_authority: key(2) };
    let ours = ProofInstruction::VerifyPubkeyValidity.encode_verify_proof(Some(info), &bytes);
    let theirs = LedgerProofInstruction::VerifyPubkeyValidity.encode_verify_proof(
        Some(LedgerContextStateInfo { context_state_account: &lk(1), context_state_authority: &lk(2) }),
        &data,
    );
    assert_same(&ours, &theirs);
    assert_same(
        &close_context_state(info, &key(3)),
        &ledger_proof::close_context_state(
            LedgerContextStateInfo { context_state_account: &lk(1), context_state_authority: &lk(2) },
            &lk(3),
        ),
    );
}

#[test]
fn proof_instruction_numbers_are_the_proof_programs() {
    let ours = [
        ProofInstruction::CloseContextState,
        ProofInstruction::VerifyZeroBalance,
        ProofInstruction::VerifyWithdraw,
        ProofInstruction::VerifyCiphertextCiphertextEquality,
        ProofInstruction::VerifyTransfer,
        ProofInstruction::VerifyTransferWithFee,
        ProofInstruction::VerifyPubkeyValidity,
        ProofInstruction::VerifyRangeProofU64,
        ProofInstruction::VerifyBatchedRangeProofU64,
        ProofInstruction::VerifyBatchedRangeProofU128,
        ProofInstruction::VerifyBatchedRangeProofU256,
        ProofInstruction::VerifyCiphertextCommitmentEquality,
        ProofInstruction::VerifyGroupedCiphertext2HandlesValidity,
        ProofInstruction::VerifyBatchedGroupedCiphertext2HandlesValidity,
        ProofInstruction::VerifyFeeSigma,
    ];
    for (number, instruction) in ours.iter().enumerate() {
        assert_eq!(instruction.code() as usize, number);
        let theirs = LedgerProofInstruction::instruction_type(&[number as u8]).unwrap();
        assert_eq!(format!("{:?}", instruction), format!("{:?}", theirs));
    }
    assert!(LedgerProofInstruction::instruction_type(&[15]).is_none());
}

#[test]
fn context_accounts_have_the_size_of_their_state() {
    assert_eq!(ProofKind::Withdraw.context_state_size(), 129);
    assert_eq!(ProofKind::Equality.context_state_size(), 161);
    assert_eq!(ProofKind::CiphertextValidity.context_state_size(), 289);
    assert_eq!(ProofKind::Range.context_state_size(), 297);
    assert_eq!(ProofKind::RangeWithFee.context_state_size(), 297);
    assert_eq!(ProofKind::FeeSigma.context_state_size(), 137);
    assert_eq!(ProofKind::Range.instruction(), ProofInstruction::VerifyBatchedRangeProofU128);
    assert_eq!(ProofKind::RangeWithFee.instruction(), ProofInstruction::VerifyBatchedRangeProofU256);
}

#[test]
fn a_context_account_is_created_then_filled() {
    let instructions =
        proof_context_state(ProofKind::Equality, &key(12), &key(1), &key(2), &vec![9, 8], 777);
    assert_eq!(instructions.len(), 2);
    assert_same(
        &instructions[0],
        &solana_program::system_instruction::create_account(
            &lk(12),
            &lk(1),
            777,
            161,
            &spl_token_2022::solana_zk_token_sdk::zk_token_proof_program::id(),
        ),
    );
    assert_eq!(instructions[1].data, vec![11, 9, 8]);
    assert_eq!(
        instructions[1].accounts,
        vec![AccountMeta::new(key(1), false), AccountMeta::new_readonly(key(2), false)]
    );
}

#[test]
fn a_confidential_transfer_with_its_proof_is_the_ledgers() {
    let (key, ledger_key) = aes_key();
    let (pair, ledger_pair) = keypair();
    let (_, destination_pair) = keypair();
    let info = info_with(100, &ledger_key, &ledger_pair);
    let destination = ElGamalPubkey(destination_pair.pubkey().to_bytes());
    let transfer = token()
        .confidential_transfer_transfer(
            &key_of(1),
            &key_of(2),
            &key_of(3),
            None,
            40,
            &info,
            &pair,
            &key,
            &destination,
            None,
            &vec![key_of(3)],
        )
        .unwrap();
    assert_eq!(transfer.hook_instruction, Some(0));
    assert_eq!(transfer.additional_compute_budget, None);
    assert_eq!(transfer.instructions.len(), 2);
    let proof: TransferData =
        bytemuck::pod_read_unaligned(&transfer.instructions[1].data[1..]);
    let balance_bytes: [u8; 36] = transfer.instructions[0].data[2..38].try_into().unwrap();
    let balance = LedgerAeCiphertext::from_bytes(&balance_bytes).unwrap();
    assert_eq!(ledger_key.decrypt(&balance), Some(60));
    let expected = ledger_confidential::transfer(
        &spl_token_2022::id(),
        &lk(1),
        &lk(11),
        &lk(2),
        balance,
        &lk(3),
        &[],
        ProofLocation::InstructionOffset(1.try_into().unwrap(), &proof),
    )
    .unwrap();
    assert_same(&transfer.instructions[0], &expected[0]);
    assert_same(&transfer.instructions[1], &expected[1]);
}

#[test]
fn a_confidential_transfer_with_a_context_account_has_one_instruction() {
    let (key, ledger_key) = aes_key();
    let (pair, ledger_pair) = keypair();
    let info = info_with(100, &ledger_key, &ledger_pair);
    let destination = ElGamalPubkey(ledger_pair.pubkey().to_bytes());
    let transfer = token()
        .confidential_transfer_transfer(
            &key_of(1),
            &key_of(2),
            &key_of(3),
            Some(&key_of(9)),
            40,
            &info,
            &pair,
            &key,
            &destination,
            None,
            &vec![key_of(4)],
        )
        .unwrap();
    assert_eq!(transfer.instructions.len(), 1);
    let balance_bytes: [u8; 36] = transfer.instructions[0].data[2..38].try_into().unwrap();
    let expected = ledger_confidential::inner_transfer(
        &spl_token_2022::id(),
        &lk(1),
        &lk(11),
        &lk(2),
        PodAeCiphertext(balance_bytes),
        &lk(3),
        &[&lk(4)],
        ProofLocation::ContextStateAccount(&lk(9)),
    )
    .unwrap();
    assert_same(&transfer.instructions[0], &expected);
}

#[test]
fn a_transfer_without_proof_or_context_account_cannot_be_made() {
    let balance = AeCiphertext([1; 36]);
    assert_eq!(
        token()
            .confidential_transfer_transfer_with(&key(1), &key(2), &key(3), None, None, &balance, &vec![])
            .unwrap_err(),
        TokenError::ProofGeneration
    );
    let bad_pair = ElGamalKeypair([255; 64]);
    let (key, ledger_key) = aes_key();
    let (_, ledger_pair) = keypair();
    let info = info_with(100, &ledger_key, &ledger_pair);
    assert_eq!(
        token()
            .confidential_transfer_transfer(
                &key_of(1),
                &key_of(2),
                &key_of(3),
                None,
                40,
                &info,
                &bad_pair,
                &key,
                &ElGamalPubkey(ledger_pair.pubkey().to_bytes()),
                None,
                &vec![],
            )
            .unwrap_err(),
        TokenError::ProofGeneration
    );
}

#[test]
fn a_transfer_with_a_fee_asks_for_more_compute_units() {
    let balance = AeCiphertext([1; 36]);
    let transfer = token()
        .confidential_transfer_transfer_with_fee_with(
            &key(1),
            &key(2),
            &key(3),
            Some(&key(9)),
            None,
            &balance,
            &vec![],
        )
        .unwrap();
    assert_eq!(transfer.additional_compute_budget, Some(500_000));
    assert_eq!(transfer.hook_instruction, Some(0));
    let expected = ledger_confidential::inner_transfer_with_fee(
        &spl_token_2022::id(),
        &lk(1),
        &lk(11),
        &lk(2),
        PodAeCiphertext([1; 36]),
        &lk(3),
        &[],
        ProofLocation::ContextStateAccount(&lk(9)),
    )
    .unwrap();
    assert_same(&transfer.instructions[0], &expected);
}

#[test]
fn configuring_an_account_encrypts_a_zero_balance() {
    let (key, ledger_key) = aes_key();
    let (pair, _) = keypair();
    let instructions = token()
        .confidential_transfer_configure_token_account(
            &key_of(1),
            &key_of(2),
            None,
            None,
            &pair,
            &key,
            &vec![key_of(2)],
        )
        .unwrap();
    assert_eq!(instructions.len(), 2);
    let zero: [u8; 36] = instructions[0].data[2..38].try_into().unwrap();
    assert_eq!(ledger_key.decrypt(&LedgerAeCiphertext::from_bytes(&zero).unwrap()), Some(0));
    let proof: PubkeyValidityData = bytemuck::pod_read_unaligned(&instructions[1].data[1..]);
    let expected = ledger_confidential::configure_account(
        &spl_token_2022::id(),
        &lk(1),
        &lk(11),
        LedgerAeCiphertext::from_bytes(&zero).unwrap(),
        65536,
        &lk(2),
        &[],
        ProofLocation::InstructionOffset(1.try_into().unwrap(), &proof),
    )
    .unwrap();
    assert_same(&instructions[0], &expected[0]);
    assert_same(&instructions[1], &expected[1]);
    let with_counter = token()
        .confidential_transfer_configure_token_account(
            &key_of(1),
            &key_of(2),
            Some(&key_of(5)),
            Some(3),
            &pair,
            &key,
            &vec![],
        )
        .unwrap();
    assert_eq!(with_counter.len(), 1);
}

#[test]
fn emptying_and_withdrawing_carry_their_proofs() {
    let (key, ledger_key) = aes_key();
    let (pair, ledger_pair) = keypair();
    let empty = EmptyAccountAccountInfo {
        available_balance: ElGamalCiphertext(ledger_pair.pubkey().encrypt(0u64).to_bytes()),
    };
    let instructions = token()
        .confidential_transfer_empty_account(&key_of(1), &key_of(2), None, &empty, &pair, &vec![])
        .unwrap();
    assert_eq!(instructions.len(), 2);
    let proof: ZeroBalanceProofData = bytemuck::pod_read_unaligned(&instructions[1].data[1..]);
    let expected = ledger_confidential::empty_account(
        &spl_token_2022::id(),
        &lk(1),
        &lk(2),
        &[&lk(2)][..0],
        ProofLocation::InstructionOffset(1.try_into().unwrap(), &proof),
    )
    .unwrap();
    assert_same(&instructions[0], &expected[0]);
    assert_same(&instructions[1], &expected[1]);

    let info = WithdrawAccountInfo {
        available_balance: ElGamalCiphertext(ledger_pair.pubkey().encrypt(90u64).to_bytes()),
        decryptable_available_balance: AeCiphertext(ledger_key.encrypt(90).to_bytes()),
    };
    let instructions = token()
        .confidential_transfer_withdraw(&key_of(1), &key_of(2), None, 30, 9, &info, &pair, &key, &vec![])
        .unwrap();
    assert_eq!(instructions.len(), 2);
    let proof: WithdrawData = bytemuck::pod_read_unaligned(&instructions[1].data[1..]);
    assert_same(&instructions[1], &ledger_proof::verify_withdraw(None, &proof));
    assert_eq!(
        token()
            .confidential_transfer_withdraw(&key_of(1), &key_of(2), Some(&key_of(3)), 91, 9, &info, &pair, &key, &vec![])
            .unwrap_err(),
        TokenError::AccountDecryption
    );
}

#[test]
fn withheld_fees_are_withdrawn_as_the_ledger_encodes_it() {
    let balance = AeCiphertext([3; 36]);
    let instructions = token()
        .confidential_transfer_withdraw_withheld_tokens_from_mint_with(
            &key(1),
            &key(2),
            Some(&key(9)),
            None,
            &balance,
            &vec![key(4)],
        )
        .unwrap();
    assert_eq!(instructions.len(), 1);
    assert_same(
        &instructions[0],
        &ledger_fee::inner_withdraw_withheld_tokens_from_mint(
            &spl_token_2022::id(),
            &lk(11),
            &lk(1),
            &PodAeCiphertext([3; 36]),
            &lk(2),
            &[&lk(4)],
            ProofLocation::ContextStateAccount(&lk(9)),
        )
        .unwrap(),
    );
    let instructions = token()
        .confidential_transfer_withdraw_withheld_tokens_from_accounts_with(
            &key(1),
            &key(2),
            Some(&key(9)),
            None,
            &balance,
            &vec![key(5), key(6)],
            &vec![key(4), key(7)],
        )
        .unwrap();
    assert_same(
        &instructions[0],
        &ledger_fee::inner_withdraw_withheld_tokens_from_accounts(
            &spl_token_2022::id(),
            &lk(11),
            &lk(1),
            &PodAeCiphertext([3; 36]),
            &lk(2),
            &[&lk(4), &lk(7)],
            &[&lk(5), &lk(6)],
            ProofLocation::ContextStateAccount(&lk(9)),
        )
        .unwrap(),
    );
    let proof = vec![0u8; 8];
    let instructions = token()
        .confidential_transfer_withdraw_withheld_tokens_from_accounts_with(
            &key(1),
            &key(2),
            None,
            Some(&proof),
            &balance,
            &vec![key(5)],
            &vec![],
        )
        .unwrap();
    assert_eq!(instructions.len(), 2);
    assert_eq!(instructions[1].data[0], 3);
    let zeroed: spl_token_2022::solana_zk_token_sdk::instruction::CiphertextCiphertextEqualityProofData =
        bytemuck::Zeroable::zeroed();
    assert_same(
        &instructions[0],
        &ledger_fee::inner_withdraw_withheld_tokens_from_accounts(
            &spl_token_2022::id(),
            &lk(11),
            &lk(1),
            &PodAeCiphertext([3; 36]),
            &lk(2),
            &[],
            &[&lk(5)],
            ProofLocation::InstructionOffset(1.try_into().unwrap(), &zeroed),
        )
        .unwrap(),
    );
    let _ = PodElGamalCiphertext([0; 64]);
}

#[test]
fn proofs_have_the_size_of_their_kind() {
    let (key, ledger_key) = aes_key();
    let (pair, ledger_pair) = keypair();
    let (_, other) = keypair();
    let info = info_with(100, &ledger_key, &ledger_pair);
    let destination = ElGamalPubkey(other.pubkey().to_bytes());
    assert_eq!(
        token_client::proof_generation::pubkey_validity_proof_data(&pair).unwrap().len(),
        std::mem::size_of::<PubkeyValidityData>()
    );
    assert_eq!(
        info.generate_transfer_proof_data(1, &pair, &key, &destination, Some(&destination))
            .unwrap()
            .len(),
        std::mem::size_of::<TransferData>()
    );
    assert_eq!(
        info.generate_transfer_with_fee_proof_data(
            1,
            &pair,
            &key,
            &destination,
            None,
            &destination,
            100,
            10
        )
        .unwrap()
        .len(),
        token_client::proof_generation::TRANSFER_WITH_FEE_PROOF_LEN
    );
    let split = info.generate_split_transfer_proof_data(1, &pair, &key, &destination, None).unwrap();
    assert_eq!(split.equality_proof_data.len(), 320);
    assert_eq!(split.ciphertext_validity_proof_data.len(), 416);
    assert_eq!(split.range_proof_data.len(), 1000);
    let withheld = token_client::confidential::WithheldTokensInfo {
        withheld_amount: ElGamalCiphertext(ledger_pair.pubkey().encrypt(3u64).to_bytes()),
    };
    assert_eq!(withheld.generate_proof_data(&pair, &destination).unwrap().len(), 416);
    assert!(withheld.generate_proof_data(&ElGamalKeypair([255; 64]), &destination).is_none());
}

#[test]
fn a_transfer_that_cannot_be_proved_ends_with_the_proof_error() {
    let (key, ledger_key) = aes_key();
    let (pair, ledger_pair) = keypair();
    let destination = ElGamalPubkey(ledger_pair.pubkey().to_bytes());
    let unreadable = ElGamalPubkey([255; 32]);
    let info = info_with(100, &ledger_key, &ledger_pair);
    let token = token();
    let run = |context: Option<&Pubkey>,
               amount: u64,
               pair: &ElGamalKeypair,
               key: &AeKey,
               destination: &ElGamalPubkey| {
        token.confidential_transfer_transfer(
            &key_of(1),
            &key_of(2),
            &key_of(3),
            context,
            amount,
            &info,
            pair,
            key,
            destination,
            None,
            &vec![],
        )
    };
    let account = key_of(9);
    let ok = run(None, 100, &pair, &key, &destination).unwrap();
    assert_eq!(ok.instructions.len(), 2);
    assert_eq!(ok.instructions[1].data.len(), 1 + 1536);
    assert_eq!(ok.instructions[1].data[257..289], pair.0[..32]);
    assert_eq!(ok.instructions[1].data[289..321], destination.0);
    assert_eq!(run(Some(&account), 100, &pair, &key, &destination).unwrap().instructions.len(), 1);
    for refused in [
        run(None, 101, &pair, &key, &destination),
        run(None, 1, &pair, &AeKey([9; 16]), &destination),
        run(None, 1, &ElGamalKeypair([255; 64]), &key, &destination),
        run(None, 1, &pair, &key, &unreadable),
    ] {
        assert_eq!(refused.unwrap_err(), TokenError::ProofGeneration);
    }
    for refused in [
        run(Some(&account), 101, &pair, &key, &destination),
        run(Some(&account), 1, &pair, &AeKey([9; 16]), &destination),
    ] {
        assert_eq!(refused.unwrap_err(), TokenError::AccountDecryption);
    }
    assert!(run(Some(&account), 1, &ElGamalKeypair([255; 64]), &key, &unreadable).is_ok());
}

#[test]
fn configuring_with_a_key_pair_that_cannot_be_proved_gives_no_instructions() {
    let (key, _) = aes_key();
    let (pair, _) = keypair();
    let token = token();
    let run = |context: Option<&Pubkey>, pair: &ElGamalKeypair| {
        token.confidential_transfer_configure_token_account(
            &key_of(1),
            &key_of(2),
            context,
            None,
            pair,
            &key,
            &vec![],
        )
    };
    let mut zero_secret = pair.0;
    zero_secret[32..].copy_from_slice(&[0; 32]);
    let made = run(None, &pair).unwrap();
    assert_eq!(made.len(), 2);
    assert_eq!(made[1].data.len(), 1 + 96);
    assert_eq!(made[1].data[1..33], pair.0[..32]);
    assert_eq!(run(None, &ElGamalKeypair([255; 64])).unwrap_err(), TokenError::ProofGeneration);
    assert_eq!(run(None, &ElGamalKeypair(zero_secret)).unwrap_err(), TokenError::ProofGeneration);
    assert_eq!(run(Some(&key_of(9)), &ElGamalKeypair([255; 64])).unwrap().len(), 1);
}
