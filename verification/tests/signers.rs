use token_client::pubkey::Pubkey;
use token_client::signers::{contains_all, contains_key, get_multisig_signers, signs_alone};

fn key(byte: u8) -> Pubkey {
    Pubkey::new_from_array([byte; 32])
}

#[test]
fn the_authority_alone_gives_no_signers() {
    assert_eq!(get_multisig_signers(&key(1), &vec![key(1)]), Vec::<Pubkey>::new());
    assert!(signs_alone(&key(1), &vec![key(1)]));
}

#[test]
fn the_authority_repeated_is_still_the_authority_alone() {
    assert_eq!(get_multisig_signers(&key(1), &vec![key(1), key(1)]), Vec::<Pubkey>::new());
}

#[test]
fn other_signers_are_listed_unchanged_and_in_order() {
    let signers = vec![key(3), key(1), key(2)];
    assert_eq!(get_multisig_signers(&key(1), &signers), signers);
    assert_eq!(get_multisig_signers(&key(1), &vec![key(2)]), vec![key(2)]);
    assert!(!signs_alone(&key(1), &vec![key(2)]));
}

#[test]
fn no_signers_give_no_signers() {
    assert_eq!(get_multisig_signers(&key(1), &vec![]), Vec::<Pubkey>::new());
    assert!(!signs_alone(&key(1), &vec![]));
}

#[test]
fn containment_of_keys() {
    let present = vec![key(1), key(2), key(3)];
    assert!(contains_key(&present, &key(2)));
    assert!(!contains_key(&present, &key(4)));
    assert!(contains_all(&present, &vec![key(3), key(1)]));
    assert!(contains_all(&present, &vec![]));
    assert!(!contains_all(&present, &vec![key(1), key(9)]));
}
