use token_client::error::{ProgramError, INVALID_ARGUMENT};
use token_client::optional_keys::{
    ElGamalPubkey, KeyTextError, OptionalNonZeroElGamalPubkey, OptionalNonZeroPubkey,
    OPTIONAL_NONZERO_ELGAMAL_PUBKEY_LEN,
};
use token_client::pubkey::{Pubkey, PUBKEY_BYTES};

fn invalid_argument() -> ProgramError {
    ProgramError { code: INVALID_ARGUMENT }
}

#[test]
fn test_pod_non_zero_option() {
    assert_eq!(
        Some(Pubkey::new_from_array([1; PUBKEY_BYTES])),
        Option::<Pubkey>::from(OptionalNonZeroPubkey::from_bytes(&[1; PUBKEY_BYTES]).unwrap())
    );
    assert_eq!(
        None,
        Option::<Pubkey>::from(OptionalNonZeroPubkey::from_bytes(&[0; PUBKEY_BYTES]).unwrap())
    );
    assert_eq!(
        OptionalNonZeroPubkey::from_bytes(&[]).unwrap_err(),
        invalid_argument()
    );
    assert_eq!(
        OptionalNonZeroPubkey::from_bytes(&[0; 1]).unwrap_err(),
        invalid_argument()
    );
    assert_eq!(
        OptionalNonZeroPubkey::from_bytes(&[1; 1]).unwrap_err(),
        invalid_argument()
    );
}

#[test]
fn test_pod_non_zero_option_serde_some() {
    let optional_non_zero_pubkey_some =
        OptionalNonZeroPubkey(Pubkey::new_from_array([1; PUBKEY_BYTES]));
    let serialized_some = serde_json::to_string(&optional_non_zero_pubkey_some.to_text()).unwrap();
    assert_eq!(
        &serialized_some,
        "\"4vJ9JU1bJJE96FWSJKvHsmmFADCg4gpZQff4P3bkLKi\""
    );

    let written = serde_json::from_str::<Option<String>>(&serialized_some).unwrap();
    let deserialized_some = OptionalNonZeroPubkey::from_text(written.as_deref()).unwrap();
    assert_eq!(optional_non_zero_pubkey_some, deserialized_some);
}

#[test]
fn test_pod_non_zero_option_serde_none() {
    let optional_non_zero_pubkey_none =
        OptionalNonZeroPubkey(Pubkey::new_from_array([0; PUBKEY_BYTES]));
    let serialized_none = serde_json::to_string(&optional_non_zero_pubkey_none.to_text()).unwrap();
    assert_eq!(&serialized_none, "null");

    let written = serde_json::from_str::<Option<String>>(&serialized_none).unwrap();
    let deserialized_none = OptionalNonZeroPubkey::from_text(written.as_deref()).unwrap();
    assert_eq!(optional_non_zero_pubkey_none, deserialized_none);
}

#[test]
fn test_pod_non_zero_elgamal_option() {
    assert_eq!(
        Some(ElGamalPubkey([1; OPTIONAL_NONZERO_ELGAMAL_PUBKEY_LEN])),
        Option::<ElGamalPubkey>::from(OptionalNonZeroElGamalPubkey(ElGamalPubkey(
            [1; OPTIONAL_NONZERO_ELGAMAL_PUBKEY_LEN]
        )))
    );
    assert_eq!(
        None,
        Option::<ElGamalPubkey>::from(OptionalNonZeroElGamalPubkey(ElGamalPubkey(
            [0; OPTIONAL_NONZERO_ELGAMAL_PUBKEY_LEN]
        )))
    );

    assert_eq!(
        OptionalNonZeroElGamalPubkey(ElGamalPubkey([1; OPTIONAL_NONZERO_ELGAMAL_PUBKEY_LEN])),
        OptionalNonZeroElGamalPubkey::from_bytes(&[1; OPTIONAL_NONZERO_ELGAMAL_PUBKEY_LEN])
            .unwrap()
    );
    assert!(OptionalNonZeroElGamalPubkey::from_bytes(&[]).is_err());
}

#[test]
fn test_pod_non_zero_elgamal_option_serde_some() {
    let optional_non_zero_elgamal_pubkey_some =
        OptionalNonZeroElGamalPubkey(ElGamalPubkey([1; OPTIONAL_NONZERO_ELGAMAL_PUBKEY_LEN]));
    let serialized_some =
        serde_json::to_string(&optional_non_zero_elgamal_pubkey_some.to_text()).unwrap();
    assert_eq!(
        &serialized_some,
        "\"AQEBAQEBAQEBAQEBAQEBAQEBAQEBAQEBAQEBAQEBAQE=\""
    );

    let written = serde_json::from_str::<Option<String>>(&serialized_some).unwrap();
    let deserialized_some = OptionalNonZeroElGamalPubkey::from_text(written.as_deref()).unwrap();
    assert_eq!(optional_non_zero_elgamal_pubkey_some, deserialized_some);
}

#[test]
fn test_pod_non_zero_elgamal_option_serde_none() {
    let optional_non_zero_elgamal_pubkey_none =
        OptionalNonZeroElGamalPubkey(ElGamalPubkey([0; OPTIONAL_NONZERO_ELGAMAL_PUBKEY_LEN]));
    let serialized_none =
        serde_json::to_string(&optional_non_zero_elgamal_pubkey_none.to_text()).unwrap();
    assert_eq!(&serialized_none, "null");

    let written = serde_json::from_str::<Option<String>>(&serialized_none).unwrap();
    let deserialized_none = OptionalNonZeroElGamalPubkey::from_text(written.as_deref()).unwrap();
    assert_eq!(optional_non_zero_elgamal_pubkey_none, deserialized_none);
}

#[test]
fn try_from_accepts_none_and_nonzero_keys() {
    let none = OptionalNonZeroPubkey::try_from(None).unwrap();
    assert_eq!(none, OptionalNonZeroPubkey(Pubkey::new_from_array([0; 32])));
    let key = Pubkey::new_from_array([7; 32]);
    let some = OptionalNonZeroPubkey::try_from(Some(key)).unwrap();
    assert_eq!(Option::<Pubkey>::from(some), Some(key));
}

#[test]
fn try_from_refuses_the_zero_key() {
    let zero = Pubkey::new_from_array([0; 32]);
    assert_eq!(
        OptionalNonZeroPubkey::try_from(Some(zero)).unwrap_err(),
        invalid_argument()
    );
    assert_eq!(
        OptionalNonZeroElGamalPubkey::try_from(Some(ElGamalPubkey([0; 32]))).unwrap_err(),
        invalid_argument()
    );
}

#[test]
fn a_key_with_one_nonzero_byte_is_some() {
    let mut bytes = [0u8; 32];
    bytes[31] = 1;
    let value = OptionalNonZeroPubkey::from_bytes(&bytes).unwrap();
    assert_eq!(
        Option::<Pubkey>::from(value),
        Some(Pubkey::new_from_array(bytes))
    );
}

#[test]
fn from_text_refuses_what_is_no_key() {
    assert_eq!(
        OptionalNonZeroPubkey::from_text(Some("not a key!")).unwrap_err(),
        KeyTextError::InvalidValue
    );
    assert_eq!(
        OptionalNonZeroPubkey::from_text(Some("11111111111111111111111111111111")).unwrap_err(),
        KeyTextError::ZeroKey
    );
    assert_eq!(
        OptionalNonZeroElGamalPubkey::from_text(Some("%%%")).unwrap_err(),
        KeyTextError::InvalidValue
    );
    assert_eq!(
        OptionalNonZeroElGamalPubkey::from_text(Some("AQEB")).unwrap_err(),
        KeyTextError::WrongLength
    );
    assert_eq!(
        OptionalNonZeroElGamalPubkey::from_text(Some(
            "AAAAAAAAAAAAAAAAAAAAAAAAAAAAAAAAAAAAAAAAAAA="
        ))
        .unwrap_err(),
        KeyTextError::ZeroKey
    );
}

#[test]
fn equals_compares_the_bytes() {
    let value = OptionalNonZeroElGamalPubkey(ElGamalPubkey([3; 32]));
    assert!(value.equals(&ElGamalPubkey([3; 32])));
    assert!(!value.equals(&ElGamalPubkey([4; 32])));
}

#[test]
fn base58_text_round_trips() {
    let key = Pubkey::new_from_array([9; 32]);
    assert_eq!(Pubkey::from_text(&key.to_text()), Some(key));
    assert_eq!(
        Pubkey::new_from_array([0; 32]).to_text(),
        "11111111111111111111111111111111"
    );
}
