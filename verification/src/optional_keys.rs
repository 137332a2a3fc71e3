//! Optional keys that fit in the 32 bytes of a key: all zeros stand for
//! "none".
use crate::error::ProgramError;
use crate::pubkey::{all_zero, base58_key, base58_text, bytes_all_zero, bytes_equal, Pubkey};
use base64::{prelude::BASE64_STANDARD, Engine};
use solana_zk_token_sdk::zk_token_elgamal::pod::ElGamalPubkey as LedgerElGamalPubkey;
use vstd::prelude::*;

verus! {

/// Length in bytes of an ElGamal public key.
pub const OPTIONAL_NONZERO_ELGAMAL_PUBKEY_LEN: usize = 32;

/// Why a text was not accepted as an optional key.
#[derive(Clone, Copy, Debug, PartialEq, Eq, Structural)]
pub enum KeyTextError {
    /// The text is not the text of any key.
    InvalidValue,
    /// The decoded bytes are not as many as a key has.
    WrongLength,
    /// The text is that of the all-zero key, which stands for "none" and
    /// cannot be given as a key.
    ZeroKey,
}

/// What reading an array of 32 bytes from `bytes` gives: the same bytes
/// where there are 32 of them, "invalid argument" otherwise.
pub open spec fn array_read_from(bytes: Seq<u8>, r: Result<[u8; 32], ProgramError>) -> bool {
    if bytes.len() == 32 {
        r.is_ok() && r.unwrap()@ == bytes
    } else {
        r == Err::<[u8; 32], ProgramError>(ProgramError { code: crate::error::INVALID_ARGUMENT })
    }
}

/// Hands back the 32 bytes of `bytes` as an array, or "invalid argument"
/// where `bytes` has another length.
///
/// Calls `bytemuck::try_from_bytes` for an array of 32 bytes, which accepts
/// a slice exactly when its length is 32 (such an array needs no
/// alignment), and then gives the same bytes.
#[verifier::external_body]
fn array_from_bytes(bytes: &[u8]) -> (r: Result<[u8; 32], ProgramError>)
    ensures
        array_read_from(bytes@, r),
{
    bytemuck::try_from_bytes::<[u8; 32]>(bytes).map(|a| *a).map_err(
        |_| ProgramError { code: crate::error::INVALID_ARGUMENT },
    )
}

/// A key that encodes "none" as all zeros.
#[derive(Clone, Copy, Debug, Default, Eq)]
pub struct OptionalNonZeroPubkey(pub Pubkey);

impl PartialEq for OptionalNonZeroPubkey {
    fn eq(&self, other: &OptionalNonZeroPubkey) -> (r: bool) {
        self.0 == other.0
    }
}

impl vstd::std_specs::cmp::PartialEqSpecImpl for OptionalNonZeroPubkey {
    open spec fn obeys_eq_spec() -> bool {
        true
    }

    open spec fn eq_spec(&self, other: &OptionalNonZeroPubkey) -> bool {
        *self == *other
    }
}

impl View for OptionalNonZeroPubkey {
    type V = Option<Pubkey>;

    /// The key that the value stands for, if it stands for one.
    open spec fn view(&self) -> Option<Pubkey> {
        if self.0.is_zero() {
            None
        } else {
            Some(self.0)
        }
    }
}

impl TryFrom<Option<Pubkey>> for OptionalNonZeroPubkey {
    type Error = ProgramError;

    fn try_from(p: Option<Pubkey>) -> (r: Result<Self, ProgramError>) {
        match p {
            None => Ok(OptionalNonZeroPubkey(Pubkey::default())),
            Some(pubkey) => {
                if pubkey.is_default() {
                    Err(ProgramError::invalid_argument())
                } else {
                    Ok(OptionalNonZeroPubkey(pubkey))
                }
            },
        }
    }
}

impl vstd::std_specs::convert::TryFromSpecImpl<Option<Pubkey>> for OptionalNonZeroPubkey {
    open spec fn obeys_try_from_spec() -> bool {
        true
    }

    open spec fn try_from_spec(p: Option<Pubkey>) -> Result<Self, ProgramError> {
        match p {
            None => Ok(OptionalNonZeroPubkey(Pubkey::zero())),
            Some(pubkey) => if pubkey.is_zero() {
                Err(ProgramError { code: crate::error::INVALID_ARGUMENT })
            } else {
                Ok(OptionalNonZeroPubkey(pubkey))
            },
        }
    }
}

impl From<OptionalNonZeroPubkey> for Option<Pubkey> {
    fn from(p: OptionalNonZeroPubkey) -> (r: Option<Pubkey>) {
        if p.0.is_default() {
            None
        } else {
            Some(p.0)
        }
    }
}

impl vstd::std_specs::convert::FromSpecImpl<OptionalNonZeroPubkey> for Option<Pubkey> {
    open spec fn obeys_from_spec() -> bool {
        true
    }

    open spec fn from_spec(p: OptionalNonZeroPubkey) -> Option<Pubkey> {
        p@
    }
}

impl OptionalNonZeroPubkey {
    /// Reads the value from exactly 32 bytes; any other length is an
    /// invalid argument.
    pub fn from_bytes(bytes: &[u8]) -> (r: Result<OptionalNonZeroPubkey, ProgramError>)
        ensures
            bytes@.len() == 32 ==> r.is_ok() && r.unwrap().0@ == bytes@,
            bytes@.len() != 32 ==> r == Err::<OptionalNonZeroPubkey, ProgramError>(
                ProgramError { code: crate::error::INVALID_ARGUMENT },
            ),
    {
        match array_from_bytes(bytes) {
            Ok(array) => Ok(OptionalNonZeroPubkey(Pubkey { bytes: array })),
            Err(e) => Err(e),
        }
    }

    /// What is written out for the value: nothing for "none", else the
    /// base-58 text of the key.
    pub fn to_text(&self) -> (r: Option<String>)
        ensures
            self@ is None <==> r is None,
            self@ matches Some(k) ==> r.unwrap()@ == base58_text(k@),
    {
        if self.0.is_default() {
            None
        } else {
            Some(self.0.to_text())
        }
    }

    /// The value that a written form stands for: "none" where nothing was
    /// written, else the key with that base-58 text. A text that is not a
    /// key's is refused, and so is the text of the all-zero key.
    pub open spec fn spec_from_text(text: Option<Seq<char>>) -> Result<
        OptionalNonZeroPubkey,
        KeyTextError,
    > {
        match text {
            None => Ok(OptionalNonZeroPubkey(Pubkey::zero())),
            Some(t) => match base58_key(t) {
                None => Err(KeyTextError::InvalidValue),
                Some(k) => if k.is_zero() {
                    Err(KeyTextError::ZeroKey)
                } else {
                    Ok(OptionalNonZeroPubkey(k))
                },
            },
        }
    }

    /// Reads the value from its written form.
    pub fn from_text(text: Option<&str>) -> (r: Result<OptionalNonZeroPubkey, KeyTextError>)
        ensures
            r == Self::spec_from_text(
                match text {
                    Some(t) => Some(t@),
                    None => None,
                },
            ),
    {
        match text {
            None => Ok(OptionalNonZeroPubkey(Pubkey::default())),
            Some(t) => match Pubkey::from_text(t) {
                None => Err(KeyTextError::InvalidValue),
                Some(k) => if k.is_default() {
                    Err(KeyTextError::ZeroKey)
                } else {
                    Ok(OptionalNonZeroPubkey(k))
                },
            },
        }
    }
}

/// An ElGamal public key in its stored form: 32 bytes.
#[derive(Clone, Copy, Debug, Eq)]
pub struct ElGamalPubkey(pub [u8; 32]);

impl PartialEq for ElGamalPubkey {
    fn eq(&self, other: &ElGamalPubkey) -> (r: bool) {
        bytes_equal(&self.0, &other.0)
    }
}

impl vstd::std_specs::cmp::PartialEqSpecImpl for ElGamalPubkey {
    open spec fn obeys_eq_spec() -> bool {
        true
    }

    open spec fn eq_spec(&self, other: &ElGamalPubkey) -> bool {
        *self == *other
    }
}

impl View for ElGamalPubkey {
    type V = Seq<u8>;

    open spec fn view(&self) -> Seq<u8> {
        self.0@
    }
}

impl ElGamalPubkey {
    /// The key whose bytes are all zero.
    pub open spec fn zero() -> ElGamalPubkey {
        ElGamalPubkey(vstd::array::spec_array_fill_for_copy_type::<u8, 32>(0u8))
    }

    /// True when every byte of the key is zero.
    pub open spec fn is_zero(&self) -> bool {
        all_zero(self@)
    }

    /// Tells whether this is the all-zero key.
    pub fn is_default(&self) -> (r: bool)
        ensures
            r == self.is_zero(),
    {
        bytes_all_zero(&self.0)
    }
}

impl Default for ElGamalPubkey {
    fn default() -> (r: ElGamalPubkey)
        ensures
            r == ElGamalPubkey::zero(),
    {
        ElGamalPubkey([0u8; 32])
    }
}

/// The text that the encryption library prints for the stored ElGamal key
/// with these bytes (its base-64 form).
pub uninterp spec fn elgamal_text(bytes: Seq<u8>) -> Seq<char>;

/// The bytes that the standard base-64 alphabet, with padding, decodes a
/// text to, if it decodes it.
pub uninterp spec fn base64_bytes(text: Seq<char>) -> Option<Seq<u8>>;

/// Calls `to_string` of the encryption library's stored ElGamal key with
/// the same bytes. The text is a function of the bytes alone.
#[verifier::external_body]
fn elgamal_to_text(key: &ElGamalPubkey) -> (r: String)
    ensures
        r@ == elgamal_text(key@),
{
    LedgerElGamalPubkey(key.0).to_string()
}

/// Calls `decode` of `base64::prelude::BASE64_STANDARD`, and hands back the
/// bytes, or nothing where the text was refused.
#[verifier::external_body]
fn base64_decode(text: &str) -> (r: Option<Vec<u8>>)
    ensures
        r is Some <==> base64_bytes(text@) is Some,
        r is Some ==> r.unwrap()@ == base64_bytes(text@).unwrap(),
{
    BASE64_STANDARD.decode(text).ok()
}

/// An ElGamal public key that encodes "none" as all zeros.
#[derive(Clone, Copy, Debug, Default, Eq)]
pub struct OptionalNonZeroElGamalPubkey(pub ElGamalPubkey);

impl PartialEq for OptionalNonZeroElGamalPubkey {
    fn eq(&self, other: &OptionalNonZeroElGamalPubkey) -> (r: bool) {
        self.0 == other.0
    }
}

impl vstd::std_specs::cmp::PartialEqSpecImpl for OptionalNonZeroElGamalPubkey {
    open spec fn obeys_eq_spec() -> bool {
        true
    }

    open spec fn eq_spec(&self, other: &OptionalNonZeroElGamalPubkey) -> bool {
        *self == *other
    }
}

impl View for OptionalNonZeroElGamalPubkey {
    type V = Option<ElGamalPubkey>;

    /// The key that the value stands for, if it stands for one.
    open spec fn view(&self) -> Option<ElGamalPubkey> {
        if self.0.is_zero() {
            None
        } else {
            Some(self.0)
        }
    }
}

impl OptionalNonZeroElGamalPubkey {
    /// Tells whether the stored bytes are those of `other`.
    pub fn equals(&self, other: &ElGamalPubkey) -> (r: bool)
        ensures
            r == (self.0 == *other),
    {
        self.0 == *other
    }

    /// Reads the value from exactly 32 bytes; any other length is an
    /// invalid argument.
    pub fn from_bytes(bytes: &[u8]) -> (r: Result<OptionalNonZeroElGamalPubkey, ProgramError>)
        ensures
            bytes@.len() == 32 ==> r.is_ok() && r.unwrap().0@ == bytes@,
            bytes@.len() != 32 ==> r == Err::<OptionalNonZeroElGamalPubkey, ProgramError>(
                ProgramError { code: crate::error::INVALID_ARGUMENT },
            ),
    {
        match array_from_bytes(bytes) {
            Ok(array) => Ok(OptionalNonZeroElGamalPubkey(ElGamalPubkey(array))),
            Err(e) => Err(e),
        }
    }

    /// What is written out for the value: nothing for "none", else the
    /// base-64 text of the key.
    pub fn to_text(&self) -> (r: Option<String>)
        ensures
            self@ is None <==> r is None,
            self@ matches Some(k) ==> r.unwrap()@ == elgamal_text(k@),
    {
        if self.0.is_default() {
            None
        } else {
            Some(elgamal_to_text(&self.0))
        }
    }

    /// The value that decoded bytes stand for: they must be 32, and not all
    /// zero.
    pub open spec fn spec_from_decoded(bytes: Seq<u8>, r: Result<Self, KeyTextError>) -> bool {
        if bytes.len() != 32 {
            r == Err::<Self, KeyTextError>(KeyTextError::WrongLength)
        } else if all_zero(bytes) {
            r == Err::<Self, KeyTextError>(KeyTextError::ZeroKey)
        } else {
            r.is_ok() && r.unwrap().0@ == bytes
        }
    }

    /// Makes the value from bytes that were decoded from a text.
    pub fn from_decoded(bytes: &Vec<u8>) -> (r: Result<OptionalNonZeroElGamalPubkey, KeyTextError>)
        ensures
            Self::spec_from_decoded(bytes@, r),
    {
        if bytes.len() != OPTIONAL_NONZERO_ELGAMAL_PUBKEY_LEN {
            return Err(KeyTextError::WrongLength);
        }
        let mut array = [0u8; 32];
        let mut i: usize = 0;
        while i < 32
            invariant
                i <= 32,
                bytes@.len() == 32,
                forall|j: int| 0 <= j < i ==> array[j] == bytes[j],
            decreases 32 - i,
        {
            array[i] = bytes[i];
            i += 1;
        }
        assert(array@ =~= bytes@);
        let key = ElGamalPubkey(array);
        if key.is_default() {
            Err(KeyTextError::ZeroKey)
        } else {
            Ok(OptionalNonZeroElGamalPubkey(key))
        }
    }

    /// Reads the value from its written form: "none" where nothing was
    /// written, else the key whose base-64 text was written.
    pub fn from_text(text: Option<&str>) -> (r: Result<OptionalNonZeroElGamalPubkey, KeyTextError>)
        ensures
            text is None ==> r == Ok::<Self, KeyTextError>(
                OptionalNonZeroElGamalPubkey(ElGamalPubkey::zero()),
            ),
            text matches Some(t) ==> match base64_bytes(t@) {
                None => r == Err::<Self, KeyTextError>(KeyTextError::InvalidValue),
                Some(bytes) => Self::spec_from_decoded(bytes, r),
            },
    {
        match text {
            None => Ok(OptionalNonZeroElGamalPubkey(ElGamalPubkey::default())),
            Some(t) => match base64_decode(t) {
                None => Err(KeyTextError::InvalidValue),
                Some(bytes) => Self::from_decoded(&bytes),
            },
        }
    }
}

impl TryFrom<Option<ElGamalPubkey>> for OptionalNonZeroElGamalPubkey {
    type Error = ProgramError;

    fn try_from(p: Option<ElGamalPubkey>) -> (r: Result<Self, ProgramError>) {
        match p {
            None => Ok(OptionalNonZeroElGamalPubkey(ElGamalPubkey::default())),
            Some(elgamal_pubkey) => {
                if elgamal_pubkey.is_default() {
                    Err(ProgramError::invalid_argument())
                } else {
                    Ok(OptionalNonZeroElGamalPubkey(elgamal_pubkey))
                }
            },
        }
    }
}

impl vstd::std_specs::convert::TryFromSpecImpl<Option<ElGamalPubkey>> for OptionalNonZeroElGamalPubkey {
    open spec fn obeys_try_from_spec() -> bool {
        true
    }

    open spec fn try_from_spec(p: Option<ElGamalPubkey>) -> Result<Self, ProgramError> {
        match p {
            None => Ok(OptionalNonZeroElGamalPubkey(ElGamalPubkey::zero())),
            Some(elgamal_pubkey) => if elgamal_pubkey.is_zero() {
                Err(ProgramError { code: crate::error::INVALID_ARGUMENT })
            } else {
                Ok(OptionalNonZeroElGamalPubkey(elgamal_pubkey))
            },
        }
    }
}

impl From<OptionalNonZeroElGamalPubkey> for Option<ElGamalPubkey> {
    fn from(p: OptionalNonZeroElGamalPubkey) -> (r: Option<ElGamalPubkey>) {
        if p.0.is_default() {
            None
        } else {
            Some(p.0)
        }
    }
}

impl vstd::std_specs::convert::FromSpecImpl<OptionalNonZeroElGamalPubkey> for Option<ElGamalPubkey> {
    open spec fn obeys_from_spec() -> bool {
        true
    }

    open spec fn from_spec(p: OptionalNonZeroElGamalPubkey) -> Option<ElGamalPubkey> {
        p@
    }
}

} // verus!
