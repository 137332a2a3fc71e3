use solana_program::pubkey::Pubkey as LedgerKey;
use std::str::FromStr;
use vstd::prelude::*;

verus! {

/// Length in bytes of an account address.
pub const PUBKEY_BYTES: usize = 32;

/// True when every byte of `bytes` is zero.
pub open spec fn all_zero(bytes: Seq<u8>) -> bool {
    forall|i: int| 0 <= i < bytes.len() ==> bytes[i] == 0
}

/// Tells whether every one of the 32 bytes is zero.
pub fn bytes_all_zero(bytes: &[u8; 32]) -> (r: bool)
    ensures
        r == all_zero(bytes@),
{
    let mut i: usize = 0;
    while i < 32
        invariant
            i <= 32,
            forall|j: int| 0 <= j < i ==> bytes[j] == 0,
        decreases 32 - i,
    {
        if bytes[i] != 0 {
            return false;
        }
        i += 1;
    }
    true
}

/// Tells whether two arrays of 32 bytes hold the same bytes.
pub fn bytes_equal(a: &[u8; 32], b: &[u8; 32]) -> (r: bool)
    ensures
        r == (*a == *b),
{
    let mut i: usize = 0;
    while i < 32
        invariant
            i <= 32,
            forall|j: int| 0 <= j < i ==> a[j] == b[j],
        decreases 32 - i,
    {
        if a[i] != b[i] {
            return false;
        }
        i += 1;
    }
    proof {
        assert(*a =~= *b);
    }
    true
}

/// The address of an account or program: 32 bytes.
#[derive(Clone, Copy, Debug, Eq, Hash)]
pub struct Pubkey {
    pub bytes: [u8; 32],
}

impl PartialEq for Pubkey {
    fn eq(&self, other: &Pubkey) -> (r: bool) {
        bytes_equal(&self.bytes, &other.bytes)
    }
}

impl vstd::std_specs::cmp::PartialEqSpecImpl for Pubkey {
    open spec fn obeys_eq_spec() -> bool {
        true
    }

    open spec fn eq_spec(&self, other: &Pubkey) -> bool {
        *self == *other
    }
}

impl View for Pubkey {
    type V = Seq<u8>;

    open spec fn view(&self) -> Seq<u8> {
        self.bytes@
    }
}

/// The text that the ledger's own key type prints for the key with these
/// bytes (its base-58 form).
pub uninterp spec fn base58_text(bytes: Seq<u8>) -> Seq<char>;

/// The key that the ledger's own key type reads from a text, if it reads
/// one.
pub uninterp spec fn base58_key(text: Seq<char>) -> Option<Pubkey>;

/// Calls `to_string` of `solana_program::pubkey::Pubkey` on the key with the
/// same bytes. The text is a function of the bytes alone.
#[verifier::external_body]
fn key_to_base58(key: &Pubkey) -> (r: String)
    ensures
        r@ == base58_text(key@),
{
    LedgerKey::new_from_array(key.bytes).to_string()
}

/// Calls `from_str` of `solana_program::pubkey::Pubkey`, and hands back the
/// bytes of the key it read, or nothing where it refused the text.
#[verifier::external_body]
fn key_from_base58(text: &str) -> (r: Option<Pubkey>)
    ensures
        r == base58_key(text@),
{
    LedgerKey::from_str(text).ok().map(|k| Pubkey { bytes: k.to_bytes() })
}

impl Pubkey {
    /// Makes an address from its 32 bytes.
    pub fn new_from_array(bytes: [u8; 32]) -> (r: Pubkey)
        ensures
            r.bytes == bytes,
    {
        Pubkey { bytes }
    }

    /// The 32 bytes of the address.
    pub fn to_bytes(&self) -> (r: [u8; 32])
        ensures
            r == self.bytes,
    {
        self.bytes
    }

    /// True when every byte of the address is zero.
    pub open spec fn is_zero(&self) -> bool {
        all_zero(self@)
    }

    /// The address whose bytes are all zero.
    pub open spec fn zero() -> Pubkey {
        Pubkey { bytes: vstd::array::spec_array_fill_for_copy_type::<u8, 32>(0u8) }
    }

    /// Tells whether this is the all-zero address, which stands for "no
    /// address" wherever an address is optional.
    pub fn is_default(&self) -> (r: bool)
        ensures
            r == self.is_zero(),
    {
        bytes_all_zero(&self.bytes)
    }

    /// The address in base 58, as the ledger's tools print it.
    pub fn to_text(&self) -> (r: String)
        ensures
            r@ == base58_text(self@),
    {
        key_to_base58(self)
    }

    /// Reads an address from its base-58 text.
    pub fn from_text(text: &str) -> (r: Option<Pubkey>)
        ensures
            r == base58_key(text@),
    {
        key_from_base58(text)
    }
}

impl Default for Pubkey {
    fn default() -> (r: Pubkey)
        ensures
            r == Pubkey::zero(),
    {
        Pubkey { bytes: [0u8; 32] }
    }
}

/// A checkpoint of the ledger ("blockhash"): 32 bytes.
#[derive(Clone, Copy, Debug, Eq, Hash)]
pub struct Blockhash {
    pub bytes: [u8; 32],
}

impl PartialEq for Blockhash {
    fn eq(&self, other: &Blockhash) -> (r: bool) {
        bytes_equal(&self.bytes, &other.bytes)
    }
}

impl vstd::std_specs::cmp::PartialEqSpecImpl for Blockhash {
    open spec fn obeys_eq_spec() -> bool {
        true
    }

    open spec fn eq_spec(&self, other: &Blockhash) -> bool {
        *self == *other
    }
}

impl View for Blockhash {
    type V = Seq<u8>;

    open spec fn view(&self) -> Seq<u8> {
        self.bytes@
    }
}

impl Blockhash {
    /// Makes a checkpoint value from its 32 bytes.
    pub fn new_from_array(bytes: [u8; 32]) -> (r: Blockhash)
        ensures
            r.bytes == bytes,
    {
        Blockhash { bytes }
    }

    /// The 32 bytes of the checkpoint value.
    pub fn to_bytes(&self) -> (r: [u8; 32])
        ensures
            r == self.bytes,
    {
        self.bytes
    }
}

} // verus!
