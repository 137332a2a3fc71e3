use vstd::prelude::*;

verus! {

/// The code of "the arguments provided to a program instruction were
/// invalid".
pub const INVALID_ARGUMENT: u64 = 0x2_0000_0000;

/// The code of "an instruction's data contents was invalid".
pub const INVALID_INSTRUCTION_DATA: u64 = 0x3_0000_0000;

/// The code of "the account did not have the expected program id".
pub const INCORRECT_PROGRAM_ID: u64 = 0x7_0000_0000;

/// The code of "a signature was required but not found".
pub const MISSING_REQUIRED_SIGNATURE: u64 = 0x8_0000_0000;

/// An error reported by a ledger program or by the code that encodes its
/// instructions, held as the 64-bit code under which the ledger reports it:
/// a built-in error has its number in the upper 32 bits, a program's own
/// error is its 32-bit number.
#[derive(Clone, Copy, Debug, PartialEq, Eq, Structural)]
pub struct ProgramError {
    pub code: u64,
}

impl ProgramError {
    /// The error "invalid argument".
    pub fn invalid_argument() -> (r: ProgramError)
        ensures
            r.code == INVALID_ARGUMENT,
    {
        ProgramError { code: INVALID_ARGUMENT }
    }
}

/// Why an operation on a token could not be prepared or carried out.
#[derive(Clone, Debug)]
pub enum TokenError {
    /// The ledger client or a signer failed; the text is its message.
    Client(String),
    /// A ledger program's encoder or decoder refused the data.
    Program(ProgramError),
    /// The requested account does not exist.
    AccountNotFound,
    /// The account is not owned by the token program of this handle.
    AccountInvalidOwner,
    /// The account belongs to another mint.
    AccountInvalidMint,
    /// The address is not the owner's associated address for this mint.
    AccountInvalidAssociatedAddress,
    /// The address is not a valid auxiliary account address.
    AccountInvalidAuxiliaryAddress,
    /// A proof could not be generated.
    ProofGeneration,
    /// The deposit is larger than the largest allowed.
    MaximumDepositTransferAmountExceeded,
    /// An encryption key could not be used; the text is the signer's
    /// message.
    Key(String),
    /// A balance could not be decrypted or re-encrypted.
    AccountDecryption,
    /// The account holds less than the operation needs.
    NotEnoughFunds,
    /// A signer that the memo requires is not among the signers.
    MissingMemoSigner,
    /// The operation needs the mint's decimals, and the handle has none.
    MissingDecimals,
    /// The handle's decimals differ from the mint's.
    InvalidDecimals,
}

impl TokenError {
    /// When two errors count as the same: the same kind, with the same
    /// message for a client error and the same code for a program error. Two
    /// key errors never count as the same.
    pub open spec fn same_as(&self, other: &TokenError) -> bool {
        match (*self, *other) {
            (TokenError::Client(a), TokenError::Client(b)) => a@ == b@,
            (TokenError::Program(a), TokenError::Program(b)) => a == b,
            (TokenError::AccountNotFound, TokenError::AccountNotFound) => true,
            (TokenError::AccountInvalidOwner, TokenError::AccountInvalidOwner) => true,
            (TokenError::AccountInvalidMint, TokenError::AccountInvalidMint) => true,
            (
                TokenError::AccountInvalidAssociatedAddress,
                TokenError::AccountInvalidAssociatedAddress,
            ) => true,
            (
                TokenError::AccountInvalidAuxiliaryAddress,
                TokenError::AccountInvalidAuxiliaryAddress,
            ) => true,
            (TokenError::ProofGeneration, TokenError::ProofGeneration) => true,
            (
                TokenError::MaximumDepositTransferAmountExceeded,
                TokenError::MaximumDepositTransferAmountExceeded,
            ) => true,
            (TokenError::AccountDecryption, TokenError::AccountDecryption) => true,
            (TokenError::NotEnoughFunds, TokenError::NotEnoughFunds) => true,
            (TokenError::MissingMemoSigner, TokenError::MissingMemoSigner) => true,
            (TokenError::MissingDecimals, TokenError::MissingDecimals) => true,
            (TokenError::InvalidDecimals, TokenError::InvalidDecimals) => true,
            _ => false,
        }
    }
}

impl PartialEq for TokenError {
    fn eq(&self, other: &TokenError) -> (r: bool) {
        match self {
            TokenError::Client(a) => match other {
                TokenError::Client(b) => *a == *b,
                _ => false,
            },
            TokenError::Program(a) => match other {
                TokenError::Program(b) => a.code == b.code,
                _ => false,
            },
            TokenError::AccountNotFound => matches!(other, TokenError::AccountNotFound),
            TokenError::AccountInvalidOwner => matches!(other, TokenError::AccountInvalidOwner),
            TokenError::AccountInvalidMint => matches!(other, TokenError::AccountInvalidMint),
            TokenError::AccountInvalidAssociatedAddress => matches!(
                other,
                TokenError::AccountInvalidAssociatedAddress
            ),
            TokenError::AccountInvalidAuxiliaryAddress => matches!(
                other,
                TokenError::AccountInvalidAuxiliaryAddress
            ),
            TokenError::ProofGeneration => matches!(other, TokenError::ProofGeneration),
            TokenError::MaximumDepositTransferAmountExceeded => matches!(
                other,
                TokenError::MaximumDepositTransferAmountExceeded
            ),
            TokenError::Key(_) => false,
            TokenError::AccountDecryption => matches!(other, TokenError::AccountDecryption),
            TokenError::NotEnoughFunds => matches!(other, TokenError::NotEnoughFunds),
            TokenError::MissingMemoSigner => matches!(other, TokenError::MissingMemoSigner),
            TokenError::MissingDecimals => matches!(other, TokenError::MissingDecimals),
            TokenError::InvalidDecimals => matches!(other, TokenError::InvalidDecimals),
        }
    }
}

impl vstd::std_specs::cmp::PartialEqSpecImpl for TokenError {
    open spec fn obeys_eq_spec() -> bool {
        true
    }

    open spec fn eq_spec(&self, other: &TokenError) -> bool {
        self.same_as(other)
    }
}

} // verus!
