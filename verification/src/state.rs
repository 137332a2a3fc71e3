//! The small closed sets that the token program's instructions speak of.
use vstd::prelude::*;

verus! {

/// The state of a token account.
#[derive(Clone, Copy, Debug, PartialEq, Eq, Structural)]
pub enum AccountState {
    /// Not yet initialized.
    Uninitialized,
    /// Initialized: the owner and delegate may use it.
    Initialized,
    /// Frozen by the mint's freeze authority.
    Frozen,
}

impl AccountState {
    /// The number under which the token program stores the state.
    pub open spec fn spec_code(self) -> u8 {
        match self {
            AccountState::Uninitialized => 0,
            AccountState::Initialized => 1,
            AccountState::Frozen => 2,
        }
    }
}

/// Which authority of a mint or account an instruction sets.
#[derive(Clone, Copy, Debug, PartialEq, Eq, Structural)]
pub enum AuthorityType {
    MintTokens,
    FreezeAccount,
    AccountOwner,
    CloseAccount,
    TransferFeeConfig,
    WithheldWithdraw,
    CloseMint,
    InterestRate,
    PermanentDelegate,
    ConfidentialTransferMint,
    TransferHookProgramId,
    ConfidentialTransferFeeConfig,
    MetadataPointer,
    GroupPointer,
    GroupMemberPointer,
}

impl AuthorityType {
    /// The number under which the token program's instructions name the
    /// kind of authority.
    pub open spec fn spec_code(self) -> u8 {
        match self {
            AuthorityType::MintTokens => 0,
            AuthorityType::FreezeAccount => 1,
            AuthorityType::AccountOwner => 2,
            AuthorityType::CloseAccount => 3,
            AuthorityType::TransferFeeConfig => 4,
            AuthorityType::WithheldWithdraw => 5,
            AuthorityType::CloseMint => 6,
            AuthorityType::InterestRate => 7,
            AuthorityType::PermanentDelegate => 8,
            AuthorityType::ConfidentialTransferMint => 9,
            AuthorityType::TransferHookProgramId => 10,
            AuthorityType::ConfidentialTransferFeeConfig => 11,
            AuthorityType::MetadataPointer => 12,
            AuthorityType::GroupPointer => 13,
            AuthorityType::GroupMemberPointer => 14,
        }
    }
}

/// The extensions that a mint or an account can carry, in the order of the
/// numbers under which the token program stores them.
#[derive(Clone, Copy, Debug, PartialEq, Eq, Structural)]
pub enum ExtensionType {
    Uninitialized,
    TransferFeeConfig,
    TransferFeeAmount,
    MintCloseAuthority,
    ConfidentialTransferMint,
    ConfidentialTransferAccount,
    DefaultAccountState,
    ImmutableOwner,
    MemoTransfer,
    NonTransferable,
    InterestBearingConfig,
    CpiGuard,
    PermanentDelegate,
    NonTransferableAccount,
    TransferHook,
    TransferHookAccount,
    ConfidentialTransferFeeConfig,
    ConfidentialTransferFeeAmount,
    MetadataPointer,
    TokenMetadata,
    GroupPointer,
    TokenGroup,
    GroupMemberPointer,
    TokenGroupMember,
}

/// A field of a token's metadata.
#[derive(Clone, Debug)]
pub enum Field {
    Name,
    Symbol,
    Uri,
    /// A field of the user's own, by its key.
    Key(String),
}

/// A metadata field as mathematical values.
pub enum FieldView {
    Name,
    Symbol,
    Uri,
    Key(Seq<char>),
}

impl View for Field {
    type V = FieldView;

    open spec fn view(&self) -> FieldView {
        match *self {
            Field::Name => FieldView::Name,
            Field::Symbol => FieldView::Symbol,
            Field::Uri => FieldView::Uri,
            Field::Key(k) => FieldView::Key(k@),
        }
    }
}

/// Tells whether `list` holds `extension`.
pub fn contains_extension(list: &Vec<ExtensionType>, extension: ExtensionType) -> (r: bool)
    ensures
        r == list@.contains(extension),
{
    let mut i: usize = 0;
    while i < list.len()
        invariant
            i <= list.len(),
            forall|j: int| 0 <= j < i ==> list@[j] != extension,
        decreases list.len() - i,
    {
        if list[i] == extension {
            return true;
        }
        i += 1;
    }
    false
}

} // verus!
