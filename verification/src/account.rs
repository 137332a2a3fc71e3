//! Accounts as the ledger stores them, the token program's state in them,
//! and the size of an account that is to carry given extensions.
use crate::error::{ProgramError, TokenError, INVALID_ARGUMENT};
use crate::pubkey::Pubkey;
use crate::state::{AccountState, ExtensionType};
use crate::token::Token;
use solana_program::pubkey::Pubkey as LedgerKey;
use spl_token_2022::extension::{
    BaseStateWithExtensions, ExtensionType as LedgerExtensionType, StateWithExtensionsOwned,
};
use spl_token_2022::state::{
    Account as LedgerAccount, AccountState as LedgerAccountState, Mint as LedgerMint,
};
use vstd::prelude::*;

verus! {

/// The size in bytes of a multisignature account.
pub const MULTISIG_LEN: usize = 355;

/// An account as the ledger hands it out.
#[derive(Debug)]
pub struct BaseAccount {
    pub lamports: u64,
    pub data: Vec<u8>,
    /// The program that owns the account.
    pub owner: Pubkey,
    pub executable: bool,
    pub rent_epoch: u64,
}

/// The state of a mint.
#[derive(Clone, Copy, Debug)]
pub struct Mint {
    pub mint_authority: Option<Pubkey>,
    pub supply: u64,
    pub decimals: u8,
    pub is_initialized: bool,
    pub freeze_authority: Option<Pubkey>,
}

/// The state of a token account.
#[derive(Clone, Copy, Debug)]
pub struct Account {
    pub mint: Pubkey,
    pub owner: Pubkey,
    pub amount: u64,
    pub delegate: Option<Pubkey>,
    pub state: AccountState,
    /// For an account of wrapped native currency, its rent-exempt reserve.
    pub is_native: Option<u64>,
    pub delegated_amount: u64,
    pub close_authority: Option<Pubkey>,
}

impl Account {
    /// Tells whether the account holds wrapped native currency.
    pub fn is_native(&self) -> (r: bool)
        ensures
            r == (self.is_native is Some),
    {
        self.is_native.is_some()
    }
}

/// A mint's state together with the account data it was read from, which
/// hold its extensions.
#[derive(Debug)]
pub struct MintInfo {
    pub base: Mint,
    pub data: Vec<u8>,
}

/// A token account's state together with the account data it was read
/// from, which hold its extensions.
#[derive(Debug)]
pub struct AccountInfo {
    pub base: Account,
    pub data: Vec<u8>,
}

/// The mint that the token program reads from account data, or the error
/// with which it refuses them.
pub uninterp spec fn unpacked_mint(data: Seq<u8>) -> Result<Mint, ProgramError>;

/// The token account that the token program reads from account data, or
/// the error with which it refuses them.
pub uninterp spec fn unpacked_account(data: Seq<u8>) -> Result<Account, ProgramError>;

/// The numbers of the extensions that the token program finds in the data of
/// a mint, in the order in which they are stored, or the error with which it
/// refuses the data.
pub uninterp spec fn mint_extension_codes(data: Seq<u8>) -> Result<Seq<u16>, ProgramError>;

/// The size of a mint that carries the extensions with these numbers, or
/// the error for a list that has no fixed size.
pub uninterp spec fn mint_len(extension_codes: Seq<u16>) -> Result<usize, ProgramError>;

/// The size of a token account that carries the extensions with these
/// numbers, or the error for a list that has no fixed size.
pub uninterp spec fn account_len(extension_codes: Seq<u16>) -> Result<usize, ProgramError>;

/// True when every number of `codes` is the number of an extension.
pub open spec fn valid_codes(codes: Seq<u16>) -> bool {
    forall|i: int| 0 <= i < codes.len() ==> codes[i] < 24
}

/// Calls `StateWithExtensionsOwned::<Mint>::unpack` of
/// `spl_token_2022::extension` on a copy of the data, and hands back the
/// base state field by field, or the error as its code. The result depends
/// on the data alone.
#[verifier::external_body]
pub(crate) fn unpack_mint(data: &Vec<u8>) -> (r: Result<Mint, ProgramError>)
    ensures
        r == unpacked_mint(data@),
{
    let k = |p: LedgerKey| Pubkey { bytes: p.to_bytes() };
    StateWithExtensionsOwned::<LedgerMint>::unpack(data.clone())
        .map(|s| Mint {
            mint_authority: Option::from(s.base.mint_authority).map(k),
            supply: s.base.supply,
            decimals: s.base.decimals,
            is_initialized: s.base.is_initialized,
            freeze_authority: Option::from(s.base.freeze_authority).map(k),
        })
        .map_err(|e| ProgramError { code: e.into() })
}

/// Calls `StateWithExtensionsOwned::<Account>::unpack` of
/// `spl_token_2022::extension` on a copy of the data, and hands back the
/// base state field by field, or the error as its code. The result depends
/// on the data alone.
#[verifier::external_body]
pub(crate) fn unpack_account(data: &Vec<u8>) -> (r: Result<Account, ProgramError>)
    ensures
        r == unpacked_account(data@),
{
    let k = |p: LedgerKey| Pubkey { bytes: p.to_bytes() };
    let s = StateWithExtensionsOwned::<LedgerAccount>::unpack(data.clone()).map_err(|e| ProgramError { code: e.into() })?.base;
    let state = match s.state {
        LedgerAccountState::Uninitialized => AccountState::Uninitialized,
        LedgerAccountState::Initialized => AccountState::Initialized,
        LedgerAccountState::Frozen => AccountState::Frozen,
    };
    Ok(Account {
        mint: k(s.mint), owner: k(s.owner), amount: s.amount, delegate: Option::from(s.delegate).map(k), state,
        is_native: s.is_native.into(), delegated_amount: s.delegated_amount, close_authority: Option::from(s.close_authority).map(k),
    })
}

/// Calls `StateWithExtensionsOwned::<Mint>::unpack` and then
/// `get_extension_types` of `spl_token_2022::extension`, and hands back the
/// number of each extension type found. The result depends on the data
/// alone; every number is that of an extension type, so below 24.
#[verifier::external_body]
pub(crate) fn read_mint_extension_codes(data: &Vec<u8>) -> (r: Result<Vec<u16>, ProgramError>)
    ensures
        match mint_extension_codes(data@) {
            Ok(codes) => r is Ok && r->Ok_0@ == codes && valid_codes(codes),
            Err(e) => r == Err::<Vec<u16>, ProgramError>(e),
        },
{
    StateWithExtensionsOwned::<LedgerMint>::unpack(data.clone())
        .and_then(|s| s.get_extension_types())
        .map(|types| types.into_iter().map(u16::from).collect())
        .map_err(|e| ProgramError { code: e.into() })
}

/// Calls `ExtensionType::try_calculate_account_len::<Mint>` of
/// `spl_token_2022::extension` on the extension types with the given
/// numbers. The result depends on the numbers alone.
#[verifier::external_body]
fn calculate_mint_len(extension_codes: &Vec<u16>) -> (r: Result<usize, ProgramError>)
    requires
        valid_codes(extension_codes@),
    ensures
        r == mint_len(extension_codes@),
{
    let types: Vec<_> = extension_codes.iter().map(|c| LedgerExtensionType::try_from(*c).unwrap()).collect();
    LedgerExtensionType::try_calculate_account_len::<LedgerMint>(&types).map_err(|e| ProgramError { code: e.into() })
}

/// Calls `ExtensionType::try_calculate_account_len::<Account>` of
/// `spl_token_2022::extension` on the extension types with the given
/// numbers. The result depends on the numbers alone.
#[verifier::external_body]
fn calculate_account_len(extension_codes: &Vec<u16>) -> (r: Result<usize, ProgramError>)
    requires
        valid_codes(extension_codes@),
    ensures
        r == account_len(extension_codes@),
{
    let types: Vec<_> = extension_codes.iter().map(|c| LedgerExtensionType::try_from(*c).unwrap()).collect();
    LedgerExtensionType::try_calculate_account_len::<LedgerAccount>(&types).map_err(|e| ProgramError { code: e.into() })
}

impl ExtensionType {
    /// The number under which the token program stores the extension.
    pub open spec fn spec_code(self) -> u16 {
        match self {
            ExtensionType::Uninitialized => 0,
            ExtensionType::TransferFeeConfig => 1,
            ExtensionType::TransferFeeAmount => 2,
            ExtensionType::MintCloseAuthority => 3,
            ExtensionType::ConfidentialTransferMint => 4,
            ExtensionType::ConfidentialTransferAccount => 5,
            ExtensionType::DefaultAccountState => 6,
            ExtensionType::ImmutableOwner => 7,
            ExtensionType::MemoTransfer => 8,
            ExtensionType::NonTransferable => 9,
            ExtensionType::InterestBearingConfig => 10,
            ExtensionType::CpiGuard => 11,
            ExtensionType::PermanentDelegate => 12,
            ExtensionType::NonTransferableAccount => 13,
            ExtensionType::TransferHook => 14,
            ExtensionType::TransferHookAccount => 15,
            ExtensionType::ConfidentialTransferFeeConfig => 16,
            ExtensionType::ConfidentialTransferFeeAmount => 17,
            ExtensionType::MetadataPointer => 18,
            ExtensionType::TokenMetadata => 19,
            ExtensionType::GroupPointer => 20,
            ExtensionType::TokenGroup => 21,
            ExtensionType::GroupMemberPointer => 22,
            ExtensionType::TokenGroupMember => 23,
        }
    }

    /// The number under which the token program stores the extension.
    pub fn code(self) -> (r: u16)
        ensures
            r == self.spec_code(),
            r < 24,
    {
        match self {
            ExtensionType::Uninitialized => 0,
            ExtensionType::TransferFeeConfig => 1,
            ExtensionType::TransferFeeAmount => 2,
            ExtensionType::MintCloseAuthority => 3,
            ExtensionType::ConfidentialTransferMint => 4,
            ExtensionType::ConfidentialTransferAccount => 5,
            ExtensionType::DefaultAccountState => 6,
            ExtensionType::ImmutableOwner => 7,
            ExtensionType::MemoTransfer => 8,
            ExtensionType::NonTransferable => 9,
            ExtensionType::InterestBearingConfig => 10,
            ExtensionType::CpiGuard => 11,
            ExtensionType::PermanentDelegate => 12,
            ExtensionType::NonTransferableAccount => 13,
            ExtensionType::TransferHook => 14,
            ExtensionType::TransferHookAccount => 15,
            ExtensionType::ConfidentialTransferFeeConfig => 16,
            ExtensionType::ConfidentialTransferFeeAmount => 17,
            ExtensionType::MetadataPointer => 18,
            ExtensionType::TokenMetadata => 19,
            ExtensionType::GroupPointer => 20,
            ExtensionType::TokenGroup => 21,
            ExtensionType::GroupMemberPointer => 22,
            ExtensionType::TokenGroupMember => 23,
        }
    }

    /// The extension that is stored under `code`, for a number below 24.
    pub open spec fn spec_from_code(code: u16) -> ExtensionType {
        if code == 0 {
            ExtensionType::Uninitialized
        } else if code == 1 {
            ExtensionType::TransferFeeConfig
        } else if code == 2 {
            ExtensionType::TransferFeeAmount
        } else if code == 3 {
            ExtensionType::MintCloseAuthority
        } else if code == 4 {
            ExtensionType::ConfidentialTransferMint
        } else if code == 5 {
            ExtensionType::ConfidentialTransferAccount
        } else if code == 6 {
            ExtensionType::DefaultAccountState
        } else if code == 7 {
            ExtensionType::ImmutableOwner
        } else if code == 8 {
            ExtensionType::MemoTransfer
        } else if code == 9 {
            ExtensionType::NonTransferable
        } else if code == 10 {
            ExtensionType::InterestBearingConfig
        } else if code == 11 {
            ExtensionType::CpiGuard
        } else if code == 12 {
            ExtensionType::PermanentDelegate
        } else if code == 13 {
            ExtensionType::NonTransferableAccount
        } else if code == 14 {
            ExtensionType::TransferHook
        } else if code == 15 {
            ExtensionType::TransferHookAccount
        } else if code == 16 {
            ExtensionType::ConfidentialTransferFeeConfig
        } else if code == 17 {
            ExtensionType::ConfidentialTransferFeeAmount
        } else if code == 18 {
            ExtensionType::MetadataPointer
        } else if code == 19 {
            ExtensionType::TokenMetadata
        } else if code == 20 {
            ExtensionType::GroupPointer
        } else if code == 21 {
            ExtensionType::TokenGroup
        } else if code == 22 {
            ExtensionType::GroupMemberPointer
        } else {
            ExtensionType::TokenGroupMember
        }
    }

    /// The extension that is stored under `code`, if there is one.
    pub fn from_code(code: u16) -> (r: Option<ExtensionType>)
        ensures
            code < 24 ==> r == Some(Self::spec_from_code(code)) && r->Some_0.spec_code() == code,
            code >= 24 ==> r is None,
    {
        match code {
            0 => Some(ExtensionType::Uninitialized),
            1 => Some(ExtensionType::TransferFeeConfig),
            2 => Some(ExtensionType::TransferFeeAmount),
            3 => Some(ExtensionType::MintCloseAuthority),
            4 => Some(ExtensionType::ConfidentialTransferMint),
            5 => Some(ExtensionType::ConfidentialTransferAccount),
            6 => Some(ExtensionType::DefaultAccountState),
            7 => Some(ExtensionType::ImmutableOwner),
            8 => Some(ExtensionType::MemoTransfer),
            9 => Some(ExtensionType::NonTransferable),
            10 => Some(ExtensionType::InterestBearingConfig),
            11 => Some(ExtensionType::CpiGuard),
            12 => Some(ExtensionType::PermanentDelegate),
            13 => Some(ExtensionType::NonTransferableAccount),
            14 => Some(ExtensionType::TransferHook),
            15 => Some(ExtensionType::TransferHookAccount),
            16 => Some(ExtensionType::ConfidentialTransferFeeConfig),
            17 => Some(ExtensionType::ConfidentialTransferFeeAmount),
            18 => Some(ExtensionType::MetadataPointer),
            19 => Some(ExtensionType::TokenMetadata),
            20 => Some(ExtensionType::GroupPointer),
            21 => Some(ExtensionType::TokenGroup),
            22 => Some(ExtensionType::GroupMemberPointer),
            23 => Some(ExtensionType::TokenGroupMember),
            _ => None,
        }
    }
}

/// The numbers of the extensions of a list.
pub open spec fn codes_of(extensions: Seq<ExtensionType>) -> Seq<u16> {
    extensions.map_values(|e: ExtensionType| e.spec_code())
}

/// The numbers of the extensions of a list.
pub fn extension_codes(extensions: &Vec<ExtensionType>) -> (r: Vec<u16>)
    ensures
        r@ == codes_of(extensions@),
        valid_codes(r@),
{
    let mut codes: Vec<u16> = Vec::new();
    let mut i: usize = 0;
    while i < extensions.len()
        invariant
            i <= extensions.len(),
            codes@ == codes_of(extensions@).subrange(0, i as int),
            valid_codes(codes@),
        decreases extensions.len() - i,
    {
        codes.push(extensions[i].code());
        assert(codes@ =~= codes_of(extensions@).subrange(0, i + 1));
        i += 1;
    }
    assert(codes_of(extensions@).subrange(0, extensions@.len() as int) == codes_of(extensions@));
    codes
}

/// The extensions with the given numbers.
pub open spec fn extensions_of(codes: Seq<u16>) -> Seq<ExtensionType> {
    codes.map_values(|c: u16| ExtensionType::spec_from_code(c))
}

/// The extensions with the given numbers.
pub fn extensions_of_codes(codes: &Vec<u16>) -> (r: Vec<ExtensionType>)
    requires
        valid_codes(codes@),
    ensures
        r@ == extensions_of(codes@),
        codes_of(r@) == codes@,
{
    let mut extensions: Vec<ExtensionType> = Vec::new();
    let mut i: usize = 0;
    while i < codes.len()
        invariant
            i <= codes.len(),
            valid_codes(codes@),
            codes_of(extensions@) == codes@.subrange(0, i as int),
            extensions@ == extensions_of(codes@).subrange(0, i as int),
        decreases codes.len() - i,
    {
        let extension = ExtensionType::from_code(codes[i]).unwrap();
        let ghost before = extensions@;
        extensions.push(extension);
        assert(codes_of(extensions@) =~= codes_of(before).push(extension.spec_code()));
        assert(codes_of(extensions@) =~= codes@.subrange(0, i + 1));
        assert(extensions@ =~= extensions_of(codes@).subrange(0, i + 1));
        i += 1;
    }
    assert(codes@.subrange(0, codes@.len() as int) == codes@);
    assert(extensions_of(codes@).subrange(0, codes@.len() as int) == extensions_of(codes@));
    extensions
}

/// The size of a mint that carries `extensions`.
pub fn try_calculate_mint_len(extensions: &Vec<ExtensionType>) -> (r: Result<usize, ProgramError>)
    ensures
        r == mint_len(codes_of(extensions@)),
{
    let codes = extension_codes(extensions);
    calculate_mint_len(&codes)
}

/// The size of a token account that carries `extensions`.
pub fn try_calculate_account_len(extensions: &Vec<ExtensionType>) -> (r: Result<
    usize,
    ProgramError,
>)
    ensures
        r == account_len(codes_of(extensions@)),
{
    let codes = extension_codes(extensions);
    calculate_account_len(&codes)
}

/// The account extensions that a mint extension calls for.
pub open spec fn required_for(mint_extension: ExtensionType) -> Seq<ExtensionType> {
    match mint_extension {
        ExtensionType::TransferFeeConfig => seq![ExtensionType::TransferFeeAmount],
        ExtensionType::NonTransferable => seq![ExtensionType::NonTransferableAccount],
        ExtensionType::TransferHook => seq![ExtensionType::TransferHookAccount],
        _ => Seq::empty(),
    }
}

/// The account extensions that the extensions of a mint call for, in the
/// order of the mint's extensions.
pub open spec fn required_init_account_extensions(mint_extensions: Seq<ExtensionType>) -> Seq<
    ExtensionType,
>
    decreases mint_extensions.len(),
{
    if mint_extensions.len() == 0 {
        Seq::empty()
    } else {
        required_init_account_extensions(mint_extensions.drop_last()) + required_for(
            mint_extensions.last(),
        )
    }
}

/// The account extensions that the extensions of a mint call for.
pub fn get_required_init_account_extensions(mint_extensions: &Vec<ExtensionType>) -> (r: Vec<
    ExtensionType,
>)
    ensures
        r@ == required_init_account_extensions(mint_extensions@),
{
    let mut required: Vec<ExtensionType> = Vec::new();
    let mut i: usize = 0;
    while i < mint_extensions.len()
        invariant
            i <= mint_extensions.len(),
            required@ == required_init_account_extensions(mint_extensions@.subrange(0, i as int)),
        decreases mint_extensions.len() - i,
    {
        assert(mint_extensions@.subrange(0, i + 1).drop_last() == mint_extensions@.subrange(
            0,
            i as int,
        ));
        match mint_extensions[i] {
            ExtensionType::TransferFeeConfig => required.push(ExtensionType::TransferFeeAmount),
            ExtensionType::NonTransferable => required.push(ExtensionType::NonTransferableAccount),
            ExtensionType::TransferHook => required.push(ExtensionType::TransferHookAccount),
            _ => {},
        }
        i += 1;
    }
    assert(mint_extensions@.subrange(0, mint_extensions@.len() as int) == mint_extensions@);
    required
}

} // verus!
