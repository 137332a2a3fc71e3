//! Token metadata and token groups, which a mint keeps in itself, and the
//! lamports that the mint needs more when they grow.
use crate::account::{unpacked_mint, BaseAccount};
use crate::encode::parts::{field_fits, key_fits, text_fits};
use crate::encode::{token_group, token_metadata};
use crate::error::{ProgramError, TokenError};
use crate::instruction::{
    instructs, push_instruction, single_instruction, system_transfer, system_transfer_instruction,
    views, Instruction, InstructionView,
};
use crate::optional_keys::OptionalNonZeroPubkey;
use crate::pubkey::Pubkey;
use crate::state::Field;
use crate::token::{Token, TokenView};
use spl_token_2022::extension::{BaseStateWithExtensions, StateWithExtensionsOwned};
use spl_token_2022::state::Mint as LedgerMint;
use spl_token_group_interface::state::{TokenGroup, TokenGroupMember};
use spl_token_metadata_interface::state::{Field as LedgerField, TokenMetadata};
use vstd::prelude::*;

verus! {

/// The size of the mint's account once it holds new metadata with this
/// name, symbol and address, or the error with which the token program
/// refuses the mint's data.
pub uninterp spec fn new_metadata_len(
    mint_data: Seq<u8>,
    name: Seq<char>,
    symbol: Seq<char>,
    uri: Seq<char>,
) -> Result<usize, ProgramError>;

/// The size of the mint's account once `field` of its metadata is set to
/// `value`, or the error with which the token program refuses the mint's
/// data.
pub uninterp spec fn updated_metadata_len(
    mint_data: Seq<u8>,
    field: crate::state::FieldView,
    value: Seq<char>,
) -> Result<usize, ProgramError>;

/// Whether the data of a mint hold a token group. Data that are no mint's
/// hold none.
pub uninterp spec fn holds_token_group(mint_data: Seq<u8>) -> bool;

/// Whether the data of a mint hold a membership of a token group. Data
/// that are no mint's hold none.
pub uninterp spec fn holds_token_group_member(mint_data: Seq<u8>) -> bool;

/// The size of the mint's account once it holds a token group, or the
/// error with which the token program refuses the mint's data.
pub uninterp spec fn token_group_len(mint_data: Seq<u8>) -> Result<usize, ProgramError>;

/// The size of the mint's account once it holds a membership of a token
/// group, or the error with which the token program refuses the mint's
/// data.
pub uninterp spec fn token_group_member_len(mint_data: Seq<u8>) -> Result<usize, ProgramError>;

/// Calls `try_get_new_account_len_for_variable_len_extension` of
/// `spl_token_2022::extension` on the mint that
/// `StateWithExtensionsOwned::<Mint>::unpack` reads from a copy of the data,
/// for metadata that hold the name, the symbol and the address and are
/// otherwise empty. The result depends on the arguments alone.
#[verifier::external_body]
fn calculate_new_metadata_len(mint_data: &Vec<u8>, name: &str, symbol: &str, uri: &str) -> (r: Result<
    usize,
    ProgramError,
>)
    ensures
        r == new_metadata_len(mint_data@, name@, symbol@, uri@),
{
    let metadata = TokenMetadata { name: name.to_string(), symbol: symbol.to_string(), uri: uri.to_string(), ..Default::default() };
    StateWithExtensionsOwned::<LedgerMint>::unpack(mint_data.clone())
        .and_then(|s| s.try_get_new_account_len_for_variable_len_extension(&metadata))
        .map_err(|e| ProgramError { code: e.into() })
}

/// Calls `get_variable_len_extension::<TokenMetadata>`, then
/// `TokenMetadata::update`, then
/// `try_get_new_account_len_for_variable_len_extension` of
/// `spl_token_2022::extension` on the mint that
/// `StateWithExtensionsOwned::<Mint>::unpack` reads from a copy of the
/// data. The result depends on the arguments alone.
#[verifier::external_body]
fn calculate_updated_metadata_len(mint_data: &Vec<u8>, field: &Field, value: &str) -> (r: Result<
    usize,
    ProgramError,
>)
    ensures
        r == updated_metadata_len(mint_data@, field@, value@),
{
    let field = match field {
        Field::Name => LedgerField::Name,
        Field::Symbol => LedgerField::Symbol,
        Field::Uri => LedgerField::Uri,
        Field::Key(key) => LedgerField::Key(key.clone()),
    };
    let state = StateWithExtensionsOwned::<LedgerMint>::unpack(mint_data.clone()).map_err(|e| ProgramError { code: e.into() })?;
    let mut metadata = state.get_variable_len_extension::<TokenMetadata>().map_err(|e| ProgramError { code: e.into() })?;
    metadata.update(field, value.to_string());
    state.try_get_new_account_len_for_variable_len_extension(&metadata).map_err(|e| ProgramError { code: e.into() })
}

/// Calls `get_extension::<TokenGroup>` of `spl_token_2022::extension` on
/// the mint that `StateWithExtensionsOwned::<Mint>::unpack` reads from a
/// copy of the data, and tells whether both succeed. The result depends on
/// the data alone.
#[verifier::external_body]
fn has_token_group(mint_data: &Vec<u8>) -> (r: bool)
    ensures
        r == holds_token_group(mint_data@),
{
    StateWithExtensionsOwned::<LedgerMint>::unpack(mint_data.clone())
        .is_ok_and(|s| s.get_extension::<TokenGroup>().is_ok())
}

/// Calls `get_extension::<TokenGroupMember>` of
/// `spl_token_2022::extension` on the mint that
/// `StateWithExtensionsOwned::<Mint>::unpack` reads from a copy of the
/// data, and tells whether both succeed. The result depends on the data
/// alone.
#[verifier::external_body]
fn has_token_group_member(mint_data: &Vec<u8>) -> (r: bool)
    ensures
        r == holds_token_group_member(mint_data@),
{
    StateWithExtensionsOwned::<LedgerMint>::unpack(mint_data.clone())
        .is_ok_and(|s| s.get_extension::<TokenGroupMember>().is_ok())
}

/// Calls `try_get_new_account_len::<TokenGroup>` of
/// `spl_token_2022::extension` on the mint that
/// `StateWithExtensionsOwned::<Mint>::unpack` reads from a copy of the
/// data. The result depends on the data alone.
#[verifier::external_body]
fn calculate_token_group_len(mint_data: &Vec<u8>) -> (r: Result<usize, ProgramError>)
    ensures
        r == token_group_len(mint_data@),
{
    StateWithExtensionsOwned::<LedgerMint>::unpack(mint_data.clone())
        .and_then(|s| s.try_get_new_account_len::<TokenGroup>())
        .map_err(|e| ProgramError { code: e.into() })
}

/// Calls `try_get_new_account_len::<TokenGroupMember>` of
/// `spl_token_2022::extension` on the mint that
/// `StateWithExtensionsOwned::<Mint>::unpack` reads from a copy of the
/// data. The result depends on the data alone.
#[verifier::external_body]
fn calculate_token_group_member_len(mint_data: &Vec<u8>) -> (r: Result<usize, ProgramError>)
    ensures
        r == token_group_member_len(mint_data@),
{
    StateWithExtensionsOwned::<LedgerMint>::unpack(mint_data.clone())
        .and_then(|s| s.try_get_new_account_len::<TokenGroupMember>())
        .map_err(|e| ProgramError { code: e.into() })
}

/// The lamports that an account lacks for the rent of its new size: none
/// where it holds enough already.
pub open spec fn spec_additional_rent(new_rent_exempt_minimum: u64, account_lamports: u64) -> u64 {
    if new_rent_exempt_minimum > account_lamports {
        (new_rent_exempt_minimum - account_lamports) as u64
    } else {
        0
    }
}

/// The lamports that an account lacks for the rent of its new size.
pub fn additional_rent(new_rent_exempt_minimum: u64, account_lamports: u64) -> (r: u64)
    ensures
        r == spec_additional_rent(new_rent_exempt_minimum, account_lamports),
{
    if new_rent_exempt_minimum > account_lamports {
        new_rent_exempt_minimum - account_lamports
    } else {
        0
    }
}

/// The instructions of an operation that may have to pay rent first: the
/// payer moves `additional_lamports` to the mint, unless there are none to
/// move, and then the operation's own instruction follows.
pub open spec fn with_rent_transfer(
    payer: Pubkey,
    mint: Pubkey,
    additional_lamports: u64,
    instruction: InstructionView,
) -> Seq<InstructionView> {
    if additional_lamports > 0 {
        seq![system_transfer_instruction(payer, mint, additional_lamports), instruction]
    } else {
        seq![instruction]
    }
}

/// The two extensions of fixed size that a mint can be given later.
#[derive(Clone, Copy, Debug, PartialEq, Eq, Structural)]
pub enum GroupExtension {
    TokenGroup,
    TokenGroupMember,
}

impl Token {
    /// Initializes the metadata of the token; the metadata are kept in the mint
    /// itself.
    pub fn token_metadata_initialize(
        &self,
        update_authority: &Pubkey,
        mint_authority: &Pubkey,
        name: String,
        symbol: String,
        uri: String,
    ) -> (r: Vec<Instruction>)
        requires
            text_fits(name@),
            text_fits(symbol@),
            text_fits(uri@),
        ensures
            views(r@) == seq![
                token_metadata::initialize_encoding(
                    self@.program_id,
                    self@.pubkey,
                    *update_authority,
                    self@.pubkey,
                    *mint_authority,
                    name@,
                    symbol@,
                    uri@,
                ),
            ],
    {
        single_instruction(token_metadata::initialize(
            &self.program_id,
            &self.pubkey,
            update_authority,
            &self.pubkey,
            mint_authority,
            name.as_str(),
            symbol.as_str(),
            uri.as_str(),
        ))
    }

    /// Sets one field of the token's metadata.
    pub fn token_metadata_update_field(
        &self,
        update_authority: &Pubkey,
        field: Field,
        value: String,
    ) -> (r: Vec<Instruction>)
        requires
            field_fits(field@),
            text_fits(value@),
        ensures
            views(r@) == seq![
                token_metadata::update_field_encoding(
                    self@.program_id,
                    self@.pubkey,
                    *update_authority,
                    field@,
                    value@,
                ),
            ],
    {
        single_instruction(token_metadata::update_field(
            &self.program_id,
            &self.pubkey,
            update_authority,
            &field,
            value.as_str(),
        ))
    }

    /// Removes a field of the user's own from the token's metadata.
    pub fn token_metadata_remove_key(
        &self,
        update_authority: &Pubkey,
        key: String,
        idempotent: bool,
    ) -> (r: Vec<Instruction>)
        requires
            text_fits(key@),
        ensures
            views(r@) == seq![
                token_metadata::remove_key_encoding(
                    self@.program_id,
                    self@.pubkey,
                    *update_authority,
                    key@,
                    idempotent,
                ),
            ],
    {
        single_instruction(token_metadata::remove_key(
            &self.program_id,
            &self.pubkey,
            update_authority,
            key.as_str(),
            idempotent,
        ))
    }

    /// Initializes a group of tokens; the group is kept in the mint itself.
    pub fn token_group_initialize(
        &self,
        mint_authority: &Pubkey,
        update_authority: &Pubkey,
        max_size: u32,
    ) -> (r: Vec<Instruction>)
        requires
            !update_authority.is_zero(),
        ensures
            views(r@) == seq![
                token_group::initialize_group_encoding(
                    self@.program_id,
                    self@.pubkey,
                    self@.pubkey,
                    *mint_authority,
                    Some(*update_authority),
                    max_size,
                ),
            ],
    {
        single_instruction(token_group::initialize_group(
            &self.program_id,
            &self.pubkey,
            &self.pubkey,
            mint_authority,
            Some(*update_authority),
            max_size,
        ))
    }

    /// Changes the largest size of the group.
    pub fn token_group_update_max_size(
        &self,
        update_authority: &Pubkey,
        new_max_size: u32,
    ) -> (r: Vec<Instruction>)
        ensures
            views(r@) == seq![
                token_group::update_group_max_size_encoding(
                    self@.program_id,
                    self@.pubkey,
                    *update_authority,
                    new_max_size,
                ),
            ],
    {
        single_instruction(token_group::update_group_max_size(
            &self.program_id,
            &self.pubkey,
            update_authority,
            new_max_size,
        ))
    }

    /// Hands the group to another update authority, or to none.
    pub fn token_group_update_authority(
        &self,
        current_authority: &Pubkey,
        new_authority: Option<Pubkey>,
    ) -> (r: Vec<Instruction>)
        requires
            key_fits(new_authority),
        ensures
            views(r@) == seq![
                token_group::update_group_authority_encoding(
                    self@.program_id,
                    self@.pubkey,
                    *current_authority,
                    new_authority,
                ),
            ],
    {
        single_instruction(token_group::update_group_authority(
            &self.program_id,
            &self.pubkey,
            current_authority,
            new_authority,
        ))
    }

    /// Makes the mint a member of the group `group_mint`.
    pub fn token_group_initialize_member(
        &self,
        mint_authority: &Pubkey,
        group_mint: &Pubkey,
        group_update_authority: &Pubkey,
    ) -> (r: Vec<Instruction>)
        ensures
            views(r@) == seq![
                token_group::initialize_member_encoding(
                    self@.program_id,
                    self@.pubkey,
                    self@.pubkey,
                    *mint_authority,
                    *group_mint,
                    *group_update_authority,
                ),
            ],
    {
        single_instruction(token_group::initialize_member(
            &self.program_id,
            &self.pubkey,
            &self.pubkey,
            mint_authority,
            group_mint,
            group_update_authority,
        ))
    }

    /// Hands the metadata to another update authority, or to none. The
    /// all-zero key stands for "none" and is refused as an authority.
    pub fn token_metadata_update_authority(
        &self,
        current_authority: &Pubkey,
        new_authority: Option<Pubkey>,
    ) -> (r: Result<Vec<Instruction>, TokenError>)
        ensures
            instructs(
                r,
                if new_authority is Some && new_authority->Some_0.is_zero() {
                    Err(
                        TokenError::Program(ProgramError { code: crate::error::INVALID_ARGUMENT }),
                    )
                } else {
                    Ok(
                        seq![
                            token_metadata::update_authority_encoding(
                                self@.program_id,
                                self@.pubkey,
                                *current_authority,
                                OptionalNonZeroPubkey(
                                    match new_authority {
                                        Some(key) => key,
                                        None => Pubkey::zero(),
                                    },
                                ),
                            ),
                        ],
                    )
                },
            ),
    {
        let new_authority = match OptionalNonZeroPubkey::try_from(new_authority) {
            Ok(new_authority) => new_authority,
            Err(e) => {
                return Err(TokenError::Program(e));
            },
        };
        Ok(
            single_instruction(
                token_metadata::update_authority(
                    &self.program_id,
                    &self.pubkey,
                    current_authority,
                    new_authority,
                ),
            ),
        )
    }

    /// Puts the payer's transfer of `additional_lamports` to the mint,
    /// where there are any, before `instruction`.
    pub fn with_rent_transfer(
        &self,
        payer: &Pubkey,
        additional_lamports: u64,
        instruction: Instruction,
    ) -> (r: Vec<Instruction>)
        ensures
            views(r@) == with_rent_transfer(
                *payer,
                self@.pubkey,
                additional_lamports,
                instruction@,
            ),
    {
        let mut instructions: Vec<Instruction> = Vec::new();
        assert(views(instructions@) =~= Seq::<InstructionView>::empty());
        if additional_lamports > 0 {
            push_instruction(
                &mut instructions,
                system_transfer(payer, &self.pubkey, additional_lamports),
            );
        }
        push_instruction(&mut instructions, instruction);
        assert(views(instructions@) =~= with_rent_transfer(
            *payer,
            self@.pubkey,
            additional_lamports,
            instruction@,
        ));
        instructions
    }

    /// The size that the mint's account needs to hold new metadata. The
    /// caller asks the network for the rent of an account of this size, and
    /// `additional_rent` tells how many lamports the mint lacks.
    pub fn new_metadata_account_len(
        &self,
        mint_account: &BaseAccount,
        name: &str,
        symbol: &str,
        uri: &str,
    ) -> (r: Result<usize, TokenError>)
        ensures
            r == match self@.unpack_mint_info(mint_account.owner, mint_account.data@) {
                Err(e) => Err::<usize, TokenError>(e),
                Ok(_) => match new_metadata_len(mint_account.data@, name@, symbol@, uri@) {
                    Ok(len) => Ok(len),
                    Err(e) => Err(TokenError::Program(e)),
                },
            },
    {
        match self.check_mint(mint_account) {
            Err(e) => Err(e),
            Ok(()) => match calculate_new_metadata_len(&mint_account.data, name, symbol, uri) {
                Ok(len) => Ok(len),
                Err(e) => Err(TokenError::Program(e)),
            },
        }
    }

    /// The size that the mint's account needs once `field` of its metadata
    /// is set to `value`.
    pub fn updated_metadata_account_len(
        &self,
        mint_account: &BaseAccount,
        field: &Field,
        value: &str,
    ) -> (r: Result<usize, TokenError>)
        ensures
            r == match self@.unpack_mint_info(mint_account.owner, mint_account.data@) {
                Err(e) => Err::<usize, TokenError>(e),
                Ok(_) => match updated_metadata_len(mint_account.data@, field@, value@) {
                    Ok(len) => Ok(len),
                    Err(e) => Err(TokenError::Program(e)),
                },
            },
    {
        match self.check_mint(mint_account) {
            Err(e) => Err(e),
            Ok(()) => match calculate_updated_metadata_len(&mint_account.data, field, value) {
                Ok(len) => Ok(len),
                Err(e) => Err(TokenError::Program(e)),
            },
        }
    }

    /// The size that the mint's account needs to hold the extension, or
    /// nothing where the mint holds the extension already and needs no more
    /// lamports.
    pub fn fixed_len_extension_account_len(
        &self,
        mint_account: &BaseAccount,
        extension: GroupExtension,
    ) -> (r: Result<Option<usize>, TokenError>)
        ensures
            r == match self@.unpack_mint_info(mint_account.owner, mint_account.data@) {
                Err(e) => Err::<Option<usize>, TokenError>(e),
                Ok(_) => match extension {
                    GroupExtension::TokenGroup => if holds_token_group(mint_account.data@) {
                        Ok(None)
                    } else {
                        match token_group_len(mint_account.data@) {
                            Ok(len) => Ok(Some(len)),
                            Err(e) => Err(TokenError::Program(e)),
                        }
                    },
                    GroupExtension::TokenGroupMember => if holds_token_group_member(
                        mint_account.data@,
                    ) {
                        Ok(None)
                    } else {
                        match token_group_member_len(mint_account.data@) {
                            Ok(len) => Ok(Some(len)),
                            Err(e) => Err(TokenError::Program(e)),
                        }
                    },
                },
            },
    {
        match self.check_mint(mint_account) {
            Err(e) => Err(e),
            Ok(()) => match extension {
                GroupExtension::TokenGroup => {
                    if has_token_group(&mint_account.data) {
                        Ok(None)
                    } else {
                        match calculate_token_group_len(&mint_account.data) {
                            Ok(len) => Ok(Some(len)),
                            Err(e) => Err(TokenError::Program(e)),
                        }
                    }
                },
                GroupExtension::TokenGroupMember => {
                    if has_token_group_member(&mint_account.data) {
                        Ok(None)
                    } else {
                        match calculate_token_group_member_len(&mint_account.data) {
                            Ok(len) => Ok(Some(len)),
                            Err(e) => Err(TokenError::Program(e)),
                        }
                    }
                },
            },
        }
    }

    /// Checks that an account is a mint of this handle: see
    /// `unpack_mint_info`.
    pub fn check_mint(&self, mint_account: &BaseAccount) -> (r: Result<(), TokenError>)
        ensures
            match self@.unpack_mint_info(mint_account.owner, mint_account.data@) {
                Ok(_) => r is Ok,
                Err(e) => r is Err && r->Err_0 == e,
            },
    {
        if mint_account.owner != self.program_id {
            return Err(TokenError::AccountInvalidOwner);
        }
        match crate::account::unpack_mint(&mint_account.data) {
            Err(e) => Err(TokenError::Program(e)),
            Ok(mint) => {
                if let Some(decimals) = self.decimals {
                    if decimals != mint.decimals {
                        return Err(TokenError::InvalidDecimals);
                    }
                }
                Ok(())
            },
        }
    }

    /// Initializes the metadata of the token, after the payer has moved the
    /// lamports that the mint lacks for its new size.
    pub fn token_metadata_initialize_with_rent_transfer(
        &self,
        payer: &Pubkey,
        update_authority: &Pubkey,
        mint_authority: &Pubkey,
        name: String,
        symbol: String,
        uri: String,
        additional_lamports: u64,
    ) -> (r: Vec<Instruction>)
        requires
            text_fits(name@),
            text_fits(symbol@),
            text_fits(uri@),
        ensures
            views(r@) == with_rent_transfer(
                *payer,
                self@.pubkey,
                additional_lamports,
                token_metadata::initialize_encoding(
                    self@.program_id,
                    self@.pubkey,
                    *update_authority,
                    self@.pubkey,
                    *mint_authority,
                    name@,
                    symbol@,
                    uri@,
                ),
            ),
    {
        let initialize = token_metadata::initialize(
            &self.program_id,
            &self.pubkey,
            update_authority,
            &self.pubkey,
            mint_authority,
            name.as_str(),
            symbol.as_str(),
            uri.as_str(),
        );
        self.with_rent_transfer(payer, additional_lamports, initialize)
    }

    /// Sets one field of the token's metadata, after the payer has moved
    /// the lamports that the mint lacks for its new size.
    pub fn token_metadata_update_field_with_rent_transfer(
        &self,
        payer: &Pubkey,
        update_authority: &Pubkey,
        field: Field,
        value: String,
        additional_lamports: u64,
    ) -> (r: Vec<Instruction>)
        requires
            field_fits(field@),
            text_fits(value@),
        ensures
            views(r@) == with_rent_transfer(
                *payer,
                self@.pubkey,
                additional_lamports,
                token_metadata::update_field_encoding(
                    self@.program_id,
                    self@.pubkey,
                    *update_authority,
                    field@,
                    value@,
                ),
            ),
    {
        let update = token_metadata::update_field(
            &self.program_id,
            &self.pubkey,
            update_authority,
            &field,
            value.as_str(),
        );
        self.with_rent_transfer(payer, additional_lamports, update)
    }

    /// Initializes a group of tokens, after the payer has moved the
    /// lamports that the mint lacks for its new size.
    pub fn token_group_initialize_with_rent_transfer(
        &self,
        payer: &Pubkey,
        mint_authority: &Pubkey,
        update_authority: &Pubkey,
        max_size: u32,
        additional_lamports: u64,
    ) -> (r: Vec<Instruction>)
        requires
            !update_authority.is_zero(),
        ensures
            views(r@) == with_rent_transfer(
                *payer,
                self@.pubkey,
                additional_lamports,
                token_group::initialize_group_encoding(
                    self@.program_id,
                    self@.pubkey,
                    self@.pubkey,
                    *mint_authority,
                    Some(*update_authority),
                    max_size,
                ),
            ),
    {
        let initialize = token_group::initialize_group(
            &self.program_id,
            &self.pubkey,
            &self.pubkey,
            mint_authority,
            Some(*update_authority),
            max_size,
        );
        self.with_rent_transfer(payer, additional_lamports, initialize)
    }

    /// Makes the mint a member of the group `group_mint`, after the payer
    /// has moved the lamports that the mint lacks for its new size.
    pub fn token_group_initialize_member_with_rent_transfer(
        &self,
        payer: &Pubkey,
        mint_authority: &Pubkey,
        group_mint: &Pubkey,
        group_update_authority: &Pubkey,
        additional_lamports: u64,
    ) -> (r: Vec<Instruction>)
        ensures
            views(r@) == with_rent_transfer(
                *payer,
                self@.pubkey,
                additional_lamports,
                token_group::initialize_member_encoding(
                    self@.program_id,
                    self@.pubkey,
                    self@.pubkey,
                    *mint_authority,
                    *group_mint,
                    *group_update_authority,
                ),
            ),
    {
        let initialize = token_group::initialize_member(
            &self.program_id,
            &self.pubkey,
            &self.pubkey,
            mint_authority,
            group_mint,
            group_update_authority,
        );
        self.with_rent_transfer(payer, additional_lamports, initialize)
    }
}

} // verus!
