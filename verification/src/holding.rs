//! Token accounts: finding, creating, wrapping and closing them.
use crate::account::{
    account_len, codes_of, get_required_init_account_extensions, mint_extension_codes,
    read_mint_extension_codes, required_init_account_extensions, try_calculate_account_len,
    unpack_account, unpack_mint, unpacked_account, unpacked_mint, Account, AccountInfo,
    BaseAccount, Mint, MintInfo, extensions_of, extensions_of_codes,
};
use crate::encode::associated::{
    associated_address, create_associated, create_associated_token_account,
    get_associated_token_address_with_program_id,
};
use crate::encode::token;
use crate::error::{ProgramError, TokenError};
use crate::instruction::{
    create_account_instruction, instructs, push_instruction, system_create_account,
    system_transfer, system_transfer_instruction, views, Instruction, InstructionView,
};
use crate::programs::{spec_native_mint, spec_token_id, token_id};
use crate::pubkey::Pubkey;
use crate::signers::{get_multisig_signers, multisig_signers};
use crate::state::{contains_extension, ExtensionType};
use crate::token::{Token, TokenView};
use vstd::prelude::*;

verus! {

/// The extensions of `extra` that `list` lacks are put at its end, each
/// once and in order.
pub open spec fn with_missing(list: Seq<ExtensionType>, extra: Seq<ExtensionType>) -> Seq<
    ExtensionType,
>
    decreases extra.len(),
{
    if extra.len() == 0 {
        list
    } else {
        let before = with_missing(list, extra.drop_last());
        if before.contains(extra.last()) {
            before
        } else {
            before.push(extra.last())
        }
    }
}

/// Puts the extensions of `extra` that `list` lacks at its end.
pub fn add_missing(list: Vec<ExtensionType>, extra: &Vec<ExtensionType>) -> (r: Vec<ExtensionType>)
    ensures
        r@ == with_missing(list@, extra@),
{
    let mut out = list;
    let mut i: usize = 0;
    assert(extra@.subrange(0, 0) =~= Seq::<ExtensionType>::empty());
    while i < extra.len()
        invariant
            i <= extra.len(),
            out@ == with_missing(list@, extra@.subrange(0, i as int)),
        decreases extra.len() - i,
    {
        assert(extra@.subrange(0, i + 1).drop_last() == extra@.subrange(0, i as int));
        if !contains_extension(&out, extra[i]) {
            out.push(extra[i]);
        }
        i += 1;
    }
    assert(extra@.subrange(0, extra@.len() as int) == extra@);
    out
}

/// True when `r` holds the mint state or the error that `expected` names,
/// together with the data that the state was read from.
pub open spec fn mint_info_is(
    r: Result<MintInfo, TokenError>,
    expected: Result<Mint, TokenError>,
    data: Seq<u8>,
) -> bool {
    match expected {
        Ok(base) => r is Ok && r->Ok_0.base == base && r->Ok_0.data@ == data,
        Err(e) => r is Err && r->Err_0 == e,
    }
}

/// True when `r` holds the account state or the error that `expected`
/// names, together with the data that the state was read from.
pub open spec fn account_info_is(
    r: Result<AccountInfo, TokenError>,
    expected: Result<Account, TokenError>,
    data: Seq<u8>,
) -> bool {
    match expected {
        Ok(base) => r is Ok && r->Ok_0.base == base && r->Ok_0.data@ == data,
        Err(e) => r is Err && r->Err_0 == e,
    }
}

/// What the caller does next to have the associated account of an owner.
#[derive(Debug)]
pub enum AssociatedAccountStep {
    /// The account exists and is valid: this is it.
    Found(AccountInfo),
    /// The account is missing, or not yet a token account: submit these
    /// instructions, then look the account up again.
    Create(Vec<Instruction>),
}

/// The next step towards an associated account, as mathematical values.
pub enum AssociatedAccountStepView {
    /// The account's state and data.
    Found(Account, Seq<u8>),
    /// The instructions that create the account.
    Create(Seq<InstructionView>),
}

impl View for AssociatedAccountStep {
    type V = AssociatedAccountStepView;

    open spec fn view(&self) -> AssociatedAccountStepView {
        match *self {
            AssociatedAccountStep::Found(info) => AssociatedAccountStepView::Found(
                info.base,
                info.data@,
            ),
            AssociatedAccountStep::Create(instructions) => AssociatedAccountStepView::Create(
                views(instructions@),
            ),
        }
    }
}

impl TokenView {
    /// What is done next to have the associated account of `owner`, when
    /// the account was looked up with the result `first`: a valid account
    /// is the one; a missing account, or one that the token program does
    /// not own yet, is created; any other error is final.
    pub open spec fn associated_account_step(
        self,
        owner: Pubkey,
        first: Result<(Account, Seq<u8>), TokenError>,
    ) -> Result<AssociatedAccountStepView, TokenError> {
        match first {
            Ok((base, data)) => Ok(AssociatedAccountStepView::Found(base, data)),
            Err(TokenError::AccountNotFound) | Err(TokenError::AccountInvalidOwner) => match create_associated(
                self.payer,
                owner,
                self.pubkey,
                self.program_id,
                false,
            ) {
                Some(create) => Ok(AssociatedAccountStepView::Create(seq![create])),
                None => Err(TokenError::AccountInvalidAssociatedAddress),
            },
            Err(e) => Err(e),
        }
    }

    /// What a lookup of an account of this mint gives, as the state and
    /// the data of the account.
    pub open spec fn account_lookup(self, found: Option<BaseAccount>) -> Result<
        (Account, Seq<u8>),
        TokenError,
    > {
        match found {
            None => Err(TokenError::AccountNotFound),
            Some(account) => match self.unpack_account_info(account.owner, account.data@) {
                Ok(base) => Ok((base, account.data@)),
                Err(e) => Err(e),
            },
        }
    }

    /// The mint state that account data stand for: the owner must be the
    /// handle's token program, the data must be a mint's, and the decimals
    /// must be the handle's where it has any.
    pub open spec fn unpack_mint_info(self, owner: Pubkey, data: Seq<u8>) -> Result<
        Mint,
        TokenError,
    > {
        if owner != self.program_id {
            Err(TokenError::AccountInvalidOwner)
        } else {
            match unpacked_mint(data) {
                Err(e) => Err(TokenError::Program(e)),
                Ok(mint) => if self.decimals is Some && self.decimals->Some_0 != mint.decimals {
                    Err(TokenError::InvalidDecimals)
                } else {
                    Ok(mint)
                },
            }
        }
    }

    /// The account state that account data stand for: the owner must be the
    /// handle's token program, the data must be a token account's, and the
    /// account must belong to the handle's mint.
    pub open spec fn unpack_account_info(self, owner: Pubkey, data: Seq<u8>) -> Result<
        Account,
        TokenError,
    > {
        if owner != self.program_id {
            Err(TokenError::AccountInvalidOwner)
        } else {
            match unpacked_account(data) {
                Err(e) => Err(TokenError::Program(e)),
                Ok(account) => if account.mint != self.pubkey {
                    Err(TokenError::AccountInvalidMint)
                } else {
                    Ok(account)
                },
            }
        }
    }

    /// The extensions that an account of the mint carries, when the mint's
    /// data are `mint_data` and the caller asks for `extensions` as well:
    /// those that the mint's extensions call for, then the caller's that
    /// are not yet among them.
    pub open spec fn auxiliary_account_extensions(
        self,
        mint_owner: Pubkey,
        mint_data: Seq<u8>,
        extensions: Seq<ExtensionType>,
    ) -> Result<Seq<ExtensionType>, TokenError> {
        match self.unpack_mint_info(mint_owner, mint_data) {
            Err(e) => Err(e),
            Ok(_) => match mint_extension_codes(mint_data) {
                Err(e) => Err(TokenError::Program(e)),
                Ok(codes) => Ok(
                    with_missing(
                        required_init_account_extensions(extensions_of(codes)),
                        extensions,
                    ),
                ),
            },
        }
    }

    /// The size of a new token account of the mint that carries the
    /// caller's `extensions` beside those that the mint calls for.
    pub open spec fn auxiliary_account_space(
        self,
        mint_owner: Pubkey,
        mint_data: Seq<u8>,
        extensions: Seq<ExtensionType>,
    ) -> Result<usize, TokenError> {
        match self.auxiliary_account_extensions(mint_owner, mint_data, extensions) {
            Err(e) => Err(e),
            Ok(required) => match account_len(codes_of(required)) {
                Err(e) => Err(TokenError::Program(e)),
                Ok(space) => Ok(space),
            },
        }
    }

    /// The instructions that create a new token account of the mint for
    /// `owner`, with the caller's `extensions` beside those that the mint
    /// calls for.
    pub open spec fn create_auxiliary_token_account(
        self,
        account: Pubkey,
        owner: Pubkey,
        extensions: Seq<ExtensionType>,
        mint_owner: Pubkey,
        mint_data: Seq<u8>,
        rent: u64,
    ) -> Result<Seq<InstructionView>, TokenError> {
        match self.auxiliary_account_extensions(mint_owner, mint_data, extensions) {
            Err(e) => Err(e),
            Ok(required) => self.create_account_with(account, owner, required, rent),
        }
    }

    /// The instructions that create a token account that carries
    /// `required` extensions, with `rent` lamports.
    pub open spec fn create_account_with(
        self,
        account: Pubkey,
        owner: Pubkey,
        required: Seq<ExtensionType>,
        rent: u64,
    ) -> Result<Seq<InstructionView>, TokenError> {
        match account_len(codes_of(required)) {
            Err(e) => Err(TokenError::Program(e)),
            Ok(space) => {
                let create = create_account_instruction(
                    self.payer,
                    account,
                    rent,
                    space as u64,
                    self.program_id,
                );
                match (if required.contains(ExtensionType::ImmutableOwner) {
                    match token::initialize_immutable_owner_encoding(self.program_id, account) {
                        Ok(i) => Ok(seq![create, i]),
                        Err(e) => Err(e),
                    }
                } else {
                    Ok(seq![create])
                }) {
                    Err(e) => Err(TokenError::Program(e)),
                    Ok(first) => match token::initialize_account_encoding(
                        self.program_id,
                        account,
                        self.pubkey,
                        owner,
                    ) {
                        Err(e) => Err(TokenError::Program(e)),
                        Ok(initialize) => Ok(first.push(initialize)),
                    },
                }
            },
        }
    }

    /// The instructions that close an account, followed by one that syncs
    /// the destination where that is an account of wrapped native currency.
    pub open spec fn close_instructions(
        self,
        account: Pubkey,
        lamports_destination: Pubkey,
        authority: Pubkey,
        signing_pubkeys: Seq<Pubkey>,
        destination_data: Option<Seq<u8>>,
    ) -> Result<Seq<InstructionView>, ProgramError> {
        match token::close_account_encoding(
            self.program_id,
            account,
            lamports_destination,
            authority,
            multisig_signers(authority, signing_pubkeys),
        ) {
            Err(e) => Err(e),
            Ok(close) => if destination_is_native(destination_data) {
                match token::sync_native_encoding(self.program_id, lamports_destination) {
                    Err(e) => Err(e),
                    Ok(sync) => Ok(seq![close, sync]),
                }
            } else {
                Ok(seq![close])
            },
        }
    }

    /// The instructions that wrap `lamports` into the account `account` of
    /// `owner`.
    pub open spec fn wrap_ixs(
        self,
        account: Pubkey,
        owner: Pubkey,
        lamports: u64,
        immutable_owner: bool,
    ) -> Result<Seq<InstructionView>, TokenError> {
        if Some(self.pubkey) != spec_native_mint(self.program_id) {
            Err(TokenError::AccountInvalidMint)
        } else if Some(account) == associated_address(owner, self.pubkey, self.program_id) {
            Ok(
                seq![
                    system_transfer_instruction(owner, account, lamports),
                    create_associated(self.payer, owner, self.pubkey, self.program_id, false)->Some_0,
                ],
            )
        } else {
            self.create_account_with(
                account,
                owner,
                if immutable_owner {
                    seq![ExtensionType::ImmutableOwner]
                } else {
                    Seq::empty()
                },
                lamports,
            )
        }
    }
}

/// True when account data that were looked up are those of an account of
/// wrapped native currency. Data that were not found, or that are no token
/// account's, are not.
pub open spec fn destination_is_native(destination_data: Option<Seq<u8>>) -> bool {
    match destination_data {
        Some(data) => unpacked_account(data) is Ok && unpacked_account(data)->Ok_0.is_native is Some,
        None => false,
    }
}

impl Token {
    /// The address of the associated account of `owner` for this mint, if
    /// one can be derived.
    pub fn get_associated_token_address(&self, owner: &Pubkey) -> (r: Option<Pubkey>)
        ensures
            r == associated_address(*owner, self@.pubkey, self@.program_id),
    {
        get_associated_token_address_with_program_id(owner, &self.pubkey, &self.program_id)
    }

    /// The instruction that creates the associated account of `owner`. Where
    /// no address can be derived for that account, the address is invalid.
    pub fn create_associated_token_account(&self, owner: &Pubkey) -> (r: Result<
        Vec<Instruction>,
        TokenError,
    >)
        ensures
            instructs(
                r,
                match create_associated(self@.payer, *owner, self@.pubkey, self@.program_id, false) {
                    Some(create) => Ok(seq![create]),
                    None => Err(TokenError::AccountInvalidAssociatedAddress),
                },
            ),
    {
        match create_associated_token_account(&self.payer, owner, &self.pubkey, &self.program_id) {
            Some(create) => {
                let mut instructions: Vec<Instruction> = Vec::new();
                assert(views(instructions@) =~= Seq::<InstructionView>::empty());
                push_instruction(&mut instructions, create);
                assert(views(instructions@) =~= seq![create@]);
                Ok(instructions)
            },
            None => Err(TokenError::AccountInvalidAssociatedAddress),
        }
    }

    /// The account that a lookup found, or the not-found error.
    pub fn get_account(&self, found: Option<BaseAccount>) -> (r: Result<BaseAccount, TokenError>)
        ensures
            found is Some ==> r is Ok && r->Ok_0 == found->Some_0,
            found is None ==> r is Err && r->Err_0 == TokenError::AccountNotFound,
    {
        match found {
            Some(account) => Ok(account),
            None => Err(TokenError::AccountNotFound),
        }
    }

    /// The mint's state, read from the mint's account.
    pub fn unpack_mint_info(&self, account: BaseAccount) -> (r: Result<MintInfo, TokenError>)
        ensures
            mint_info_is(r, self@.unpack_mint_info(account.owner, account.data@), account.data@),
    {
        if account.owner != self.program_id {
            return Err(TokenError::AccountInvalidOwner);
        }
        match unpack_mint(&account.data) {
            Err(e) => Err(TokenError::Program(e)),
            Ok(mint) => {
                if let Some(decimals) = self.decimals {
                    if decimals != mint.decimals {
                        return Err(TokenError::InvalidDecimals);
                    }
                }
                Ok(MintInfo { base: mint, data: account.data })
            },
        }
    }

    /// The mint's state, from what a lookup of the mint's address found.
    pub fn get_mint_info(&self, found: Option<BaseAccount>) -> (r: Result<MintInfo, TokenError>)
        ensures
            match found {
                Some(account) => mint_info_is(
                    r,
                    self@.unpack_mint_info(account.owner, account.data@),
                    account.data@,
                ),
                None => r is Err && r->Err_0 == TokenError::AccountNotFound,
            },
    {
        match found {
            Some(account) => self.unpack_mint_info(account),
            None => Err(TokenError::AccountNotFound),
        }
    }

    /// The state of a token account of this mint, from what a lookup of its
    /// address found.
    pub fn get_account_info(&self, found: Option<BaseAccount>) -> (r: Result<
        AccountInfo,
        TokenError,
    >)
        ensures
            match found {
                Some(account) => account_info_is(
                    r,
                    self@.unpack_account_info(account.owner, account.data@),
                    account.data@,
                ),
                None => r is Err && r->Err_0 == TokenError::AccountNotFound,
            },
    {
        match found {
            None => Err(TokenError::AccountNotFound),
            Some(account) => {
                if account.owner != self.program_id {
                    return Err(TokenError::AccountInvalidOwner);
                }
                match unpack_account(&account.data) {
                    Err(e) => Err(TokenError::Program(e)),
                    Ok(base) => {
                        if base.mint != self.pubkey {
                            return Err(TokenError::AccountInvalidMint);
                        }
                        Ok(AccountInfo { base, data: account.data })
                    },
                }
            },
        }
    }

    /// What to do to have the associated account of `owner`, when a lookup
    /// of its address gave `first`: a valid account is handed back as it
    /// is; where the account is missing or not owned by the token program
    /// it is to be created; any other error is final.
    pub fn get_or_create_associated_account_info(
        &self,
        owner: &Pubkey,
        first: Result<AccountInfo, TokenError>,
    ) -> (r: Result<AssociatedAccountStep, TokenError>)
        ensures
            match self@.associated_account_step(
                *owner,
                match first {
                    Ok(info) => Ok((info.base, info.data@)),
                    Err(e) => Err(e),
                },
            ) {
                Ok(step) => r is Ok && r->Ok_0@ == step,
                Err(e) => r is Err && r->Err_0 == e,
            },
    {
        match first {
            Ok(info) => Ok(AssociatedAccountStep::Found(info)),
            Err(TokenError::AccountNotFound) | Err(TokenError::AccountInvalidOwner) => {
                match self.create_associated_token_account(owner) {
                    Ok(instructions) => Ok(AssociatedAccountStep::Create(instructions)),
                    Err(e) => Err(e),
                }
            },
            Err(e) => Err(e),
        }
    }
}

/// An account that is found at the owner's associated address and is valid
/// is handed back without anything being created: no second account is made
/// for an owner whose account exists. And the address is that of the owner,
/// the mint and the token program, which assembling a transaction, with
/// whatever signers, leaves as they are: asking again looks the same address
/// up.
pub proof fn lemma_existing_associated_account_is_not_created(
    token: TokenView,
    owner: Pubkey,
    found: BaseAccount,
    signing_pubkeys: Seq<Pubkey>,
)
    requires
        token.unpack_account_info(found.owner, found.data@) is Ok,
    ensures
        token.associated_account_step(owner, token.account_lookup(Some(found))) == Ok::<
            AssociatedAccountStepView,
            TokenError,
        >(
            AssociatedAccountStepView::Found(
                token.unpack_account_info(found.owner, found.data@)->Ok_0,
                found.data@,
            ),
        ),
        associated_address(owner, token.pubkey, token.program_id) == associated_address(
            owner,
            token.after_construct_tx(signing_pubkeys).pubkey,
            token.after_construct_tx(signing_pubkeys).program_id,
        ),
{
}

impl Token {
    /// The extensions that a new token account of the mint carries.
    pub fn auxiliary_account_extensions(
        &self,
        mint_account: &BaseAccount,
        extensions: &Vec<ExtensionType>,
    ) -> (r: Result<Vec<ExtensionType>, TokenError>)
        ensures
            match self@.auxiliary_account_extensions(
                mint_account.owner,
                mint_account.data@,
                extensions@,
            ) {
                Ok(required) => r is Ok && r->Ok_0@ == required,
                Err(e) => r is Err && r->Err_0 == e,
            },
    {
        if mint_account.owner != self.program_id {
            return Err(TokenError::AccountInvalidOwner);
        }
        match unpack_mint(&mint_account.data) {
            Err(e) => {
                return Err(TokenError::Program(e));
            },
            Ok(mint) => {
                if let Some(decimals) = self.decimals {
                    if decimals != mint.decimals {
                        return Err(TokenError::InvalidDecimals);
                    }
                }
            },
        }
        let codes = match read_mint_extension_codes(&mint_account.data) {
            Ok(codes) => codes,
            Err(e) => {
                return Err(TokenError::Program(e));
            },
        };
        let mint_extensions = extensions_of_codes(&codes);
        let required = get_required_init_account_extensions(&mint_extensions);
        Ok(add_missing(required, extensions))
    }

    /// The size that a new token account of the mint needs. The caller
    /// asks the network for the rent of an account of this size before it
    /// creates the account.
    pub fn auxiliary_account_space(
        &self,
        mint_account: &BaseAccount,
        extensions: &Vec<ExtensionType>,
    ) -> (r: Result<usize, TokenError>)
        ensures
            r == self@.auxiliary_account_space(mint_account.owner, mint_account.data@, extensions@),
    {
        match self.auxiliary_account_extensions(mint_account, extensions) {
            Err(e) => Err(e),
            Ok(required) => match try_calculate_account_len(&required) {
                Err(e) => Err(TokenError::Program(e)),
                Ok(space) => Ok(space),
            },
        }
    }

    /// The instructions that create the token account `account` with the
    /// extensions `required` and hand it to `owner`: create the account,
    /// fix its owner for good where the extensions say so, initialize it.
    pub fn create_account_with(
        &self,
        account: &Pubkey,
        owner: &Pubkey,
        required: &Vec<ExtensionType>,
        rent: u64,
    ) -> (r: Result<Vec<Instruction>, TokenError>)
        ensures
            instructs(r, self@.create_account_with(*account, *owner, required@, rent)),
    {
        let space = match try_calculate_account_len(required) {
            Ok(space) => space,
            Err(e) => {
                return Err(TokenError::Program(e));
            },
        };
        let mut instructions: Vec<Instruction> = Vec::new();
        assert(views(instructions@) =~= Seq::<InstructionView>::empty());
        push_instruction(
            &mut instructions,
            system_create_account(&self.payer, account, rent, space as u64, &self.program_id),
        );
        if contains_extension(required, ExtensionType::ImmutableOwner) {
            match token::initialize_immutable_owner(&self.program_id, account) {
                Ok(instruction) => push_instruction(&mut instructions, instruction),
                Err(e) => {
                    return Err(TokenError::Program(e));
                },
            }
        }
        match token::initialize_account(&self.program_id, account, &self.pubkey, owner) {
            Ok(instruction) => push_instruction(&mut instructions, instruction),
            Err(e) => {
                return Err(TokenError::Program(e));
            },
        }
        assert(views(instructions@) =~= self@.create_account_with(
            *account,
            *owner,
            required@,
            rent,
        )->Ok_0);
        Ok(instructions)
    }

    /// The instructions that create a new token account of the mint for
    /// `owner`, given the mint's account and the rent of the new account.
    pub fn create_auxiliary_token_account(
        &self,
        account: &Pubkey,
        owner: &Pubkey,
        mint_account: &BaseAccount,
        rent: u64,
    ) -> (r: Result<Vec<Instruction>, TokenError>)
        ensures
            instructs(
                r,
                self@.create_auxiliary_token_account(
                    *account,
                    *owner,
                    Seq::empty(),
                    mint_account.owner,
                    mint_account.data@,
                    rent,
                ),
            ),
    {
        let none: Vec<ExtensionType> = Vec::new();
        self.create_auxiliary_token_account_with_extension_space(
            account,
            owner,
            none,
            mint_account,
            rent,
        )
    }

    /// The instructions that create a new token account of the mint for
    /// `owner` with room for `extensions`, given the mint's account and the
    /// rent of the new account.
    pub fn create_auxiliary_token_account_with_extension_space(
        &self,
        account: &Pubkey,
        owner: &Pubkey,
        extensions: Vec<ExtensionType>,
        mint_account: &BaseAccount,
        rent: u64,
    ) -> (r: Result<Vec<Instruction>, TokenError>)
        ensures
            instructs(
                r,
                self@.create_auxiliary_token_account(
                    *account,
                    *owner,
                    extensions@,
                    mint_account.owner,
                    mint_account.data@,
                    rent,
                ),
            ),
    {
        match self.auxiliary_account_extensions(mint_account, &extensions) {
            Err(e) => Err(e),
            Ok(required) => self.create_account_with(account, owner, &required, rent),
        }
    }

    /// The instructions that close `account` and move its lamports to
    /// `lamports_destination`. `destination_data` are the data of the
    /// destination account where a lookup found it: where they are those of
    /// an account of wrapped native currency, that account is synced
    /// afterwards. A failed lookup counts as "not native".
    pub fn close_account(
        &self,
        account: &Pubkey,
        lamports_destination: &Pubkey,
        authority: &Pubkey,
        signing_pubkeys: &Vec<Pubkey>,
        destination_data: Option<&Vec<u8>>,
    ) -> (r: Result<Vec<Instruction>, TokenError>)
        ensures
            instructs(
                r,
                crate::instruction::for_all(
                    self@.close_instructions(
                        *account,
                        *lamports_destination,
                        *authority,
                        signing_pubkeys@,
                        match destination_data {
                            Some(data) => Some(data@),
                            None => None,
                        },
                    ),
                ),
            ),
    {
        let mut instructions: Vec<Instruction> = Vec::new();
        assert(views(instructions@) =~= Seq::<InstructionView>::empty());
        match self.push_close(
            &mut instructions,
            account,
            lamports_destination,
            authority,
            signing_pubkeys,
            destination_data,
        ) {
            Ok(()) => Ok(instructions),
            Err(e) => Err(TokenError::Program(e)),
        }
    }

    /// Puts the instructions that close `account` at the end of
    /// `instructions`.
    pub fn push_close(
        &self,
        instructions: &mut Vec<Instruction>,
        account: &Pubkey,
        lamports_destination: &Pubkey,
        authority: &Pubkey,
        signing_pubkeys: &Vec<Pubkey>,
        destination_data: Option<&Vec<u8>>,
    ) -> (r: Result<(), ProgramError>)
        ensures
            match self@.close_instructions(
                *account,
                *lamports_destination,
                *authority,
                signing_pubkeys@,
                match destination_data {
                    Some(data) => Some(data@),
                    None => None,
                },
            ) {
                Ok(close) => r is Ok && views(final(instructions)@) == views(old(instructions)@)
                    + close,
                Err(e) => r == Err::<(), ProgramError>(e),
            },
    {
        let multisig_signers = get_multisig_signers(authority, signing_pubkeys);
        match token::close_account(
            &self.program_id,
            account,
            lamports_destination,
            authority,
            &multisig_signers,
        ) {
            Ok(close) => push_instruction(instructions, close),
            Err(e) => {
                return Err(e);
            },
        }
        let native = match destination_data {
            Some(data) => match unpack_account(data) {
                Ok(destination) => destination.is_native(),
                Err(_) => false,
            },
            None => false,
        };
        if native {
            match token::sync_native(&self.program_id, lamports_destination) {
                Ok(sync) => push_instruction(instructions, sync),
                Err(e) => {
                    return Err(e);
                },
            }
        }
        assert(views(instructions@) =~= views(old(instructions)@) + self@.close_instructions(
            *account,
            *lamports_destination,
            *authority,
            signing_pubkeys@,
            match destination_data {
                Some(data) => Some(data@),
                None => None,
            },
        )->Ok_0);
        Ok(())
    }

    /// The instructions that wrap `lamports` into `account`: the owner of
    /// the new account is fixed for good unless the token program is the
    /// first one, which has no such extension.
    pub fn wrap(&self, account: &Pubkey, owner: &Pubkey, lamports: u64) -> (r: Result<
        Vec<Instruction>,
        TokenError,
    >)
        requires
            spec_native_mint(self@.program_id) is Some,
        ensures
            instructs(
                r,
                self@.wrap_ixs(*account, *owner, lamports, self@.program_id != spec_token_id()),
            ),
    {
        let immutable_owner = self.program_id != token_id();
        self.wrap_ixs(account, owner, lamports, immutable_owner)
    }

    /// The instructions that wrap `lamports` into an account whose owner
    /// can still be changed.
    pub fn wrap_with_mutable_ownership(&self, account: &Pubkey, owner: &Pubkey, lamports: u64) -> (r:
        Result<Vec<Instruction>, TokenError>)
        requires
            spec_native_mint(self@.program_id) is Some,
        ensures
            instructs(r, self@.wrap_ixs(*account, *owner, lamports, false)),
    {
        self.wrap_ixs(account, owner, lamports, false)
    }

    /// The instructions that wrap `lamports` into `account`. The handle
    /// must be one of the native mint. Into the owner's associated account
    /// the lamports are moved before the account is created; any other
    /// account is created with the lamports and then initialized.
    pub fn wrap_ixs(&self, account: &Pubkey, owner: &Pubkey, lamports: u64, immutable_owner: bool) -> (r:
        Result<Vec<Instruction>, TokenError>)
        requires
            spec_native_mint(self@.program_id) is Some,
        ensures
            instructs(r, self@.wrap_ixs(*account, *owner, lamports, immutable_owner)),
    {
        if !self.is_native() {
            return Err(TokenError::AccountInvalidMint);
        }
        let associated = self.get_associated_token_address(owner);
        let is_associated = match associated {
            Some(address) => *account == address,
            None => false,
        };
        if is_associated {
            let mut instructions: Vec<Instruction> = Vec::new();
            assert(views(instructions@) =~= Seq::<InstructionView>::empty());
            push_instruction(&mut instructions, system_transfer(owner, account, lamports));
            let create = create_associated_token_account(
                &self.payer,
                owner,
                &self.pubkey,
                &self.program_id,
            ).unwrap();
            push_instruction(&mut instructions, create);
            assert(views(instructions@) =~= self@.wrap_ixs(
                *account,
                *owner,
                lamports,
                immutable_owner,
            )->Ok_0);
            Ok(instructions)
        } else {
            let mut extensions: Vec<ExtensionType> = Vec::new();
            if immutable_owner {
                extensions.push(ExtensionType::ImmutableOwner);
            }
            assert(extensions@ =~= (if immutable_owner {
                seq![ExtensionType::ImmutableOwner]
            } else {
                Seq::empty()
            }));
            self.create_account_with(account, owner, &extensions, lamports)
        }
    }
}

} // verus!
