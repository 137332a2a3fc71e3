//! Creating mints and multisignature accounts.
use crate::account::{codes_of, mint_len, try_calculate_mint_len, MULTISIG_LEN};
use crate::encode::{
    confidential_transfer, confidential_transfer_fee, default_account_state, group_member_pointer,
    group_pointer, interest_bearing_mint, metadata_pointer, token, transfer_fee, transfer_hook,
};
use crate::error::{ProgramError, TokenError};
use crate::instruction::{
    create_account_instruction, encodes, instructs, push_instruction, system_create_account, views,
    Instruction, InstructionView,
};
use crate::optional_keys::ElGamalPubkey;
use crate::programs::{spec_native_mint, NATIVE_MINT_DECIMALS};
use crate::pubkey::Pubkey;
use crate::state::{AccountState, ExtensionType};
use crate::token::{copied_key, opt_key, Token, TokenView};
use vstd::prelude::*;

verus! {

/// What an extension of a mint is initialized with.
#[derive(Clone, Copy, Debug, PartialEq)]
pub enum ExtensionInitializationParams {
    ConfidentialTransferMint {
        authority: Option<Pubkey>,
        auto_approve_new_accounts: bool,
        auditor_elgamal_pubkey: Option<ElGamalPubkey>,
    },
    DefaultAccountState { state: AccountState },
    MintCloseAuthority { close_authority: Option<Pubkey> },
    TransferFeeConfig {
        transfer_fee_config_authority: Option<Pubkey>,
        withdraw_withheld_authority: Option<Pubkey>,
        transfer_fee_basis_points: u16,
        maximum_fee: u64,
    },
    InterestBearingConfig { rate_authority: Option<Pubkey>, rate: i16 },
    NonTransferable,
    PermanentDelegate { delegate: Pubkey },
    TransferHook { authority: Option<Pubkey>, program_id: Option<Pubkey> },
    MetadataPointer { authority: Option<Pubkey>, metadata_address: Option<Pubkey> },
    ConfidentialTransferFeeConfig {
        authority: Option<Pubkey>,
        withdraw_withheld_authority_elgamal_pubkey: ElGamalPubkey,
    },
    GroupPointer { authority: Option<Pubkey>, group_address: Option<Pubkey> },
    GroupMemberPointer { authority: Option<Pubkey>, member_address: Option<Pubkey> },
}

impl ExtensionInitializationParams {
    /// The extension that the parameters initialize.
    pub open spec fn spec_extension(self) -> ExtensionType {
        match self {
            Self::ConfidentialTransferMint { .. } => ExtensionType::ConfidentialTransferMint,
            Self::DefaultAccountState { .. } => ExtensionType::DefaultAccountState,
            Self::MintCloseAuthority { .. } => ExtensionType::MintCloseAuthority,
            Self::TransferFeeConfig { .. } => ExtensionType::TransferFeeConfig,
            Self::InterestBearingConfig { .. } => ExtensionType::InterestBearingConfig,
            Self::NonTransferable => ExtensionType::NonTransferable,
            Self::PermanentDelegate { .. } => ExtensionType::PermanentDelegate,
            Self::TransferHook { .. } => ExtensionType::TransferHook,
            Self::MetadataPointer { .. } => ExtensionType::MetadataPointer,
            Self::ConfidentialTransferFeeConfig { .. } => ExtensionType::ConfidentialTransferFeeConfig,
            Self::GroupPointer { .. } => ExtensionType::GroupPointer,
            Self::GroupMemberPointer { .. } => ExtensionType::GroupMemberPointer,
        }
    }

    /// The extension that the parameters initialize.
    pub fn extension(&self) -> (r: ExtensionType)
        ensures
            r == self.spec_extension(),
    {
        match self {
            Self::ConfidentialTransferMint { .. } => ExtensionType::ConfidentialTransferMint,
            Self::DefaultAccountState { .. } => ExtensionType::DefaultAccountState,
            Self::MintCloseAuthority { .. } => ExtensionType::MintCloseAuthority,
            Self::TransferFeeConfig { .. } => ExtensionType::TransferFeeConfig,
            Self::InterestBearingConfig { .. } => ExtensionType::InterestBearingConfig,
            Self::NonTransferable => ExtensionType::NonTransferable,
            Self::PermanentDelegate { .. } => ExtensionType::PermanentDelegate,
            Self::TransferHook { .. } => ExtensionType::TransferHook,
            Self::MetadataPointer { .. } => ExtensionType::MetadataPointer,
            Self::ConfidentialTransferFeeConfig { .. } => ExtensionType::ConfidentialTransferFeeConfig,
            Self::GroupPointer { .. } => ExtensionType::GroupPointer,
            Self::GroupMemberPointer { .. } => ExtensionType::GroupMemberPointer,
        }
    }

    /// The one instruction that initializes the extension on the mint `mint`
    /// of the token program `token_program_id`: what the encoder of that
    /// extension gives for the parameters.
    pub open spec fn spec_instruction(self, token_program_id: Pubkey, mint: Pubkey) -> Result<
        InstructionView,
        ProgramError,
    > {
        match self {
            Self::ConfidentialTransferMint {
                authority,
                auto_approve_new_accounts,
                auditor_elgamal_pubkey,
            } => confidential_transfer::initialize_mint_encoding(
                token_program_id,
                mint,
                authority,
                auto_approve_new_accounts,
                auditor_elgamal_pubkey,
            ),
            Self::DefaultAccountState {
                state,
            } => default_account_state::initialize_default_account_state_encoding(
                token_program_id,
                mint,
                state,
            ),
            Self::MintCloseAuthority {
                close_authority,
            } => token::initialize_mint_close_authority_encoding(
                token_program_id,
                mint,
                close_authority,
            ),
            Self::TransferFeeConfig {
                transfer_fee_config_authority,
                withdraw_withheld_authority,
                transfer_fee_basis_points,
                maximum_fee,
            } => transfer_fee::initialize_transfer_fee_config_encoding(
                token_program_id,
                mint,
                transfer_fee_config_authority,
                withdraw_withheld_authority,
                transfer_fee_basis_points,
                maximum_fee,
            ),
            Self::InterestBearingConfig {
                rate_authority,
                rate,
            } => interest_bearing_mint::initialize_encoding(
                token_program_id,
                mint,
                rate_authority,
                rate,
            ),
            Self::NonTransferable => token::initialize_non_transferable_mint_encoding(
                token_program_id,
                mint,
            ),
            Self::PermanentDelegate { delegate } => token::initialize_permanent_delegate_encoding(
                token_program_id,
                mint,
                delegate,
            ),
            Self::TransferHook { authority, program_id } => transfer_hook::initialize_encoding(
                token_program_id,
                mint,
                authority,
                program_id,
            ),
            Self::MetadataPointer {
                authority,
                metadata_address,
            } => metadata_pointer::initialize_encoding(
                token_program_id,
                mint,
                authority,
                metadata_address,
            ),
            Self::ConfidentialTransferFeeConfig {
                authority,
                withdraw_withheld_authority_elgamal_pubkey,
            } => confidential_transfer_fee::initialize_confidential_transfer_fee_config_encoding(
                token_program_id,
                mint,
                authority,
                withdraw_withheld_authority_elgamal_pubkey,
            ),
            Self::GroupPointer { authority, group_address } => group_pointer::initialize_encoding(
                token_program_id,
                mint,
                authority,
                group_address,
            ),
            Self::GroupMemberPointer {
                authority,
                member_address,
            } => group_member_pointer::initialize_encoding(
                token_program_id,
                mint,
                authority,
                member_address,
            ),
        }
    }

    /// The one instruction that initializes the extension on the mint
    /// `mint`.
    pub fn instruction(self, token_program_id: &Pubkey, mint: &Pubkey) -> (r: Result<
        Instruction,
        ProgramError,
    >)
        ensures
            encodes(r, self.spec_instruction(*token_program_id, *mint)),
    {
        match self {
            Self::ConfidentialTransferMint {
                authority,
                auto_approve_new_accounts,
                auditor_elgamal_pubkey,
            } => confidential_transfer::initialize_mint(
                token_program_id,
                mint,
                authority,
                auto_approve_new_accounts,
                auditor_elgamal_pubkey,
            ),
            Self::DefaultAccountState {
                state,
            } => default_account_state::initialize_default_account_state(
                token_program_id,
                mint,
                state,
            ),
            Self::MintCloseAuthority { close_authority } => token::initialize_mint_close_authority(
                token_program_id,
                mint,
                close_authority,
            ),
            Self::TransferFeeConfig {
                transfer_fee_config_authority,
                withdraw_withheld_authority,
                transfer_fee_basis_points,
                maximum_fee,
            } => transfer_fee::initialize_transfer_fee_config(
                token_program_id,
                mint,
                transfer_fee_config_authority,
                withdraw_withheld_authority,
                transfer_fee_basis_points,
                maximum_fee,
            ),
            Self::InterestBearingConfig { rate_authority, rate } => interest_bearing_mint::initialize(
                token_program_id,
                mint,
                rate_authority,
                rate,
            ),
            Self::NonTransferable => token::initialize_non_transferable_mint(token_program_id, mint),
            Self::PermanentDelegate { delegate } => token::initialize_permanent_delegate(
                token_program_id,
                mint,
                &delegate,
            ),
            Self::TransferHook { authority, program_id } => transfer_hook::initialize(
                token_program_id,
                mint,
                authority,
                program_id,
            ),
            Self::MetadataPointer { authority, metadata_address } => metadata_pointer::initialize(
                token_program_id,
                mint,
                authority,
                metadata_address,
            ),
            Self::ConfidentialTransferFeeConfig {
                authority,
                withdraw_withheld_authority_elgamal_pubkey,
            } => confidential_transfer_fee::initialize_confidential_transfer_fee_config(
                token_program_id,
                mint,
                authority,
                &withdraw_withheld_authority_elgamal_pubkey,
            ),
            Self::GroupPointer { authority, group_address } => group_pointer::initialize(
                token_program_id,
                mint,
                authority,
                group_address,
            ),
            Self::GroupMemberPointer { authority, member_address } => group_member_pointer::initialize(
                token_program_id,
                mint,
                authority,
                member_address,
            ),
        }
    }
}

/// The extensions that a list of parameters initializes, in order.
pub open spec fn extension_types(params: Seq<ExtensionInitializationParams>) -> Seq<ExtensionType> {
    params.map_values(|p: ExtensionInitializationParams| p.spec_extension())
}

/// The instructions that initialize the extensions of a list of parameters,
/// one for each and in order, or the error of the first that cannot be
/// encoded.
pub open spec fn initialization_instructions(
    params: Seq<ExtensionInitializationParams>,
    token_program_id: Pubkey,
    mint: Pubkey,
) -> Result<Seq<InstructionView>, ProgramError>
    decreases params.len(),
{
    if params.len() == 0 {
        Ok(Seq::empty())
    } else {
        match initialization_instructions(params.drop_last(), token_program_id, mint) {
            Err(e) => Err(e),
            Ok(before) => match params.last().spec_instruction(token_program_id, mint) {
                Err(e) => Err(e),
                Ok(instruction) => Ok(before.push(instruction)),
            },
        }
    }
}

/// An error among the first parameters is the error of the whole list.
pub proof fn lemma_first_error_stays(
    params: Seq<ExtensionInitializationParams>,
    token_program_id: Pubkey,
    mint: Pubkey,
    n: int,
)
    requires
        0 <= n <= params.len(),
        initialization_instructions(params.subrange(0, n), token_program_id, mint) is Err,
    ensures
        initialization_instructions(params, token_program_id, mint)
            == initialization_instructions(params.subrange(0, n), token_program_id, mint),
    decreases params.len() - n,
{
    if n < params.len() {
        assert(params.subrange(0, n + 1).drop_last() == params.subrange(0, n));
        lemma_first_error_stays(params, token_program_id, mint, n + 1);
    } else {
        assert(params.subrange(0, n) == params);
    }
}

/// The extensions that a list of parameters initializes, in order.
pub fn extension_types_of(params: &Vec<ExtensionInitializationParams>) -> (r: Vec<ExtensionType>)
    ensures
        r@ == extension_types(params@),
{
    let mut types: Vec<ExtensionType> = Vec::new();
    let mut i: usize = 0;
    while i < params.len()
        invariant
            i <= params.len(),
            types@ == extension_types(params@).subrange(0, i as int),
        decreases params.len() - i,
    {
        types.push(params[i].extension());
        assert(types@ =~= extension_types(params@).subrange(0, i + 1));
        i += 1;
    }
    assert(extension_types(params@).subrange(0, params@.len() as int) == extension_types(params@));
    types
}

impl TokenView {
    /// The size of the mint's account when the mint is created with the
    /// extensions of `params`: the missing-decimals error for a handle
    /// without decimals, else what the token program computes.
    pub open spec fn create_mint_space(self, params: Seq<ExtensionInitializationParams>) -> Result<
        usize,
        TokenError,
    > {
        if self.decimals is None {
            Err(TokenError::MissingDecimals)
        } else {
            match mint_len(codes_of(extension_types(params))) {
                Ok(space) => Ok(space),
                Err(e) => Err(TokenError::Program(e)),
            }
        }
    }

    /// The instructions that create the mint: the account is created with
    /// `rent` lamports, then each extension is initialized, in the order of
    /// `params`, and the mint itself is initialized last.
    pub open spec fn create_mint(
        self,
        mint_authority: Pubkey,
        freeze_authority: Option<Pubkey>,
        params: Seq<ExtensionInitializationParams>,
        rent: u64,
    ) -> Result<Seq<InstructionView>, TokenError> {
        match self.create_mint_space(params) {
            Err(e) => Err(e),
            Ok(space) => match initialization_instructions(params, self.program_id, self.pubkey) {
                Err(e) => Err(TokenError::Program(e)),
                Ok(extensions) => match token::initialize_mint_encoding(
                    self.program_id,
                    self.pubkey,
                    mint_authority,
                    freeze_authority,
                    self.decimals->Some_0,
                ) {
                    Err(e) => Err(TokenError::Program(e)),
                    Ok(initialize) => Ok(
                        seq![
                            create_account_instruction(
                                self.payer,
                                self.pubkey,
                                rent,
                                space as u64,
                                self.program_id,
                            ),
                        ] + extensions + seq![initialize],
                    ),
                },
            },
        }
    }

    /// The instructions that create a multisignature account with `rent`
    /// lamports.
    pub open spec fn create_multisig(
        self,
        account: Pubkey,
        multisig_members: Seq<Pubkey>,
        minimum_signers: u8,
        rent: u64,
    ) -> Result<Seq<InstructionView>, TokenError> {
        match token::initialize_multisig_encoding(
            self.program_id,
            account,
            multisig_members,
            minimum_signers,
        ) {
            Err(e) => Err(TokenError::Program(e)),
            Ok(initialize) => Ok(
                seq![
                    create_account_instruction(
                        self.payer,
                        account,
                        rent,
                        MULTISIG_LEN as u64,
                        self.program_id,
                    ),
                    initialize,
                ],
            ),
        }
    }
}

impl Token {
    /// The size that the mint's account needs. The caller asks the network
    /// for the rent of an account of this size before it creates the mint.
    pub fn create_mint_space(&self, extension_initialization_params: &Vec<
        ExtensionInitializationParams,
    >) -> (r: Result<usize, TokenError>)
        ensures
            r == self@.create_mint_space(extension_initialization_params@),
    {
        if self.decimals.is_none() {
            return Err(TokenError::MissingDecimals);
        }
        let types = extension_types_of(extension_initialization_params);
        match try_calculate_mint_len(&types) {
            Ok(space) => Ok(space),
            Err(e) => Err(TokenError::Program(e)),
        }
    }

    /// The instructions that create the mint, given the rent of its
    /// account: create the account, initialize each extension in the order
    /// given, initialize the mint last.
    pub fn create_mint(
        &self,
        mint_authority: &Pubkey,
        freeze_authority: Option<&Pubkey>,
        extension_initialization_params: Vec<ExtensionInitializationParams>,
        rent: u64,
    ) -> (r: Result<Vec<Instruction>, TokenError>)
        ensures
            instructs(
                r,
                self@.create_mint(
                    *mint_authority,
                    opt_key(freeze_authority),
                    extension_initialization_params@,
                    rent,
                ),
            ),
    {
        let params = &extension_initialization_params;
        let space = match self.create_mint_space(params) {
            Ok(space) => space,
            Err(e) => {
                return Err(e);
            },
        };
        let decimals = self.decimals.unwrap();
        let mut instructions: Vec<Instruction> = Vec::new();
        assert(views(instructions@) =~= Seq::<InstructionView>::empty());
        push_instruction(
            &mut instructions,
            system_create_account(&self.payer, &self.pubkey, rent, space as u64, &self.program_id),
        );
        let ghost first = views(instructions@);
        assert(first =~= seq![
            create_account_instruction(
                self@.payer,
                self@.pubkey,
                rent,
                space as u64,
                self@.program_id,
            ),
        ]);
        let mut i: usize = 0;
        assert(params@.subrange(0, 0) =~= Seq::<ExtensionInitializationParams>::empty());
        while i < params.len()
            invariant
                i <= params.len(),
                params@ == extension_initialization_params@,
                self@.create_mint_space(params@) is Ok,
                initialization_instructions(
                    params@.subrange(0, i as int),
                    self@.program_id,
                    self@.pubkey,
                ) is Ok,
                views(instructions@) == first + initialization_instructions(
                    params@.subrange(0, i as int),
                    self@.program_id,
                    self@.pubkey,
                )->Ok_0,
            decreases params.len() - i,
        {
            assert(params@.subrange(0, i + 1).drop_last() == params@.subrange(0, i as int));
            match params[i].instruction(&self.program_id, &self.pubkey) {
                Ok(instruction) => {
                    assert(params@.subrange(0, i + 1).last() == params@[i as int]);
                    push_instruction(&mut instructions, instruction);
                    assert(views(instructions@) =~= first + initialization_instructions(
                        params@.subrange(0, i + 1),
                        self@.program_id,
                        self@.pubkey,
                    )->Ok_0);
                },
                Err(e) => {
                    proof {
                        assert(params@.subrange(0, i + 1).last() == params@[i as int]);
                        assert(initialization_instructions(
                            params@.subrange(0, i + 1),
                            self@.program_id,
                            self@.pubkey,
                        ) == Err::<Seq<InstructionView>, ProgramError>(e));
                        lemma_first_error_stays(params@, self@.program_id, self@.pubkey, i + 1);
                    }
                    return Err(TokenError::Program(e));
                },
            }
            i += 1;
        }
        assert(params@.subrange(0, params@.len() as int) == params@);
        match token::initialize_mint(
            &self.program_id,
            &self.pubkey,
            mint_authority,
            copied_key(freeze_authority),
            decimals,
        ) {
            Ok(instruction) => {
                push_instruction(&mut instructions, instruction);
                assert(views(instructions@) =~= first + initialization_instructions(
                    params@,
                    self@.program_id,
                    self@.pubkey,
                )->Ok_0 + seq![instruction@]);
                Ok(instructions)
            },
            Err(e) => Err(TokenError::Program(e)),
        }
    }

    /// A handle on the native mint of the token program `program_id`, and
    /// the instruction that creates that mint, paid for by `payer`.
    pub fn create_native_mint(program_id: &Pubkey, payer: Pubkey) -> (r: Result<
        (Token, Vec<Instruction>),
        TokenError,
    >)
        requires
            spec_native_mint(*program_id) is Some,
        ensures
            match token::create_native_mint_encoding(*program_id, payer) {
                Ok(instruction) => r is Ok && views(r->Ok_0.1@) == seq![instruction] && r->Ok_0.0@ == (
                TokenView {
                    pubkey: spec_native_mint(*program_id)->Some_0,
                    decimals: Some(NATIVE_MINT_DECIMALS),
                    payer,
                    program_id: *program_id,
                    nonce: None,
                    memo: None,
                    transfer_hook_accounts: None,
                }),
                Err(e) => r is Err && r->Err_0 == TokenError::Program(e),
            },
    {
        let token = Token::new_native(program_id, payer);
        match token::create_native_mint(program_id, &token.payer) {
            Ok(instruction) => {
                let mut instructions: Vec<Instruction> = Vec::new();
                assert(views(instructions@) =~= Seq::<InstructionView>::empty());
                push_instruction(&mut instructions, instruction);
                assert(views(instructions@) =~= seq![instruction@]);
                Ok((token, instructions))
            },
            Err(e) => Err(TokenError::Program(e)),
        }
    }

    /// The instructions that create the multisignature account `account`
    /// of `multisig_members`, of whom `minimum_signers` must sign, given the
    /// rent of an account of `MULTISIG_LEN` bytes.
    pub fn create_multisig(
        &self,
        account: &Pubkey,
        multisig_members: &Vec<Pubkey>,
        minimum_signers: u8,
        rent: u64,
    ) -> (r: Result<Vec<Instruction>, TokenError>)
        ensures
            instructs(
                r,
                self@.create_multisig(*account, multisig_members@, minimum_signers, rent),
            ),
    {
        let create = system_create_account(
            &self.payer,
            account,
            rent,
            MULTISIG_LEN as u64,
            &self.program_id,
        );
        match token::initialize_multisig(&self.program_id, account, multisig_members, minimum_signers) {
            Ok(initialize) => {
                let mut instructions: Vec<Instruction> = Vec::new();
                assert(views(instructions@) =~= Seq::<InstructionView>::empty());
                push_instruction(&mut instructions, create);
                push_instruction(&mut instructions, initialize);
                assert(views(instructions@) =~= seq![create@, initialize@]);
                Ok(instructions)
            },
            Err(e) => Err(TokenError::Program(e)),
        }
    }
}

} // verus!
