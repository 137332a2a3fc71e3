//! The token handle and the assembly of a transaction from instructions.
use crate::error::TokenError;
use crate::instruction::{
    append_instructions, build_memo, compute_unit_limit_instruction, memo_instruction,
    push_instruction, set_compute_unit_limit, views, AccountMeta, Instruction, InstructionView,
};
use crate::programs::{native_mint, native_mint_decimals, spec_native_mint, NATIVE_MINT_DECIMALS};
use crate::pubkey::{Blockhash, Pubkey};
use crate::signers::{all_present, contains_all};
use vstd::prelude::*;
use vstd::utf8::encode_utf8;

verus! {

/// A memo to go with the next transaction: its text, and the keys that must
/// co-sign it.
#[derive(Debug)]
pub struct TokenMemo {
    pub text: String,
    pub signers: Vec<Pubkey>,
}

/// A memo as mathematical values.
pub struct TokenMemoView {
    pub text: Seq<char>,
    pub signers: Seq<Pubkey>,
}

impl View for TokenMemo {
    type V = TokenMemoView;

    open spec fn view(&self) -> TokenMemoView {
        TokenMemoView { text: self.text@, signers: self.signers@ }
    }
}

impl TokenMemoView {
    /// The memo instruction: the text's UTF-8 bytes, co-signed by the memo's
    /// signers.
    pub open spec fn instruction(self) -> InstructionView {
        memo_instruction(encode_utf8(self.text), self.signers)
    }
}

impl TokenMemo {
    /// The instruction that records the memo.
    pub fn to_instruction(&self) -> (r: Instruction)
        ensures
            r@ == self@.instruction(),
    {
        build_memo(self.text.as_str().as_bytes(), &self.signers)
    }
}

/// The key that an optional reference to a key stands for.
pub open spec fn opt_key(key: Option<&Pubkey>) -> Option<Pubkey> {
    match key {
        Some(k) => Some(*k),
        None => None,
    }
}

/// Copies the key of an optional reference.
pub fn copied_key(key: Option<&Pubkey>) -> (r: Option<Pubkey>)
    ensures
        r == opt_key(key),
{
    match key {
        Some(k) => Some(*k),
        None => None,
    }
}

/// A durable nonce that stands in for a fresh checkpoint: the nonce
/// account, the key that may advance it, and the checkpoint stored in it.
#[derive(Clone, Copy, Debug)]
pub struct DurableNonce {
    pub account: Pubkey,
    pub authority: Pubkey,
    pub blockhash: Blockhash,
}

/// A token handle as mathematical values.
pub struct TokenView {
    pub pubkey: Pubkey,
    pub decimals: Option<u8>,
    pub payer: Pubkey,
    pub program_id: Pubkey,
    pub nonce: Option<DurableNonce>,
    pub memo: Option<TokenMemoView>,
    pub transfer_hook_accounts: Option<Seq<AccountMeta>>,
}

/// A handle on one mint: the mint's address and decimals, the token program
/// that owns it, who pays the fees, and what the next transactions carry.
#[derive(Debug)]
pub struct Token {
    /// The mint.
    pub pubkey: Pubkey,
    pub decimals: Option<u8>,
    pub payer: Pubkey,
    pub program_id: Pubkey,
    pub nonce: Option<DurableNonce>,
    /// Goes out with the next assembled transaction, once.
    pub memo: Option<TokenMemo>,
    pub transfer_hook_accounts: Option<Vec<AccountMeta>>,
}

impl View for Token {
    type V = TokenView;

    open spec fn view(&self) -> TokenView {
        TokenView {
            pubkey: self.pubkey,
            decimals: self.decimals,
            payer: self.payer,
            program_id: self.program_id,
            nonce: self.nonce,
            memo: match self.memo {
                Some(m) => Some(m@),
                None => None,
            },
            transfer_hook_accounts: match self.transfer_hook_accounts {
                Some(a) => Some(a@),
                None => None,
            },
        }
    }
}

impl TokenView {
    /// With a durable nonce, the list of transfer-hook accounts is present:
    /// empty rather than absent.
    pub open spec fn wf(self) -> bool {
        self.nonce is Some ==> self.transfer_hook_accounts is Some
    }
}

/// What a transaction is to be built from: the instructions in their final
/// order, who pays, the durable nonce if one replaces a fresh checkpoint,
/// and the keys that sign, in signing order.
#[derive(Debug)]
pub struct TransactionPlan {
    pub instructions: Vec<Instruction>,
    pub fee_payer: Pubkey,
    pub nonce: Option<DurableNonce>,
    pub signers: Vec<Pubkey>,
}

/// A transaction plan as mathematical values.
pub struct TransactionPlanView {
    pub instructions: Seq<InstructionView>,
    pub fee_payer: Pubkey,
    pub nonce: Option<DurableNonce>,
    pub signers: Seq<Pubkey>,
}

impl View for TransactionPlan {
    type V = TransactionPlanView;

    open spec fn view(&self) -> TransactionPlanView {
        TransactionPlanView {
            instructions: views(self.instructions@),
            fee_payer: self.fee_payer,
            nonce: self.nonce,
            signers: self.signers@,
        }
    }
}

impl TransactionPlan {
    /// True when the transaction needs a fresh checkpoint from the network.
    pub fn needs_latest_blockhash(&self) -> (r: bool)
        ensures
            r == (self@.nonce is None),
    {
        self.nonce.is_none()
    }
}

/// The instructions of a transaction, in order: the memo if there is one,
/// the operation's instructions, the compute-budget limit if one is asked
/// for.
pub open spec fn assembled_instructions(
    memo: Option<TokenMemoView>,
    operation: Seq<InstructionView>,
    compute_budget: Option<u32>,
) -> Seq<InstructionView> {
    (match memo {
        Some(m) => seq![m.instruction()],
        None => Seq::empty(),
    }) + operation + (match compute_budget {
        Some(units) => seq![compute_unit_limit_instruction(units)],
        None => Seq::empty(),
    })
}

/// The keys that sign, in order: the payer, the nonce authority if a nonce
/// is used, then the caller's signers.
pub open spec fn signing_order(
    payer: Pubkey,
    nonce: Option<DurableNonce>,
    co_signers: Seq<Pubkey>,
) -> Seq<Pubkey> {
    seq![payer] + (match nonce {
        Some(n) => seq![n.authority],
        None => Seq::empty(),
    }) + co_signers
}

impl TokenView {
    /// What assembling a transaction gives: the missing-signer error where
    /// the pending memo names a signer that is not among `signing_pubkeys`,
    /// else the plan.
    pub open spec fn construct_tx(
        self,
        operation: Seq<InstructionView>,
        compute_budget: Option<u32>,
        signing_pubkeys: Seq<Pubkey>,
    ) -> Result<TransactionPlanView, TokenError> {
        if self.refuses(signing_pubkeys) {
            Err(TokenError::MissingMemoSigner)
        } else {
            Ok(
                TransactionPlanView {
                    instructions: assembled_instructions(self.memo, operation, compute_budget),
                    fee_payer: self.payer,
                    nonce: self.nonce,
                    signers: signing_order(self.payer, self.nonce, signing_pubkeys),
                },
            )
        }
    }

    /// True when assembling is refused: a memo is pending and names a
    /// signer that is not among `signing_pubkeys`.
    pub open spec fn refuses(self, signing_pubkeys: Seq<Pubkey>) -> bool {
        self.memo is Some && !all_present(self.memo->Some_0.signers, signing_pubkeys)
    }

    /// The handle after assembling with `signing_pubkeys`: unchanged where
    /// assembling is refused, so that the memo is still pending, and else
    /// without the memo, which went out with the transaction.
    pub open spec fn after_construct_tx(self, signing_pubkeys: Seq<Pubkey>) -> TokenView {
        if self.refuses(signing_pubkeys) {
            self
        } else {
            TokenView { memo: None, ..self }
        }
    }
}

/// True when `r` holds the plan or the error that `expected` names.
pub open spec fn plans(
    r: Result<TransactionPlan, TokenError>,
    expected: Result<TransactionPlanView, TokenError>,
) -> bool {
    match expected {
        Ok(v) => r is Ok && r->Ok_0@ == v,
        Err(e) => r == Err::<TransactionPlan, TokenError>(e),
    }
}

impl Token {
    /// A handle on the mint `address` of the token program `program_id`,
    /// with fees paid by `payer`.
    pub fn new(program_id: &Pubkey, address: &Pubkey, decimals: Option<u8>, payer: Pubkey) -> (r:
        Token)
        ensures
            r@ == (TokenView {
                pubkey: *address,
                decimals,
                payer,
                program_id: *program_id,
                nonce: None,
                memo: None,
                transfer_hook_accounts: None,
            }),
            r@.wf(),
    {
        Token {
            pubkey: *address,
            decimals,
            payer,
            program_id: *program_id,
            nonce: None,
            memo: None,
            transfer_hook_accounts: None,
        }
    }

    /// A handle on the native mint of one of the two token programs.
    pub fn new_native(program_id: &Pubkey, payer: Pubkey) -> (r: Token)
        requires
            spec_native_mint(*program_id) is Some,
        ensures
            r@ == (TokenView {
                pubkey: spec_native_mint(*program_id)->Some_0,
                decimals: Some(NATIVE_MINT_DECIMALS),
                payer,
                program_id: *program_id,
                nonce: None,
                memo: None,
                transfer_hook_accounts: None,
            }),
            r@.wf(),
    {
        let mint = native_mint(program_id).unwrap();
        Token::new(program_id, &mint, native_mint_decimals(program_id), payer)
    }

    /// Tells whether the mint is the native mint of the handle's token
    /// program.
    pub fn is_native(&self) -> (r: bool)
        requires
            spec_native_mint(self@.program_id) is Some,
        ensures
            r == (self@.pubkey == spec_native_mint(self@.program_id)->Some_0),
    {
        self.pubkey == native_mint(&self.program_id).unwrap()
    }

    /// The mint's address.
    pub fn get_address(&self) -> (r: &Pubkey)
        ensures
            *r == self@.pubkey,
    {
        &self.pubkey
    }

    /// The same handle with another payer.
    pub fn with_payer(self, payer: Pubkey) -> (r: Token)
        ensures
            r@ == (TokenView { payer, ..self@ }),
            self@.wf() ==> r@.wf(),
    {
        let mut token = self;
        token.payer = payer;
        token
    }

    /// The same handle with a durable nonce, and with an empty list of
    /// transfer-hook accounts.
    pub fn with_nonce(
        self,
        nonce_account: &Pubkey,
        nonce_authority: Pubkey,
        nonce_blockhash: &Blockhash,
    ) -> (r: Token)
        ensures
            r@ == (TokenView {
                nonce: Some(
                    DurableNonce {
                        account: *nonce_account,
                        authority: nonce_authority,
                        blockhash: *nonce_blockhash,
                    },
                ),
                transfer_hook_accounts: Some(Seq::empty()),
                ..self@
            }),
            r@.wf(),
    {
        let mut token = self;
        token.nonce = Some(
            DurableNonce {
                account: *nonce_account,
                authority: nonce_authority,
                blockhash: *nonce_blockhash,
            },
        );
        token.transfer_hook_accounts = Some(Vec::new());
        token
    }

    /// The same handle with a fixed list of transfer-hook accounts.
    pub fn with_transfer_hook_accounts(self, transfer_hook_accounts: Vec<AccountMeta>) -> (r: Token)
        ensures
            r@ == (TokenView {
                transfer_hook_accounts: Some(transfer_hook_accounts@),
                ..self@
            }),
            r@.wf(),
    {
        let mut token = self;
        token.transfer_hook_accounts = Some(transfer_hook_accounts);
        token
    }

    /// Sets the memo that goes out with the next assembled transaction.
    pub fn with_memo(&mut self, memo: &str, signers: Vec<Pubkey>)
        ensures
            final(self)@ == (TokenView {
                memo: Some(TokenMemoView { text: memo@, signers: signers@ }),
                ..old(self)@
            }),
    {
        self.memo = Some(TokenMemo { text: memo.to_owned(), signers });
    }

    /// Assembles a transaction from the instructions of an operation.
    ///
    /// Where a pending memo names a signer that is not among
    /// `signing_pubkeys`, the result is the missing-signer error, the memo
    /// stays pending, and nothing needs to be fetched from the network.
    /// Else the memo is spent, and the plan holds the memo instruction
    /// first, then `token_instructions` in order, then the compute-budget
    /// limit if one is given; the signers are the payer, the nonce
    /// authority if a nonce is configured, and `signing_pubkeys`, in that
    /// order.
    pub fn construct_tx(
        &mut self,
        token_instructions: &Vec<Instruction>,
        additional_compute_budget: Option<u32>,
        signing_pubkeys: &Vec<Pubkey>,
    ) -> (r: Result<TransactionPlan, TokenError>)
        ensures
            final(self)@ == old(self)@.after_construct_tx(signing_pubkeys@),
            plans(
                r,
                old(self)@.construct_tx(
                    views(token_instructions@),
                    additional_compute_budget,
                    signing_pubkeys@,
                ),
            ),
    {
        let mut instructions: Vec<Instruction> = Vec::new();
        assert(views(instructions@) =~= Seq::<InstructionView>::empty());
        if let Some(memo) = &self.memo {
            if !contains_all(signing_pubkeys, &memo.signers) {
                return Err(TokenError::MissingMemoSigner);
            }
            push_instruction(&mut instructions, memo.to_instruction());
        }
        self.memo = None;
        append_instructions(&mut instructions, token_instructions);
        if let Some(units) = additional_compute_budget {
            push_instruction(&mut instructions, set_compute_unit_limit(units));
        }
        let mut signers: Vec<Pubkey> = Vec::new();
        signers.push(self.payer);
        if let Some(nonce) = self.nonce {
            signers.push(nonce.authority);
        }
        let ghost first = signers@;
        let mut j: usize = 0;
        while j < signing_pubkeys.len()
            invariant
                j <= signing_pubkeys.len(),
                signers@ == first + signing_pubkeys@.subrange(0, j as int),
            decreases signing_pubkeys.len() - j,
        {
            signers.push(signing_pubkeys[j]);
            j += 1;
        }
        assert(signing_pubkeys@.subrange(0, signing_pubkeys@.len() as int) == signing_pubkeys@);
        assert(views(instructions@) =~= assembled_instructions(
            old(self)@.memo,
            views(token_instructions@),
            additional_compute_budget,
        ));
        assert(signers@ =~= signing_order(old(self)@.payer, old(self)@.nonce, signing_pubkeys@));
        Ok(TransactionPlan { instructions, fee_payer: self.payer, nonce: self.nonce, signers })
    }

    /// Assembles the transaction of a dry run: `construct_tx` without a
    /// compute-budget limit. The caller has the network simulate it.
    pub fn simulate_ixs(
        &mut self,
        token_instructions: &Vec<Instruction>,
        signing_pubkeys: &Vec<Pubkey>,
    ) -> (r: Result<TransactionPlan, TokenError>)
        ensures
            final(self)@ == old(self)@.after_construct_tx(signing_pubkeys@),
            plans(r, old(self)@.construct_tx(views(token_instructions@), None, signing_pubkeys@)),
    {
        self.construct_tx(token_instructions, None, signing_pubkeys)
    }

    /// Assembles the transaction to submit: `construct_tx` without a
    /// compute-budget limit. The caller submits it.
    pub fn process_ixs(
        &mut self,
        token_instructions: &Vec<Instruction>,
        signing_pubkeys: &Vec<Pubkey>,
    ) -> (r: Result<TransactionPlan, TokenError>)
        ensures
            final(self)@ == old(self)@.after_construct_tx(signing_pubkeys@),
            plans(r, old(self)@.construct_tx(views(token_instructions@), None, signing_pubkeys@)),
    {
        self.construct_tx(token_instructions, None, signing_pubkeys)
    }

    /// Assembles the transaction to submit, with a limit of
    /// `additional_compute_budget` compute units as its last instruction.
    pub fn process_ixs_with_additional_compute_budget(
        &mut self,
        token_instructions: &Vec<Instruction>,
        additional_compute_budget: u32,
        signing_pubkeys: &Vec<Pubkey>,
    ) -> (r: Result<TransactionPlan, TokenError>)
        ensures
            final(self)@ == old(self)@.after_construct_tx(signing_pubkeys@),
            plans(
                r,
                old(self)@.construct_tx(
                    views(token_instructions@),
                    Some(additional_compute_budget),
                    signing_pubkeys@,
                ),
            ),
    {
        self.construct_tx(token_instructions, Some(additional_compute_budget), signing_pubkeys)
    }
}

/// Assembling with a pending memo fails with the missing-signer error
/// whenever the memo's signers are not a subset of the signers of the call.
pub proof fn lemma_missing_memo_signer_fails(
    token: TokenView,
    operation: Seq<InstructionView>,
    compute_budget: Option<u32>,
    signing_pubkeys: Seq<Pubkey>,
)
    requires
        token.memo is Some,
        !token.memo->Some_0.signers.to_set().subset_of(signing_pubkeys.to_set()),
    ensures
        token.construct_tx(operation, compute_budget, signing_pubkeys) == Err::<
            TransactionPlanView,
            TokenError,
        >(TokenError::MissingMemoSigner),
{
    let required = token.memo->Some_0.signers;
    if all_present(required, signing_pubkeys) {
        assert forall|k: Pubkey| required.to_set().contains(k) implies signing_pubkeys.to_set().contains(
            k,
        ) by {
            let i = choose|i: int| 0 <= i < required.len() && required[i] == k;
            assert(signing_pubkeys.contains(required[i]));
        }
    }
}

/// A memo goes out once: after a transaction was assembled, the next one
/// assembled from the same handle, with no new memo set, is never refused
/// and holds the operation's instructions and the compute-budget limit,
/// with no memo instruction before them.
pub proof fn lemma_memo_is_spent_once(
    token: TokenView,
    first_signing_pubkeys: Seq<Pubkey>,
    operation: Seq<InstructionView>,
    compute_budget: Option<u32>,
    signing_pubkeys: Seq<Pubkey>,
)
    requires
        !token.refuses(first_signing_pubkeys),
    ensures
        token.after_construct_tx(first_signing_pubkeys).construct_tx(
            operation,
            compute_budget,
            signing_pubkeys,
        ) is Ok,
        token.after_construct_tx(first_signing_pubkeys).construct_tx(
            operation,
            compute_budget,
            signing_pubkeys,
        )->Ok_0.instructions == operation + (match compute_budget {
            Some(units) => seq![compute_unit_limit_instruction(units)],
            None => Seq::empty(),
        }),
{
    assert(Seq::<InstructionView>::empty() + operation =~= operation);
}

/// A memo that could not go out is still there: after a refused call the
/// handle is what it was, and the same memo goes out with the next
/// transaction whose signers cover it.
pub proof fn lemma_refused_memo_stays(
    token: TokenView,
    first_signing_pubkeys: Seq<Pubkey>,
    operation: Seq<InstructionView>,
    compute_budget: Option<u32>,
    signing_pubkeys: Seq<Pubkey>,
)
    requires
        token.refuses(first_signing_pubkeys),
        !token.refuses(signing_pubkeys),
    ensures
        token.after_construct_tx(first_signing_pubkeys) == token,
        token.after_construct_tx(first_signing_pubkeys).construct_tx(
            operation,
            compute_budget,
            signing_pubkeys,
        ) is Ok,
        token.after_construct_tx(first_signing_pubkeys).construct_tx(
            operation,
            compute_budget,
            signing_pubkeys,
        )->Ok_0.instructions == assembled_instructions(token.memo, operation, compute_budget),
        token.after_construct_tx(first_signing_pubkeys).construct_tx(
            operation,
            compute_budget,
            signing_pubkeys,
        )->Ok_0.instructions[0] == token.memo->Some_0.instruction(),
{
}

} // verus!
