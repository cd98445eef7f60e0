//! A grant of tokens from a sender to a receiver through an escrow wallet
//! owned by a per-grant state account. The sender deposits the tokens; the
//! receiver may then take them (the grant completes), or the sender may
//! pull them back. The state account records the grant's stage as a code.
use vstd::prelude::*;

use crate::pubkey::Pubkey;
use crate::pda::{
    check_address_with_bump, check_canonical_address, find_program_address, is_address_with_bump, is_canonical_address,
    program_address_search,
};
use crate::seeds::{byte_seed, le_bytes, seed_from, u64_le_bytes};
use crate::token::{is_close_account, is_transfer, CloseAccount, TokenAccount, TokenInstruction, Transfer};

verus! {

/// The stages of a grant.
#[derive(Clone, Copy, Debug, PartialEq, Eq, Structural)]
pub enum Stage {
    /// The sender's tokens are in the escrow wallet.
    FundsDeposited,
    /// The receiver took the tokens out of the escrow.
    EscrowComplete,
    /// The sender took the tokens back.
    PullBackComplete,
}

/// Why a grant instruction fails.
#[derive(Clone, Copy, Debug, PartialEq, Eq, Structural)]
pub enum GrantError {
    /// The recorded stage is not a stage, or not one that allows the instruction.
    StageInvalid,
    /// A key recorded in the state account differs from the account passed.
    ConstraintHasOne,
    /// A token wallet has the wrong owner or mint.
    ConstraintRaw,
    /// The state account or the escrow wallet is not at the address that
    /// its seeds and bump give.
    ConstraintSeeds,
    /// The party who must sign did not.
    AccountNotSigner,
    /// An account that the instruction creates already exists.
    AccountAlreadyInUse,
    /// The receiver's deposit wallet is not the receiver's associated token
    /// account for the mint.
    AccountNotAssociatedTokenAccount,
}

/// The code that the state account stores for a stage.
pub open spec fn stage_code(s: Stage) -> u8 {
    match s {
        Stage::FundsDeposited => 1,
        Stage::EscrowComplete => 2,
        Stage::PullBackComplete => 3,
    }
}

/// The stage that a stored code stands for, if any.
pub open spec fn stage_of_code(val: u8) -> Option<Stage> {
    if val == 1 {
        Some(Stage::FundsDeposited)
    } else if val == 2 {
        Some(Stage::EscrowComplete)
    } else if val == 3 {
        Some(Stage::PullBackComplete)
    } else {
        None
    }
}

impl Stage {
    /// The code stored for this stage.
    pub fn to_code(&self) -> (r: u8)
        ensures
            r == stage_code(*self),
    {
        match self {
            Stage::FundsDeposited => 1,
            Stage::EscrowComplete => 2,
            Stage::PullBackComplete => 3,
        }
    }

    /// The stage of a stored code; an unknown code is `StageInvalid`.
    pub fn from(val: u8) -> (r: Result<Stage, GrantError>)
        ensures
            match stage_of_code(val) {
                Some(s) => r == Ok::<Stage, GrantError>(s),
                None => r == Err::<Stage, GrantError>(GrantError::StageInvalid),
            },
    {
        if val == 1 {
            Ok(Stage::FundsDeposited)
        } else if val == 2 {
            Ok(Stage::EscrowComplete)
        } else if val == 3 {
            Ok(Stage::PullBackComplete)
        } else {
            Err(GrantError::StageInvalid)
        }
    }
}

/// Reading back the code of a stage gives that stage, and a code that reads
/// as a stage is that stage's code.
pub proof fn lemma_stage_code_round_trip(s: Stage, val: u8)
    ensures
        stage_of_code(stage_code(s)) == Some(s),
        stage_of_code(val) matches Some(t) ==> stage_code(t) == val,
{
}

/// The state account of a grant.
#[derive(Clone, Copy, Debug)]
pub struct State {
    pub idx: u64,
    pub user_sending: Pubkey,
    pub user_receiving: Pubkey,
    pub mint_of_token_being_sent: Pubkey,
    pub escrow_wallet: Pubkey,
    pub amount_tokens: u64,
    pub stage: u8,
}

/// Accounts of `initialize_new_grant`.
#[derive(Clone, Copy, Debug)]
pub struct InitializeNewGrant {
    pub application_state: State,
    pub application_state_in_use: bool,
    pub escrow_wallet_state: Pubkey,
    pub user_sending: Pubkey,
    pub user_sending_is_signer: bool,
    pub user_receiving: Pubkey,
    pub mint_of_token_being_sent: Pubkey,
    pub wallet_to_withdraw_from: TokenAccount,
    pub system_program: Pubkey,
    pub token_program: Pubkey,
    pub rent: Pubkey,
}

/// Accounts of `complete_grant`.
#[derive(Clone, Copy, Debug)]
pub struct CompleteGrant {
    pub application_state: State,
    pub application_state_key: Pubkey,
    pub escrow_wallet_state: TokenAccount,
    pub wallet_to_deposit_to: Pubkey,
    pub user_sending: Pubkey,
    pub user_receiving: Pubkey,
    pub user_receiving_is_signer: bool,
    pub mint_of_token_being_sent: Pubkey,
    pub system_program: Pubkey,
    pub token_program: Pubkey,
    pub associated_token_program: Pubkey,
    pub rent: Pubkey,
}

/// Accounts of `pull_back`.
#[derive(Clone, Copy, Debug)]
pub struct PullBackInstruction {
    pub application_state: State,
    pub application_state_key: Pubkey,
    pub escrow_wallet_state: TokenAccount,
    pub user_sending: Pubkey,
    pub user_sending_is_signer: bool,
    pub user_receiving: Pubkey,
    pub mint_of_token_being_sent: Pubkey,
    pub system_program: Pubkey,
    pub token_program: Pubkey,
    pub rent: Pubkey,
    pub refund_wallet: TokenAccount,
}

/// The seed "state".
pub open spec fn state_seed() -> Seq<u8> {
    seq![115u8, 116u8, 97u8, 116u8, 101u8]
}

/// The seeds (bump included) with which the state account of a grant signs.
pub open spec fn state_signer_seeds(
    user_sending: Pubkey,
    user_receiving: Pubkey,
    mint: Pubkey,
    application_idx: u64,
    state_bump: u8,
) -> Seq<Seq<u8>> {
    seq![state_seed(), user_sending@, user_receiving@, mint@, le_bytes(application_idx), seq![state_bump]]
}

fn state_seed_bytes() -> (r: Vec<u8>)
    ensures
        r.deep_view() == state_seed(),
{
    let mut v: Vec<u8> = Vec::new();
    v.push(115u8);
    v.push(116u8);
    v.push(97u8);
    v.push(116u8);
    v.push(101u8);
    assert(v.deep_view() =~= state_seed());
    v
}

/// The signer seeds of the state account of a grant.
pub fn signer_seeds(
    user_sending: &Pubkey,
    user_receiving: &Pubkey,
    mint: &Pubkey,
    application_idx: u64,
    state_bump: u8,
) -> (r: Vec<Vec<u8>>)
    ensures
        r.deep_view() == state_signer_seeds(*user_sending, *user_receiving, *mint, application_idx, state_bump),
{
    let mut r: Vec<Vec<u8>> = Vec::new();
    r.push(state_seed_bytes());
    r.push(user_sending.to_vec());
    r.push(user_receiving.to_vec());
    r.push(mint.to_vec());
    r.push(u64_le_bytes(application_idx));
    r.push(byte_seed(state_bump));
    assert(r.deep_view() =~= state_signer_seeds(
        *user_sending,
        *user_receiving,
        *mint,
        application_idx,
        state_bump,
    ));
    r
}

/// The constraints of `initialize_new_grant`: the wallet the tokens leave
/// belongs to the sender and holds the granted mint.
pub open spec fn initialize_new_grant_accepts(ctx: InitializeNewGrant) -> bool {
    &&& ctx.wallet_to_withdraw_from.owner == ctx.user_sending
    &&& ctx.wallet_to_withdraw_from.mint == ctx.mint_of_token_being_sent
}

/// Opens a grant of `amount` tokens: records the parties, the mint, the
/// escrow wallet and the amount in the state account with the stage
/// `FundsDeposited`, and asks the token program to move `amount` tokens from
/// the sender's wallet into the escrow wallet.
pub fn initialize_new_grant(
    ctx: &mut InitializeNewGrant,
    application_idx: u64,
    state_bump: u8,
    _wallet_bump: u8,
    amount: u64,
) -> (r: Result<TokenInstruction, GrantError>)
    ensures
        r is Ok <==> initialize_new_grant_accepts(*old(ctx)),
        r is Err ==> r == Err::<TokenInstruction, GrantError>(GrantError::ConstraintRaw) && *final(ctx) == *old(ctx),
        r matches Ok(i) ==> {
            &&& *final(ctx) == (InitializeNewGrant {
                application_state: State {
                    idx: application_idx,
                    user_sending: old(ctx).user_sending,
                    user_receiving: old(ctx).user_receiving,
                    mint_of_token_being_sent: old(ctx).mint_of_token_being_sent,
                    escrow_wallet: old(ctx).escrow_wallet_state,
                    amount_tokens: amount,
                    stage: stage_code(Stage::FundsDeposited),
                },
                ..*old(ctx)
            })
            &&& is_transfer(
                i,
                Transfer {
                    from: old(ctx).wallet_to_withdraw_from.key,
                    to: old(ctx).escrow_wallet_state,
                    authority: old(ctx).user_sending,
                },
                amount,
                state_signer_seeds(
                    old(ctx).user_sending,
                    old(ctx).user_receiving,
                    old(ctx).mint_of_token_being_sent,
                    application_idx,
                    state_bump,
                ),
            )
        },
{
    if !(ctx.wallet_to_withdraw_from.owner == ctx.user_sending) {
        return Err(GrantError::ConstraintRaw);
    }
    if !(ctx.wallet_to_withdraw_from.mint == ctx.mint_of_token_being_sent) {
        return Err(GrantError::ConstraintRaw);
    }
    ctx.application_state.idx = application_idx;
    ctx.application_state.user_sending = ctx.user_sending;
    ctx.application_state.user_receiving = ctx.user_receiving;
    ctx.application_state.mint_of_token_being_sent = ctx.mint_of_token_being_sent;
    ctx.application_state.escrow_wallet = ctx.escrow_wallet_state;
    ctx.application_state.amount_tokens = amount;

    let transfer = TokenInstruction::Transfer {
        accounts: Transfer {
            from: ctx.wallet_to_withdraw_from.key,
            to: ctx.escrow_wallet_state,
            authority: ctx.user_sending,
        },
        amount: ctx.application_state.amount_tokens,
        signer_seeds: signer_seeds(
            &ctx.user_sending,
            &ctx.user_receiving,
            &ctx.mint_of_token_being_sent,
            application_idx,
            state_bump,
        ),
    };
    ctx.application_state.stage = Stage::FundsDeposited.to_code();
    Ok(transfer)
}

/// The transfer out of the escrow wallet: `amount` tokens go from
/// `escrow_wallet` to `destination_wallet`, signed by the state account.
/// After the runtime has made it, `close_escrow_if_empty` says whether the
/// escrow wallet is to be closed.
pub fn transfer_escrow_out(
    user_sending: &Pubkey,
    user_receiving: &Pubkey,
    mint_of_token_being_sent: &Pubkey,
    escrow_wallet: &Pubkey,
    application_idx: u64,
    state: &Pubkey,
    state_bump: u8,
    destination_wallet: &Pubkey,
    amount: u64,
) -> (r: TokenInstruction)
    ensures
        is_transfer(
            r,
            Transfer { from: *escrow_wallet, to: *destination_wallet, authority: *state },
            amount,
            state_signer_seeds(*user_sending, *user_receiving, *mint_of_token_being_sent, application_idx, state_bump),
        ),
{
    TokenInstruction::Transfer {
        accounts: Transfer { from: *escrow_wallet, to: *destination_wallet, authority: *state },
        amount,
        signer_seeds: signer_seeds(user_sending, user_receiving, mint_of_token_being_sent, application_idx, state_bump),
    }
}

/// The second step of a transfer out of the escrow: given the escrow
/// wallet's balance once the transfer is made, the wallet is closed, its
/// rent going to the sender, exactly when it holds no more tokens.
pub fn close_escrow_if_empty(
    user_sending: &Pubkey,
    user_receiving: &Pubkey,
    mint_of_token_being_sent: &Pubkey,
    escrow_wallet: &Pubkey,
    application_idx: u64,
    state: &Pubkey,
    state_bump: u8,
    escrow_amount_after_transfer: u64,
) -> (r: Option<TokenInstruction>)
    ensures
        r is Some <==> escrow_amount_after_transfer == 0,
        r matches Some(i) ==> is_close_account(
            i,
            CloseAccount { account: *escrow_wallet, destination: *user_sending, authority: *state },
            state_signer_seeds(*user_sending, *user_receiving, *mint_of_token_being_sent, application_idx, state_bump),
        ),
{
    if escrow_amount_after_transfer == 0 {
        Some(
            TokenInstruction::CloseAccount {
                accounts: CloseAccount { account: *escrow_wallet, destination: *user_sending, authority: *state },
                signer_seeds: signer_seeds(
                    user_sending,
                    user_receiving,
                    mint_of_token_being_sent,
                    application_idx,
                    state_bump,
                ),
            },
        )
    } else {
        None
    }
}

/// The recorded parties and mint are those passed.
pub open spec fn grant_keys_match(s: State, user_sending: Pubkey, user_receiving: Pubkey, mint: Pubkey) -> bool {
    &&& s.user_sending == user_sending
    &&& s.user_receiving == user_receiving
    &&& s.mint_of_token_being_sent == mint
}

fn check_grant_keys(s: &State, user_sending: &Pubkey, user_receiving: &Pubkey, mint: &Pubkey) -> (r: bool)
    ensures
        r == grant_keys_match(*s, *user_sending, *user_receiving, *mint),
{
    s.user_sending == *user_sending && s.user_receiving == *user_receiving && s.mint_of_token_being_sent == *mint
}

/// The stages from which the receiver may take the grant.
pub open spec fn complete_allowed(stage: u8) -> bool {
    stage_of_code(stage) == Some(Stage::FundsDeposited)
}

/// The stages from which the sender may pull the grant back.
pub open spec fn pull_back_allowed(stage: u8) -> bool {
    stage_of_code(stage) == Some(Stage::FundsDeposited) || stage_of_code(stage) == Some(Stage::PullBackComplete)
}

/// The receiver takes the grant: checks the recorded keys and that the
/// funds are deposited, asks the token program to move the granted amount
/// from the escrow wallet into the receiver's wallet, and records the stage
/// `EscrowComplete`.
pub fn complete_grant(
    ctx: &mut CompleteGrant,
    application_idx: u64,
    state_bump: u8,
    _wallet_bump: u8,
) -> (r: Result<TokenInstruction, GrantError>)
    ensures
        !grant_keys_match(
            old(ctx).application_state,
            old(ctx).user_sending,
            old(ctx).user_receiving,
            old(ctx).mint_of_token_being_sent,
        ) ==> r == Err::<TokenInstruction, GrantError>(GrantError::ConstraintHasOne),
        grant_keys_match(
            old(ctx).application_state,
            old(ctx).user_sending,
            old(ctx).user_receiving,
            old(ctx).mint_of_token_being_sent,
        ) && !complete_allowed(old(ctx).application_state.stage) ==> r == Err::<TokenInstruction, GrantError>(
            GrantError::StageInvalid,
        ),
        r is Ok <==> grant_keys_match(
            old(ctx).application_state,
            old(ctx).user_sending,
            old(ctx).user_receiving,
            old(ctx).mint_of_token_being_sent,
        ) && complete_allowed(old(ctx).application_state.stage),
        r is Err ==> *final(ctx) == *old(ctx),
        r matches Ok(i) ==> {
            &&& *final(ctx) == (CompleteGrant {
                application_state: State { stage: stage_code(Stage::EscrowComplete), ..old(ctx).application_state },
                ..*old(ctx)
            })
            &&& is_transfer(
                i,
                Transfer {
                    from: old(ctx).escrow_wallet_state.key,
                    to: old(ctx).wallet_to_deposit_to,
                    authority: old(ctx).application_state_key,
                },
                old(ctx).application_state.amount_tokens,
                state_signer_seeds(
                    old(ctx).user_sending,
                    old(ctx).user_receiving,
                    old(ctx).mint_of_token_being_sent,
                    application_idx,
                    state_bump,
                ),
            )
        },
{
    if !check_grant_keys(
        &ctx.application_state,
        &ctx.user_sending,
        &ctx.user_receiving,
        &ctx.mint_of_token_being_sent,
    ) {
        return Err(GrantError::ConstraintHasOne);
    }
    let stage = Stage::from(ctx.application_state.stage)?;
    if stage != Stage::FundsDeposited {
        return Err(GrantError::StageInvalid);
    }
    let transfer = transfer_escrow_out(
        &ctx.user_sending,
        &ctx.user_receiving,
        &ctx.mint_of_token_being_sent,
        &ctx.escrow_wallet_state.key,
        application_idx,
        &ctx.application_state_key,
        state_bump,
        &ctx.wallet_to_deposit_to,
        ctx.application_state.amount_tokens,
    );
    ctx.application_state.stage = Stage::EscrowComplete.to_code();
    Ok(transfer)
}

/// The refund wallet belongs to the sender and holds the granted mint.
pub open spec fn refund_wallet_ok(ctx: PullBackInstruction) -> bool {
    &&& ctx.refund_wallet.owner == ctx.user_sending
    &&& ctx.refund_wallet.mint == ctx.mint_of_token_being_sent
}

/// The sender pulls the grant back: checks the recorded keys, the refund
/// wallet and the stage, asks the token program to move everything the
/// escrow wallet holds into the refund wallet, and records the stage
/// `PullBackComplete`.
pub fn pull_back(
    ctx: &mut PullBackInstruction,
    application_idx: u64,
    state_bump: u8,
    _wallet_bump: u8,
) -> (r: Result<TokenInstruction, GrantError>)
    ensures
        !grant_keys_match(
            old(ctx).application_state,
            old(ctx).user_sending,
            old(ctx).user_receiving,
            old(ctx).mint_of_token_being_sent,
        ) ==> r == Err::<TokenInstruction, GrantError>(GrantError::ConstraintHasOne),
        grant_keys_match(
            old(ctx).application_state,
            old(ctx).user_sending,
            old(ctx).user_receiving,
            old(ctx).mint_of_token_being_sent,
        ) && !refund_wallet_ok(*old(ctx)) ==> r == Err::<TokenInstruction, GrantError>(GrantError::ConstraintRaw),
        grant_keys_match(
            old(ctx).application_state,
            old(ctx).user_sending,
            old(ctx).user_receiving,
            old(ctx).mint_of_token_being_sent,
        ) && refund_wallet_ok(*old(ctx)) && !pull_back_allowed(old(ctx).application_state.stage)
            ==> r == Err::<TokenInstruction, GrantError>(GrantError::StageInvalid),
        r is Ok <==> grant_keys_match(
            old(ctx).application_state,
            old(ctx).user_sending,
            old(ctx).user_receiving,
            old(ctx).mint_of_token_being_sent,
        ) && refund_wallet_ok(*old(ctx)) && pull_back_allowed(old(ctx).application_state.stage),
        r is Err ==> *final(ctx) == *old(ctx),
        r matches Ok(i) ==> {
            &&& *final(ctx) == (PullBackInstruction {
                application_state: State { stage: stage_code(Stage::PullBackComplete), ..old(ctx).application_state },
                ..*old(ctx)
            })
            &&& is_transfer(
                i,
                Transfer {
                    from: old(ctx).escrow_wallet_state.key,
                    to: old(ctx).refund_wallet.key,
                    authority: old(ctx).application_state_key,
                },
                old(ctx).escrow_wallet_state.amount,
                state_signer_seeds(
                    old(ctx).user_sending,
                    old(ctx).user_receiving,
                    old(ctx).mint_of_token_being_sent,
                    application_idx,
                    state_bump,
                ),
            )
        },
{
    if !check_grant_keys(
        &ctx.application_state,
        &ctx.user_sending,
        &ctx.user_receiving,
        &ctx.mint_of_token_being_sent,
    ) {
        return Err(GrantError::ConstraintHasOne);
    }
    if !(ctx.refund_wallet.owner == ctx.user_sending && ctx.refund_wallet.mint == ctx.mint_of_token_being_sent) {
        return Err(GrantError::ConstraintRaw);
    }
    let current_stage = Stage::from(ctx.application_state.stage)?;
    let is_valid_stage = current_stage == Stage::FundsDeposited || current_stage == Stage::PullBackComplete;
    if !is_valid_stage {
        return Err(GrantError::StageInvalid);
    }
    let wallet_amount = ctx.escrow_wallet_state.amount;
    let transfer = transfer_escrow_out(
        &ctx.user_sending,
        &ctx.user_receiving,
        &ctx.mint_of_token_being_sent,
        &ctx.escrow_wallet_state.key,
        application_idx,
        &ctx.application_state_key,
        state_bump,
        &ctx.refund_wallet.key,
        wallet_amount,
    );
    ctx.application_state.stage = Stage::PullBackComplete.to_code();
    Ok(transfer)
}

/// A grant pays out at most once: once the receiver has taken it, neither
/// the receiver nor the sender can take it again; once the sender has
/// pulled it back, the receiver can no longer take it.
pub proof fn lemma_grant_pays_out_once(stage: u8)
    ensures
        stage == stage_code(Stage::EscrowComplete) ==> !complete_allowed(stage) && !pull_back_allowed(stage),
        stage == stage_code(Stage::PullBackComplete) ==> !complete_allowed(stage),
        complete_allowed(stage) ==> pull_back_allowed(stage),
{
}

/// Only the grant's own parties and mint can settle it: `complete_grant`
/// and `pull_back` succeed (their keys check passes) only when the sender,
/// the receiver and the mint passed are exactly those recorded in the
/// grant's state account; and they pass that check whenever all three are.
pub proof fn lemma_settlement_needs_recorded_keys(c: CompleteGrant, p: PullBackInstruction)
    ensures
        grant_keys_match(c.application_state, c.user_sending, c.user_receiving, c.mint_of_token_being_sent)
            <==> (c.application_state.user_sending == c.user_sending
            && c.application_state.user_receiving == c.user_receiving
            && c.application_state.mint_of_token_being_sent == c.mint_of_token_being_sent),
        grant_keys_match(p.application_state, p.user_sending, p.user_receiving, p.mint_of_token_being_sent)
            <==> (p.application_state.user_sending == p.user_sending
            && p.application_state.user_receiving == p.user_receiving
            && p.application_state.mint_of_token_being_sent == p.mint_of_token_being_sent),
{
}

/// A pulled-back grant goes back to the grant's sender, in the granted
/// mint: whenever `pull_back`'s account checks pass, the refund wallet
/// belongs to the sender recorded in the grant and holds the mint recorded
/// in the grant.
pub proof fn lemma_pull_back_refunds_sender(p: PullBackInstruction)
    requires
        grant_keys_match(p.application_state, p.user_sending, p.user_receiving, p.mint_of_token_being_sent),
        refund_wallet_ok(p),
    ensures
        p.refund_wallet.owner == p.application_state.user_sending,
        p.refund_wallet.mint == p.application_state.mint_of_token_being_sent,
{
}

/// The refund wallet check accepts exactly the wallets that the sender
/// passed owns and that hold the mint passed.
pub proof fn lemma_refund_wallet_check(p: PullBackInstruction)
    ensures
        refund_wallet_ok(p) <==> (p.refund_wallet.owner == p.user_sending
            && p.refund_wallet.mint == p.mint_of_token_being_sent),
{
}

/// A grant is funded from the sender's own wallet of the granted mint: the
/// check of `initialize_new_grant` accepts exactly such wallets.
pub proof fn lemma_new_grant_funded_by_sender(ctx: InitializeNewGrant)
    ensures
        initialize_new_grant_accepts(ctx) <==> (ctx.wallet_to_withdraw_from.owner == ctx.user_sending
            && ctx.wallet_to_withdraw_from.mint == ctx.mint_of_token_being_sent),
{
}

/// The stages that allow each settlement: the receiver takes only a grant
/// whose funds are deposited; the sender pulls back a grant whose funds are
/// deposited or that was already pulled back, and no other.
pub proof fn lemma_settlement_stages(stage: u8)
    ensures
        complete_allowed(stage) <==> stage == stage_code(Stage::FundsDeposited),
        pull_back_allowed(stage) <==> (stage == stage_code(Stage::FundsDeposited) || stage == stage_code(
            Stage::PullBackComplete,
        )),
{
    lemma_stage_code_round_trip(Stage::FundsDeposited, stage);
    lemma_stage_code_round_trip(Stage::PullBackComplete, stage);
}

/// A new grant can be taken by the receiver or pulled back by the sender.
pub proof fn lemma_new_grant_open(stage: u8)
    requires
        stage == stage_code(Stage::FundsDeposited),
    ensures
        complete_allowed(stage),
        pull_back_allowed(stage),
{
}

/// The seeds (bump not included) of the state account or, with `prefix`
/// "wallet", of the escrow wallet of a grant.
pub open spec fn grant_seeds(prefix: Seq<u8>, user_sending: Pubkey, user_receiving: Pubkey, mint: Pubkey, application_idx: u64) -> Seq<Seq<u8>> {
    seq![prefix, user_sending@, user_receiving@, mint@, le_bytes(application_idx)]
}

/// The seed "wallet".
pub open spec fn wallet_seed() -> Seq<u8> {
    seq![119u8, 97u8, 108u8, 108u8, 101u8, 116u8]
}

fn grant_seeds_of(
    prefix: &[u8],
    user_sending: &Pubkey,
    user_receiving: &Pubkey,
    mint: &Pubkey,
    application_idx: u64,
) -> (r: Vec<Vec<u8>>)
    ensures
        r.deep_view() == grant_seeds(prefix@, *user_sending, *user_receiving, *mint, application_idx),
{
    let mut seeds: Vec<Vec<u8>> = Vec::new();
    seeds.push(seed_from(prefix));
    seeds.push(user_sending.to_vec());
    seeds.push(user_receiving.to_vec());
    seeds.push(mint.to_vec());
    seeds.push(u64_le_bytes(application_idx));
    assert(seeds.deep_view() =~= grant_seeds(prefix@, *user_sending, *user_receiving, *mint, application_idx));
    seeds
}

/// The state account of a new grant is at the program derived address of
/// "state", both parties, the mint and the grant's index, with `state_bump`
/// as its bump.
pub open spec fn new_grant_state_address_ok(
    ctx: InitializeNewGrant,
    application_state_key: Pubkey,
    application_idx: u64,
    state_bump: u8,
    program_id: Pubkey,
) -> bool {
    is_canonical_address(
        grant_seeds(state_seed(), ctx.user_sending, ctx.user_receiving, ctx.mint_of_token_being_sent, application_idx),
        program_id,
        application_state_key,
        Some(state_bump),
    )
}

/// Checks the accounts of `initialize_new_grant`: the sender, who pays for
/// the new accounts, signs; the state account that it creates is at the
/// program derived address of "state", both parties, the mint and the
/// grant's index, with `state_bump` as its bump; and no account exists there
/// yet.
pub fn validate_initialize_new_grant(
    ctx: &InitializeNewGrant,
    application_state_key: &Pubkey,
    application_idx: u64,
    state_bump: u8,
    program_id: &Pubkey,
) -> (r: Result<(), GrantError>)
    ensures
        !ctx.user_sending_is_signer ==> r == Err::<(), GrantError>(GrantError::AccountNotSigner),
        ctx.user_sending_is_signer && !new_grant_state_address_ok(*ctx, *application_state_key, application_idx, state_bump, *program_id)
            ==> r == Err::<(), GrantError>(GrantError::ConstraintSeeds),
        ctx.user_sending_is_signer && new_grant_state_address_ok(*ctx, *application_state_key, application_idx, state_bump, *program_id)
            && ctx.application_state_in_use ==> r == Err::<(), GrantError>(GrantError::AccountAlreadyInUse),
        r is Ok <==> ctx.user_sending_is_signer && new_grant_state_address_ok(
            *ctx,
            *application_state_key,
            application_idx,
            state_bump,
            *program_id,
        ) && !ctx.application_state_in_use,
{
    if !ctx.user_sending_is_signer {
        return Err(GrantError::AccountNotSigner);
    }
    let lit: [u8; 5] = [115, 116, 97, 116, 101];
    let seeds = grant_seeds_of(
        &lit,
        &ctx.user_sending,
        &ctx.user_receiving,
        &ctx.mint_of_token_being_sent,
        application_idx,
    );
    assert(lit@ =~= state_seed());
    if !check_canonical_address(&seeds, program_id, application_state_key, Some(state_bump)) {
        return Err(GrantError::ConstraintSeeds);
    }
    if ctx.application_state_in_use {
        return Err(GrantError::AccountAlreadyInUse);
    }
    Ok(())
}

/// Both accounts of a grant are where their seeds and the given bumps put
/// them: the state account (seed "state") and the escrow wallet (seed
/// "wallet").
pub open spec fn grant_addresses_ok(
    user_sending: Pubkey,
    user_receiving: Pubkey,
    mint: Pubkey,
    application_idx: u64,
    state_bump: u8,
    wallet_bump: u8,
    state_key: Pubkey,
    wallet_key: Pubkey,
    program_id: Pubkey,
) -> bool {
    &&& is_address_with_bump(
        grant_seeds(state_seed(), user_sending, user_receiving, mint, application_idx),
        state_bump,
        program_id,
        state_key,
    )
    &&& is_address_with_bump(
        grant_seeds(wallet_seed(), user_sending, user_receiving, mint, application_idx),
        wallet_bump,
        program_id,
        wallet_key,
    )
}

fn check_grant_addresses(
    user_sending: &Pubkey,
    user_receiving: &Pubkey,
    mint: &Pubkey,
    application_idx: u64,
    state_bump: u8,
    wallet_bump: u8,
    state_key: &Pubkey,
    wallet_key: &Pubkey,
    program_id: &Pubkey,
) -> (r: bool)
    ensures
        r == grant_addresses_ok(
            *user_sending,
            *user_receiving,
            *mint,
            application_idx,
            state_bump,
            wallet_bump,
            *state_key,
            *wallet_key,
            *program_id,
        ),
{
    let state_lit: [u8; 5] = [115, 116, 97, 116, 101];
    let wallet_lit: [u8; 6] = [119, 97, 108, 108, 101, 116];
    assert(state_lit@ =~= state_seed());
    assert(wallet_lit@ =~= wallet_seed());
    let state_seeds = grant_seeds_of(&state_lit, user_sending, user_receiving, mint, application_idx);
    let wallet_seeds = grant_seeds_of(&wallet_lit, user_sending, user_receiving, mint, application_idx);
    check_address_with_bump(&state_seeds, state_bump, program_id, state_key) && check_address_with_bump(
        &wallet_seeds,
        wallet_bump,
        program_id,
        wallet_key,
    )
}

/// The seeds of the associated token account of `owner` for `mint` under
/// `token_program`.
pub open spec fn associated_token_seeds(owner: Pubkey, token_program: Pubkey, mint: Pubkey) -> Seq<Seq<u8>> {
    seq![owner@, token_program@, mint@]
}

/// The address of the associated token account program,
/// ATokenGPvbdGVxr1b2hvZbsiqW5xWH25efTNsLJA8knL.
pub open spec fn associated_token_program_id() -> Seq<u8> {
    seq![
        140u8, 151u8, 37u8, 143u8, 78u8, 36u8, 137u8, 241u8, 187u8, 61u8, 16u8, 41u8, 20u8, 142u8, 13u8, 131u8,
        11u8, 90u8, 19u8, 153u8, 218u8, 255u8, 16u8, 132u8, 4u8, 142u8, 123u8, 216u8, 219u8, 233u8, 248u8, 89u8,
    ]
}

/// The associated token account of `owner` for `mint` under `token_program`:
/// what the address search gives for its seeds under the associated token
/// account program, when it finds an address.
pub open spec fn associated_token_address_of(owner: Pubkey, token_program: Pubkey, mint: Pubkey) -> Option<Seq<u8>> {
    match program_address_search(associated_token_seeds(owner, token_program, mint), associated_token_program_id()) {
        Some((k, _b)) => Some(k),
        None => None,
    }
}

/// The associated token account program's address,
/// `anchor_spl::associated_token::ID`. Claimed: its bytes are those of
/// `associated_token_program_id` (the address the interface crate declares).
#[verifier::external_body]
fn associated_token_program() -> (r: Pubkey)
    ensures
        r@ == associated_token_program_id(),
{
    Pubkey::new_from_array(anchor_spl::associated_token::ID.to_bytes())
}

/// Derives the associated token account of `owner` for `mint` with
/// `anchor_spl::associated_token::get_associated_token_address_with_program_id`.
/// Claimed: the function runs the program address search over the seeds
/// owner, token program, mint under the associated token account program
/// and returns the address it finds; it panics when the search finds none,
/// so that case is excluded.
#[verifier::external_body]
fn associated_token_address(owner: &Pubkey, mint: &Pubkey, token_program: &Pubkey) -> (r: Pubkey)
    requires
        associated_token_address_of(*owner, *token_program, *mint) is Some,
    ensures
        associated_token_address_of(*owner, *token_program, *mint) == Some(r@),
{
    let k = anchor_spl::associated_token::get_associated_token_address_with_program_id(
        &anchor_lang::prelude::Pubkey::new_from_array(owner.to_bytes()),
        &anchor_lang::prelude::Pubkey::new_from_array(mint.to_bytes()),
        &anchor_lang::prelude::Pubkey::new_from_array(token_program.to_bytes()),
    );
    Pubkey::new_from_array(k.to_bytes())
}

/// The first account check of `complete_grant` that fails: the receiver
/// signs; the deposit wallet is the receiver's associated token account for
/// the mint under the token program passed; the state account and the
/// escrow wallet are where their seeds and bumps put them.
pub open spec fn complete_grant_accounts_error(
    ctx: CompleteGrant,
    application_idx: u64,
    state_bump: u8,
    wallet_bump: u8,
    program_id: Pubkey,
) -> Option<GrantError> {
    if !ctx.user_receiving_is_signer {
        Some(GrantError::AccountNotSigner)
    } else if associated_token_address_of(ctx.user_receiving, ctx.token_program, ctx.mint_of_token_being_sent)
        != Some(ctx.wallet_to_deposit_to@) {
        Some(GrantError::AccountNotAssociatedTokenAccount)
    } else if !grant_addresses_ok(
        ctx.user_sending,
        ctx.user_receiving,
        ctx.mint_of_token_being_sent,
        application_idx,
        state_bump,
        wallet_bump,
        ctx.application_state_key,
        ctx.escrow_wallet_state.key,
        program_id,
    ) {
        Some(GrantError::ConstraintSeeds)
    } else {
        None
    }
}

/// Checks the accounts of `complete_grant`: see
/// `complete_grant_accounts_error`. The receiver's associated token account
/// must exist as an address (the derivation aborts the instruction
/// otherwise); `try_validate_complete_grant` makes no such demand.
pub fn validate_complete_grant(
    ctx: &CompleteGrant,
    application_idx: u64,
    state_bump: u8,
    wallet_bump: u8,
    program_id: &Pubkey,
) -> (r: Result<(), GrantError>)
    requires
        ctx.user_receiving_is_signer ==> associated_token_address_of(
            ctx.user_receiving,
            ctx.token_program,
            ctx.mint_of_token_being_sent,
        ) is Some,
    ensures
        r is Ok <==> complete_grant_accounts_error(*ctx, application_idx, state_bump, wallet_bump, *program_id) is None,
        r matches Err(e) ==> complete_grant_accounts_error(*ctx, application_idx, state_bump, wallet_bump, *program_id)
            == Some(e),
{
    if !ctx.user_receiving_is_signer {
        return Err(GrantError::AccountNotSigner);
    }
    let wallet = associated_token_address(&ctx.user_receiving, &ctx.mint_of_token_being_sent, &ctx.token_program);
    proof {
        Pubkey::lemma_eq_bytes(wallet, ctx.wallet_to_deposit_to);
    }
    if !(wallet == ctx.wallet_to_deposit_to) {
        return Err(GrantError::AccountNotAssociatedTokenAccount);
    }
    if check_grant_addresses(
        &ctx.user_sending,
        &ctx.user_receiving,
        &ctx.mint_of_token_being_sent,
        application_idx,
        state_bump,
        wallet_bump,
        &ctx.application_state_key,
        &ctx.escrow_wallet_state.key,
        program_id,
    ) {
        Ok(())
    } else {
        Err(GrantError::ConstraintSeeds)
    }
}

/// The account checks of `complete_grant` on any accounts: `None` when the
/// receiver signed but no associated token account address exists for the
/// receiver, the token program and the mint (the instruction aborts there),
/// else what `validate_complete_grant` gives.
pub fn try_validate_complete_grant(
    ctx: &CompleteGrant,
    application_idx: u64,
    state_bump: u8,
    wallet_bump: u8,
    program_id: &Pubkey,
) -> (r: Option<Result<(), GrantError>>)
    ensures
        r is None <==> ctx.user_receiving_is_signer && associated_token_address_of(
            ctx.user_receiving,
            ctx.token_program,
            ctx.mint_of_token_being_sent,
        ) is None,
        r matches Some(v) ==> (v is Ok <==> complete_grant_accounts_error(
            *ctx,
            application_idx,
            state_bump,
            wallet_bump,
            *program_id,
        ) is None),
        r matches Some(Err(e)) ==> complete_grant_accounts_error(*ctx, application_idx, state_bump, wallet_bump, *program_id)
            == Some(e),
{
    if ctx.user_receiving_is_signer {
        let mut seeds: Vec<Vec<u8>> = Vec::new();
        seeds.push(ctx.user_receiving.to_vec());
        seeds.push(ctx.token_program.to_vec());
        seeds.push(ctx.mint_of_token_being_sent.to_vec());
        assert(seeds.deep_view() =~= associated_token_seeds(
            ctx.user_receiving,
            ctx.token_program,
            ctx.mint_of_token_being_sent,
        ));
        let ata_program = associated_token_program();
        if find_program_address(&seeds, &ata_program).is_none() {
            return None;
        }
    }
    Some(validate_complete_grant(ctx, application_idx, state_bump, wallet_bump, program_id))
}


/// Checks the addresses of the state account and the escrow wallet that
/// `pull_back` uses.
pub fn validate_pull_back(
    ctx: &PullBackInstruction,
    application_idx: u64,
    state_bump: u8,
    wallet_bump: u8,
    program_id: &Pubkey,
) -> (r: Result<(), GrantError>)
    ensures
        !ctx.user_sending_is_signer ==> r == Err::<(), GrantError>(GrantError::AccountNotSigner),
        ctx.user_sending_is_signer ==> (r is Ok <==> grant_addresses_ok(
            ctx.user_sending,
            ctx.user_receiving,
            ctx.mint_of_token_being_sent,
            application_idx,
            state_bump,
            wallet_bump,
            ctx.application_state_key,
            ctx.escrow_wallet_state.key,
            *program_id,
        )),
        ctx.user_sending_is_signer && r is Err ==> r == Err::<(), GrantError>(GrantError::ConstraintSeeds),
{
    if !ctx.user_sending_is_signer {
        return Err(GrantError::AccountNotSigner);
    }
    if check_grant_addresses(
        &ctx.user_sending,
        &ctx.user_receiving,
        &ctx.mint_of_token_being_sent,
        application_idx,
        state_bump,
        wallet_bump,
        &ctx.application_state_key,
        &ctx.escrow_wallet_state.key,
        program_id,
    ) {
        Ok(())
    } else {
        Err(GrantError::ConstraintSeeds)
    }
}

} // verus!
