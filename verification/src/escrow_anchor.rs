//! An escrow of tokens between two parties. The initializer hands the
//! authority over its deposit account to a program derived address (the
//! vault authority) and deposits `initializer_amount` tokens into a vault; a
//! taker who sends `taker_amount` tokens of the other kind to the initializer
//! receives the deposit out of the vault, whose authority is set back to the
//! initializer; the initializer may instead cancel, take the deposit back and
//! get the authority over its deposit account back.
use vstd::prelude::*;

use crate::errors::ConstraintError;
use crate::pda::{check_canonical_address, find_program_address, is_canonical_address, program_address_search};
use crate::seeds::seed_from;
use crate::pubkey::Pubkey;
use crate::token::{
    is_set_authority, is_transfer, AuthorityType, CloseAccount, SetAuthority,
    TokenAccount, TokenInstruction, Transfer,
};

verus! {

/// The escrow record: who made the offer, where the offered tokens came
/// from, where the asked tokens must go, and both amounts.
#[derive(Clone, Copy, Debug)]
pub struct EscrowAccount {
    pub initializer_key: Pubkey,
    pub initializer_deposit_token_account: Pubkey,
    pub initializer_receive_token_account: Pubkey,
    pub initializer_amount: u64,
    pub taker_amount: u64,
}

/// Where the escrow record's account stands: still all zero (created for
/// the offer, not yet written), holding an open offer, or closed by a
/// settlement (its rent paid out, so that it no longer exists).
#[derive(Clone, Copy, Debug, PartialEq, Eq, Structural)]
pub enum RecordState {
    Zeroed,
    Open,
    Closed,
}

/// Why an escrow instruction fails.
#[derive(Clone, Copy, Debug, PartialEq, Eq, Structural)]
pub enum EscrowError {
    /// The escrow record's account does not exist (it was closed).
    AccountNotInitialized,
    /// The escrow record's account holds no offer: its data is all zero.
    AccountDiscriminatorMismatch,
    /// The party who must sign did not.
    ConstraintSigner,
    /// One of the account constraints of the instruction is false.
    ConstraintRaw,
    /// The escrow record that `initialize` would write is already in use.
    ConstraintZero,
    /// The address search for the vault authority found no bump; the
    /// runtime aborts the instruction there.
    ProgramAddressNotFound,
}

/// Accounts of `initialize`.
#[derive(Clone, Copy, Debug)]
pub struct Initialize {
    pub program_id: Pubkey,
    pub initializer: Pubkey,
    pub initializer_is_signer: bool,
    pub mint: Pubkey,
    pub vault_account: Pubkey,
    pub initializer_deposit_token_account: TokenAccount,
    pub initializer_receive_token_account: Pubkey,
    pub escrow_account: EscrowAccount,
    pub escrow_state: RecordState,
    pub token_program: Pubkey,
}

/// Accounts of `cancel`.
#[derive(Clone, Copy, Debug)]
pub struct Cancel {
    pub program_id: Pubkey,
    pub initializer: Pubkey,
    pub initializer_is_signer: bool,
    pub mint: Pubkey,
    pub vault_account: Pubkey,
    pub vault_authority: Pubkey,
    pub initializer_deposit_token_account: Pubkey,
    pub initializer_receive_token_account: Pubkey,
    pub escrow_account: EscrowAccount,
    pub escrow_state: RecordState,
    pub token_program: Pubkey,
}

/// Accounts of `exchange`.
#[derive(Clone, Copy, Debug)]
pub struct Exchange {
    pub program_id: Pubkey,
    pub taker: Pubkey,
    pub taker_is_signer: bool,
    pub taker_deposit_token_account: TokenAccount,
    pub taker_receive_token_account: Pubkey,
    pub initializer_deposit_token_account: Pubkey,
    pub initializer_receive_token_account: Pubkey,
    pub initializer: Pubkey,
    pub escrow_account: EscrowAccount,
    pub escrow_state: RecordState,
    pub vault_account: Pubkey,
    pub vault_authority: Pubkey,
    pub token_program: Pubkey,
}

/// Accounts of a token account created at a program derived address.
#[derive(Clone, Copy, Debug)]
pub struct TestTokenSeedsInit {
    pub my_pda: Pubkey,
    pub my_pda_in_use: bool,
    pub mint: Pubkey,
    pub authority: Pubkey,
    pub system_program: Pubkey,
    pub rent: Pubkey,
    pub token_program: Pubkey,
}

/// What `cancel` and `exchange` hand back: the token program calls to make,
/// and the account that receives the rent of the closed escrow record.
#[derive(Debug)]
pub struct Settlement {
    pub token_instructions: Vec<TokenInstruction>,
    pub close_escrow_to: Pubkey,
}

/// The seed of the vault authority's address: the bytes of "escrow".
pub open spec fn escrow_seed() -> Seq<u8> {
    seq![101u8, 115u8, 99u8, 114u8, 111u8, 119u8]
}

/// The seeds searched for the vault authority.
pub open spec fn vault_authority_seeds() -> Seq<Seq<u8>> {
    seq![escrow_seed()]
}

/// The seeds with which the vault authority signs, for bump `bump`.
pub open spec fn vault_signer_seeds(bump: u8) -> Seq<Seq<u8>> {
    seq![escrow_seed(), seq![bump]]
}

fn escrow_seed_bytes() -> (r: Vec<u8>)
    ensures
        r@ == escrow_seed(),
        r.deep_view() == escrow_seed(),
{
    let mut v: Vec<u8> = Vec::new();
    v.push(101u8);
    v.push(115u8);
    v.push(99u8);
    v.push(114u8);
    v.push(111u8);
    v.push(119u8);
    assert(v@ =~= escrow_seed());
    assert(v.deep_view() =~= escrow_seed());
    v
}

fn vault_seeds() -> (r: Vec<Vec<u8>>)
    ensures
        r.deep_view() == vault_authority_seeds(),
{
    let mut r: Vec<Vec<u8>> = Vec::new();
    r.push(escrow_seed_bytes());
    assert(r.deep_view() =~= vault_authority_seeds());
    r
}

/// The signer seeds of the vault authority for `bump`.
pub fn signer_seeds(bump: u8) -> (r: Vec<Vec<u8>>)
    ensures
        r.deep_view() == vault_signer_seeds(bump),
{
    let mut r: Vec<Vec<u8>> = Vec::new();
    r.push(escrow_seed_bytes());
    let mut b: Vec<u8> = Vec::new();
    b.push(bump);
    r.push(b);
    assert(r@[1].deep_view() =~= seq![bump]);
    assert(r.deep_view() =~= vault_signer_seeds(bump));
    r
}

/// Searches the address of the vault authority of `program_id` and its bump.
pub fn find_vault_authority(program_id: &Pubkey) -> (r: Option<(Pubkey, u8)>)
    ensures
        match r {
            Some((k, b)) => program_address_search(vault_authority_seeds(), program_id@) == Some((k@, b)),
            None => program_address_search(vault_authority_seeds(), program_id@) is None,
        },
{
    let seeds = vault_seeds();
    find_program_address(&seeds, program_id)
}

fn no_seeds() -> (r: Vec<Vec<u8>>)
    ensures
        r.deep_view() == Seq::<Seq<u8>>::empty(),
{
    let r: Vec<Vec<u8>> = Vec::new();
    assert(r.deep_view() =~= Seq::<Seq<u8>>::empty());
    r
}

impl Initialize {
    /// Accounts of the deposit: from the initializer's account into the vault.
    pub fn into_transfer_to_pda_context(&self) -> (r: Transfer)
        ensures
            r == (Transfer {
                from: self.initializer_deposit_token_account.key,
                to: self.vault_account,
                authority: self.initializer,
            }),
    {
        Transfer {
            from: self.initializer_deposit_token_account.key,
            to: self.vault_account,
            authority: self.initializer,
        }
    }

    /// Accounts of the hand-over of the initializer's deposit account, whose
    /// current authority is the initializer.
    pub fn into_set_authority_context(&self) -> (r: SetAuthority)
        ensures
            r == (SetAuthority {
                account_or_mint: self.initializer_deposit_token_account.key,
                current_authority: self.initializer,
            }),
    {
        SetAuthority { account_or_mint: self.initializer_deposit_token_account.key, current_authority: self.initializer }
    }
}

impl Cancel {
    /// Accounts of the refund: from the vault back into the initializer's
    /// deposit account, signed by the vault authority.
    pub fn into_transfer_to_initializer_context(&self) -> (r: Transfer)
        ensures
            r == (Transfer {
                from: self.vault_account,
                to: self.initializer_deposit_token_account,
                authority: self.vault_authority,
            }),
    {
        Transfer {
            from: self.vault_account,
            to: self.initializer_deposit_token_account,
            authority: self.vault_authority,
        }
    }

    /// Accounts of the closing of the vault, whose rent goes to the initializer.
    pub fn into_close_context(&self) -> (r: CloseAccount)
        ensures
            r == (CloseAccount {
                account: self.vault_account,
                destination: self.initializer,
                authority: self.vault_authority,
            }),
    {
        CloseAccount { account: self.vault_account, destination: self.initializer, authority: self.vault_authority }
    }

    /// Accounts of the return of the initializer's deposit account to the
    /// initializer: its current authority is the vault authority.
    pub fn into_reset_authority_context(&self) -> (r: SetAuthority)
        ensures
            r == (SetAuthority {
                account_or_mint: self.initializer_deposit_token_account,
                current_authority: self.vault_authority,
            }),
    {
        SetAuthority { account_or_mint: self.initializer_deposit_token_account, current_authority: self.vault_authority }
    }
}

impl Exchange {
    /// Accounts of the taker's payment: from the taker's deposit account into
    /// the initializer's receive account.
    pub fn into_transfer_to_initializer_context(&self) -> (r: Transfer)
        ensures
            r == (Transfer {
                from: self.taker_deposit_token_account.key,
                to: self.initializer_receive_token_account,
                authority: self.taker,
            }),
    {
        Transfer {
            from: self.taker_deposit_token_account.key,
            to: self.initializer_receive_token_account,
            authority: self.taker,
        }
    }

    /// Accounts of the release of the deposit: from the vault into the
    /// taker's receive account, signed by the vault authority.
    pub fn into_transfer_to_taker_context(&self) -> (r: Transfer)
        ensures
            r == (Transfer {
                from: self.vault_account,
                to: self.taker_receive_token_account,
                authority: self.vault_authority,
            }),
    {
        Transfer { from: self.vault_account, to: self.taker_receive_token_account, authority: self.vault_authority }
    }

    /// Accounts of the return of the vault to the initializer: the vault,
    /// whose current authority is the vault authority.
    pub fn into_reset_authority_context(&self) -> (r: SetAuthority)
        ensures
            r == (SetAuthority { account_or_mint: self.vault_account, current_authority: self.vault_authority }),
    {
        SetAuthority { account_or_mint: self.vault_account, current_authority: self.vault_authority }
    }

    /// Accounts of the closing of the vault, whose rent goes to the initializer.
    pub fn into_close_context(&self) -> (r: CloseAccount)
        ensures
            r == (CloseAccount {
                account: self.vault_account,
                destination: self.initializer,
                authority: self.vault_authority,
            }),
    {
        CloseAccount { account: self.vault_account, destination: self.initializer, authority: self.vault_authority }
    }
}

/// The constraint of `initialize`: the deposit account holds the offered amount.
pub open spec fn initialize_accepts(ctx: Initialize, initializer_amount: u64) -> bool {
    ctx.initializer_deposit_token_account.amount >= initializer_amount
}

/// The first check of `initialize` that fails, in the order in which the
/// accounts are loaded and checked: the escrow record's account exists, the
/// initializer signed, the deposit covers the offer, the record is all zero.
pub open spec fn initialize_error(ctx: Initialize, initializer_amount: u64) -> Option<EscrowError> {
    if ctx.escrow_state == RecordState::Closed {
        Some(EscrowError::AccountNotInitialized)
    } else if !ctx.initializer_is_signer {
        Some(EscrowError::ConstraintSigner)
    } else if !initialize_accepts(ctx, initializer_amount) {
        Some(EscrowError::ConstraintRaw)
    } else if ctx.escrow_state == RecordState::Open {
        Some(EscrowError::ConstraintZero)
    } else {
        None
    }
}

fn initialize_check(ctx: &Initialize, initializer_amount: u64) -> (r: Option<EscrowError>)
    ensures
        r == initialize_error(*ctx, initializer_amount),
{
    match ctx.escrow_state {
        RecordState::Closed => {
            return Some(EscrowError::AccountNotInitialized);
        },
        _ => {},
    }
    if !ctx.initializer_is_signer {
        return Some(EscrowError::ConstraintSigner);
    }
    if ctx.initializer_deposit_token_account.amount < initializer_amount {
        return Some(EscrowError::ConstraintRaw);
    }
    match ctx.escrow_state {
        RecordState::Open => Some(EscrowError::ConstraintZero),
        _ => None,
    }
}

/// The escrow record that `initialize` writes.
pub open spec fn escrow_after_initialize(ctx: Initialize, initializer_amount: u64, taker_amount: u64) -> EscrowAccount {
    EscrowAccount {
        initializer_key: ctx.initializer,
        initializer_deposit_token_account: ctx.initializer_deposit_token_account.key,
        initializer_receive_token_account: ctx.initializer_receive_token_account,
        initializer_amount,
        taker_amount,
    }
}

/// The accounts of `initialize` after it succeeded: the offer is recorded
/// and the record is open.
pub open spec fn initialize_after(ctx: Initialize, initializer_amount: u64, taker_amount: u64) -> Initialize {
    Initialize {
        escrow_account: escrow_after_initialize(ctx, initializer_amount, taker_amount),
        escrow_state: RecordState::Open,
        ..ctx
    }
}

/// The hand-over of `initialize`: the initializer's deposit account, whose
/// authority passes from the initializer to the vault authority.
pub open spec fn initialize_set_authority(ctx: Initialize) -> SetAuthority {
    SetAuthority { account_or_mint: ctx.initializer_deposit_token_account.key, current_authority: ctx.initializer }
}

/// The deposit transfer of `initialize`.
pub open spec fn deposit_transfer(ctx: Initialize) -> Transfer {
    Transfer {
        from: ctx.initializer_deposit_token_account.key,
        to: ctx.vault_account,
        authority: ctx.initializer,
    }
}

/// `initialize` once the vault authority `vault_authority` is known: checks
/// the accounts, records the offer, and asks the token program to hand the
/// initializer's deposit account to `vault_authority` and to move the
/// deposit into the vault.
pub fn initialize_with_vault_authority(
    ctx: &mut Initialize,
    initializer_amount: u64,
    taker_amount: u64,
    vault_authority: Pubkey,
) -> (r: Result<Vec<TokenInstruction>, EscrowError>)
    ensures
        r is Ok <==> initialize_error(*old(ctx), initializer_amount) is None,
        r matches Err(e) ==> initialize_error(*old(ctx), initializer_amount) == Some(e) && *final(ctx) == *old(ctx),
        r matches Ok(instrs) ==> {
            &&& *final(ctx) == initialize_after(*old(ctx), initializer_amount, taker_amount)
            &&& instrs@.len() == 2
            &&& is_set_authority(
                instrs@[0],
                SetAuthority {
                    account_or_mint: old(ctx).initializer_deposit_token_account.key,
                    current_authority: old(ctx).initializer,
                },
                AuthorityType::AccountOwner,
                Some(vault_authority),
                Seq::empty(),
            )
            &&& is_transfer(instrs@[1], deposit_transfer(*old(ctx)), initializer_amount, Seq::empty())
        },
{
    match initialize_check(ctx, initializer_amount) {
        Some(e) => {
            return Err(e);
        },
        None => {},
    }
    ctx.escrow_account.initializer_key = ctx.initializer;
    ctx.escrow_account.initializer_deposit_token_account = ctx.initializer_deposit_token_account.key;
    ctx.escrow_account.initializer_receive_token_account = ctx.initializer_receive_token_account;
    ctx.escrow_account.initializer_amount = initializer_amount;
    ctx.escrow_account.taker_amount = taker_amount;
    ctx.escrow_state = RecordState::Open;

    let mut instrs: Vec<TokenInstruction> = Vec::new();
    instrs.push(
        TokenInstruction::SetAuthority {
            accounts: ctx.into_set_authority_context(),
            authority_type: AuthorityType::AccountOwner,
            new_authority: Some(vault_authority),
            signer_seeds: no_seeds(),
        },
    );
    instrs.push(
        TokenInstruction::Transfer {
            accounts: ctx.into_transfer_to_pda_context(),
            amount: ctx.escrow_account.initializer_amount,
            signer_seeds: no_seeds(),
        },
    );
    Ok(instrs)
}

/// Opens an escrow: checks that the record's account is fresh, that the
/// initializer signed and that the deposit account holds
/// `initializer_amount` tokens, records the offer, and asks the token
/// program to give the initializer's deposit account to the program's vault
/// authority and to move the deposit into the vault.
pub fn initialize(
    ctx: &mut Initialize,
    _vault_account_bump: u8,
    initializer_amount: u64,
    taker_amount: u64,
) -> (r: Result<Vec<TokenInstruction>, EscrowError>)
    ensures
        initialize_error(*old(ctx), initializer_amount) matches Some(e) ==> r == Err::<Vec<TokenInstruction>, EscrowError>(e),
        initialize_error(*old(ctx), initializer_amount) is None ==> (r is Err <==> program_address_search(
            vault_authority_seeds(),
            old(ctx).program_id@,
        ) is None),
        r is Err ==> *final(ctx) == *old(ctx),
        r is Err && initialize_error(*old(ctx), initializer_amount) is None ==> r == Err::<Vec<TokenInstruction>, EscrowError>(
            EscrowError::ProgramAddressNotFound,
        ),
        r matches Ok(instrs) ==> exists|authority: Pubkey, bump: u8| {
            &&& program_address_search(vault_authority_seeds(), old(ctx).program_id@) == Some((authority@, bump))
            &&& *final(ctx) == initialize_after(*old(ctx), initializer_amount, taker_amount)
            &&& instrs@.len() == 2
            &&& is_set_authority(
                instrs@[0],
                SetAuthority {
                    account_or_mint: old(ctx).initializer_deposit_token_account.key,
                    current_authority: old(ctx).initializer,
                },
                AuthorityType::AccountOwner,
                Some(authority),
                Seq::empty(),
            )
            &&& is_transfer(instrs@[1], deposit_transfer(*old(ctx)), initializer_amount, Seq::empty())
        },
{
    match initialize_check(ctx, initializer_amount) {
        Some(e) => {
            return Err(e);
        },
        None => {},
    }
    match find_vault_authority(&ctx.program_id) {
        None => Err(EscrowError::ProgramAddressNotFound),
        Some((vault_authority, _bump)) => initialize_with_vault_authority(
            ctx,
            initializer_amount,
            taker_amount,
            vault_authority,
        ),
    }
}

} // verus!

verus! {

/// The constraints of `cancel`: the signer is the initializer recorded in
/// the escrow, and the refund goes to the recorded deposit account.
pub open spec fn cancel_accepts(ctx: Cancel) -> bool {
    &&& ctx.escrow_account.initializer_key == ctx.initializer
    &&& ctx.escrow_account.initializer_deposit_token_account == ctx.initializer_deposit_token_account
}

/// The error of loading an escrow record that is not open.
pub open spec fn record_error(state: RecordState) -> Option<EscrowError> {
    match state {
        RecordState::Closed => Some(EscrowError::AccountNotInitialized),
        RecordState::Zeroed => Some(EscrowError::AccountDiscriminatorMismatch),
        RecordState::Open => None,
    }
}

fn record_check(state: RecordState) -> (r: Option<EscrowError>)
    ensures
        r == record_error(state),
{
    match state {
        RecordState::Closed => Some(EscrowError::AccountNotInitialized),
        RecordState::Zeroed => Some(EscrowError::AccountDiscriminatorMismatch),
        RecordState::Open => None,
    }
}

/// The first check of `cancel` that fails: the escrow record is open, the
/// initializer signed, and the constraints of `cancel_accepts` hold.
pub open spec fn cancel_error(ctx: Cancel) -> Option<EscrowError> {
    if record_error(ctx.escrow_state) is Some {
        record_error(ctx.escrow_state)
    } else if !ctx.initializer_is_signer {
        Some(EscrowError::ConstraintSigner)
    } else if !cancel_accepts(ctx) {
        Some(EscrowError::ConstraintRaw)
    } else {
        None
    }
}

fn cancel_check(ctx: &Cancel) -> (r: Option<EscrowError>)
    ensures
        r == cancel_error(*ctx),
{
    let e = record_check(ctx.escrow_state);
    if e.is_some() {
        return e;
    }
    if !ctx.initializer_is_signer {
        return Some(EscrowError::ConstraintSigner);
    }
    if !(ctx.escrow_account.initializer_key == ctx.initializer) {
        return Some(EscrowError::ConstraintRaw);
    }
    if !(ctx.escrow_account.initializer_deposit_token_account == ctx.initializer_deposit_token_account) {
        return Some(EscrowError::ConstraintRaw);
    }
    None
}

/// The refund transfer of `cancel`.
pub open spec fn refund_transfer(ctx: Cancel) -> Transfer {
    Transfer { from: ctx.vault_account, to: ctx.initializer_deposit_token_account, authority: ctx.vault_authority }
}

/// The account whose authority `cancel` resets to the initializer: the
/// initializer's deposit account, which `initialize` handed to the vault
/// authority.
pub open spec fn cancel_authority_reset(ctx: Cancel) -> SetAuthority {
    SetAuthority { account_or_mint: ctx.initializer_deposit_token_account, current_authority: ctx.vault_authority }
}

/// `cancel` once the vault authority's bump `bump` is known: checks the
/// accounts, then asks the token program to move the deposit back and to set
/// the authority over the initializer's deposit account back to the
/// initializer, both signed by the vault authority; the escrow record is
/// closed to the initializer.
pub fn cancel_with_bump(ctx: &mut Cancel, bump: u8) -> (r: Result<Settlement, EscrowError>)
    ensures
        r is Ok <==> cancel_error(*old(ctx)) is None,
        r matches Err(e) ==> cancel_error(*old(ctx)) == Some(e) && *final(ctx) == *old(ctx),
        r matches Ok(s) ==> {
            &&& *final(ctx) == (Cancel { escrow_state: RecordState::Closed, ..*old(ctx) })
            &&& s.close_escrow_to == old(ctx).initializer
            &&& s.token_instructions@.len() == 2
            &&& is_transfer(
                s.token_instructions@[0],
                refund_transfer(*old(ctx)),
                old(ctx).escrow_account.initializer_amount,
                vault_signer_seeds(bump),
            )
            &&& is_set_authority(
                s.token_instructions@[1],
                cancel_authority_reset(*old(ctx)),
                AuthorityType::AccountOwner,
                Some(old(ctx).initializer),
                vault_signer_seeds(bump),
            )
        },
{
    match cancel_check(ctx) {
        Some(e) => {
            return Err(e);
        },
        None => {},
    }
    let mut instrs: Vec<TokenInstruction> = Vec::new();
    instrs.push(
        TokenInstruction::Transfer {
            accounts: ctx.into_transfer_to_initializer_context(),
            amount: ctx.escrow_account.initializer_amount,
            signer_seeds: signer_seeds(bump),
        },
    );
    instrs.push(
        TokenInstruction::SetAuthority {
            accounts: ctx.into_reset_authority_context(),
            authority_type: AuthorityType::AccountOwner,
            new_authority: Some(ctx.initializer),
            signer_seeds: signer_seeds(bump),
        },
    );
    ctx.escrow_state = RecordState::Closed;
    Ok(Settlement { token_instructions: instrs, close_escrow_to: ctx.initializer })
}

/// Cancels an escrow: the recorded initializer, who must sign, takes the
/// deposit back into the recorded deposit account and gets the authority
/// over that account back from the vault authority; the escrow record is
/// closed to the initializer.
pub fn cancel(ctx: &mut Cancel) -> (r: Result<Settlement, EscrowError>)
    ensures
        cancel_error(*old(ctx)) matches Some(e) ==> r == Err::<Settlement, EscrowError>(e),
        cancel_error(*old(ctx)) is None ==> (r is Err <==> program_address_search(
            vault_authority_seeds(),
            old(ctx).program_id@,
        ) is None),
        r is Err ==> *final(ctx) == *old(ctx),
        r is Err && cancel_error(*old(ctx)) is None ==> r == Err::<Settlement, EscrowError>(
            EscrowError::ProgramAddressNotFound,
        ),
        r matches Ok(s) ==> exists|authority: Pubkey, bump: u8| {
            &&& program_address_search(vault_authority_seeds(), old(ctx).program_id@) == Some((authority@, bump))
            &&& *final(ctx) == (Cancel { escrow_state: RecordState::Closed, ..*old(ctx) })
            &&& s.close_escrow_to == old(ctx).initializer
            &&& s.token_instructions@.len() == 2
            &&& is_transfer(
                s.token_instructions@[0],
                refund_transfer(*old(ctx)),
                old(ctx).escrow_account.initializer_amount,
                vault_signer_seeds(bump),
            )
            &&& is_set_authority(
                s.token_instructions@[1],
                cancel_authority_reset(*old(ctx)),
                AuthorityType::AccountOwner,
                Some(old(ctx).initializer),
                vault_signer_seeds(bump),
            )
        },
{
    match cancel_check(ctx) {
        Some(e) => {
            return Err(e);
        },
        None => {},
    }
    match find_vault_authority(&ctx.program_id) {
        None => Err(EscrowError::ProgramAddressNotFound),
        Some((_vault_authority, bump)) => cancel_with_bump(ctx, bump),
    }
}

/// The constraints of `exchange`: the taker holds the asked amount, and the
/// initializer and both of the initializer's token accounts are those
/// recorded in the escrow.
pub open spec fn exchange_accepts(ctx: Exchange) -> bool {
    &&& ctx.escrow_account.taker_amount <= ctx.taker_deposit_token_account.amount
    &&& ctx.escrow_account.initializer_deposit_token_account == ctx.initializer_deposit_token_account
    &&& ctx.escrow_account.initializer_receive_token_account == ctx.initializer_receive_token_account
    &&& ctx.escrow_account.initializer_key == ctx.initializer
}

/// The first check of `exchange` that fails: the escrow record is open, the
/// taker signed, and the constraints of `exchange_accepts` hold.
pub open spec fn exchange_error(ctx: Exchange) -> Option<EscrowError> {
    if record_error(ctx.escrow_state) is Some {
        record_error(ctx.escrow_state)
    } else if !ctx.taker_is_signer {
        Some(EscrowError::ConstraintSigner)
    } else if !exchange_accepts(ctx) {
        Some(EscrowError::ConstraintRaw)
    } else {
        None
    }
}

fn exchange_check(ctx: &Exchange) -> (r: Option<EscrowError>)
    ensures
        r == exchange_error(*ctx),
{
    let e = record_check(ctx.escrow_state);
    if e.is_some() {
        return e;
    }
    if !ctx.taker_is_signer {
        return Some(EscrowError::ConstraintSigner);
    }
    if ctx.escrow_account.taker_amount <= ctx.taker_deposit_token_account.amount
        && ctx.escrow_account.initializer_deposit_token_account == ctx.initializer_deposit_token_account
        && ctx.escrow_account.initializer_receive_token_account == ctx.initializer_receive_token_account
        && ctx.escrow_account.initializer_key == ctx.initializer {
        None
    } else {
        Some(EscrowError::ConstraintRaw)
    }
}

/// The taker's payment in `exchange`.
pub open spec fn payment_transfer(ctx: Exchange) -> Transfer {
    Transfer {
        from: ctx.taker_deposit_token_account.key,
        to: ctx.initializer_receive_token_account,
        authority: ctx.taker,
    }
}

/// The release of the deposit to the taker in `exchange`: from the vault
/// into the taker's receive account, signed by the vault authority.
pub open spec fn release_transfer(ctx: Exchange) -> Transfer {
    Transfer { from: ctx.vault_account, to: ctx.taker_receive_token_account, authority: ctx.vault_authority }
}

/// The account whose authority `exchange` sets back to the initializer: the
/// vault, held by the vault authority.
pub open spec fn exchange_authority_reset(ctx: Exchange) -> SetAuthority {
    SetAuthority { account_or_mint: ctx.vault_account, current_authority: ctx.vault_authority }
}

/// `exchange` once the vault authority's bump `bump` is known.
pub fn exchange_with_bump(ctx: &mut Exchange, bump: u8) -> (r: Result<Settlement, EscrowError>)
    ensures
        r is Ok <==> exchange_error(*old(ctx)) is None,
        r matches Err(e) ==> exchange_error(*old(ctx)) == Some(e) && *final(ctx) == *old(ctx),
        r matches Ok(s) ==> {
            &&& *final(ctx) == (Exchange { escrow_state: RecordState::Closed, ..*old(ctx) })
            &&& s.close_escrow_to == old(ctx).initializer
            &&& s.token_instructions@.len() == 3
            &&& is_transfer(
                s.token_instructions@[0],
                payment_transfer(*old(ctx)),
                old(ctx).escrow_account.taker_amount,
                Seq::empty(),
            )
            &&& is_transfer(
                s.token_instructions@[1],
                release_transfer(*old(ctx)),
                old(ctx).escrow_account.initializer_amount,
                vault_signer_seeds(bump),
            )
            &&& is_set_authority(
                s.token_instructions@[2],
                exchange_authority_reset(*old(ctx)),
                AuthorityType::AccountOwner,
                Some(old(ctx).initializer),
                vault_signer_seeds(bump),
            )
        },
{
    match exchange_check(ctx) {
        Some(e) => {
            return Err(e);
        },
        None => {},
    }
    let mut instrs: Vec<TokenInstruction> = Vec::new();
    instrs.push(
        TokenInstruction::Transfer {
            accounts: ctx.into_transfer_to_initializer_context(),
            amount: ctx.escrow_account.taker_amount,
            signer_seeds: no_seeds(),
        },
    );
    instrs.push(
        TokenInstruction::Transfer {
            accounts: ctx.into_transfer_to_taker_context(),
            amount: ctx.escrow_account.initializer_amount,
            signer_seeds: signer_seeds(bump),
        },
    );
    instrs.push(
        TokenInstruction::SetAuthority {
            accounts: ctx.into_reset_authority_context(),
            authority_type: AuthorityType::AccountOwner,
            new_authority: Some(ctx.initializer),
            signer_seeds: signer_seeds(bump),
        },
    );
    ctx.escrow_state = RecordState::Closed;
    Ok(Settlement { token_instructions: instrs, close_escrow_to: ctx.initializer })
}

/// Takes an escrow offer: the taker, who must sign, pays the asked amount
/// into the initializer's recorded receive account, the deposit moves out of
/// the vault into the taker's receive account, and the authority over the
/// vault is set back to the initializer (both signed by the vault
/// authority); the escrow record is closed to the initializer.
pub fn exchange(ctx: &mut Exchange) -> (r: Result<Settlement, EscrowError>)
    ensures
        exchange_error(*old(ctx)) matches Some(e) ==> r == Err::<Settlement, EscrowError>(e),
        exchange_error(*old(ctx)) is None ==> (r is Err <==> program_address_search(
            vault_authority_seeds(),
            old(ctx).program_id@,
        ) is None),
        r is Err ==> *final(ctx) == *old(ctx),
        r is Err && exchange_error(*old(ctx)) is None ==> r == Err::<Settlement, EscrowError>(
            EscrowError::ProgramAddressNotFound,
        ),
        r matches Ok(s) ==> exists|authority: Pubkey, bump: u8| {
            &&& program_address_search(vault_authority_seeds(), old(ctx).program_id@) == Some((authority@, bump))
            &&& *final(ctx) == (Exchange { escrow_state: RecordState::Closed, ..*old(ctx) })
            &&& s.close_escrow_to == old(ctx).initializer
            &&& s.token_instructions@.len() == 3
            &&& is_transfer(
                s.token_instructions@[0],
                payment_transfer(*old(ctx)),
                old(ctx).escrow_account.taker_amount,
                Seq::empty(),
            )
            &&& is_transfer(
                s.token_instructions@[1],
                release_transfer(*old(ctx)),
                old(ctx).escrow_account.initializer_amount,
                vault_signer_seeds(bump),
            )
            &&& is_set_authority(
                s.token_instructions@[2],
                exchange_authority_reset(*old(ctx)),
                AuthorityType::AccountOwner,
                Some(old(ctx).initializer),
                vault_signer_seeds(bump),
            )
        },
{
    match exchange_check(ctx) {
        Some(e) => {
            return Err(e);
        },
        None => {},
    }
    match find_vault_authority(&ctx.program_id) {
        None => Err(EscrowError::ProgramAddressNotFound),
        Some((_vault_authority, bump)) => exchange_with_bump(ctx, bump),
    }
}

/// An escrow is settled at most once, and an open one is never overwritten:
/// once `cancel` or `exchange` has closed a record, every later `cancel`,
/// `exchange` or `initialize` on it fails because the record no longer
/// exists; and `initialize` on a record that holds an open offer fails with
/// `ConstraintZero` when its other checks pass.
pub proof fn lemma_settled_at_most_once(
    later_cancel: Cancel,
    later_exchange: Exchange,
    later_initialize: Initialize,
    initializer_amount: u64,
)
    requires
        later_cancel.escrow_state == RecordState::Closed,
        later_exchange.escrow_state == RecordState::Closed,
        later_initialize.escrow_state == RecordState::Closed,
    ensures
        cancel_error(later_cancel) == Some(EscrowError::AccountNotInitialized),
        exchange_error(later_exchange) == Some(EscrowError::AccountNotInitialized),
        initialize_error(later_initialize, initializer_amount) == Some(EscrowError::AccountNotInitialized),
        initialize_error(Initialize { escrow_state: RecordState::Open, ..later_initialize }, initializer_amount)
            is Some,
{
}

/// The vault authority signs for the vault, and the parties sign for their
/// own accounts: every token call that `cancel` and `exchange` request on
/// the vault (the refund, the release, the return of the vault) or on the
/// deposit account that the vault authority holds names the vault authority
/// as the signing authority, while the taker's payment is signed by the
/// taker and the deposit of `initialize` by the initializer. The refund and
/// the release move tokens out of the vault that the deposit went into.
pub proof fn lemma_signing_authorities(i: Initialize, c: Cancel, x: Exchange)
    ensures
        refund_transfer(c).authority == c.vault_authority,
        refund_transfer(c).from == c.vault_account,
        refund_transfer(c).to == c.initializer_deposit_token_account,
        cancel_authority_reset(c).current_authority == c.vault_authority,
        cancel_authority_reset(c).account_or_mint == c.initializer_deposit_token_account,
        release_transfer(x).authority == x.vault_authority,
        release_transfer(x).from == x.vault_account,
        release_transfer(x).to == x.taker_receive_token_account,
        exchange_authority_reset(x).current_authority == x.vault_authority,
        exchange_authority_reset(x).account_or_mint == x.vault_account,
        payment_transfer(x).authority == x.taker,
        payment_transfer(x).from == x.taker_deposit_token_account.key,
        payment_transfer(x).to == x.initializer_receive_token_account,
        deposit_transfer(i).authority == i.initializer,
        deposit_transfer(i).from == i.initializer_deposit_token_account.key,
        deposit_transfer(i).to == i.vault_account,
        initialize_set_authority(i).current_authority == i.initializer,
        initialize_set_authority(i).account_or_mint == i.initializer_deposit_token_account.key,
{
}

/// An exchange goes through only on the recorded offer: whenever `exchange`
/// passes its checks, the record is open, the taker signed and holds at
/// least the asked amount, and the initializer and both of the
/// initializer's token accounts passed are the ones recorded in the escrow;
/// and it passes its checks whenever all of this holds.
pub proof fn lemma_exchange_needs_recorded_offer(x: Exchange)
    ensures
        exchange_error(x) is None <==> (x.escrow_state == RecordState::Open && x.taker_is_signer
            && x.escrow_account.taker_amount <= x.taker_deposit_token_account.amount
            && x.initializer_deposit_token_account == x.escrow_account.initializer_deposit_token_account
            && x.initializer_receive_token_account == x.escrow_account.initializer_receive_token_account
            && x.initializer == x.escrow_account.initializer_key),
{
}

/// A cancel goes through exactly when the record is open, the initializer
/// signed, and the initializer and the deposit account passed are the ones
/// recorded in the escrow.
pub proof fn lemma_cancel_needs_recorded_initializer(c: Cancel)
    ensures
        cancel_error(c) is None <==> (c.escrow_state == RecordState::Open && c.initializer_is_signer
            && c.initializer == c.escrow_account.initializer_key
            && c.initializer_deposit_token_account == c.escrow_account.initializer_deposit_token_account),
{
}

/// An escrow opens exactly on a fresh record, signed by the initializer,
/// whose deposit account covers the offer; the record then holds the
/// initializer, its two token accounts and both amounts as given.
pub proof fn lemma_initialize_records_offer(i: Initialize, initializer_amount: u64, taker_amount: u64)
    ensures
        initialize_error(i, initializer_amount) is None <==> (i.escrow_state == RecordState::Zeroed
            && i.initializer_is_signer && i.initializer_deposit_token_account.amount >= initializer_amount),
        escrow_after_initialize(i, initializer_amount, taker_amount).initializer_key == i.initializer,
        escrow_after_initialize(i, initializer_amount, taker_amount).initializer_deposit_token_account
            == i.initializer_deposit_token_account.key,
        escrow_after_initialize(i, initializer_amount, taker_amount).initializer_receive_token_account
            == i.initializer_receive_token_account,
        escrow_after_initialize(i, initializer_amount, taker_amount).initializer_amount == initializer_amount,
        escrow_after_initialize(i, initializer_amount, taker_amount).taker_amount == taker_amount,
        initialize_after(i, initializer_amount, taker_amount).escrow_state == RecordState::Open,
{
}

/// Only the recorded initializer can cancel: whenever `cancel` passes its
/// checks, the initializer signed and is the one recorded in the escrow, and
/// the refund goes to the recorded deposit account.
pub proof fn lemma_only_initializer_cancels(c: Cancel)
    requires
        cancel_error(c) is None,
    ensures
        c.initializer_is_signer,
        c.escrow_state == RecordState::Open,
        c.initializer == c.escrow_account.initializer_key,
        refund_transfer(c).to == c.escrow_account.initializer_deposit_token_account,
{
}

/// Cancelling an escrow undoes its deposit: when the accounts of `cancel`
/// are those that opened the escrow, the record is open and the initializer
/// signs, `cancel` passes its checks, moves exactly the deposited amount
/// from the vault back into the account it came from, and gives the
/// authority over that account back to the initializer from whom
/// `initialize` took it.
pub proof fn lemma_cancel_refunds_deposit(
    init: Initialize,
    initializer_amount: u64,
    taker_amount: u64,
    c: Cancel,
)
    requires
        initialize_accepts(init, initializer_amount),
        c.escrow_account == escrow_after_initialize(init, initializer_amount, taker_amount),
        c.initializer == init.initializer,
        c.initializer_deposit_token_account == init.initializer_deposit_token_account.key,
        c.vault_account == init.vault_account,
        c.escrow_state == initialize_after(init, initializer_amount, taker_amount).escrow_state,
        c.initializer_is_signer,
    ensures
        cancel_accepts(c),
        cancel_error(c) is None,
        refund_transfer(c).from == deposit_transfer(init).to,
        refund_transfer(c).to == deposit_transfer(init).from,
        c.escrow_account.initializer_amount == initializer_amount,
        cancel_authority_reset(c).account_or_mint == initialize_set_authority(init).account_or_mint,
        c.initializer == initialize_set_authority(init).current_authority,
{
}

/// Taking an escrow settles the recorded offer: when the accounts of
/// `exchange` are those that opened the escrow, the record is open, the taker
/// signs and holds the asked amount, `exchange` passes its checks, the
/// initializer receives exactly the asked amount in the receive account
/// recorded at opening, the taker receives exactly the deposited amount out
/// of the vault, and that vault goes back to the initializer.
pub proof fn lemma_exchange_settles_offer(
    init: Initialize,
    initializer_amount: u64,
    taker_amount: u64,
    x: Exchange,
)
    requires
        initialize_accepts(init, initializer_amount),
        x.escrow_account == escrow_after_initialize(init, initializer_amount, taker_amount),
        x.initializer == init.initializer,
        x.initializer_deposit_token_account == init.initializer_deposit_token_account.key,
        x.initializer_receive_token_account == init.initializer_receive_token_account,
        x.vault_account == init.vault_account,
        x.taker_deposit_token_account.amount >= taker_amount,
        x.escrow_state == initialize_after(init, initializer_amount, taker_amount).escrow_state,
        x.taker_is_signer,
    ensures
        exchange_accepts(x),
        exchange_error(x) is None,
        payment_transfer(x).to == init.initializer_receive_token_account,
        x.escrow_account.taker_amount == taker_amount,
        release_transfer(x).from == deposit_transfer(init).to,
        release_transfer(x).to == x.taker_receive_token_account,
        exchange_authority_reset(x).account_or_mint == deposit_transfer(init).to,
        x.escrow_account.initializer_amount == initializer_amount,
{
}

/// The seed of the vault: "token-seed".
pub open spec fn vault_seed() -> Seq<u8> {
    seq![116u8, 111u8, 107u8, 101u8, 110u8, 45u8, 115u8, 101u8, 101u8, 100u8]
}

/// The seed of the test token account: "my-token-seed".
pub open spec fn my_token_seed() -> Seq<u8> {
    seq![109u8, 121u8, 45u8, 116u8, 111u8, 107u8, 101u8, 110u8, 45u8, 115u8, 101u8, 101u8, 100u8]
}

/// Checks the vault that `initialize` creates: it is at the program derived
/// address of "token-seed", with `vault_account_bump` as its bump, and no
/// account exists there yet.
pub fn validate_initialize(
    vault_account_key: &Pubkey,
    vault_account_in_use: bool,
    vault_account_bump: u8,
    program_id: &Pubkey,
) -> (r: Result<(), ConstraintError>)
    ensures
        !is_canonical_address(seq![vault_seed()], *program_id, *vault_account_key, Some(vault_account_bump))
            ==> r == Err::<(), ConstraintError>(ConstraintError::ConstraintSeeds),
        is_canonical_address(seq![vault_seed()], *program_id, *vault_account_key, Some(vault_account_bump))
            && vault_account_in_use ==> r == Err::<(), ConstraintError>(ConstraintError::AccountAlreadyInUse),
        r is Ok <==> is_canonical_address(
            seq![vault_seed()],
            *program_id,
            *vault_account_key,
            Some(vault_account_bump),
        ) && !vault_account_in_use,
{
    let lit: [u8; 10] = [116, 111, 107, 101, 110, 45, 115, 101, 101, 100];
    let mut seeds: Vec<Vec<u8>> = Vec::new();
    seeds.push(seed_from(&lit));
    assert(seeds.deep_view() =~= seq![vault_seed()]);
    if !check_canonical_address(&seeds, program_id, vault_account_key, Some(vault_account_bump)) {
        return Err(ConstraintError::ConstraintSeeds);
    }
    if vault_account_in_use {
        return Err(ConstraintError::AccountAlreadyInUse);
    }
    Ok(())
}

/// Checks the token account that `TestTokenSeedsInit` creates: it is at the
/// program derived address of "my-token-seed", with `token_bump` as its
/// bump, and no account exists there yet.
pub fn validate_test_token_seeds_init(ctx: &TestTokenSeedsInit, token_bump: u8, program_id: &Pubkey) -> (r: Result<
    (),
    ConstraintError,
>)
    ensures
        !is_canonical_address(seq![my_token_seed()], *program_id, ctx.my_pda, Some(token_bump)) ==> r == Err::<
            (),
            ConstraintError,
        >(ConstraintError::ConstraintSeeds),
        is_canonical_address(seq![my_token_seed()], *program_id, ctx.my_pda, Some(token_bump)) && ctx.my_pda_in_use
            ==> r == Err::<(), ConstraintError>(ConstraintError::AccountAlreadyInUse),
        r is Ok <==> is_canonical_address(seq![my_token_seed()], *program_id, ctx.my_pda, Some(token_bump))
            && !ctx.my_pda_in_use,
{
    let lit: [u8; 13] = [109, 121, 45, 116, 111, 107, 101, 110, 45, 115, 101, 101, 100];
    let mut seeds: Vec<Vec<u8>> = Vec::new();
    seeds.push(seed_from(&lit));
    assert(seeds.deep_view() =~= seq![my_token_seed()]);
    if !check_canonical_address(&seeds, program_id, &ctx.my_pda, Some(token_bump)) {
        return Err(ConstraintError::ConstraintSeeds);
    }
    if ctx.my_pda_in_use {
        return Err(ConstraintError::AccountAlreadyInUse);
    }
    Ok(())
}

} // verus!
