//! A registry of three tickets held in one account.
use vstd::prelude::*;

use crate::errors::ConstraintError;
use crate::pubkey::Pubkey;

verus! {

/// A ticket: its holder, id, whether it is for sale, and its place.
#[derive(Clone, Copy, Debug)]
pub struct Ticket {
    pub owner: Pubkey,
    pub id: u32,
    pub available: bool,
    pub idx: u32,
}

/// The registry.
#[derive(Clone, Copy, Debug)]
pub struct TicketingSystem {
    pub tickets: [Ticket; 3],
}

/// Accounts of `initialize`: the registry, its own address, and the payer.
#[derive(Clone, Copy, Debug)]
pub struct Initialize {
    pub ticketing_system: TicketingSystem,
    pub ticketing_system_in_use: bool,
    pub ticketing_system_key: Pubkey,
    pub user: Pubkey,
    pub user_is_signer: bool,
    pub system_program: Pubkey,
}

/// Accounts of a ticket purchase.
#[derive(Clone, Copy, Debug)]
pub struct PurchaseTicket {
    pub ticketing_system: TicketingSystem,
    pub user: Pubkey,
}

/// The ticket that `initialize` writes at place `idx` for id `id`.
pub open spec fn issued_ticket(owner: Pubkey, id: u32, idx: int) -> Ticket {
    Ticket { owner, id, available: true, idx: idx as u32 }
}

/// Fills the first places of the registry with the given ticket ids, in
/// order: each such ticket is held by the registry account and is for sale;
/// the other places are left as they were. The payer must sign, and the
/// registry account, which the instruction creates, must not exist yet.
pub fn initialize(ctx: &mut Initialize, tickets: Vec<u32>) -> (r: Result<(), ConstraintError>)
    requires
        old(ctx).user_is_signer && !old(ctx).ticketing_system_in_use ==> tickets@.len() <= 3,
    ensures
        !old(ctx).user_is_signer ==> r == Err::<(), ConstraintError>(ConstraintError::AccountNotSigner),
        old(ctx).user_is_signer && old(ctx).ticketing_system_in_use ==> r == Err::<(), ConstraintError>(
            ConstraintError::AccountAlreadyInUse,
        ),
        r is Ok <==> old(ctx).user_is_signer && !old(ctx).ticketing_system_in_use,
        r is Err ==> *final(ctx) == *old(ctx),
        r is Ok ==> final(ctx).ticketing_system_in_use,
        final(ctx).user_is_signer == old(ctx).user_is_signer,
        final(ctx).ticketing_system_key == old(ctx).ticketing_system_key,
        final(ctx).user == old(ctx).user,
        final(ctx).system_program == old(ctx).system_program,
        r is Ok ==> forall|i: int|
            0 <= i < tickets@.len() ==> #[trigger] final(ctx).ticketing_system.tickets@[i] == issued_ticket(
                old(ctx).ticketing_system_key,
                tickets@[i],
                i,
            ),
        forall|i: int|
            tickets@.len() <= i < 3 ==> #[trigger] final(ctx).ticketing_system.tickets@[i]
                == old(ctx).ticketing_system.tickets@[i],
{
    if !ctx.user_is_signer {
        return Err(ConstraintError::AccountNotSigner);
    }
    if ctx.ticketing_system_in_use {
        return Err(ConstraintError::AccountAlreadyInUse);
    }
    ctx.ticketing_system_in_use = true;
    let owner = ctx.ticketing_system_key;
    let mut idx: usize = 0;
    while idx < tickets.len()
        invariant
            idx <= tickets@.len() <= 3,
            ctx.ticketing_system_key == old(ctx).ticketing_system_key,
            ctx.user == old(ctx).user,
            ctx.user_is_signer == old(ctx).user_is_signer,
            ctx.ticketing_system_in_use,
            ctx.system_program == old(ctx).system_program,
            owner == old(ctx).ticketing_system_key,
            forall|i: int|
                0 <= i < idx ==> #[trigger] ctx.ticketing_system.tickets@[i] == issued_ticket(owner, tickets@[i], i),
            forall|i: int|
                idx <= i < 3 ==> #[trigger] ctx.ticketing_system.tickets@[i] == old(ctx).ticketing_system.tickets@[i],
        decreases tickets@.len() - idx,
    {
        ctx.ticketing_system.tickets[idx] = Ticket {
            owner,
            id: tickets[idx],
            available: true,
            idx: idx as u32,
        };
        idx = idx + 1;
    }
    Ok(())
}

/// A ticket issued by `initialize` is held by the registry account, is for
/// sale, carries the given id, and records its place in the registry.
pub proof fn lemma_issued_ticket(owner: Pubkey, id: u32, idx: int)
    requires
        0 <= idx < 3,
    ensures
        issued_ticket(owner, id, idx).owner == owner,
        issued_ticket(owner, id, idx).id == id,
        issued_ticket(owner, id, idx).available,
        issued_ticket(owner, id, idx).idx == idx,
{
}

} // verus!
