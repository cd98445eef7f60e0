use vstd::prelude::*;

use crate::errors::ConstraintError;
use crate::pubkey::Pubkey;
use crate::the_alpha::state::AuthorAccount;

verus! {

/// Accounts of `handler`.
#[derive(Clone, Debug)]
pub struct InitializeAuthor {
    pub author_account: AuthorAccount,
    pub author_account_in_use: bool,
    pub user: Pubkey,
    pub user_is_signer: bool,
    pub system_program: Pubkey,
}

/// The first account check of `handler` that fails: the user signs, and the
/// author account, which the instruction creates, does not exist yet.
pub open spec fn init_author_error(ctx: InitializeAuthor) -> Option<ConstraintError> {
    if !ctx.user_is_signer {
        Some(ConstraintError::AccountNotSigner)
    } else if ctx.author_account_in_use {
        Some(ConstraintError::AccountAlreadyInUse)
    } else {
        None
    }
}

/// The accounts of `handler` after it succeeded.
pub open spec fn init_author_done(
    before: InitializeAuthor,
    after: InitializeAuthor,
    author_account_bump: u8,
    vector_capacity: u16,
    name: Seq<char>,
    price_sub: u8,
    paid_or_free: bool,
) -> bool {
    &&& after.user == before.user
    &&& after.user_is_signer == before.user_is_signer
    &&& after.system_program == before.system_program
    &&& after.author_account_in_use
    &&& after.author_account.authority == before.user
    &&& after.author_account.price_sub == price_sub
    &&& after.author_account.name@ == name
    &&& after.author_account.paid_or_free == paid_or_free
    &&& after.author_account.article_count == 0
    &&& after.author_account.bump == author_account_bump
    &&& after.author_account.vector_capacity == vector_capacity
    &&& after.author_account.sub_pubkeys@.len() == 0
    &&& after.author_account.within_capacity()
}

/// Creates an author owned by the signer, with no articles and no
/// subscribers.
pub fn handler(
    ctx: &mut InitializeAuthor,
    author_account_bump: u8,
    vector_capacity: u16,
    name: String,
    price_sub: u8,
    paid_or_free: bool,
) -> (r: Result<(), ConstraintError>)
    ensures
        r is Ok <==> init_author_error(*old(ctx)) is None,
        r matches Err(e) ==> init_author_error(*old(ctx)) == Some(e) && *final(ctx) == *old(ctx),
        r is Ok ==> init_author_done(
            *old(ctx),
            *final(ctx),
            author_account_bump,
            vector_capacity,
            name@,
            price_sub,
            paid_or_free,
        ),
{
    if !ctx.user_is_signer {
        return Err(ConstraintError::AccountNotSigner);
    }
    if ctx.author_account_in_use {
        return Err(ConstraintError::AccountAlreadyInUse);
    }
    ctx.author_account_in_use = true;
    ctx.author_account.authority = ctx.user;
    ctx.author_account.price_sub = price_sub;
    ctx.author_account.name = name;
    ctx.author_account.paid_or_free = paid_or_free;
    ctx.author_account.article_count = 0;
    ctx.author_account.bump = author_account_bump;
    ctx.author_account.vector_capacity = vector_capacity;
    ctx.author_account.sub_pubkeys = Vec::new();
    Ok(())
}

} // verus!
