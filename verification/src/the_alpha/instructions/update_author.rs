use vstd::prelude::*;

use crate::errors::ConstraintError;
use crate::pubkey::Pubkey;
use crate::the_alpha::state::AuthorAccount;

verus! {

/// Accounts of `handler`.
#[derive(Clone, Debug)]
pub struct UpdateAuthor {
    pub author_account: AuthorAccount,
    pub authority: Pubkey,
    pub authority_is_signer: bool,
}

/// The first account check of `handler` that fails: the authority signs and
/// is the author's recorded authority.
pub open spec fn update_author_error(ctx: UpdateAuthor) -> Option<ConstraintError> {
    if !ctx.authority_is_signer {
        Some(ConstraintError::AccountNotSigner)
    } else if ctx.author_account.authority != ctx.authority {
        Some(ConstraintError::ConstraintHasOne)
    } else {
        None
    }
}

/// Changes the name, paid flag and subscription price of an author; the
/// signer must be the author's recorded authority. The article count and the
/// subscribers are kept.
pub fn handler(ctx: &mut UpdateAuthor, name: String, paid_or_free: bool, price_sub: u8) -> (r: Result<
    (),
    ConstraintError,
>)
    ensures
        r is Ok <==> update_author_error(*old(ctx)) is None,
        r matches Err(e) ==> update_author_error(*old(ctx)) == Some(e) && *final(ctx) == *old(ctx),
        r is Ok ==> *final(ctx) == (UpdateAuthor {
            author_account: AuthorAccount { paid_or_free, name, price_sub, ..old(ctx).author_account },
            ..*old(ctx)
        }),
{
    if !ctx.authority_is_signer {
        return Err(ConstraintError::AccountNotSigner);
    }
    if !(ctx.author_account.authority == ctx.authority) {
        return Err(ConstraintError::ConstraintHasOne);
    }
    ctx.author_account.authority = ctx.authority;
    ctx.author_account.paid_or_free = paid_or_free;
    ctx.author_account.name = name;
    ctx.author_account.price_sub = price_sub;
    Ok(())
}

} // verus!
