use vstd::prelude::*;

use crate::errors::ConstraintError;
use crate::pubkey::Pubkey;
use crate::the_alpha::state::{ArticleAccount, AuthorAccount};

verus! {

/// Accounts of `handler`.
#[derive(Clone, Debug)]
pub struct UpdateArticle {
    pub article_account: ArticleAccount,
    pub author_account: AuthorAccount,
    pub authority: Pubkey,
    pub authority_is_signer: bool,
}

/// The signer is the recorded authority of both the article and the author.
pub open spec fn update_article_accepts(ctx: UpdateArticle) -> bool {
    &&& ctx.article_account.authority == ctx.authority
    &&& ctx.author_account.authority == ctx.authority
}

/// The first account check of `handler` that fails: the authority signs and
/// is the recorded authority of both the article and the author.
pub open spec fn update_article_error(ctx: UpdateArticle) -> Option<ConstraintError> {
    if !ctx.authority_is_signer {
        Some(ConstraintError::AccountNotSigner)
    } else if !update_article_accepts(ctx) {
        Some(ConstraintError::ConstraintHasOne)
    } else {
        None
    }
}

/// Changes the category and paid flag of an article; the signer must be the
/// authority of both the article and its author.
pub fn handler(ctx: &mut UpdateArticle, category: String, paid_or_free: bool) -> (r: Result<(), ConstraintError>)
    ensures
        r is Ok <==> update_article_error(*old(ctx)) is None,
        r matches Err(e) ==> update_article_error(*old(ctx)) == Some(e) && *final(ctx) == *old(ctx),
        r is Ok ==> *final(ctx) == (UpdateArticle {
            article_account: ArticleAccount {
                authority: old(ctx).authority,
                paid_or_free,
                category,
                ..old(ctx).article_account
            },
            ..*old(ctx)
        }),
{
    if !ctx.authority_is_signer {
        return Err(ConstraintError::AccountNotSigner);
    }
    if !(ctx.article_account.authority == ctx.authority) {
        return Err(ConstraintError::ConstraintHasOne);
    }
    if !(ctx.author_account.authority == ctx.authority) {
        return Err(ConstraintError::ConstraintHasOne);
    }
    ctx.article_account.authority = ctx.authority;
    ctx.article_account.paid_or_free = paid_or_free;
    ctx.article_account.category = category;
    Ok(())
}

} // verus!
