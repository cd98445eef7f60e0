use vstd::prelude::*;

use crate::errors::ConstraintError;
use crate::pubkey::Pubkey;
use crate::the_alpha::state::{author_after_article, ArticleAccount, AuthorAccount};

verus! {

/// Accounts of `handler`.
#[derive(Clone, Debug)]
pub struct InitializeArticle {
    pub article_account: ArticleAccount,
    pub article_account_in_use: bool,
    pub author_account: AuthorAccount,
    pub user: Pubkey,
    pub user_is_signer: bool,
    pub system_program: Pubkey,
}

/// The first account check of `handler` that fails: the user signs, and the
/// article account, which the instruction creates, does not exist yet.
pub open spec fn init_article_error(ctx: InitializeArticle) -> Option<ConstraintError> {
    if !ctx.user_is_signer {
        Some(ConstraintError::AccountNotSigner)
    } else if ctx.article_account_in_use {
        Some(ConstraintError::AccountAlreadyInUse)
    } else {
        None
    }
}

/// The accounts of `handler` after it succeeded.
pub open spec fn init_article_done(
    before: InitializeArticle,
    after: InitializeArticle,
    article_account_bump: u8,
    category: Seq<char>,
    paid_or_free: bool,
    published_timestamp: i64,
) -> bool {
    &&& after.user == before.user
    &&& after.user_is_signer == before.user_is_signer
    &&& after.system_program == before.system_program
    &&& after.article_account_in_use
    &&& after.author_account == author_after_article(before.author_account)
    &&& after.article_account.paid_or_free == paid_or_free
    &&& after.article_account.authority == before.user
    &&& after.article_account.bump == article_account_bump
    &&& after.article_account.article_id == after.author_account.article_count
    &&& after.article_account.likes_count == 0
    &&& after.article_account.published_timestamp == published_timestamp
    &&& after.article_account.category@ == category
}

/// Publishes an article at `published_timestamp` (the cluster's clock): the
/// author counts one more article, and the article, written by the signer,
/// gets that count as its number, no likes, and the given category and paid
/// flag.
pub fn handler(
    ctx: &mut InitializeArticle,
    article_account_bump: u8,
    category: String,
    paid_or_free: bool,
    published_timestamp: i64,
) -> (r: Result<(), ConstraintError>)
    requires
        init_article_error(*old(ctx)) is None ==> old(ctx).author_account.article_count < u64::MAX,
    ensures
        r is Ok <==> init_article_error(*old(ctx)) is None,
        r matches Err(e) ==> init_article_error(*old(ctx)) == Some(e) && *final(ctx) == *old(ctx),
        r is Ok ==> init_article_done(
            *old(ctx),
            *final(ctx),
            article_account_bump,
            category@,
            paid_or_free,
            published_timestamp,
        ),
{
    if !ctx.user_is_signer {
        return Err(ConstraintError::AccountNotSigner);
    }
    if ctx.article_account_in_use {
        return Err(ConstraintError::AccountAlreadyInUse);
    }
    ctx.article_account_in_use = true;
    ctx.author_account.article_count = ctx.author_account.article_count + 1;
    ctx.article_account.paid_or_free = paid_or_free;
    ctx.article_account.authority = ctx.user;
    ctx.article_account.bump = article_account_bump;
    ctx.article_account.article_id = ctx.author_account.article_count;
    ctx.article_account.likes_count = 0;
    ctx.article_account.published_timestamp = published_timestamp;
    ctx.article_account.category = category;
    Ok(())
}

} // verus!
