//! A publishing platform: authors with subscription prices, and their
//! numbered articles.
pub mod instructions;
pub mod state;

use vstd::prelude::*;

use crate::errors::ConstraintError;
use crate::pda::{check_canonical_address, is_canonical_address};
use crate::pubkey::Pubkey;
use crate::seeds::{byte_seed, seed_from};
use crate::the_alpha::instructions::init_article::{init_article_done, init_article_error, InitializeArticle};
use crate::the_alpha::instructions::init_author::{init_author_done, init_author_error, InitializeAuthor};
use crate::the_alpha::instructions::update_article::{update_article_error, UpdateArticle};
use crate::the_alpha::instructions::update_author::{update_author_error, UpdateAuthor};
use crate::the_alpha::state::{author_after_article, ArticleAccount, AuthorAccount};

verus! {

/// The platform's own errors.
#[derive(Clone, Copy, Debug, PartialEq, Eq, Structural)]
pub enum CustomError {
    /// two amounts that are supposed to be equal are not
    AmountMismatch,
    /// This subscription is full
    SubVectorFull,
    /// Bounty must be enough to mark account rent-exempt
    BountyTooSmall,
    /// Only the list owner or item creator may cancel an item
    CancelPermissions,
    /// Only the list owner or item creator may finish an item
    FinishPermissions,
    /// Item does not belong to this todo list
    ArticleNotFound,
    /// Specified owner does not match the pubkey in the list
    WrongAuthorOwner,
    /// Specified article creator does not match the pubkey in the item
    WrongArticleCreator,
}

/// Creates an author; see `instructions::init_author::handler`.
pub fn initialize_author(
    ctx: &mut InitializeAuthor,
    author_account_bump: u8,
    vector_capacity: u16,
    name: String,
    price_sub: u8,
    paid_or_free: bool,
) -> (r: Result<(), ConstraintError>)
    ensures
        r is Ok <==> init_author_error(*old(ctx)) is None,
        r matches Err(e) ==> init_author_error(*old(ctx)) == Some(e) && *final(ctx) == *old(ctx),
        r is Ok ==> init_author_done(
            *old(ctx),
            *final(ctx),
            author_account_bump,
            vector_capacity,
            name@,
            price_sub,
            paid_or_free,
        ),
{
    instructions::init_author::handler(ctx, author_account_bump, vector_capacity, name, price_sub, paid_or_free)
}

/// Publishes an article at `published_timestamp`; see
/// `instructions::init_article::handler`.
pub fn initialize_article(
    ctx: &mut InitializeArticle,
    article_account_bump: u8,
    category: String,
    paid_or_free: bool,
    published_timestamp: i64,
) -> (r: Result<(), ConstraintError>)
    requires
        init_article_error(*old(ctx)) is None ==> old(ctx).author_account.article_count < u64::MAX,
    ensures
        r is Ok <==> init_article_error(*old(ctx)) is None,
        r matches Err(e) ==> init_article_error(*old(ctx)) == Some(e) && *final(ctx) == *old(ctx),
        r is Ok ==> init_article_done(
            *old(ctx),
            *final(ctx),
            article_account_bump,
            category@,
            paid_or_free,
            published_timestamp,
        ),
{
    instructions::init_article::handler(ctx, article_account_bump, category, paid_or_free, published_timestamp)
}

/// Changes an article; see `instructions::update_article::handler`.
pub fn update_article(ctx: &mut UpdateArticle, category: String, paid_or_free: bool) -> (r: Result<
    (),
    ConstraintError,
>)
    ensures
        r is Ok <==> update_article_error(*old(ctx)) is None,
        r matches Err(e) ==> update_article_error(*old(ctx)) == Some(e) && *final(ctx) == *old(ctx),
        r is Ok ==> *final(ctx) == (UpdateArticle {
            article_account: ArticleAccount {
                authority: old(ctx).authority,
                paid_or_free,
                category,
                ..old(ctx).article_account
            },
            ..*old(ctx)
        }),
{
    instructions::update_article::handler(ctx, category, paid_or_free)
}

/// Changes an author; see `instructions::update_author::handler`.
pub fn update_author(ctx: &mut UpdateAuthor, name: String, paid_or_free: bool, price_sub: u8) -> (r: Result<
    (),
    ConstraintError,
>)
    ensures
        r is Ok <==> update_author_error(*old(ctx)) is None,
        r matches Err(e) ==> update_author_error(*old(ctx)) == Some(e) && *final(ctx) == *old(ctx),
        r is Ok ==> *final(ctx) == (UpdateAuthor {
            author_account: AuthorAccount { paid_or_free, name, price_sub, ..old(ctx).author_account },
            ..*old(ctx)
        }),
{
    instructions::update_author::handler(ctx, name, paid_or_free, price_sub)
}

/// The author after `n` new articles, starting from `a`.
pub open spec fn author_after_articles(a: AuthorAccount, n: nat) -> AuthorAccount
    decreases n,
{
    if n == 0 {
        a
    } else {
        author_after_article(author_after_articles(a, (n - 1) as nat))
    }
}

/// Articles are numbered in the order they are published: after `n` new
/// articles of an author that counted `a.article_count` (with room for
/// them), the author counts `a.article_count + n`, the `i`-th of these
/// articles got the number `a.article_count + i + 1` (the count after it),
/// so the numbers are distinct, and the author's other fields, its
/// subscribers among them, stay as they were.
pub proof fn lemma_articles_numbered_in_order(a: AuthorAccount, n: nat)
    requires
        a.article_count + n <= u64::MAX,
    ensures
        author_after_articles(a, n).article_count == a.article_count + n,
        author_after_articles(a, n) == (AuthorAccount {
            article_count: author_after_articles(a, n).article_count,
            ..a
        }),
        forall|i: nat| i < n ==> #[trigger] author_after_article(author_after_articles(a, i)).article_count
            == a.article_count + i + 1,
        forall|i: nat, j: nat|
            i < j < n ==> #[trigger] author_after_article(author_after_articles(a, i)).article_count
                < #[trigger] author_after_article(author_after_articles(a, j)).article_count,
        a.within_capacity() ==> author_after_articles(a, n).within_capacity(),
    decreases n,
{
    if n > 0 {
        lemma_articles_numbered_in_order(a, (n - 1) as nat);
    }
}

/// One author per user: every author account that passes the address check
/// for a user is the same account, the program derived address of "author"
/// and the user; a creation that succeeded leaves it in use, and any later
/// creation of it, signed by the user, fails with `AccountAlreadyInUse`
/// (and leaves the account as it is, by `initialize_author`'s contract).
/// `after_first` stands for the accounts as the first creation left them.
pub proof fn lemma_one_author_per_user(
    user: Pubkey,
    program_id: Pubkey,
    first_key: Pubkey,
    later_key: Pubkey,
    after_first: InitializeAuthor,
    later: InitializeAuthor,
)
    requires
        is_canonical_address(seq![author_seed(), user@], program_id, first_key, None),
        is_canonical_address(seq![author_seed(), user@], program_id, later_key, None),
        after_first.author_account_in_use,
        later.author_account_in_use == after_first.author_account_in_use,
        later.user_is_signer,
    ensures
        first_key == later_key,
        init_author_error(later) == Some(ConstraintError::AccountAlreadyInUse),
{
    Pubkey::lemma_eq_bytes(first_key, later_key);
}

/// Only the authority changes an author or an article: an update passes its
/// checks only when the authority signed and is the one recorded.
pub proof fn lemma_only_authority_updates(a: UpdateAuthor, b: UpdateArticle)
    ensures
        update_author_error(a) is None ==> a.authority_is_signer && a.author_account.authority == a.authority,
        update_article_error(b) is None ==> b.authority_is_signer && b.article_account.authority == b.authority
            && b.author_account.authority == b.authority,
{
}

/// The seed of an author: "author".
pub open spec fn author_seed() -> Seq<u8> {
    seq![97u8, 117u8, 116u8, 104u8, 111u8, 114u8]
}

/// The seed of an article: "article".
pub open spec fn article_seed() -> Seq<u8> {
    seq![97u8, 114u8, 116u8, 105u8, 99u8, 108u8, 101u8]
}

/// Checks the address of the author that `initialize_author` creates: the
/// program derived address of "author" and the signer's address.
pub fn validate_initialize_author(user: &Pubkey, author_account_key: &Pubkey, program_id: &Pubkey) -> (r: Result<
    (),
    ConstraintError,
>)
    ensures
        r is Ok <==> is_canonical_address(seq![author_seed(), user@], *program_id, *author_account_key, None),
        r is Err ==> r == Err::<(), ConstraintError>(ConstraintError::ConstraintSeeds),
{
    let lit: [u8; 6] = [97, 117, 116, 104, 111, 114];
    let mut seeds: Vec<Vec<u8>> = Vec::new();
    seeds.push(seed_from(&lit));
    seeds.push(user.to_vec());
    assert(seeds.deep_view() =~= seq![author_seed(), user@]);
    if check_canonical_address(&seeds, program_id, author_account_key, None) {
        Ok(())
    } else {
        Err(ConstraintError::ConstraintSeeds)
    }
}

/// Checks the address of the article that `initialize_article` creates: the
/// program derived address of "article", the author's address and the low
/// byte of the author's article count before the new article.
pub fn validate_initialize_article(
    author_account_key: &Pubkey,
    article_count: u64,
    article_account_key: &Pubkey,
    program_id: &Pubkey,
) -> (r: Result<(), ConstraintError>)
    ensures
        r is Ok <==> is_canonical_address(
            seq![article_seed(), author_account_key@, seq![(article_count % 256) as u8]],
            *program_id,
            *article_account_key,
            None,
        ),
        r is Err ==> r == Err::<(), ConstraintError>(ConstraintError::ConstraintSeeds),
{
    let lit: [u8; 7] = [97, 114, 116, 105, 99, 108, 101];
    let mut seeds: Vec<Vec<u8>> = Vec::new();
    seeds.push(seed_from(&lit));
    seeds.push(author_account_key.to_vec());
    seeds.push(byte_seed((article_count % 256) as u8));
    assert(seeds.deep_view() =~= seq![article_seed(), author_account_key@, seq![(article_count % 256) as u8]]);
    if check_canonical_address(&seeds, program_id, article_account_key, None) {
        Ok(())
    } else {
        Err(ConstraintError::ConstraintSeeds)
    }
}

/// Who may write on the platform: an author or an article is created only
/// by a signing user on an account not in use yet, and then belongs to that
/// user, the author with no articles and no subscribers, the article with
/// no likes; an update passes exactly when the authority signed and is the
/// recorded one.
pub proof fn lemma_platform_write_permissions(
    a: InitializeAuthor,
    a_after: InitializeAuthor,
    r: InitializeArticle,
    r_after: InitializeArticle,
    bump: u8,
    capacity: u16,
    name: Seq<char>,
    price_sub: u8,
    paid_or_free: bool,
    published_timestamp: i64,
    ua: UpdateAuthor,
    ub: UpdateArticle,
)
    ensures
        init_author_error(a) is None <==> (a.user_is_signer && !a.author_account_in_use),
        init_article_error(r) is None <==> (r.user_is_signer && !r.article_account_in_use),
        init_author_done(a, a_after, bump, capacity, name, price_sub, paid_or_free) ==> (
        a_after.author_account.authority == a.user && a_after.author_account.article_count == 0
            && a_after.author_account.sub_pubkeys@.len() == 0 && a_after.author_account_in_use),
        init_article_done(r, r_after, bump, name, paid_or_free, published_timestamp)
            && r.author_account.article_count < u64::MAX ==> (
        r_after.article_account.authority == r.user && r_after.article_account.likes_count == 0
            && r_after.author_account.article_count == r.author_account.article_count + 1
            && r_after.article_account.article_id == r.author_account.article_count + 1
            && r_after.article_account_in_use),
        update_author_error(ua) is None <==> (ua.authority_is_signer && ua.author_account.authority == ua.authority),
        update_article_error(ub) is None <==> (ub.authority_is_signer && ub.article_account.authority == ub.authority
            && ub.author_account.authority == ub.authority),
{
}

} // verus!
