//! A blog: one account per author that counts the posts, and one account
//! per post holding its title and body.
use vstd::prelude::*;

use crate::errors::ConstraintError;
use crate::pda::{check_canonical_address, is_canonical_address};
use crate::pubkey::Pubkey;
use crate::seeds::{byte_seed, seed_from};
use vstd::string::StringSliceAdditionalSpecFns;

verus! {

/// A blog: its author, bump and number of posts.
#[derive(Clone, Copy, Debug)]
pub struct BlogAccount {
    pub authority: Pubkey,
    pub bump: u8,
    pub post_count: u8,
}

/// A post: its author, bump, number in the blog, title and body.
#[derive(Clone, Debug)]
pub struct PostAccount {
    pub authority: Pubkey,
    pub bump: u8,
    pub entry: u8,
    pub title: String,
    pub body: String,
}

/// Accounts of `initialize_blog`.
#[derive(Clone, Copy, Debug)]
pub struct InitializeBlog {
    pub blog_account: BlogAccount,
    pub blog_account_in_use: bool,
    pub user: Pubkey,
    pub user_is_signer: bool,
    pub system_program: Pubkey,
}

/// Accounts of `create_post`.
#[derive(Clone, Debug)]
pub struct CreatePost {
    pub post_account: PostAccount,
    pub post_account_key: Pubkey,
    pub post_account_in_use: bool,
    pub blog_account: BlogAccount,
    pub blog_account_key: Pubkey,
    pub authority: Pubkey,
    pub authority_is_signer: bool,
    pub system_program: Pubkey,
    pub program_id: Pubkey,
}

/// Accounts of `update_post`.
#[derive(Clone, Debug)]
pub struct UpdatePost {
    pub blog_account: BlogAccount,
    pub post_account: PostAccount,
    pub authority: Pubkey,
    pub authority_is_signer: bool,
}

/// Space that a post account with this title and body needs: discriminator,
/// author, bump, entry, and both strings with their length prefixes.
pub open spec fn post_space(title: &str, body: &str) -> nat {
    8 + 32 + 1 + 1 + 4 + title.spec_bytes().len() + 4 + body.spec_bytes().len()
}

impl BlogAccount {
    /// Space that a blog account needs: discriminator, author, bump and count.
    pub fn space() -> (r: usize)
        ensures
            r == 8 + 32 + 1 + 1,
    {
        8 + 32 + 1 + 1
    }
}

impl PostAccount {
    /// Space that a post account with this title and body needs.
    pub fn space(title: &str, body: &str) -> (r: usize)
        requires
            post_space(title, body) <= usize::MAX,
        ensures
            r == post_space(title, body),
    {
        8 + 32 + 1 + 1 + 4 + title.len() + 4 + body.len()
    }
}

/// The first account check of `initialize_blog` that fails: the user signs,
/// and the blog account, which the instruction creates, does not exist yet.
pub open spec fn initialize_blog_error(ctx: InitializeBlog) -> Option<ConstraintError> {
    if !ctx.user_is_signer {
        Some(ConstraintError::AccountNotSigner)
    } else if ctx.blog_account_in_use {
        Some(ConstraintError::AccountAlreadyInUse)
    } else {
        None
    }
}

/// Creates a blog owned by the signer, with no posts.
pub fn initialize_blog(ctx: &mut InitializeBlog, blog_account_bump: u8) -> (r: Result<(), ConstraintError>)
    ensures
        r is Ok <==> initialize_blog_error(*old(ctx)) is None,
        r matches Err(e) ==> initialize_blog_error(*old(ctx)) == Some(e) && *final(ctx) == *old(ctx),
        r is Ok ==> *final(ctx) == (InitializeBlog {
            blog_account: BlogAccount { authority: old(ctx).user, bump: blog_account_bump, post_count: 0 },
            blog_account_in_use: true,
            ..*old(ctx)
        }),
{
    if !ctx.user_is_signer {
        return Err(ConstraintError::AccountNotSigner);
    }
    if ctx.blog_account_in_use {
        return Err(ConstraintError::AccountAlreadyInUse);
    }
    ctx.blog_account_in_use = true;
    ctx.blog_account.bump = blog_account_bump;
    ctx.blog_account.authority = ctx.user;
    ctx.blog_account.post_count = 0;
    Ok(())
}

/// The blog that a new post leaves: one more post.
pub open spec fn blog_after_post(b: BlogAccount) -> BlogAccount {
    BlogAccount { post_count: (b.post_count + 1) as u8, ..b }
}

/// The seeds of the post numbered `count` of the blog at `blog_account_key`.
pub open spec fn post_seeds(blog_account_key: Pubkey, count: u8) -> Seq<Seq<u8>> {
    seq![post_seed(), blog_account_key@, seq![count]]
}

/// The first account check of `create_post` that fails: the authority
/// signs; the post account, which the instruction creates, is at the program
/// derived address of "post", the blog's address and the blog's post count,
/// and does not exist yet; and the authority is the blog's recorded
/// authority.
pub open spec fn create_post_error(ctx: CreatePost) -> Option<ConstraintError> {
    if !ctx.authority_is_signer {
        Some(ConstraintError::AccountNotSigner)
    } else if !is_canonical_address(
        post_seeds(ctx.blog_account_key, ctx.blog_account.post_count),
        ctx.program_id,
        ctx.post_account_key,
        None,
    ) {
        Some(ConstraintError::ConstraintSeeds)
    } else if ctx.post_account_in_use {
        Some(ConstraintError::AccountAlreadyInUse)
    } else if ctx.blog_account.authority != ctx.authority {
        Some(ConstraintError::ConstraintHasOne)
    } else {
        None
    }
}

/// Writes a new post of the blog's author: the post gets the next number of
/// the blog, and the blog counts one more post.
pub fn create_post(ctx: &mut CreatePost, post_account_bump: u8, title: String, body: String) -> (r: Result<
    (),
    ConstraintError,
>)
    requires
        create_post_error(*old(ctx)) is None ==> old(ctx).blog_account.post_count < 255,
    ensures
        r is Ok <==> create_post_error(*old(ctx)) is None,
        r matches Err(e) ==> create_post_error(*old(ctx)) == Some(e) && *final(ctx) == *old(ctx),
        r is Ok ==> *final(ctx) == (CreatePost {
            post_account: PostAccount {
                authority: old(ctx).authority,
                bump: post_account_bump,
                entry: old(ctx).blog_account.post_count,
                title,
                body,
            },
            post_account_in_use: true,
            blog_account: blog_after_post(old(ctx).blog_account),
            ..*old(ctx)
        }),
{
    if !ctx.authority_is_signer {
        return Err(ConstraintError::AccountNotSigner);
    }
    match validate_create_post(&ctx.blog_account_key, ctx.blog_account.post_count, &ctx.post_account_key, &ctx.program_id) {
        Err(e) => {
            return Err(e);
        },
        Ok(()) => {},
    }
    if ctx.post_account_in_use {
        return Err(ConstraintError::AccountAlreadyInUse);
    }
    if !(ctx.blog_account.authority == ctx.authority) {
        return Err(ConstraintError::ConstraintHasOne);
    }
    ctx.post_account_in_use = true;
    ctx.post_account.authority = ctx.authority;
    ctx.post_account.title = title;
    ctx.post_account.body = body;
    ctx.post_account.bump = post_account_bump;
    ctx.post_account.entry = ctx.blog_account.post_count;
    ctx.blog_account.post_count = ctx.blog_account.post_count + 1;
    Ok(())
}

/// The first account check of `update_post` that fails: the authority signs
/// and is the recorded authority of both the blog and the post.
pub open spec fn update_post_error(ctx: UpdatePost) -> Option<ConstraintError> {
    if !ctx.authority_is_signer {
        Some(ConstraintError::AccountNotSigner)
    } else if ctx.blog_account.authority != ctx.authority || ctx.post_account.authority != ctx.authority {
        Some(ConstraintError::ConstraintHasOne)
    } else {
        None
    }
}

/// Rewrites the title and body of a post; the signer must be the author of
/// both the blog and the post.
pub fn update_post(ctx: &mut UpdatePost, title: String, body: String) -> (r: Result<(), ConstraintError>)
    ensures
        r is Ok <==> update_post_error(*old(ctx)) is None,
        r matches Err(e) ==> update_post_error(*old(ctx)) == Some(e) && *final(ctx) == *old(ctx),
        r is Ok ==> *final(ctx) == (UpdatePost {
            post_account: PostAccount { title, body, ..old(ctx).post_account },
            ..*old(ctx)
        }),
{
    if !ctx.authority_is_signer {
        return Err(ConstraintError::AccountNotSigner);
    }
    if !(ctx.blog_account.authority == ctx.authority) {
        return Err(ConstraintError::ConstraintHasOne);
    }
    if !(ctx.post_account.authority == ctx.authority) {
        return Err(ConstraintError::ConstraintHasOne);
    }
    ctx.post_account.title = title;
    ctx.post_account.body = body;
    Ok(())
}

/// The blog after `n` posts, starting from `b`.
pub open spec fn blog_after_posts(b: BlogAccount, n: nat) -> BlogAccount
    decreases n,
{
    if n == 0 {
        b
    } else {
        blog_after_post(blog_after_posts(b, (n - 1) as nat))
    }
}

/// Posts are numbered in the order they are written: after `n` posts on a
/// blog that counted `b.post_count` (with room for them), the blog counts
/// `b.post_count + n`, the `i`-th of these posts got the number
/// `b.post_count + i` (the count before it), so the numbers are distinct and
/// below the new count, and the blog's author and bump are unchanged. From a
/// new blog (count 0) the `i`-th post gets number `i`. A post creation on
/// the blog after `i` posts that passes its checks creates the post at the
/// program derived address of "post", the blog's address and that number.
pub proof fn lemma_posts_numbered_in_order(b: BlogAccount, n: nat)
    requires
        b.post_count + n <= 255,
    ensures
        blog_after_posts(b, n).post_count == b.post_count + n,
        blog_after_posts(b, n).authority == b.authority,
        blog_after_posts(b, n).bump == b.bump,
        forall|i: nat| i < n ==> #[trigger] blog_after_posts(b, i).post_count == b.post_count + i,
        forall|i: nat, j: nat|
            i < j < n ==> #[trigger] blog_after_posts(b, i).post_count < #[trigger] blog_after_posts(
                b,
                j,
            ).post_count,
        forall|i: nat| i < n ==> #[trigger] blog_after_posts(b, i).post_count < blog_after_posts(b, n).post_count,
        forall|i: nat, c: CreatePost|
            #![trigger create_post_error(c), blog_after_posts(b, i)]
            i < n && c.blog_account == blog_after_posts(b, i) && create_post_error(c) is None ==> is_canonical_address(
                post_seeds(c.blog_account_key, (b.post_count + i) as u8),
                c.program_id,
                c.post_account_key,
                None,
            ),
    decreases n,
{
    if n > 0 {
        lemma_posts_numbered_in_order(b, (n - 1) as nat);
    }
}

/// The seed of a blog: "blog".
pub open spec fn blog_seed() -> Seq<u8> {
    seq![98u8, 108u8, 111u8, 103u8]
}

/// The seed of a post: "post".
pub open spec fn post_seed() -> Seq<u8> {
    seq![112u8, 111u8, 115u8, 116u8]
}

/// Checks the address of the blog that `initialize_blog` creates: the
/// program derived address of "blog" and the author's address.
pub fn validate_initialize_blog(user: &Pubkey, blog_account_key: &Pubkey, program_id: &Pubkey) -> (r: Result<
    (),
    ConstraintError,
>)
    ensures
        r is Ok <==> is_canonical_address(seq![blog_seed(), user@], *program_id, *blog_account_key, None),
        r is Err ==> r == Err::<(), ConstraintError>(ConstraintError::ConstraintSeeds),
{
    let lit: [u8; 4] = [98, 108, 111, 103];
    let mut seeds: Vec<Vec<u8>> = Vec::new();
    seeds.push(seed_from(&lit));
    seeds.push(user.to_vec());
    assert(seeds.deep_view() =~= seq![blog_seed(), user@]);
    if check_canonical_address(&seeds, program_id, blog_account_key, None) {
        Ok(())
    } else {
        Err(ConstraintError::ConstraintSeeds)
    }
}

/// Checks the address of the post that `create_post` creates: the program
/// derived address of "post", the blog's address and the blog's post count.
pub fn validate_create_post(
    blog_account_key: &Pubkey,
    post_count: u8,
    post_account_key: &Pubkey,
    program_id: &Pubkey,
) -> (r: Result<(), ConstraintError>)
    ensures
        r is Ok <==> is_canonical_address(
            seq![post_seed(), blog_account_key@, seq![post_count]],
            *program_id,
            *post_account_key,
            None,
        ),
        r is Err ==> r == Err::<(), ConstraintError>(ConstraintError::ConstraintSeeds),
{
    let lit: [u8; 4] = [112, 111, 115, 116];
    let mut seeds: Vec<Vec<u8>> = Vec::new();
    seeds.push(seed_from(&lit));
    seeds.push(blog_account_key.to_vec());
    seeds.push(byte_seed(post_count));
    assert(seeds.deep_view() =~= seq![post_seed(), blog_account_key@, seq![post_count]]);
    if check_canonical_address(&seeds, program_id, post_account_key, None) {
        Ok(())
    } else {
        Err(ConstraintError::ConstraintSeeds)
    }
}

/// Who may write on a blog: a blog is created only by a signing user on an
/// account not in use yet; a post is created only by the blog's recorded
/// authority, signing, at the address numbered by the blog's count, on an
/// account not in use yet; a post is rewritten only by the authority
/// recorded on both the blog and the post, signing. Each of these checks
/// passes exactly when its conditions hold.
pub proof fn lemma_blog_write_permissions(i: InitializeBlog, c: CreatePost, u: UpdatePost)
    ensures
        initialize_blog_error(i) is None <==> (i.user_is_signer && !i.blog_account_in_use),
        create_post_error(c) is None <==> (c.authority_is_signer && is_canonical_address(
            seq![post_seed(), c.blog_account_key@, seq![c.blog_account.post_count]],
            c.program_id,
            c.post_account_key,
            None,
        ) && !c.post_account_in_use && c.blog_account.authority == c.authority),
        update_post_error(u) is None <==> (u.authority_is_signer && u.blog_account.authority == u.authority
            && u.post_account.authority == u.authority),
{
}

} // verus!
