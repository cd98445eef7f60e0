use anchor_programs::blog::{
    create_post, initialize_blog, update_post, BlogAccount, CreatePost, InitializeBlog, PostAccount, UpdatePost,
};
use anchor_programs::errors::ConstraintError;
use anchor_programs::pubkey::Pubkey;

fn key(n: u8) -> Pubkey {
    Pubkey { bytes: [n; 32] }
}

fn blank_post() -> PostAccount {
    PostAccount { authority: key(0), bump: 0, entry: 0, title: String::new(), body: String::new() }
}

fn post_ctx(blog: BlogAccount, authority: Pubkey, authority_is_signer: bool, post_account_in_use: bool) -> CreatePost {
    let pid = anchor_lang::prelude::Pubkey::new_from_array(key(9).bytes);
    let (k, _) = anchor_lang::prelude::Pubkey::find_program_address(&[b"post", &key(70).bytes, &[blog.post_count]], &pid);
    CreatePost {
        post_account: blank_post(),
        post_account_key: Pubkey { bytes: k.to_bytes() },
        post_account_in_use,
        blog_account: blog,
        blog_account_key: key(70),
        authority,
        authority_is_signer,
        system_program: key(90),
        program_id: key(9),
    }
}

fn new_blog() -> BlogAccount {
    let mut ctx = InitializeBlog {
        blog_account: BlogAccount { authority: key(0), bump: 0, post_count: 9 },
        blog_account_in_use: false,
        user: key(1),
        user_is_signer: true,
        system_program: key(90),
    };
    assert!(initialize_blog(&mut ctx, 200).is_ok());
    ctx.blog_account
}

#[test]
fn initialize_blog_starts_empty() {
    let b = new_blog();
    assert_eq!(b.authority, key(1));
    assert_eq!(b.bump, 200);
    assert_eq!(b.post_count, 0);
}

#[test]
fn posts_are_numbered_in_order() {
    let mut blog = new_blog();
    for n in 0..3u8 {
        let mut ctx = post_ctx(blog, key(1), true, false);
        create_post(&mut ctx, 100 + n, format!("t{}", n), "body".to_string()).unwrap();
        assert_eq!(ctx.post_account.entry, n);
        assert_eq!(ctx.post_account.bump, 100 + n);
        assert_eq!(ctx.post_account.authority, key(1));
        assert_eq!(ctx.post_account.title, format!("t{}", n));
        blog = ctx.blog_account;
    }
    assert_eq!(blog.post_count, 3);
}

#[test]
fn create_post_rejects_other_author() {
    let mut ctx = post_ctx(new_blog(), key(2), true, false);
    assert_eq!(create_post(&mut ctx, 1, "t".to_string(), "b".to_string()), Err(ConstraintError::ConstraintHasOne));
    assert_eq!(ctx.blog_account.post_count, 0);
}

#[test]
fn post_254_is_the_last_number_used_without_overflow() {
    let mut blog = new_blog();
    blog.post_count = 254;
    let mut ctx = post_ctx(blog, key(1), true, false);
    create_post(&mut ctx, 1, "t".to_string(), "b".to_string()).unwrap();
    assert_eq!(ctx.post_account.entry, 254);
    assert_eq!(ctx.blog_account.post_count, 255);
}

#[test]
fn update_post_rewrites_text_only() {
    let post = PostAccount { authority: key(1), bump: 7, entry: 4, title: "old".to_string(), body: "old".to_string() };
    let mut ctx = UpdatePost { blog_account: new_blog(), post_account: post, authority: key(1), authority_is_signer: true };
    update_post(&mut ctx, "new".to_string(), "text".to_string()).unwrap();
    assert_eq!(ctx.post_account.title, "new");
    assert_eq!(ctx.post_account.body, "text");
    assert_eq!((ctx.post_account.bump, ctx.post_account.entry), (7, 4));
    assert_eq!(ctx.post_account.authority, key(1));
}

#[test]
fn update_post_needs_author_of_both() {
    let post = PostAccount { authority: key(3), bump: 7, entry: 4, title: "old".to_string(), body: "old".to_string() };
    let mut ctx = UpdatePost { blog_account: new_blog(), post_account: post, authority: key(1), authority_is_signer: true };
    assert_eq!(update_post(&mut ctx, "new".to_string(), "x".to_string()), Err(ConstraintError::ConstraintHasOne));
    assert_eq!(ctx.post_account.title, "old");
}

#[test]
fn blog_space_formulas() {
    assert_eq!(BlogAccount::space(), 42);
    assert_eq!(PostAccount::space("ab", "cde"), 50 + 2 + 3);
}

#[test]
fn blog_instructions_need_signatures() {
    let mut ctx = InitializeBlog {
        blog_account: BlogAccount { authority: key(0), bump: 0, post_count: 9 },
        blog_account_in_use: false,
        user: key(1),
        user_is_signer: false,
        system_program: key(90),
    };
    assert_eq!(initialize_blog(&mut ctx, 200), Err(ConstraintError::AccountNotSigner));
    assert_eq!(ctx.blog_account.post_count, 9);
    let mut ctx = post_ctx(new_blog(), key(1), false, false);
    assert_eq!(create_post(&mut ctx, 1, "t".to_string(), "b".to_string()), Err(ConstraintError::AccountNotSigner));
    assert_eq!(ctx.blog_account.post_count, 0);
    let post = PostAccount { authority: key(1), bump: 7, entry: 4, title: "old".to_string(), body: "old".to_string() };
    let mut ctx = UpdatePost { blog_account: new_blog(), post_account: post, authority: key(1), authority_is_signer: false };
    assert_eq!(update_post(&mut ctx, "new".to_string(), "x".to_string()), Err(ConstraintError::AccountNotSigner));
    assert_eq!(ctx.post_account.title, "old");
}

#[test]
fn many_posts_get_consecutive_numbers() {
    let mut blog = new_blog();
    for n in 0..255u8 {
        let mut ctx = post_ctx(blog, key(1), true, false);
        create_post(&mut ctx, 0, String::new(), String::new()).unwrap();
        assert_eq!(ctx.post_account.entry, n);
        blog = ctx.blog_account;
    }
    assert_eq!(blog.post_count, 255);
}

#[test]
fn blog_and_post_accounts_must_be_new() {
    let mut ctx = InitializeBlog {
        blog_account: BlogAccount { authority: key(0), bump: 0, post_count: 0 },
        blog_account_in_use: false,
        user: key(1),
        user_is_signer: true,
        system_program: key(90),
    };
    initialize_blog(&mut ctx, 200).unwrap();
    assert!(ctx.blog_account_in_use);
    assert_eq!(initialize_blog(&mut ctx, 100), Err(ConstraintError::AccountAlreadyInUse));
    assert_eq!(ctx.blog_account.bump, 200);
    let mut ctx = post_ctx(new_blog(), key(1), true, true);
    assert_eq!(create_post(&mut ctx, 1, "t".to_string(), "b".to_string()), Err(ConstraintError::AccountAlreadyInUse));
    assert_eq!(ctx.blog_account.post_count, 0);
}

#[test]
fn post_must_be_at_its_numbered_address() {
    let mut ctx = post_ctx(new_blog(), key(1), true, false);
    ctx.post_account_key = key(71);
    assert_eq!(create_post(&mut ctx, 1, "t".to_string(), "b".to_string()), Err(ConstraintError::ConstraintSeeds));
    let mut blog = new_blog();
    blog.post_count = 5;
    let mut ctx = post_ctx(new_blog(), key(1), true, false);
    ctx.blog_account = blog;
    assert_eq!(create_post(&mut ctx, 1, "t".to_string(), "b".to_string()), Err(ConstraintError::ConstraintSeeds));
}
