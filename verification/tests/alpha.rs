use anchor_programs::errors::ConstraintError;
use anchor_programs::pubkey::Pubkey;
use anchor_programs::the_alpha::instructions::init_article::InitializeArticle;
use anchor_programs::the_alpha::instructions::init_author::InitializeAuthor;
use anchor_programs::the_alpha::instructions::update_article::UpdateArticle;
use anchor_programs::the_alpha::instructions::update_author::UpdateAuthor;
use anchor_programs::the_alpha::state::{ArticleAccount, AuthorAccount, ReaderAccount};
use anchor_programs::the_alpha::{initialize_article, initialize_author, update_article, update_author};

fn key(n: u8) -> Pubkey {
    Pubkey { bytes: [n; 32] }
}

fn blank_author() -> AuthorAccount {
    AuthorAccount {
        authority: key(0),
        price_sub: 0,
        paid_or_free: false,
        article_count: 0,
        bump: 0,
        name: String::new(),
        vector_capacity: 0,
        sub_pubkeys: Vec::new(),
    }
}

fn blank_article() -> ArticleAccount {
    ArticleAccount {
        authority: key(0),
        bump: 0,
        paid_or_free: false,
        article_id: 0,
        likes_count: 9,
        published_timestamp: 0,
        category: String::new(),
    }
}

fn author() -> AuthorAccount {
    let mut ctx = InitializeAuthor { author_account: blank_author(), author_account_in_use: false, user: key(1), user_is_signer: true, system_program: key(90) };
    initialize_author(&mut ctx, 250, 10, "ana".to_string(), 5, true).unwrap();
    ctx.author_account
}

#[test]
fn initialize_author_records_everything() {
    let a = author();
    assert_eq!(a.authority, key(1));
    assert_eq!((a.price_sub, a.paid_or_free, a.article_count, a.bump, a.vector_capacity), (5, true, 0, 250, 10));
    assert_eq!(a.name, "ana");
    assert!(a.sub_pubkeys.is_empty());
}

#[test]
fn articles_are_numbered_from_one() {
    let mut a = author();
    for n in 1..=3u64 {
        let mut ctx = InitializeArticle { article_account: blank_article(), article_account_in_use: false, author_account: a, user: key(1), user_is_signer: true, system_program: key(90) };
        initialize_article(&mut ctx, 7, "news".to_string(), false, 1_700_000_000 + n as i64).unwrap();
        assert_eq!(ctx.article_account.article_id, n);
        assert_eq!(ctx.author_account.article_count, n);
        assert_eq!(ctx.article_account.likes_count, 0);
        assert_eq!(ctx.article_account.published_timestamp, 1_700_000_000 + n as i64);
        assert_eq!(ctx.article_account.category, "news");
        assert_eq!(ctx.article_account.authority, key(1));
        a = ctx.author_account;
    }
    assert_eq!(a.name, "ana");
}

#[test]
fn update_article_by_its_authority() {
    let mut art = blank_article();
    art.authority = key(1);
    art.article_id = 4;
    let mut ctx = UpdateArticle { article_account: art, author_account: author(), authority: key(1), authority_is_signer: true };
    update_article(&mut ctx, "sport".to_string(), true).unwrap();
    assert_eq!(ctx.article_account.category, "sport");
    assert!(ctx.article_account.paid_or_free);
    assert_eq!(ctx.article_account.article_id, 4);
}

#[test]
fn update_article_rejects_stranger() {
    let mut art = blank_article();
    art.authority = key(1);
    let mut ctx = UpdateArticle { article_account: art, author_account: author(), authority: key(2), authority_is_signer: true };
    assert_eq!(update_article(&mut ctx, "x".to_string(), true), Err(ConstraintError::ConstraintHasOne));
    assert_eq!(ctx.article_account.category, "");
}

#[test]
fn update_author_keeps_count_and_subscribers() {
    let mut a = author();
    a.article_count = 12;
    let mut ctx = UpdateAuthor { author_account: a, authority: key(1), authority_is_signer: true };
    update_author(&mut ctx, "bea".to_string(), false, 9).unwrap();
    assert_eq!(ctx.author_account.name, "bea");
    assert_eq!((ctx.author_account.paid_or_free, ctx.author_account.price_sub), (false, 9));
    assert_eq!(ctx.author_account.article_count, 12);
}

#[test]
fn update_author_rejects_stranger() {
    let mut ctx = UpdateAuthor { author_account: author(), authority: key(3), authority_is_signer: true };
    assert_eq!(update_author(&mut ctx, "x".to_string(), false, 1), Err(ConstraintError::ConstraintHasOne));
    assert_eq!(ctx.author_account.name, "ana");
}

#[test]
fn alpha_space_formulas() {
    assert_eq!(AuthorAccount::space(2, "ana"), 8 + 32 + 1 + 8 + 8 + 1 + 4 + 3 + 2 + 4 + 64);
    assert_eq!(ArticleAccount::space("news"), 77 + 4);
    assert_eq!(ReaderAccount::space("bo", 3, 2), 8 + 32 + 1 + 4 + 2 + 2 + 4 + 64 + 2 + 4 + 6);
}

#[test]
fn updates_need_the_authority_signature() {
    let mut art = blank_article();
    art.authority = key(1);
    let mut ctx = UpdateArticle { article_account: art, author_account: author(), authority: key(1), authority_is_signer: false };
    assert_eq!(update_article(&mut ctx, "x".to_string(), true), Err(ConstraintError::AccountNotSigner));
    assert_eq!(ctx.article_account.category, "");
    let mut ctx = UpdateAuthor { author_account: author(), authority: key(1), authority_is_signer: false };
    assert_eq!(update_author(&mut ctx, "x".to_string(), false, 1), Err(ConstraintError::AccountNotSigner));
    assert_eq!(ctx.author_account.name, "ana");
}

#[test]
fn one_author_per_user() {
    let mut ctx = InitializeAuthor { author_account: blank_author(), author_account_in_use: false, user: key(1), user_is_signer: true, system_program: key(90) };
    initialize_author(&mut ctx, 250, 10, "ana".to_string(), 5, true).unwrap();
    assert!(ctx.author_account_in_use);
    assert_eq!(initialize_author(&mut ctx, 1, 1, "eve".to_string(), 1, false), Err(ConstraintError::AccountAlreadyInUse));
    assert_eq!(ctx.author_account.name, "ana");
    let mut unsigned = InitializeAuthor { author_account: blank_author(), author_account_in_use: false, user: key(1), user_is_signer: false, system_program: key(90) };
    assert_eq!(initialize_author(&mut unsigned, 1, 1, "x".to_string(), 1, false), Err(ConstraintError::AccountNotSigner));
    assert!(!unsigned.author_account_in_use);
}

#[test]
fn article_creation_checks() {
    let mut ctx = InitializeArticle { article_account: blank_article(), article_account_in_use: true, author_account: author(), user: key(1), user_is_signer: true, system_program: key(90) };
    assert_eq!(initialize_article(&mut ctx, 7, "news".to_string(), false, 5), Err(ConstraintError::AccountAlreadyInUse));
    assert_eq!(ctx.author_account.article_count, 0);
    ctx.article_account_in_use = false;
    ctx.user_is_signer = false;
    assert_eq!(initialize_article(&mut ctx, 7, "news".to_string(), false, 5), Err(ConstraintError::AccountNotSigner));
}
