use anchor_programs::errors::ConstraintError;
use anchor_programs::pubkey::Pubkey;
use anchor_programs::crunchy_vs_smooth;
use anchor_programs::blog::{validate_create_post, validate_initialize_blog};
use anchor_programs::to_do_list::{validate_add, validate_new_list};
use anchor_programs::escrow_anchor::{self, validate_test_token_seeds_init, TestTokenSeedsInit};
use anchor_programs::the_alpha::{validate_initialize_article, validate_initialize_author};

fn key(n: u8) -> Pubkey {
    Pubkey { bytes: [n; 32] }
}

fn anchor_find(seeds: &[&[u8]], program: &Pubkey) -> (Pubkey, u8) {
    let pid = anchor_lang::prelude::Pubkey::new_from_array(program.bytes);
    let (k, b) = anchor_lang::prelude::Pubkey::find_program_address(seeds, &pid);
    (Pubkey { bytes: k.to_bytes() }, b)
}

#[test]
fn vote_account_address() {
    let (k, _) = anchor_find(&[b"vote_account"], &key(9));
    assert_eq!(crunchy_vs_smooth::validate_initialize(&k, &key(9)), Ok(()));
    assert_eq!(crunchy_vs_smooth::validate_initialize(&key(1), &key(9)), Err(ConstraintError::ConstraintSeeds));
}

#[test]
fn blog_and_post_addresses() {
    let (blog, _) = anchor_find(&[b"blog", &key(1).bytes], &key(9));
    assert_eq!(validate_initialize_blog(&key(1), &blog, &key(9)), Ok(()));
    assert_eq!(validate_initialize_blog(&key(2), &blog, &key(9)), Err(ConstraintError::ConstraintSeeds));
    let (post, _) = anchor_find(&[b"post", &blog.bytes, &[3u8]], &key(9));
    assert_eq!(validate_create_post(&blog, 3, &post, &key(9)), Ok(()));
    assert_eq!(validate_create_post(&blog, 4, &post, &key(9)), Err(ConstraintError::ConstraintSeeds));
}

#[test]
fn list_address_uses_first_32_name_bytes() {
    let long = "x".repeat(40);
    let (list, _) = anchor_find(&[b"todolist", &key(1).bytes, &long.as_bytes()[..32]], &key(9));
    assert_eq!(validate_new_list(&key(1), true, &long, &list, false, &key(9)), Ok(()));
    assert_eq!(validate_new_list(&key(1), true, &"x".repeat(32), &list, false, &key(9)), Ok(()));
    assert_eq!(validate_add(&key(1), true, false, &long, &list, &key(9)), Ok(()));
    assert_eq!(validate_add(&key(2), true, false, &long, &list, &key(9)), Err(ConstraintError::ConstraintSeeds));
    assert_eq!(validate_new_list(&key(1), true, "short", &list, false, &key(9)), Err(ConstraintError::ConstraintSeeds));
}

#[test]
fn vault_address_needs_canonical_bump() {
    let (vault, bump) = anchor_find(&[b"token-seed"], &key(9));
    assert_eq!(escrow_anchor::validate_initialize(&vault, false, bump, &key(9)), Ok(()));
    assert_eq!(escrow_anchor::validate_initialize(&vault, false, bump.wrapping_add(1), &key(9)), Err(ConstraintError::ConstraintSeeds));
    let (pda, b) = anchor_find(&[b"my-token-seed"], &key(9));
    let ctx = TestTokenSeedsInit {
        my_pda: pda,
        my_pda_in_use: false,
        mint: key(2),
        authority: key(1),
        system_program: key(0),
        rent: key(0),
        token_program: key(0),
    };
    assert_eq!(validate_test_token_seeds_init(&ctx, b, &key(9)), Ok(()));
}

#[test]
fn author_and_article_addresses() {
    let (author, _) = anchor_find(&[b"author", &key(1).bytes], &key(9));
    assert_eq!(validate_initialize_author(&key(1), &author, &key(9)), Ok(()));
    let (article, _) = anchor_find(&[b"article", &author.bytes, &[0u8]], &key(9));
    assert_eq!(validate_initialize_article(&author, 0, &article, &key(9)), Ok(()));
    assert_eq!(validate_initialize_article(&author, 256, &article, &key(9)), Ok(()));
    assert_eq!(validate_initialize_article(&author, 1, &article, &key(9)), Err(ConstraintError::ConstraintSeeds));
}

#[test]
fn list_creation_checks_signer_and_use() {
    let long = "a".repeat(40);
    let pid = anchor_lang::prelude::Pubkey::new_from_array(key(9).bytes);
    let (k, _) = anchor_lang::prelude::Pubkey::find_program_address(&[b"todolist", &key(1).bytes, &long.as_bytes()[..32]], &pid);
    let list = Pubkey { bytes: k.to_bytes() };
    assert_eq!(validate_new_list(&key(1), false, &long, &list, false, &key(9)), Err(ConstraintError::AccountNotSigner));
    assert_eq!(validate_new_list(&key(1), true, &long, &list, true, &key(9)), Err(ConstraintError::AccountAlreadyInUse));
    let other = format!("{}{}", &long[..32], "different tail");
    assert_eq!(validate_new_list(&key(1), true, &other, &list, true, &key(9)), Err(ConstraintError::AccountAlreadyInUse));
    assert_eq!(validate_add(&key(1), false, false, &long, &list, &key(9)), Err(ConstraintError::AccountNotSigner));
}

#[test]
fn created_accounts_must_be_new() {
    let (vault, bump) = anchor_find(&[b"token-seed"], &key(9));
    assert_eq!(escrow_anchor::validate_initialize(&vault, true, bump, &key(9)), Err(ConstraintError::AccountAlreadyInUse));
    let (list, _) = anchor_find(&[b"todolist", &key(1).bytes, b"chores"], &key(9));
    assert_eq!(validate_add(&key(1), true, true, "chores", &list, &key(9)), Err(ConstraintError::AccountAlreadyInUse));
    assert_eq!(validate_add(&key(1), true, false, "chores", &list, &key(9)), Ok(()));
}
