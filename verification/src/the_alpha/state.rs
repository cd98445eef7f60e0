//! The accounts of the publishing platform: authors, their articles, and
//! readers.
use vstd::prelude::*;

use crate::pubkey::{Pubkey, PUBKEY_BYTES};
use vstd::string::StringSliceAdditionalSpecFns;

verus! {

/// An author: who signs for it, the subscription price, whether its
/// articles are paid, how many articles it wrote, its name, and the
/// subscribers' addresses with room for `vector_capacity` of them.
#[derive(Clone, Debug)]
pub struct AuthorAccount {
    pub authority: Pubkey,
    pub price_sub: u8,
    pub paid_or_free: bool,
    pub article_count: u64,
    pub bump: u8,
    pub name: String,
    pub vector_capacity: u16,
    pub sub_pubkeys: Vec<Pubkey>,
}

/// An article: its writer, whether it is paid, its number among the
/// writer's articles, its likes, when it was published and its category.
#[derive(Clone, Debug)]
pub struct ArticleAccount {
    pub authority: Pubkey,
    pub bump: u8,
    pub paid_or_free: bool,
    pub article_id: u64,
    pub likes_count: u64,
    pub published_timestamp: i64,
    pub category: String,
}

/// A reader: its name, its subscriptions and their timestamps.
#[derive(Clone, Debug)]
pub struct ReaderAccount {
    pub authority: Pubkey,
    pub bump: u8,
    pub name: String,
    pub subscription_vector_capacity: u16,
    pub subscription_pubkeys_vector: Vec<Pubkey>,
    pub timestamp_vector_capacity: u16,
    pub timestamp_vector: Vec<i16>,
}

/// Space of an author account: discriminator, authority, price, the paid
/// flag (8 bytes are kept for it), count, bump, the name with its length
/// prefix, the capacity, and `vector_capacity` addresses with the vector's
/// length prefix.
pub open spec fn author_space(vector_capacity: u16, name: &str) -> int {
    8 + 32 + 1 + 8 + 8 + 1 + 4 + name.spec_bytes().len() + 2 + 4 + vector_capacity * 32
}

/// Space of an article account: discriminator, authority, bump, the paid
/// flag (8 bytes), id, likes, timestamp, and the category with its length
/// prefix.
pub open spec fn article_space(category: &str) -> nat {
    8 + 32 + 1 + 8 + 8 + 8 + 8 + 4 + category.spec_bytes().len()
}

/// Space of a reader account: discriminator, authority, bump, the name with
/// its length prefix, then for each of the two vectors its capacity and its
/// elements with a length prefix: `subscription_vector_capacity` addresses
/// and `timestamp_vector_capacity` two-byte timestamps.
pub open spec fn reader_space(name: &str, timestamp_vector_capacity: u16, subscription_vector_capacity: u16) -> int {
    8 + 32 + 1 + 4 + name.spec_bytes().len() + 2 + 4 + subscription_vector_capacity * 32 + 2 + 4
        + timestamp_vector_capacity * 2
}

/// The author once one more article is published.
pub open spec fn author_after_article(a: AuthorAccount) -> AuthorAccount {
    AuthorAccount { article_count: (a.article_count + 1) as u64, ..a }
}

impl AuthorAccount {
    /// Space of an author account with this capacity and name.
    pub fn space(vector_capacity: u16, name: &str) -> (r: usize)
        requires
            author_space(vector_capacity, name) <= usize::MAX,
        ensures
            r == author_space(vector_capacity, name),
    {
        8 + 32 + 1 + 8 + 8 + 1 + 4 + name.len() + 2 + 4 + (vector_capacity as usize) * PUBKEY_BYTES
    }

    /// The subscribers fit in the room the author reserved.
    pub open spec fn within_capacity(&self) -> bool {
        self.sub_pubkeys@.len() <= self.vector_capacity
    }
}

impl ArticleAccount {
    /// Space of an article account with this category.
    pub fn space(category: &str) -> (r: usize)
        requires
            article_space(category) <= usize::MAX,
        ensures
            r == article_space(category),
    {
        8 + 32 + 1 + 8 + 8 + 8 + 8 + 4 + category.len()
    }
}

impl ReaderAccount {
    /// Space of a reader account with this name and these capacities.
    pub fn space(name: &str, timestamp_vector_capacity: u16, subscription_vector_capacity: u16) -> (r: usize)
        requires
            reader_space(name, timestamp_vector_capacity, subscription_vector_capacity) <= usize::MAX,
        ensures
            r == reader_space(name, timestamp_vector_capacity, subscription_vector_capacity),
    {
        8 + 32 + 1 + 4 + name.len() + 2 + 4 + (subscription_vector_capacity as usize) * PUBKEY_BYTES + 2 + 4
            + (timestamp_vector_capacity as usize) * 2
    }
}

} // verus!
