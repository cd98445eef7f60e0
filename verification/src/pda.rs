use vstd::prelude::*;

use crate::pubkey::Pubkey;

verus! {

/// Most seeds (the bump included) that a program derived address may have.
pub const MAX_SEEDS: usize = 16;

/// Most bytes in one seed of a program derived address.
pub const MAX_SEED_LEN: usize = 32;

/// What the runtime's search for a program derived address gives for the
/// given seeds (each a byte string) and program id: the address and its
/// canonical bump seed, or nothing.
pub uninterp spec fn program_address_search(seeds: Seq<Seq<u8>>, program_id: Seq<u8>) -> Option<(Seq<u8>, u8)>;

/// What the runtime's derivation of a program address gives for the given
/// seeds (the bump among them) and program id: the address, or nothing when
/// the hash of the seeds lies on the ed25519 curve or the seeds are too many
/// or too long.
pub uninterp spec fn program_address_create(seeds: Seq<Seq<u8>>, program_id: Seq<u8>) -> Option<Seq<u8>>;

/// Calls `Pubkey::try_find_program_address` of the Anchor framework (that of
/// `solana_address`), which hashes the seeds with each bump from 255 down
/// and returns the first address off the ed25519 curve.
/// Claimed: the result is `program_address_search` of the seeds and the
/// program id; there is no result when there are 16 or more seeds, or when
/// a seed is longer than 32 bytes (both visible in the crate's source).
#[verifier::external_body]
fn try_find_program_address(seeds: &Vec<Vec<u8>>, program_id: &Pubkey) -> (r: Option<(Pubkey, u8)>)
    ensures
        r matches Some((k, b)) ==> program_address_search(seeds.deep_view(), program_id@) == Some((k@, b)),
        r is None ==> program_address_search(seeds.deep_view(), program_id@) is None,
        seeds@.len() >= MAX_SEEDS ==> r is None,
        (exists|i: int| 0 <= i < seeds@.len() && #[trigger] seeds@[i]@.len() > MAX_SEED_LEN) ==> r is None,
        r matches Some((k, b)) ==> program_address_create(seeds.deep_view().push(seq![b]), program_id@) == Some(k@),
{
    let refs: Vec<&[u8]> = seeds.iter().map(|s| s.as_slice()).collect();
    let pid = anchor_lang::prelude::Pubkey::new_from_array(program_id.bytes);
    match anchor_lang::prelude::Pubkey::try_find_program_address(&refs, &pid) {
        Some((k, b)) => Some((Pubkey { bytes: k.to_bytes() }, b)),
        None => None,
    }
}

/// Calls `Pubkey::create_program_address` of the Anchor framework (that of
/// `solana_address`), which hashes the seeds and the program id and fails
/// when the hash lies on the ed25519 curve.
/// Claimed: the result is `program_address_create` of the seeds and the
/// program id (an error giving nothing); there is no result when there are
/// more than 16 seeds or a seed is longer than 32 bytes (both visible in the
/// crate's source).
#[verifier::external_body]
fn try_create_program_address(seeds: &Vec<Vec<u8>>, program_id: &Pubkey) -> (r: Option<Pubkey>)
    ensures
        r matches Some(k) ==> program_address_create(seeds.deep_view(), program_id@) == Some(k@),
        r is None ==> program_address_create(seeds.deep_view(), program_id@) is None,
        seeds@.len() > MAX_SEEDS ==> r is None,
        (exists|i: int| 0 <= i < seeds@.len() && #[trigger] seeds@[i]@.len() > MAX_SEED_LEN) ==> r is None,
{
    let refs: Vec<&[u8]> = seeds.iter().map(|s| s.as_slice()).collect();
    let pid = anchor_lang::prelude::Pubkey::new_from_array(program_id.bytes);
    match anchor_lang::prelude::Pubkey::create_program_address(&refs, &pid) {
        Ok(k) => Some(Pubkey { bytes: k.to_bytes() }),
        Err(_) => None,
    }
}

/// Searches the program derived address of `program_id` for `seeds`.
pub fn find_program_address(seeds: &Vec<Vec<u8>>, program_id: &Pubkey) -> (r: Option<(Pubkey, u8)>)
    ensures
        match r {
            Some((k, b)) => program_address_search(seeds.deep_view(), program_id@) == Some((k@, b)),
            None => program_address_search(seeds.deep_view(), program_id@) is None,
        },
        seeds@.len() >= MAX_SEEDS ==> r is None,
        (exists|i: int| 0 <= i < seeds@.len() && #[trigger] seeds@[i]@.len() > MAX_SEED_LEN) ==> r is None,
        r matches Some((k, b)) ==> program_address_create(seeds.deep_view().push(seq![b]), program_id@) == Some(k@),
{
    try_find_program_address(seeds, program_id)
}

/// Derives the program address of `program_id` for `seeds` (the bump among them).
pub fn create_program_address(seeds: &Vec<Vec<u8>>, program_id: &Pubkey) -> (r: Option<Pubkey>)
    ensures
        match r {
            Some(k) => program_address_create(seeds.deep_view(), program_id@) == Some(k@),
            None => program_address_create(seeds.deep_view(), program_id@) is None,
        },
        seeds@.len() > MAX_SEEDS ==> r is None,
        (exists|i: int| 0 <= i < seeds@.len() && #[trigger] seeds@[i]@.len() > MAX_SEED_LEN) ==> r is None,
{
    try_create_program_address(seeds, program_id)
}

/// `key` is the program derived address of `program_id` for `seeds`, and,
/// when a bump is expected, its canonical bump is that one.
pub open spec fn is_canonical_address(
    seeds: Seq<Seq<u8>>,
    program_id: Pubkey,
    key: Pubkey,
    expected_bump: Option<u8>,
) -> bool {
    match program_address_search(seeds, program_id@) {
        Some((k, b)) => k == key@ && (expected_bump matches Some(e) ==> e == b),
        None => false,
    }
}

/// Checks that `key` is the program derived address of `program_id` for
/// `seeds` (searched from bump 255 down) and, when `expected_bump` is given,
/// that its bump is that one: the check that an account declared with seeds
/// and no explicit bump, or created with seeds, must pass.
pub fn check_canonical_address(
    seeds: &Vec<Vec<u8>>,
    program_id: &Pubkey,
    key: &Pubkey,
    expected_bump: Option<u8>,
) -> (r: bool)
    ensures
        r == is_canonical_address(seeds.deep_view(), *program_id, *key, expected_bump),
{
    match find_program_address(seeds, program_id) {
        None => false,
        Some((k, b)) => {
            proof {
                Pubkey::lemma_eq_bytes(k, *key);
            }
            k == *key && match expected_bump {
                Some(e) => e == b,
                None => true,
            }
        },
    }
}

/// `key` is the address that `program_id` derives from `seeds` followed by
/// the bump `bump`.
pub open spec fn is_address_with_bump(seeds: Seq<Seq<u8>>, bump: u8, program_id: Pubkey, key: Pubkey) -> bool {
    program_address_create(seeds.push(seq![bump]), program_id@) == Some(key@)
}

/// Checks that `key` is the address that `program_id` derives from `seeds`
/// followed by the bump `bump`: the check that an existing account declared
/// with seeds and an explicit bump must pass.
pub fn check_address_with_bump(seeds: &Vec<Vec<u8>>, bump: u8, program_id: &Pubkey, key: &Pubkey) -> (r: bool)
    ensures
        r == is_address_with_bump(seeds.deep_view(), bump, *program_id, *key),
{
    let mut with_bump: Vec<Vec<u8>> = seeds.clone();
    let mut b: Vec<u8> = Vec::new();
    b.push(bump);
    with_bump.push(b);
    proof {
        assert(with_bump@[seeds@.len() as int].deep_view() =~= seq![bump]);
        assert(with_bump.deep_view() =~= seeds.deep_view().push(seq![bump]));
    }
    match create_program_address(&with_bump, program_id) {
        None => false,
        Some(k) => {
            proof {
                Pubkey::lemma_eq_bytes(k, *key);
            }
            k == *key
        },
    }
}

} // verus!
