//! A check that a user holds a given NFT: the user's token account holds
//! exactly one token of the NFT's mint, the mint has a master edition and a
//! metadata account at the addresses the metadata program derives, and the
//! metadata's first creator is the expected one and is verified.
use vstd::prelude::*;

use crate::pda::{find_program_address, program_address_search};
use crate::pubkey::Pubkey;
use crate::token::TokenAccount;

verus! {

/// A creator listed in an NFT's metadata.
#[derive(Clone, Copy, Debug)]
pub struct Creator {
    pub address: Pubkey,
    pub verified: bool,
    pub share: u8,
}

/// The part of an NFT's metadata that the check reads.
#[derive(Clone, Debug)]
pub struct Metadata {
    pub creators: Option<Vec<Creator>>,
}

/// Accounts of the check. `nft_metadata_data` is the data held by
/// `nft_metadata_account`; `user_is_signer` tells whether the user signed.
#[derive(Clone, Debug)]
pub struct VerifyNFT {
    pub user: Pubkey,
    pub user_is_signer: bool,
    pub nft_mint: Pubkey,
    pub nft_token_account: TokenAccount,
    pub nft_metadata_account: Pubkey,
    pub nft_metadata_data: Vec<u8>,
    pub creature_edition: Pubkey,
    pub creature_edition_data_is_empty: bool,
    pub token_metadata_program: Pubkey,
}

/// Why the check fails. The variants after `NotInitialized` and before
/// `AlredyVerified` stand for the places where the check aborts the
/// instruction by an assertion or an unwrap.
#[derive(Clone, Copy, Debug, PartialEq, Eq, Structural)]
pub enum NftError {
    /// The user did not sign.
    AccountNotSigner,
    /// The account passed as the token metadata program is not that program.
    ConstraintAddress,
    /// The token account does not belong to the user.
    TokenOwnerMismatch,
    /// The token account holds another mint.
    TokenMintMismatch,
    /// The token account does not hold exactly one token.
    TokenAmountNotOne,
    /// No address could be derived for the edition or the metadata.
    ProgramAddressNotFound,
    /// The edition account is not at the derived address.
    EditionAddressMismatch,
    /// The edition account holds no data.
    NotInitialized,
    /// The metadata account is not at the derived address.
    MetadataAddressMismatch,
    /// The metadata account's data is not metadata.
    MetadataInvalid,
    /// The metadata lists no creator.
    NoCreators,
    /// The first creator is not the expected one.
    CreatorMismatch,
    /// The first creator is not verified.
    AlredyVerified,
}

/// The address of the token metadata program,
/// metaqbxxUerdq28cj1RbAWkYQm3ybzjb6a8bt518x1s.
pub open spec fn metadata_program_id() -> Seq<u8> {
    seq![
        11u8, 112u8, 101u8, 177u8, 227u8, 209u8, 124u8, 69u8, 56u8, 157u8, 82u8, 127u8, 107u8, 4u8, 195u8, 205u8,
        88u8, 184u8, 108u8, 115u8, 26u8, 160u8, 253u8, 181u8, 73u8, 182u8, 209u8, 188u8, 3u8, 248u8, 41u8, 70u8,
    ]
}

/// The token metadata program's address, `anchor_spl::metadata::ID`.
/// Claimed: its bytes are those of `metadata_program_id` (the address that
/// the metadata crate declares).
#[verifier::external_body]
fn metadata_program() -> (r: Pubkey)
    ensures
        r@ == metadata_program_id(),
{
    Pubkey::new_from_array(anchor_spl::metadata::ID.to_bytes())
}

/// A creator as plain values: its address, whether it is verified, its share.
pub open spec fn creator_view(c: Creator) -> (Seq<u8>, bool, u8) {
    (c.address@, c.verified, c.share)
}

/// The creators of a metadata record as plain values.
pub open spec fn creators_view(cs: Option<Vec<Creator>>) -> Option<Seq<(Seq<u8>, bool, u8)>> {
    match cs {
        Some(v) => Some(v@.map_values(|c: Creator| creator_view(c))),
        None => None,
    }
}

/// The creators read from the bytes of a metadata account by the token
/// metadata program's account reader: `None` when the bytes do not read as a
/// metadata record, else the record's list of creators, if it has one.
pub uninterp spec fn metadata_creators_of(data: Seq<u8>) -> Option<Option<Seq<(Seq<u8>, bool, u8)>>>;

/// Reads a metadata record from an account's bytes with
/// `mpl_token_metadata::accounts::Metadata::from_bytes` (a Borsh read of the
/// record's layout) and keeps its creators. Claimed, not proved: the read
/// fails exactly when `metadata_creators_of` is `None` on these bytes, and
/// otherwise gives the creators that it names, in order.
#[verifier::external_body]
pub(crate) fn parse_metadata(data: &[u8]) -> (r: Option<Metadata>)
    ensures
        r is None <==> metadata_creators_of(data@) is None,
        r matches Some(m) ==> metadata_creators_of(data@) == Some(creators_view(m.creators)),
{
    let m = anchor_spl::metadata::mpl_token_metadata::accounts::Metadata::from_bytes(data).ok()?;
    let creators = m.creators.map(|cs| {
        cs.iter().map(|c| Creator {
            address: Pubkey::new_from_array(c.address.to_bytes()),
            verified: c.verified,
            share: c.share,
        }).collect()
    });
    Some(Metadata { creators })
}

/// The seed "metadata".
pub open spec fn metadata_seed() -> Seq<u8> {
    seq![109u8, 101u8, 116u8, 97u8, 100u8, 97u8, 116u8, 97u8]
}

/// The seed "edition".
pub open spec fn edition_seed() -> Seq<u8> {
    seq![101u8, 100u8, 105u8, 116u8, 105u8, 111u8, 110u8]
}

/// The seeds of the master edition of `mint` under `metadata_program`.
pub open spec fn edition_seeds(metadata_program: Pubkey, mint: Pubkey) -> Seq<Seq<u8>> {
    seq![metadata_seed(), metadata_program@, mint@, edition_seed()]
}

/// The seeds of the metadata of `mint` under `metadata_program`.
pub open spec fn metadata_seeds(metadata_program: Pubkey, mint: Pubkey) -> Seq<Seq<u8>> {
    seq![metadata_seed(), metadata_program@, mint@]
}

fn metadata_seed_bytes() -> (r: Vec<u8>)
    ensures
        r.deep_view() == metadata_seed(),
{
    let mut v: Vec<u8> = Vec::new();
    v.push(109u8);
    v.push(101u8);
    v.push(116u8);
    v.push(97u8);
    v.push(100u8);
    v.push(97u8);
    v.push(116u8);
    v.push(97u8);
    assert(v.deep_view() =~= metadata_seed());
    v
}

fn edition_seed_bytes() -> (r: Vec<u8>)
    ensures
        r.deep_view() == edition_seed(),
{
    let mut v: Vec<u8> = Vec::new();
    v.push(101u8);
    v.push(100u8);
    v.push(105u8);
    v.push(116u8);
    v.push(105u8);
    v.push(111u8);
    v.push(110u8);
    assert(v.deep_view() =~= edition_seed());
    v
}

/// Searches the address of the master edition of `mint`.
pub fn find_edition_address(metadata_program: &Pubkey, mint: &Pubkey) -> (r: Option<(Pubkey, u8)>)
    ensures
        match r {
            Some((k, b)) => program_address_search(edition_seeds(*metadata_program, *mint), metadata_program@)
                == Some((k@, b)),
            None => program_address_search(edition_seeds(*metadata_program, *mint), metadata_program@) is None,
        },
{
    let mut seeds: Vec<Vec<u8>> = Vec::new();
    seeds.push(metadata_seed_bytes());
    seeds.push(metadata_program.to_vec());
    seeds.push(mint.to_vec());
    seeds.push(edition_seed_bytes());
    assert(seeds.deep_view() =~= edition_seeds(*metadata_program, *mint));
    find_program_address(&seeds, metadata_program)
}

/// Searches the address of the metadata of `mint`.
pub fn find_metadata_address(metadata_program: &Pubkey, mint: &Pubkey) -> (r: Option<(Pubkey, u8)>)
    ensures
        match r {
            Some((k, b)) => program_address_search(metadata_seeds(*metadata_program, *mint), metadata_program@)
                == Some((k@, b)),
            None => program_address_search(metadata_seeds(*metadata_program, *mint), metadata_program@) is None,
        },
{
    let mut seeds: Vec<Vec<u8>> = Vec::new();
    seeds.push(metadata_seed_bytes());
    seeds.push(metadata_program.to_vec());
    seeds.push(mint.to_vec());
    assert(seeds.deep_view() =~= metadata_seeds(*metadata_program, *mint));
    find_program_address(&seeds, metadata_program)
}

/// The outcome of the check on `ctx` for the expected creator `expected`,
/// given what the address searches gave for the edition and the metadata and
/// what reading the metadata account's bytes gave (`parsed`).
pub open spec fn check_outcome(
    ctx: VerifyNFT,
    expected: Pubkey,
    edition: Option<(Seq<u8>, u8)>,
    metadata: Option<(Seq<u8>, u8)>,
    parsed: Option<Option<Seq<(Seq<u8>, bool, u8)>>>,
) -> Result<(), NftError> {
    if !ctx.user_is_signer {
        Err(NftError::AccountNotSigner)
    } else if ctx.token_metadata_program@ != metadata_program_id() {
        Err(NftError::ConstraintAddress)
    } else if ctx.nft_token_account.owner != ctx.user {
        Err(NftError::TokenOwnerMismatch)
    } else if ctx.nft_token_account.mint != ctx.nft_mint {
        Err(NftError::TokenMintMismatch)
    } else if ctx.nft_token_account.amount != 1 {
        Err(NftError::TokenAmountNotOne)
    } else if edition is None {
        Err(NftError::ProgramAddressNotFound)
    } else if edition.unwrap().0 != ctx.creature_edition@ {
        Err(NftError::EditionAddressMismatch)
    } else if ctx.creature_edition_data_is_empty {
        Err(NftError::NotInitialized)
    } else if metadata is None {
        Err(NftError::ProgramAddressNotFound)
    } else if metadata.unwrap().0 != ctx.nft_metadata_account@ {
        Err(NftError::MetadataAddressMismatch)
    } else if ctx.nft_metadata_data@.len() == 0 {
        Ok(())
    } else if parsed is None {
        Err(NftError::MetadataInvalid)
    } else if !(parsed.unwrap() matches Some(cs) && cs.len() > 0) {
        Err(NftError::NoCreators)
    } else if parsed.unwrap().unwrap()[0].0 != expected@ {
        Err(NftError::CreatorMismatch)
    } else if !parsed.unwrap().unwrap()[0].1 {
        Err(NftError::AlredyVerified)
    } else {
        Ok(())
    }
}

/// Plain view of an address search's result.
pub open spec fn found_view(r: Option<(Pubkey, u8)>) -> Option<(Seq<u8>, u8)> {
    match r {
        Some((k, b)) => Some((k@, b)),
        None => None,
    }
}

/// Plain view of a metadata read's result.
pub open spec fn parsed_view(m: Option<Metadata>) -> Option<Option<Seq<(Seq<u8>, bool, u8)>>> {
    match m {
        Some(m) => Some(creators_view(m.creators)),
        None => None,
    }
}

/// The check once the edition and metadata addresses are searched and the
/// metadata account's bytes are read (`parsed`; not looked at when the
/// account holds no data).
pub fn check_with_addresses(
    ctx: &VerifyNFT,
    expected_creator: &Pubkey,
    edition: Option<(Pubkey, u8)>,
    metadata: Option<(Pubkey, u8)>,
    parsed: Option<Metadata>,
) -> (r: Result<(), NftError>)
    ensures
        r == check_outcome(
            *ctx,
            *expected_creator,
            found_view(edition),
            found_view(metadata),
            parsed_view(parsed),
        ),
{
    if !ctx.user_is_signer {
        return Err(NftError::AccountNotSigner);
    }
    let metadata_program_key = metadata_program();
    proof {
        Pubkey::lemma_eq_bytes(metadata_program_key, ctx.token_metadata_program);
    }
    if !(ctx.token_metadata_program == metadata_program_key) {
        return Err(NftError::ConstraintAddress);
    }
    if !(ctx.nft_token_account.owner == ctx.user) {
        return Err(NftError::TokenOwnerMismatch);
    }
    if !(ctx.nft_token_account.mint == ctx.nft_mint) {
        return Err(NftError::TokenMintMismatch);
    }
    if ctx.nft_token_account.amount != 1 {
        return Err(NftError::TokenAmountNotOne);
    }
    let edition_key = match edition {
        None => {
            return Err(NftError::ProgramAddressNotFound);
        },
        Some((k, _b)) => k,
    };
    proof {
        Pubkey::lemma_eq_bytes(edition_key, ctx.creature_edition);
    }
    if !(edition_key == ctx.creature_edition) {
        return Err(NftError::EditionAddressMismatch);
    }
    if ctx.creature_edition_data_is_empty {
        return Err(NftError::NotInitialized);
    }
    let metadata_key = match metadata {
        None => {
            return Err(NftError::ProgramAddressNotFound);
        },
        Some((k, _b)) => k,
    };
    proof {
        Pubkey::lemma_eq_bytes(metadata_key, ctx.nft_metadata_account);
    }
    if !(metadata_key == ctx.nft_metadata_account) {
        return Err(NftError::MetadataAddressMismatch);
    }
    if ctx.nft_metadata_data.len() == 0 {
        return Ok(());
    }
    let full_metadata = match &parsed {
        None => {
            return Err(NftError::MetadataInvalid);
        },
        Some(m) => m,
    };
    let creators = match &full_metadata.creators {
        None => {
            return Err(NftError::NoCreators);
        },
        Some(cs) => cs,
    };
    if creators.len() == 0 {
        return Err(NftError::NoCreators);
    }
    assert(creators_view(full_metadata.creators).unwrap()[0] == creator_view(creators@[0]));
    proof {
        Pubkey::lemma_eq_bytes(creators[0].address, *expected_creator);
    }
    if !(creators[0].address == *expected_creator) {
        return Err(NftError::CreatorMismatch);
    }
    if !creators[0].verified {
        return Err(NftError::AlredyVerified);
    }
    Ok(())
}

/// Checks that the user signed and holds the NFT of `nft_mint`, and that the
/// metadata account's record names `expected_creator` as a verified first
/// creator.
pub fn initialize(ctx: &VerifyNFT, expected_creator: &Pubkey) -> (r: Result<(), NftError>)
    ensures
        r == check_outcome(
            *ctx,
            *expected_creator,
            program_address_search(
                edition_seeds(ctx.token_metadata_program, ctx.nft_token_account.mint),
                ctx.token_metadata_program@,
            ),
            program_address_search(metadata_seeds(ctx.token_metadata_program, ctx.nft_mint), ctx.token_metadata_program@),
            metadata_creators_of(ctx.nft_metadata_data@),
        ),
{
    let edition = find_edition_address(&ctx.token_metadata_program, &ctx.nft_token_account.mint);
    let metadata = find_metadata_address(&ctx.token_metadata_program, &ctx.nft_mint);
    let parsed = if ctx.nft_metadata_data.len() == 0 {
        None
    } else {
        parse_metadata(ctx.nft_metadata_data.as_slice())
    };
    check_with_addresses(ctx, expected_creator, edition, metadata, parsed)
}

/// Accepted, with no effect.
pub fn tutorial_nft(ctx: &VerifyNFT) -> (r: Result<(), NftError>)
    ensures
        r is Ok,
{
    Ok(())
}

/// Only a holder passes: whenever the check passes, the user signed, the
/// metadata program passed is the token metadata program, the user owns
/// the token account, it holds exactly one token of the NFT's mint, the
/// edition and metadata accounts are at their derived addresses, and a
/// metadata record that is present names the expected creator, verified,
/// first.
pub proof fn lemma_pass_means_holder(
    ctx: VerifyNFT,
    expected: Pubkey,
    edition: Option<(Seq<u8>, u8)>,
    metadata: Option<(Seq<u8>, u8)>,
    parsed: Option<Option<Seq<(Seq<u8>, bool, u8)>>>,
)
    requires
        check_outcome(ctx, expected, edition, metadata, parsed) is Ok,
    ensures
        ctx.user_is_signer,
        ctx.token_metadata_program@ == metadata_program_id(),
        ctx.nft_token_account.owner == ctx.user,
        ctx.nft_token_account.mint == ctx.nft_mint,
        ctx.nft_token_account.amount == 1,
        edition matches Some((k, _b)) && k == ctx.creature_edition@,
        !ctx.creature_edition_data_is_empty,
        metadata matches Some((k, _b)) && k == ctx.nft_metadata_account@,
        ctx.nft_metadata_data@.len() > 0 ==> (parsed matches Some(Some(cs)) && cs.len() > 0
            && cs[0].0 == expected@ && cs[0].1),
{
}

/// A holder passes: whenever the user signed, the metadata program passed
/// is the token metadata program, the user owns the token account, it holds
/// exactly one token of the NFT's mint, the edition account is at its
/// derived address and holds data, the metadata account is at its derived
/// address, and a metadata record, when the account holds data, reads and
/// names the expected creator, verified, first, the check passes, whatever
/// the other creators and the creators' shares are.
pub proof fn lemma_holder_passes(
    ctx: VerifyNFT,
    expected: Pubkey,
    edition: Option<(Seq<u8>, u8)>,
    metadata: Option<(Seq<u8>, u8)>,
    parsed: Option<Option<Seq<(Seq<u8>, bool, u8)>>>,
)
    requires
        ctx.user_is_signer,
        ctx.token_metadata_program@ == metadata_program_id(),
        ctx.nft_token_account.owner == ctx.user,
        ctx.nft_token_account.mint == ctx.nft_mint,
        ctx.nft_token_account.amount == 1,
        edition matches Some((k, _b)) && k == ctx.creature_edition@,
        !ctx.creature_edition_data_is_empty,
        metadata matches Some((k, _b)) && k == ctx.nft_metadata_account@,
        ctx.nft_metadata_data@.len() > 0 ==> (parsed matches Some(Some(cs)) && cs.len() > 0 && cs[0].0 == expected@
            && cs[0].1),
    ensures
        check_outcome(ctx, expected, edition, metadata, parsed) is Ok,
{
}

/// The check on a record rests on its first creator alone: two metadata
/// reads whose first creators have the same address and verified flag give
/// the same outcome, whatever their shares and further creators.
pub proof fn lemma_first_creator_decides(
    ctx: VerifyNFT,
    expected: Pubkey,
    edition: Option<(Seq<u8>, u8)>,
    metadata: Option<(Seq<u8>, u8)>,
    a: Seq<(Seq<u8>, bool, u8)>,
    b: Seq<(Seq<u8>, bool, u8)>,
)
    requires
        a.len() > 0,
        b.len() > 0,
        a[0].0 == b[0].0,
        a[0].1 == b[0].1,
    ensures
        check_outcome(ctx, expected, edition, metadata, Some(Some(a))) == check_outcome(
            ctx,
            expected,
            edition,
            metadata,
            Some(Some(b)),
        ),
{
}

} // verus!
