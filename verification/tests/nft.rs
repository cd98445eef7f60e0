use anchor_programs::pubkey::Pubkey;
use anchor_programs::token::TokenAccount;
use anchor_programs::verify_nft::{check_with_addresses, initialize, tutorial_nft, Creator, Metadata, NftError, VerifyNFT};

fn key(n: u8) -> Pubkey {
    Pubkey { bytes: [n; 32] }
}

fn derive(seeds: &[&[u8]], program: &Pubkey) -> Pubkey {
    let pid = anchor_lang::prelude::Pubkey::new_from_array(program.bytes);
    let (k, _) = anchor_lang::prelude::Pubkey::find_program_address(seeds, &pid);
    Pubkey { bytes: k.to_bytes() }
}

fn push_str(out: &mut Vec<u8>, s: &str) {
    out.extend_from_slice(&(s.len() as u32).to_le_bytes());
    out.extend_from_slice(s.as_bytes());
}

/// The bytes of a metadata record with the given creators, laid out as the
/// token metadata program stores it.
fn metadata_bytes(creators: Option<&[(Pubkey, bool, u8)]>) -> Vec<u8> {
    let mut out = vec![4u8];
    out.extend_from_slice(&[7u8; 32]);
    out.extend_from_slice(&[2u8; 32]);
    push_str(&mut out, "Creature");
    push_str(&mut out, "CRT");
    push_str(&mut out, "https://example.org/c.json");
    out.extend_from_slice(&500u16.to_le_bytes());
    match creators {
        None => out.push(0),
        Some(cs) => {
            out.push(1);
            out.extend_from_slice(&(cs.len() as u32).to_le_bytes());
            for (k, verified, share) in cs {
                out.extend_from_slice(&k.bytes);
                out.push(*verified as u8);
                out.push(*share);
            }
        }
    }
    out.push(0);
    out.push(1);
    out.extend_from_slice(&[0u8; 6]);
    out
}

fn holder_ctx() -> VerifyNFT {
    let program = Pubkey { bytes: anchor_spl::metadata::ID.to_bytes() };
    let mint = key(2);
    let edition = derive(&[b"metadata", &program.bytes, &mint.bytes, b"edition"], &program);
    let metadata = derive(&[b"metadata", &program.bytes, &mint.bytes], &program);
    VerifyNFT {
        user: key(1),
        user_is_signer: true,
        nft_mint: mint,
        nft_token_account: TokenAccount { key: key(3), mint, owner: key(1), amount: 1 },
        nft_metadata_account: metadata,
        nft_metadata_data: metadata_bytes(Some(&[(key(60), true, 100)])),
        creature_edition: edition,
        creature_edition_data_is_empty: false,
        token_metadata_program: program,
    }
}

#[test]
fn holder_with_verified_creator_passes() {
    assert_eq!(initialize(&holder_ctx(), &key(60)), Ok(()));
}

#[test]
fn token_checks() {
    let mut c = holder_ctx();
    c.nft_token_account.owner = key(9);
    assert_eq!(initialize(&c, &key(60)), Err(NftError::TokenOwnerMismatch));
    let mut c = holder_ctx();
    c.nft_token_account.mint = key(9);
    assert_eq!(initialize(&c, &key(60)), Err(NftError::TokenMintMismatch));
    let mut c = holder_ctx();
    c.nft_token_account.amount = 2;
    assert_eq!(initialize(&c, &key(60)), Err(NftError::TokenAmountNotOne));
    c.nft_token_account.amount = 0;
    assert_eq!(initialize(&c, &key(60)), Err(NftError::TokenAmountNotOne));
}

#[test]
fn edition_checks() {
    let mut c = holder_ctx();
    c.creature_edition = key(9);
    assert_eq!(initialize(&c, &key(60)), Err(NftError::EditionAddressMismatch));
    let mut c = holder_ctx();
    c.creature_edition_data_is_empty = true;
    assert_eq!(initialize(&c, &key(60)), Err(NftError::NotInitialized));
}

#[test]
fn metadata_checks() {
    let mut c = holder_ctx();
    c.nft_metadata_account = key(9);
    assert_eq!(initialize(&c, &key(60)), Err(NftError::MetadataAddressMismatch));
    let mut c = holder_ctx();
    c.nft_metadata_data = vec![4u8, 1, 2, 3];
    assert_eq!(initialize(&c, &key(60)), Err(NftError::MetadataInvalid));
    let mut c = holder_ctx();
    c.nft_metadata_data = vec![];
    assert_eq!(initialize(&c, &key(60)), Ok(()));
}

#[test]
fn creator_checks() {
    let c = holder_ctx();
    assert_eq!(initialize(&c, &key(61)), Err(NftError::CreatorMismatch));
    let mut c = holder_ctx();
    c.nft_metadata_data = metadata_bytes(Some(&[(key(60), false, 100)]));
    assert_eq!(initialize(&c, &key(60)), Err(NftError::AlredyVerified));
    let mut c = holder_ctx();
    c.nft_metadata_data = metadata_bytes(Some(&[]));
    assert_eq!(initialize(&c, &key(60)), Err(NftError::NoCreators));
    c.nft_metadata_data = metadata_bytes(None);
    assert_eq!(initialize(&c, &key(60)), Err(NftError::NoCreators));
    let mut c = holder_ctx();
    c.nft_metadata_data = metadata_bytes(Some(&[(key(60), true, 50), (key(61), false, 50)]));
    assert_eq!(initialize(&c, &key(60)), Ok(()));
    assert_eq!(initialize(&c, &key(61)), Err(NftError::CreatorMismatch));
}

#[test]
fn tutorial_is_accepted() {
    assert_eq!(tutorial_nft(&holder_ctx()), Ok(()));
}

#[test]
fn unsigned_user_is_refused() {
    let mut c = holder_ctx();
    c.user_is_signer = false;
    assert_eq!(initialize(&c, &key(60)), Err(NftError::AccountNotSigner));
}

#[test]
fn check_on_read_metadata() {
    let c = holder_ctx();
    let edition = Some((c.creature_edition, 255u8));
    let metadata = Some((c.nft_metadata_account, 255u8));
    let ok = Some(Metadata { creators: Some(vec![Creator { address: key(60), verified: true, share: 100 }]) });
    assert_eq!(check_with_addresses(&c, &key(60), edition, metadata, ok.clone()), Ok(()));
    assert_eq!(check_with_addresses(&c, &key(60), edition, metadata, None), Err(NftError::MetadataInvalid));
    assert_eq!(check_with_addresses(&c, &key(60), None, metadata, ok.clone()), Err(NftError::ProgramAddressNotFound));
    assert_eq!(check_with_addresses(&c, &key(60), edition, None, ok), Err(NftError::ProgramAddressNotFound));
}

#[test]
fn other_metadata_program_is_refused() {
    let mut c = holder_ctx();
    c.token_metadata_program = key(50);
    assert_eq!(initialize(&c, &key(60)), Err(NftError::ConstraintAddress));
}
