use vstd::prelude::*;

use crate::pubkey::Pubkey;

verus! {

/// The state of a token account that the programs read: its address, the
/// mint of the tokens it holds, its owner and its balance.
#[derive(Clone, Copy, Debug)]
pub struct TokenAccount {
    pub key: Pubkey,
    pub mint: Pubkey,
    pub owner: Pubkey,
    pub amount: u64,
}

/// Accounts of a token transfer: tokens leave `from`, enter `to`, and
/// `authority` must sign for `from`.
#[derive(Clone, Copy, Debug)]
pub struct Transfer {
    pub from: Pubkey,
    pub to: Pubkey,
    pub authority: Pubkey,
}

/// Accounts of a change of authority over a token account or mint.
#[derive(Clone, Copy, Debug)]
pub struct SetAuthority {
    pub account_or_mint: Pubkey,
    pub current_authority: Pubkey,
}

/// Accounts of the closing of a token account: its rent goes to
/// `destination`, and `authority` must sign.
#[derive(Clone, Copy, Debug)]
pub struct CloseAccount {
    pub account: Pubkey,
    pub destination: Pubkey,
    pub authority: Pubkey,
}

/// Which authority of a token account or mint is changed.
#[derive(Clone, Copy, Debug)]
pub enum AuthorityType {
    MintTokens,
    FreezeAccount,
    AccountOwner,
    CloseAccount,
}

/// A call into the token program that an instruction asks the runtime to
/// make. `signer_seeds` are the seeds (bump included) of the program
/// derived address that signs the call; they are empty when only ordinary
/// signers sign.
#[allow(inconsistent_fields)]
#[derive(Debug)]
pub enum TokenInstruction {
    Transfer { accounts: Transfer, amount: u64, signer_seeds: Vec<Vec<u8>> },
    SetAuthority {
        accounts: SetAuthority,
        authority_type: AuthorityType,
        new_authority: Option<Pubkey>,
        signer_seeds: Vec<Vec<u8>>,
    },
    CloseAccount { accounts: CloseAccount, signer_seeds: Vec<Vec<u8>> },
}

/// `i` is a transfer of `amount` tokens over the accounts `accounts`,
/// signed with `seeds`.
pub open spec fn is_transfer(i: TokenInstruction, accounts: Transfer, amount: u64, seeds: Seq<Seq<u8>>) -> bool {
    match i {
        TokenInstruction::Transfer { accounts: a, amount: n, signer_seeds } => {
            &&& a == accounts
            &&& n == amount
            &&& signer_seeds.deep_view() == seeds
        },
        _ => false,
    }
}

/// `i` makes `new_authority` the authority of kind `kind` over the accounts
/// `accounts`, signed with `seeds`.
pub open spec fn is_set_authority(
    i: TokenInstruction,
    accounts: SetAuthority,
    kind: AuthorityType,
    new_authority: Option<Pubkey>,
    seeds: Seq<Seq<u8>>,
) -> bool {
    match i {
        TokenInstruction::SetAuthority { accounts: a, authority_type, new_authority: n, signer_seeds } => {
            &&& a == accounts
            &&& authority_type == kind
            &&& n == new_authority
            &&& signer_seeds.deep_view() == seeds
        },
        _ => false,
    }
}

/// `i` closes a token account over the accounts `accounts`, signed with
/// `seeds`.
pub open spec fn is_close_account(i: TokenInstruction, accounts: CloseAccount, seeds: Seq<Seq<u8>>) -> bool {
    match i {
        TokenInstruction::CloseAccount { accounts: a, signer_seeds } => {
            &&& a == accounts
            &&& signer_seeds.deep_view() == seeds
        },
        _ => false,
    }
}

/// A lamport transfer through the system program.
#[derive(Clone, Copy, Debug)]
pub struct LamportTransfer {
    pub from: Pubkey,
    pub to: Pubkey,
    pub lamports: u64,
}

} // verus!
