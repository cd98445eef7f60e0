//! Verified account logic of a collection of small Solana programs written
//! for the Anchor framework: a vote counter, a blog, a to-do list with
//! bounties, a token escrow, a token grant with stages, a publishing
//! platform, a ticket registry and an NFT ownership check.
//!
//! Each program module models the accounts an instruction reads as plain
//! values and states, for every instruction, what it writes into its
//! accounts, which token or lamport transfers it asks the runtime to
//! perform, and which of the account checks that the program declares fail
//! (signatures, `has_one` and `constraint` checks, seeds, accounts that must
//! not exist yet).

pub mod pubkey;
pub mod pda;
pub mod token;
pub mod errors;
pub mod escrow_anchor;
pub mod seeds;
pub mod safe_token_transfer_app;
pub mod to_do_list;
pub mod blog;
pub mod crunchy_vs_smooth;
pub mod ticketing_system;
pub mod the_alpha;
pub mod verify_nft;
