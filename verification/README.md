# anchor_programs

Verified account logic of eight small Solana programs written for the Anchor
framework, in Verus.

- `src/` is the library. Each program is a module: a vote counter
  (`crunchy_vs_smooth`), a blog (`blog`), a to-do list with bounties
  (`to_do_list`), a token escrow (`escrow_anchor`), a staged token grant
  (`safe_token_transfer_app`), a publishing platform (`the_alpha`), a ticket
  registry (`ticketing_system`) and an NFT ownership check (`verify_nft`).
  Accounts are plain values. Each instruction states what it writes, which
  token-program calls or lamport transfers it asks the runtime to make, and
  which of the framework's account checks fail and with which error: the
  signatures it needs, the `has_one`, `constraint` and seed checks its
  accounts declare, that an account it creates does not exist yet, that the
  escrow record is fresh when opened and open when settled, and that a grant
  is paid into the receiver's associated token account. The checks that
  come with an account's type (its owner, its discriminator, that a program
  account is the expected program) are not modelled, apart from the escrow
  record's. Addresses derived from seeds go through Anchor's address search
  (`pda`); the NFT check reads the metadata account's bytes with the token
  metadata program's reader.
- `tests/` runs the library on concrete accounts.
- `app/` is the on-chain glue: account data types with their serialization,
  error codes, and handlers that load accounts, call the library, perform the
  requested transfers and store the accounts.
