use anchor_programs::escrow_anchor::{
    cancel, exchange, find_vault_authority, initialize, signer_seeds, Cancel, EscrowAccount, EscrowError, Exchange,
    Initialize, RecordState,
};
use anchor_programs::pubkey::Pubkey;
use anchor_programs::token::{AuthorityType, TokenAccount, TokenInstruction};

fn key(n: u8) -> Pubkey {
    Pubkey { bytes: [n; 32] }
}

fn empty_escrow() -> EscrowAccount {
    EscrowAccount {
        initializer_key: key(0),
        initializer_deposit_token_account: key(0),
        initializer_receive_token_account: key(0),
        initializer_amount: 0,
        taker_amount: 0,
    }
}

fn init_ctx(deposit_amount: u64) -> Initialize {
    Initialize {
        program_id: key(9),
        initializer: key(1),
        initializer_is_signer: true,
        mint: key(2),
        vault_account: key(3),
        initializer_deposit_token_account: TokenAccount { key: key(4), mint: key(2), owner: key(1), amount: deposit_amount },
        initializer_receive_token_account: key(5),
        escrow_account: empty_escrow(),
        escrow_state: RecordState::Zeroed,
        token_program: key(8),
    }
}

fn anchor_vault_authority(program_id: &Pubkey) -> (Pubkey, u8) {
    let pid = anchor_lang::prelude::Pubkey::new_from_array(program_id.bytes);
    let (k, b) = anchor_lang::prelude::Pubkey::find_program_address(&[b"escrow"], &pid);
    (Pubkey { bytes: k.to_bytes() }, b)
}

#[test]
fn vault_authority_is_the_program_derived_address() {
    let (expected, bump) = anchor_vault_authority(&key(9));
    let (found, found_bump) = find_vault_authority(&key(9)).unwrap();
    assert_eq!(found, expected);
    assert_eq!(found_bump, bump);
    assert_ne!(found, key(9));
}

#[test]
fn initialize_records_offer_and_asks_for_deposit() {
    let mut ctx = init_ctx(100);
    let instrs = initialize(&mut ctx, 7, 60, 25).unwrap();
    assert_eq!(ctx.escrow_account.initializer_key, key(1));
    assert_eq!(ctx.escrow_account.initializer_deposit_token_account, key(4));
    assert_eq!(ctx.escrow_account.initializer_receive_token_account, key(5));
    assert_eq!(ctx.escrow_account.initializer_amount, 60);
    assert_eq!(ctx.escrow_account.taker_amount, 25);
    assert_eq!(ctx.escrow_state, RecordState::Open);
    assert_eq!(instrs.len(), 2);
    let (authority, _) = anchor_vault_authority(&key(9));
    match &instrs[0] {
        TokenInstruction::SetAuthority { accounts, authority_type, new_authority, signer_seeds } => {
            assert_eq!(accounts.account_or_mint, key(4));
            assert_eq!(accounts.current_authority, key(1));
            assert!(matches!(authority_type, AuthorityType::AccountOwner));
            assert_eq!(*new_authority, Some(authority));
            assert!(signer_seeds.is_empty());
        }
        other => panic!("unexpected {:?}", other),
    }
    match &instrs[1] {
        TokenInstruction::Transfer { accounts, amount, signer_seeds } => {
            assert_eq!(accounts.from, key(4));
            assert_eq!(accounts.to, key(3));
            assert_eq!(accounts.authority, key(1));
            assert_eq!(*amount, 60);
            assert!(signer_seeds.is_empty());
        }
        other => panic!("unexpected {:?}", other),
    }
}

#[test]
fn initialize_accepts_exact_balance() {
    let mut ctx = init_ctx(60);
    assert!(initialize(&mut ctx, 0, 60, 1).is_ok());
}

#[test]
fn initialize_rejects_short_deposit() {
    let mut ctx = init_ctx(59);
    let r = initialize(&mut ctx, 0, 60, 1);
    assert!(matches!(r, Err(EscrowError::ConstraintRaw)));
    assert_eq!(ctx.escrow_account.initializer_amount, 0);
    assert_eq!(ctx.escrow_account.initializer_key, key(0));
}

fn cancel_ctx(escrow: EscrowAccount, initializer: Pubkey, deposit: Pubkey) -> Cancel {
    Cancel {
        program_id: key(9),
        initializer,
        initializer_is_signer: true,
        mint: key(2),
        vault_account: key(3),
        vault_authority: anchor_vault_authority(&key(9)).0,
        initializer_deposit_token_account: deposit,
        initializer_receive_token_account: key(5),
        escrow_account: escrow,
        escrow_state: RecordState::Open,
        token_program: key(8),
    }
}

#[test]
fn cancel_returns_the_deposit() {
    let mut ictx = init_ctx(100);
    initialize(&mut ictx, 0, 60, 25).unwrap();
    let mut c = cancel_ctx(ictx.escrow_account, key(1), key(4));
    let s = cancel(&mut c).unwrap();
    let (_, bump) = anchor_vault_authority(&key(9));
    assert_eq!(s.close_escrow_to, key(1));
    assert_eq!(s.token_instructions.len(), 2);
    match &s.token_instructions[0] {
        TokenInstruction::Transfer { accounts, amount, signer_seeds } => {
            assert_eq!(accounts.from, key(3));
            assert_eq!(accounts.to, key(4));
            assert_eq!(*amount, 60);
            assert_eq!(*signer_seeds, vec![b"escrow".to_vec(), vec![bump]]);
        }
        other => panic!("unexpected {:?}", other),
    }
    match &s.token_instructions[1] {
        TokenInstruction::SetAuthority { accounts, authority_type, new_authority, signer_seeds } => {
            assert_eq!(accounts.account_or_mint, key(4));
            assert_eq!(accounts.current_authority, anchor_vault_authority(&key(9)).0);
            assert!(matches!(authority_type, AuthorityType::AccountOwner));
            assert_eq!(*new_authority, Some(key(1)));
            assert_eq!(*signer_seeds, signer_seeds_of(bump));
        }
        other => panic!("unexpected {:?}", other),
    }
}

fn signer_seeds_of(bump: u8) -> Vec<Vec<u8>> {
    signer_seeds(bump)
}

#[test]
fn cancel_rejects_other_initializer() {
    let mut ictx = init_ctx(100);
    initialize(&mut ictx, 0, 60, 25).unwrap();
    let mut c = cancel_ctx(ictx.escrow_account, key(6), key(4));
    assert!(matches!(cancel(&mut c), Err(EscrowError::ConstraintRaw)));
}

#[test]
fn cancel_rejects_other_deposit_account() {
    let mut ictx = init_ctx(100);
    initialize(&mut ictx, 0, 60, 25).unwrap();
    let mut c = cancel_ctx(ictx.escrow_account, key(1), key(7));
    assert!(matches!(cancel(&mut c), Err(EscrowError::ConstraintRaw)));
}

fn exchange_ctx(escrow: EscrowAccount, taker_balance: u64) -> Exchange {
    Exchange {
        program_id: key(9),
        taker: key(20),
        taker_is_signer: true,
        taker_deposit_token_account: TokenAccount { key: key(21), mint: key(30), owner: key(20), amount: taker_balance },
        taker_receive_token_account: key(22),
        initializer_deposit_token_account: key(4),
        initializer_receive_token_account: key(5),
        initializer: key(1),
        escrow_account: escrow,
        escrow_state: RecordState::Open,
        vault_account: key(3),
        vault_authority: anchor_vault_authority(&key(9)).0,
        token_program: key(8),
    }
}

#[test]
fn exchange_swaps_both_amounts() {
    let mut ictx = init_ctx(100);
    initialize(&mut ictx, 0, 60, 25).unwrap();
    let mut x = exchange_ctx(ictx.escrow_account, 25);
    let s = exchange(&mut x).unwrap();
    assert_eq!(s.close_escrow_to, key(1));
    assert_eq!(s.token_instructions.len(), 3);
    match &s.token_instructions[0] {
        TokenInstruction::Transfer { accounts, amount, signer_seeds } => {
            assert_eq!((accounts.from, accounts.to, accounts.authority), (key(21), key(5), key(20)));
            assert_eq!(*amount, 25);
            assert!(signer_seeds.is_empty());
        }
        other => panic!("unexpected {:?}", other),
    }
    match &s.token_instructions[1] {
        TokenInstruction::Transfer { accounts, amount, signer_seeds } => {
            assert_eq!((accounts.from, accounts.to, accounts.authority), (key(3), key(22), anchor_vault_authority(&key(9)).0));
            assert_eq!(*amount, 60);
            assert_eq!(signer_seeds.len(), 2);
        }
        other => panic!("unexpected {:?}", other),
    }
    match &s.token_instructions[2] {
        TokenInstruction::SetAuthority { accounts, authority_type, new_authority, signer_seeds } => {
            assert_eq!(accounts.account_or_mint, key(3));
            assert_eq!(accounts.current_authority, anchor_vault_authority(&key(9)).0);
            assert!(matches!(authority_type, AuthorityType::AccountOwner));
            assert_eq!(*new_authority, Some(key(1)));
            assert_eq!(signer_seeds.len(), 2);
        }
        other => panic!("unexpected {:?}", other),
    }
}

#[test]
fn exchange_rejects_poor_taker() {
    let mut ictx = init_ctx(100);
    initialize(&mut ictx, 0, 60, 25).unwrap();
    let mut x = exchange_ctx(ictx.escrow_account, 24);
    assert!(matches!(exchange(&mut x), Err(EscrowError::ConstraintRaw)));
}

#[test]
fn exchange_rejects_other_receive_account() {
    let mut ictx = init_ctx(100);
    initialize(&mut ictx, 0, 60, 25).unwrap();
    let mut x = exchange_ctx(ictx.escrow_account, 25);
    x.initializer_receive_token_account = key(40);
    assert!(matches!(exchange(&mut x), Err(EscrowError::ConstraintRaw)));
}

#[test]
fn exchange_rejects_other_initializer() {
    let mut ictx = init_ctx(100);
    initialize(&mut ictx, 0, 60, 25).unwrap();
    let mut x = exchange_ctx(ictx.escrow_account, 25);
    x.initializer = key(41);
    assert!(matches!(exchange(&mut x), Err(EscrowError::ConstraintRaw)));
}

#[test]
fn initialize_rejects_missing_signature() {
    let mut ctx = init_ctx(100);
    ctx.initializer_is_signer = false;
    assert!(matches!(initialize(&mut ctx, 0, 60, 1), Err(EscrowError::ConstraintSigner)));
    assert_eq!(ctx.escrow_state, RecordState::Zeroed);
}

#[test]
fn initialize_refuses_a_record_in_use() {
    let mut ctx = init_ctx(100);
    initialize(&mut ctx, 0, 60, 25).unwrap();
    assert!(matches!(initialize(&mut ctx, 0, 10, 5), Err(EscrowError::ConstraintZero)));
    assert_eq!(ctx.escrow_account.initializer_amount, 60);
    ctx.escrow_state = RecordState::Closed;
    assert!(matches!(initialize(&mut ctx, 0, 10, 5), Err(EscrowError::AccountNotInitialized)));
}

#[test]
fn cancel_rejects_missing_signature() {
    let mut ictx = init_ctx(100);
    initialize(&mut ictx, 0, 60, 25).unwrap();
    let mut c = cancel_ctx(ictx.escrow_account, key(1), key(4));
    c.initializer_is_signer = false;
    assert!(matches!(cancel(&mut c), Err(EscrowError::ConstraintSigner)));
    assert_eq!(c.escrow_state, RecordState::Open);
}

#[test]
fn exchange_rejects_missing_signature() {
    let mut ictx = init_ctx(100);
    initialize(&mut ictx, 0, 60, 25).unwrap();
    let mut x = exchange_ctx(ictx.escrow_account, 25);
    x.taker_is_signer = false;
    assert!(matches!(exchange(&mut x), Err(EscrowError::ConstraintSigner)));
}

#[test]
fn escrow_is_settled_at_most_once() {
    let mut ictx = init_ctx(100);
    initialize(&mut ictx, 0, 60, 25).unwrap();
    let mut x = exchange_ctx(ictx.escrow_account, 25);
    assert!(exchange(&mut x).is_ok());
    assert_eq!(x.escrow_state, RecordState::Closed);
    assert!(matches!(exchange(&mut x), Err(EscrowError::AccountNotInitialized)));
    let mut c = cancel_ctx(ictx.escrow_account, key(1), key(4));
    c.escrow_state = x.escrow_state;
    assert!(matches!(cancel(&mut c), Err(EscrowError::AccountNotInitialized)));
    let mut c = cancel_ctx(ictx.escrow_account, key(1), key(4));
    assert!(cancel(&mut c).is_ok());
    assert!(matches!(cancel(&mut c), Err(EscrowError::AccountNotInitialized)));
}

#[test]
fn settling_a_zeroed_record_fails() {
    let mut c = cancel_ctx(empty_escrow(), key(0), key(0));
    c.escrow_state = RecordState::Zeroed;
    assert!(matches!(cancel(&mut c), Err(EscrowError::AccountDiscriminatorMismatch)));
}
