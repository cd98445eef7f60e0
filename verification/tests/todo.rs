use anchor_programs::errors::ConstraintError;
use anchor_programs::pubkey::Pubkey;
use anchor_programs::to_do_list::{
    add, cancel_item, name_seed, new_list, remove_item_send_reward, Add, CancelItem, ListItem, NewList,
    RemoveItemAndSendReward, TodoList, TodoListError,
};

fn key(n: u8) -> Pubkey {
    Pubkey { bytes: [n; 32] }
}

fn blank_list() -> TodoList {
    TodoList { list_owner: key(0), bump: 0, capacity: 0, name: String::new(), lines: Vec::new() }
}

fn blank_item() -> ListItem {
    ListItem { creator: key(0), creator_finished: false, list_owner_finished: false, name: String::new() }
}

fn list_key(owner: &Pubkey, name: &str) -> Pubkey {
    let pid = anchor_lang::prelude::Pubkey::new_from_array(key(9).bytes);
    let (k, _) = anchor_lang::prelude::Pubkey::find_program_address(&[b"todolist", &owner.bytes, name_seed(name)], &pid);
    Pubkey { bytes: k.to_bytes() }
}

fn new_list_ctx(name: &str) -> NewList {
    NewList {
        list: blank_list(),
        list_key: list_key(&key(1), name),
        list_in_use: false,
        user: key(1),
        user_is_signer: true,
        system_program: key(90),
        program_id: key(9),
    }
}

fn created_list(capacity: u16) -> TodoList {
    let mut ctx = new_list_ctx("chores");
    new_list(&mut ctx, "chores".to_string(), capacity, 250).unwrap();
    ctx.list
}

fn add_ctx(list: TodoList, item_key: u8, item_lamports: u64) -> Add {
    Add {
        list,
        list_owner: key(1),
        item: blank_item(),
        item_key: key(item_key),
        item_lamports,
        user: key(5),
        system_program: key(90),
    }
}

#[test]
fn new_list_records_owner_and_capacity() {
    let l = created_list(2);
    assert_eq!(l.list_owner, key(1));
    assert_eq!(l.bump, 250);
    assert_eq!(l.capacity, 2);
    assert_eq!(l.name, "chores");
    assert!(l.lines.is_empty());
}

#[test]
fn add_appends_item_and_asks_for_rest_of_bounty() {
    let mut ctx = add_ctx(created_list(2), 20, 1000);
    let t = add(&mut ctx, "chores".to_string(), "dishes".to_string(), 1500).unwrap().unwrap();
    assert_eq!(ctx.list.lines, vec![key(20)]);
    assert_eq!(ctx.item.name, "dishes");
    assert_eq!(ctx.item.creator, key(5));
    assert_eq!((t.from, t.to, t.lamports), (key(5), key(20), 500));
}

#[test]
fn add_with_exact_bounty_moves_nothing() {
    let mut ctx = add_ctx(created_list(2), 20, 1000);
    assert!(add(&mut ctx, String::new(), "dishes".to_string(), 1000).unwrap().is_none());
    assert_eq!(ctx.list.lines.len(), 1);
}

#[test]
fn add_never_exceeds_capacity() {
    let mut list = created_list(2);
    for i in 0..2u8 {
        let mut ctx = add_ctx(list, 20 + i, 0);
        add(&mut ctx, String::new(), "x".to_string(), 10).unwrap();
        list = ctx.list;
    }
    let mut ctx = add_ctx(list, 30, 0);
    assert_eq!(add(&mut ctx, String::new(), "x".to_string(), 10).unwrap_err(), TodoListError::ListFull);
    assert_eq!(ctx.list.lines, vec![key(20), key(21)]);
}

#[test]
fn add_rejects_zero_capacity_list() {
    let mut ctx = add_ctx(created_list(0), 20, 0);
    assert_eq!(add(&mut ctx, String::new(), "x".to_string(), 10).unwrap_err(), TodoListError::ListFull);
}

#[test]
fn add_rejects_small_bounty() {
    let mut ctx = add_ctx(created_list(2), 20, 1000);
    assert_eq!(add(&mut ctx, String::new(), "x".to_string(), 999).unwrap_err(), TodoListError::BountyTooSmall);
    assert!(ctx.list.lines.is_empty());
    assert_eq!(ctx.item.name, "");
}

#[test]
fn add_rejects_wrong_owner() {
    let mut ctx = add_ctx(created_list(2), 20, 0);
    ctx.list_owner = key(2);
    assert_eq!(add(&mut ctx, String::new(), "x".to_string(), 10).unwrap_err(), TodoListError::WrongListOwner);
}

#[test]
fn todo_space_formulas() {
    assert_eq!(TodoList::space("chores", 3), 8 + 32 + 1 + 2 + 4 + 6 + 4 + 3 * 32);
    assert_eq!(ListItem::space("dishes"), 8 + 32 + 1 + 1 + 4 + 6);
    assert_eq!(TodoList::space("é", 0), 51 + 2);
}

#[test]
fn name_seed_cuts_to_32_bytes() {
    assert_eq!(name_seed("short"), b"short");
    let long = "a".repeat(40);
    assert_eq!(name_seed(&long), &long.as_bytes()[..32]);
    assert_eq!(name_seed(&"b".repeat(32)).len(), 32);
}

#[test]
fn cancel_and_reward_are_accepted() {
    assert!(cancel_item(&CancelItem {}).is_ok());
    assert!(remove_item_send_reward(&RemoveItemAndSendReward {}).is_ok());
}

#[test]
fn one_list_per_name_seed() {
    let long = "n".repeat(40);
    let mut ctx = new_list_ctx(&long);
    new_list(&mut ctx, long.clone(), 3, 1).unwrap();
    assert!(ctx.list_in_use);
    let other = format!("{}{}", &long[..32], "another ending");
    assert_eq!(new_list(&mut ctx, other, 9, 2), Err(ConstraintError::AccountAlreadyInUse));
    assert_eq!((ctx.list.capacity, ctx.list.bump), (3, 1));
    assert_eq!(ctx.list.name, long);
}

#[test]
fn new_list_checks_signer_and_address() {
    let mut ctx = new_list_ctx("chores");
    ctx.user_is_signer = false;
    assert_eq!(new_list(&mut ctx, "chores".to_string(), 2, 1), Err(ConstraintError::AccountNotSigner));
    let mut ctx = new_list_ctx("chores");
    assert_eq!(new_list(&mut ctx, "other".to_string(), 2, 1), Err(ConstraintError::ConstraintSeeds));
    assert!(!ctx.list_in_use);
}
