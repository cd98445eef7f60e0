//! A to-do list whose items carry bounties. A list has an owner, a name and
//! a capacity; adding an item records the item's address in the list and
//! moves the bounty, less what the item account already holds, into the item.
use vstd::prelude::*;

use crate::errors::ConstraintError;
use crate::pda::{check_canonical_address, is_canonical_address};
use crate::pubkey::{Pubkey, PUBKEY_BYTES};
use crate::seeds::seed_from;
use crate::token::LamportTransfer;
use vstd::string::StringSliceAdditionalSpecFns;
use vstd::utf8::encode_utf8;

verus! {

/// A to-do list.
#[derive(Clone, Debug)]
pub struct TodoList {
    pub list_owner: Pubkey,
    pub bump: u8,
    pub capacity: u16,
    pub name: String,
    pub lines: Vec<Pubkey>,
}

/// An item of a to-do list.
#[derive(Clone, Debug)]
pub struct ListItem {
    pub creator: Pubkey,
    pub creator_finished: bool,
    pub list_owner_finished: bool,
    pub name: String,
}

/// Why a to-do list instruction fails.
#[derive(Clone, Copy, Debug, PartialEq, Eq, Structural)]
pub enum TodoListError {
    /// This list is full.
    ListFull,
    /// Bounty must be enough to mark account rent-exempt.
    BountyTooSmall,
    /// Only the list owner or item creator may cancel an item.
    CancelPermissions,
    /// Only the list owner or item creator may finish an item.
    FinishPermissions,
    /// Item does not belong to this todo list.
    ItemNotFound,
    /// Specified list owner does not match the pubkey in the list.
    WrongListOwner,
    /// Specified item creator does not match the pubkey in the item.
    WrongItemCreator,
}

/// Accounts of `new_list`.
#[derive(Clone, Debug)]
pub struct NewList {
    pub list: TodoList,
    pub list_key: Pubkey,
    pub list_in_use: bool,
    pub user: Pubkey,
    pub user_is_signer: bool,
    pub system_program: Pubkey,
    pub program_id: Pubkey,
}

/// Accounts of `add`: the list, its owner's address, the new item (its
/// address, its data and the lamports it already holds) and the payer.
#[derive(Clone, Debug)]
pub struct Add {
    pub list: TodoList,
    pub list_owner: Pubkey,
    pub item: ListItem,
    pub item_key: Pubkey,
    pub item_lamports: u64,
    pub user: Pubkey,
    pub system_program: Pubkey,
}

/// Accounts of `cancel_item` (none are read).
#[derive(Clone, Copy, Debug)]
pub struct CancelItem {}

/// Accounts of `remove_item_send_reward` (none are read).
#[derive(Clone, Copy, Debug)]
pub struct RemoveItemAndSendReward {}

/// The number of bytes of the UTF-8 encoding of `s`.
pub open spec fn byte_len(s: &str) -> nat {
    s.spec_bytes().len()
}

/// Space that a list account needs: discriminator, owner, bump, capacity,
/// the name with its length prefix, and `capacity` item addresses with the
/// vector's length prefix.
pub open spec fn todo_list_space(name: &str, capacity: u16) -> int {
    8 + 32 + 1 + 2 + 4 + byte_len(name) + 4 + capacity * 32
}

/// Space that an item account needs: discriminator, creator, two flags and
/// the name with its length prefix.
pub open spec fn list_item_space(name: &str) -> int {
    8 + 32 + 1 + 1 + 4 + byte_len(name) as int
}

impl TodoList {
    /// Space that a list account named `name` with room for `capacity`
    /// items needs.
    pub fn space(name: &str, capacity: u16) -> (r: usize)
        requires
            todo_list_space(name, capacity) <= usize::MAX,
        ensures
            r == todo_list_space(name, capacity),
    {
        8 + 32 + 1 + 2 + 4 + name.len() + 4 + (capacity as usize) * PUBKEY_BYTES
    }

    /// The list keeps no more items than its capacity.
    pub open spec fn within_capacity(&self) -> bool {
        self.lines@.len() <= self.capacity
    }
}

impl ListItem {
    /// Space that an item account named `name` needs.
    pub fn space(name: &str) -> (r: usize)
        requires
            list_item_space(name) <= usize::MAX,
        ensures
            r == list_item_space(name),
    {
        8 + 32 + 1 + 1 + 4 + name.len()
    }
}

/// The seed that a list name, given by its characters, gives: the first 32
/// bytes of its UTF-8 encoding.
pub open spec fn name_seed_of(name: Seq<char>) -> Seq<u8> {
    if encode_utf8(name).len() > 32 {
        encode_utf8(name).subrange(0, 32)
    } else {
        encode_utf8(name)
    }
}

/// The seed that a list name gives: its first 32 bytes.
pub open spec fn name_seed_bytes(name: &str) -> Seq<u8> {
    name_seed_of(name@)
}

/// The bytes of `name`, cut to the 32 that a seed may hold.
pub fn name_seed(name: &str) -> (r: &[u8])
    ensures
        r@ == name_seed_bytes(name),
{
    let b = name.as_bytes();
    if b.len() > 32 {
        &b[0..32]
    } else {
        b
    }
}

/// Creates a list: checks its accounts (see `new_list_error`), then records
/// its owner (the signer), bump, name and capacity.
pub fn new_list(ctx: &mut NewList, name: String, capacity: u16, account_bump: u8) -> (r: Result<
    (),
    ConstraintError,
>)
    ensures
        r is Ok <==> new_list_error(
            old(ctx).user,
            old(ctx).user_is_signer,
            name@,
            old(ctx).list_key,
            old(ctx).list_in_use,
            old(ctx).program_id,
        ) is None,
        r matches Err(e) ==> new_list_error(
            old(ctx).user,
            old(ctx).user_is_signer,
            name@,
            old(ctx).list_key,
            old(ctx).list_in_use,
            old(ctx).program_id,
        ) == Some(e) && *final(ctx) == *old(ctx),
        r is Ok ==> *final(ctx) == (NewList {
            list: TodoList { list_owner: old(ctx).user, bump: account_bump, name, capacity, ..old(ctx).list },
            list_in_use: true,
            ..*old(ctx)
        }),
        r is Ok && old(ctx).list.lines@.len() == 0 ==> final(ctx).list.within_capacity(),
{
    match validate_new_list(
        &ctx.user,
        ctx.user_is_signer,
        name.as_str(),
        &ctx.list_key,
        ctx.list_in_use,
        &ctx.program_id,
    ) {
        Err(e) => {
            return Err(e);
        },
        Ok(()) => {},
    }
    ctx.list_in_use = true;
    ctx.list.list_owner = ctx.user;
    ctx.list.bump = account_bump;
    ctx.list.name = name;
    ctx.list.capacity = capacity;
    Ok(())
}

/// Adds an item to a list: the list owner passed must be the one recorded,
/// the list must have room, and the bounty must cover what the item account
/// already holds. The item's address is appended to the list, the item gets
/// its name and creator (the payer), and the rest of the bounty, when not
/// zero, is to move from the payer into the item.
pub fn add(ctx: &mut Add, _list_name: String, item_name: String, bounty: u64) -> (r: Result<
    Option<LamportTransfer>,
    TodoListError,
>)
    ensures
        !(old(ctx).list.list_owner == old(ctx).list_owner) ==> r == Err::<Option<LamportTransfer>, TodoListError>(
            TodoListError::WrongListOwner,
        ),
        old(ctx).list.list_owner == old(ctx).list_owner && old(ctx).list.lines@.len() >= old(ctx).list.capacity
            ==> r == Err::<Option<LamportTransfer>, TodoListError>(TodoListError::ListFull),
        old(ctx).list.list_owner == old(ctx).list_owner && old(ctx).list.lines@.len() < old(ctx).list.capacity
            && bounty < old(ctx).item_lamports ==> r == Err::<Option<LamportTransfer>, TodoListError>(
            TodoListError::BountyTooSmall,
        ),
        r is Ok <==> old(ctx).list.list_owner == old(ctx).list_owner && old(ctx).list.lines@.len()
            < old(ctx).list.capacity && bounty >= old(ctx).item_lamports,
        r is Err ==> *final(ctx) == *old(ctx),
        old(ctx).list.within_capacity() ==> final(ctx).list.within_capacity(),
        r matches Ok(t) ==> {
            &&& final(ctx).list.lines@ == old(ctx).list.lines@.push(old(ctx).item_key)
            &&& final(ctx).list.list_owner == old(ctx).list.list_owner
            &&& final(ctx).list.bump == old(ctx).list.bump
            &&& final(ctx).list.capacity == old(ctx).list.capacity
            &&& final(ctx).list.name == old(ctx).list.name
            &&& final(ctx).item == (ListItem { name: item_name, creator: old(ctx).user, ..old(ctx).item })
            &&& match t {
                Some(tr) => bounty > old(ctx).item_lamports && tr == (LamportTransfer {
                    from: old(ctx).user,
                    to: old(ctx).item_key,
                    lamports: (bounty - old(ctx).item_lamports) as u64,
                }),
                None => bounty == old(ctx).item_lamports,
            }
        },
        final(ctx).list_owner == old(ctx).list_owner,
        final(ctx).item_key == old(ctx).item_key,
        final(ctx).item_lamports == old(ctx).item_lamports,
        final(ctx).user == old(ctx).user,
        final(ctx).system_program == old(ctx).system_program,
{
    if !(ctx.list.list_owner == ctx.list_owner) {
        return Err(TodoListError::WrongListOwner);
    }
    if ctx.list.lines.len() >= ctx.list.capacity as usize {
        return Err(TodoListError::ListFull);
    }
    let transfer_amount = match bounty.checked_sub(ctx.item_lamports) {
        Some(a) => a,
        None => {
            return Err(TodoListError::BountyTooSmall);
        },
    };
    ctx.list.lines.push(ctx.item_key);
    ctx.item.name = item_name;
    ctx.item.creator = ctx.user;
    if transfer_amount > 0 {
        Ok(Some(LamportTransfer { from: ctx.user, to: ctx.item_key, lamports: transfer_amount }))
    } else {
        Ok(None)
    }
}

/// Cancels an item: accepted, with no effect.
pub fn cancel_item(ctx: &CancelItem) -> (r: Result<(), TodoListError>)
    ensures
        r is Ok,
{
    Ok(())
}

/// Removes an item and sends its reward: accepted, with no effect.
pub fn remove_item_send_reward(ctx: &RemoveItemAndSendReward) -> (r: Result<(), TodoListError>)
    ensures
        r is Ok,
{
    Ok(())
}

/// The seed of a list: "todolist".
pub open spec fn todolist_seed() -> Seq<u8> {
    seq![116u8, 111u8, 100u8, 111u8, 108u8, 105u8, 115u8, 116u8]
}

/// The seeds of the list of `owner` whose name has the characters `name`.
pub open spec fn name_list_seeds(owner: Pubkey, name: Seq<char>) -> Seq<Seq<u8>> {
    seq![todolist_seed(), owner@, name_seed_of(name)]
}

/// The seeds of the list named `name` of `owner`.
pub open spec fn list_seeds(owner: Pubkey, name: &str) -> Seq<Seq<u8>> {
    name_list_seeds(owner, name@)
}

fn list_seeds_of(owner: &Pubkey, name: &str) -> (r: Vec<Vec<u8>>)
    ensures
        r.deep_view() == list_seeds(*owner, name),
{
    let lit: [u8; 8] = [116, 111, 100, 111, 108, 105, 115, 116];
    let mut seeds: Vec<Vec<u8>> = Vec::new();
    seeds.push(seed_from(&lit));
    seeds.push(owner.to_vec());
    seeds.push(seed_from(name_seed(name)));
    assert(seeds.deep_view() =~= list_seeds(*owner, name));
    seeds
}

/// The first account check of `new_list` that fails: the user signs, the
/// list is at the program derived address of "todolist", the user's address
/// and the name's seed, and no account exists there yet (the instruction
/// creates it).
pub open spec fn new_list_error(
    user: Pubkey,
    user_is_signer: bool,
    name: Seq<char>,
    list_key: Pubkey,
    list_in_use: bool,
    program_id: Pubkey,
) -> Option<ConstraintError> {
    if !user_is_signer {
        Some(ConstraintError::AccountNotSigner)
    } else if !is_canonical_address(name_list_seeds(user, name), program_id, list_key, None) {
        Some(ConstraintError::ConstraintSeeds)
    } else if list_in_use {
        Some(ConstraintError::AccountAlreadyInUse)
    } else {
        None
    }
}

/// Checks the accounts of `new_list`: see `new_list_error`.
pub fn validate_new_list(
    user: &Pubkey,
    user_is_signer: bool,
    name: &str,
    list_key: &Pubkey,
    list_in_use: bool,
    program_id: &Pubkey,
) -> (r: Result<(), ConstraintError>)
    ensures
        r is Ok <==> new_list_error(*user, user_is_signer, name@, *list_key, list_in_use, *program_id) is None,
        r matches Err(e) ==> new_list_error(*user, user_is_signer, name@, *list_key, list_in_use, *program_id)
            == Some(e),
{
    if !user_is_signer {
        return Err(ConstraintError::AccountNotSigner);
    }
    let seeds = list_seeds_of(user, name);
    if !check_canonical_address(&seeds, program_id, list_key, None) {
        return Err(ConstraintError::ConstraintSeeds);
    }
    if list_in_use {
        return Err(ConstraintError::AccountAlreadyInUse);
    }
    Ok(())
}

/// One list per name: two names with the same seed (equal, or equal in
/// their first 32 bytes) give one list address for a user, so once a list
/// was created there, every later `new_list` of that user under either name
/// fails with `AccountAlreadyInUse` (and leaves the accounts as they were,
/// by `new_list`'s contract).
pub proof fn lemma_one_list_per_name(
    user: Pubkey,
    program_id: Pubkey,
    first_name: Seq<char>,
    later_name: Seq<char>,
    first_key: Pubkey,
    later_key: Pubkey,
)
    requires
        name_seed_of(first_name) == name_seed_of(later_name),
        is_canonical_address(name_list_seeds(user, first_name), program_id, first_key, None),
        is_canonical_address(name_list_seeds(user, later_name), program_id, later_key, None),
    ensures
        first_key == later_key,
        new_list_error(user, true, later_name, later_key, true, program_id) == Some(
            ConstraintError::AccountAlreadyInUse,
        ),
{
    assert(name_list_seeds(user, first_name) =~= name_list_seeds(user, later_name));
    Pubkey::lemma_eq_bytes(first_key, later_key);
}

/// The first account check of `add` that fails: the payer signs, the item
/// account, which the instruction creates, does not exist yet, and the list
/// is at the program derived address of "todolist", the owner's address and
/// the list name's seed.
pub open spec fn add_accounts_error(
    list_owner: Pubkey,
    user_is_signer: bool,
    item_in_use: bool,
    list_name: &str,
    list_key: Pubkey,
    program_id: Pubkey,
) -> Option<ConstraintError> {
    if !user_is_signer {
        Some(ConstraintError::AccountNotSigner)
    } else if item_in_use {
        Some(ConstraintError::AccountAlreadyInUse)
    } else if !is_canonical_address(list_seeds(list_owner, list_name), program_id, list_key, None) {
        Some(ConstraintError::ConstraintSeeds)
    } else {
        None
    }
}

/// Checks the accounts of `add`: see `add_accounts_error`.
pub fn validate_add(
    list_owner: &Pubkey,
    user_is_signer: bool,
    item_in_use: bool,
    list_name: &str,
    list_key: &Pubkey,
    program_id: &Pubkey,
) -> (r: Result<(), ConstraintError>)
    ensures
        r is Ok <==> add_accounts_error(*list_owner, user_is_signer, item_in_use, list_name, *list_key, *program_id)
            is None,
        r matches Err(e) ==> add_accounts_error(
            *list_owner,
            user_is_signer,
            item_in_use,
            list_name,
            *list_key,
            *program_id,
        ) == Some(e),
{
    if !user_is_signer {
        return Err(ConstraintError::AccountNotSigner);
    }
    if item_in_use {
        return Err(ConstraintError::AccountAlreadyInUse);
    }
    let seeds = list_seeds_of(list_owner, list_name);
    if check_canonical_address(&seeds, program_id, list_key, None) {
        Ok(())
    } else {
        Err(ConstraintError::ConstraintSeeds)
    }
}

/// A list's seed is the first 32 bytes of its name: a name of at most 32
/// bytes is its own seed, and a longer one gives its first 32 bytes.
pub proof fn lemma_name_seed_is_prefix(name: Seq<char>)
    ensures
        name_seed_of(name).len() <= 32,
        encode_utf8(name).len() <= 32 ==> name_seed_of(name) == encode_utf8(name),
        encode_utf8(name).len() > 32 ==> name_seed_of(name) == encode_utf8(name).subrange(0, 32),
{
}

/// Who may create lists and items: a list is created exactly when the user
/// signs, the list is at the address of "todolist", the user and the name's
/// seed, and no account is there yet; an item is added only by a signing
/// payer, on an item account not in use yet, to a list at the address of
/// its owner and name.
pub proof fn lemma_list_write_permissions(
    user: Pubkey,
    user_is_signer: bool,
    item_in_use: bool,
    name: &str,
    list_key: Pubkey,
    list_in_use: bool,
    program_id: Pubkey,
)
    ensures
        new_list_error(user, user_is_signer, name@, list_key, list_in_use, program_id) is None <==> (user_is_signer
            && is_canonical_address(
            seq![todolist_seed(), user@, name_seed_of(name@)],
            program_id,
            list_key,
            None,
        ) && !list_in_use),
        add_accounts_error(user, user_is_signer, item_in_use, name, list_key, program_id) is None <==> (
        user_is_signer && !item_in_use && is_canonical_address(
            seq![todolist_seed(), user@, name_seed_of(name@)],
            program_id,
            list_key,
            None,
        )),
{
}

} // verus!
