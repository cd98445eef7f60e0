//! A poll between two answers, crunchy and smooth, counted in one account.
use vstd::prelude::*;

use crate::errors::ConstraintError;
use crate::pda::{check_canonical_address, is_canonical_address};
use crate::pubkey::Pubkey;
use crate::seeds::seed_from;

verus! {

/// The vote counts.
#[derive(Clone, Copy, Debug)]
pub struct VoteAccount {
    pub bump: u8,
    pub crunchy: u64,
    pub smooth: u64,
}

/// Accounts of `initialize`.
#[derive(Clone, Copy, Debug)]
pub struct Initialize {
    pub vote_account: VoteAccount,
    pub vote_account_in_use: bool,
    pub user: Pubkey,
    pub user_is_signer: bool,
    pub system_program: Pubkey,
}

/// Accounts of the two vote instructions.
#[derive(Clone, Copy, Debug)]
pub struct Vote {
    pub vote_account: VoteAccount,
}

/// The counts after one vote for crunchy.
pub open spec fn after_crunchy(v: VoteAccount) -> VoteAccount {
    VoteAccount { crunchy: (v.crunchy + 1) as u64, ..v }
}

/// The counts after one vote for smooth.
pub open spec fn after_smooth(v: VoteAccount) -> VoteAccount {
    VoteAccount { smooth: (v.smooth + 1) as u64, ..v }
}

/// All votes cast.
pub open spec fn total_votes(v: VoteAccount) -> int {
    v.crunchy + v.smooth
}

/// Records the bump of the poll account; the counts are those of the fresh
/// account. The payer must sign, and the poll account, which the
/// instruction creates, must not exist yet.
pub fn initialize(ctx: &mut Initialize, vote_account_bump: u8) -> (r: Result<(), ConstraintError>)
    ensures
        !old(ctx).user_is_signer ==> r == Err::<(), ConstraintError>(ConstraintError::AccountNotSigner),
        old(ctx).user_is_signer && old(ctx).vote_account_in_use ==> r == Err::<(), ConstraintError>(
            ConstraintError::AccountAlreadyInUse,
        ),
        r is Ok <==> old(ctx).user_is_signer && !old(ctx).vote_account_in_use,
        r is Err ==> *final(ctx) == *old(ctx),
        r is Ok ==> *final(ctx) == (Initialize {
            vote_account: VoteAccount { bump: vote_account_bump, ..old(ctx).vote_account },
            vote_account_in_use: true,
            ..*old(ctx)
        }),
{
    if !ctx.user_is_signer {
        return Err(ConstraintError::AccountNotSigner);
    }
    if ctx.vote_account_in_use {
        return Err(ConstraintError::AccountAlreadyInUse);
    }
    ctx.vote_account_in_use = true;
    ctx.vote_account.bump = vote_account_bump;
    Ok(())
}

/// Counts one vote for crunchy.
pub fn vote_crunchy(ctx: &mut Vote) -> (r: Result<(), ConstraintError>)
    requires
        old(ctx).vote_account.crunchy < u64::MAX,
    ensures
        r is Ok,
        final(ctx).vote_account == after_crunchy(old(ctx).vote_account),
{
    ctx.vote_account.crunchy = ctx.vote_account.crunchy + 1;
    Ok(())
}

/// Counts one vote for smooth.
pub fn vote_smooth(ctx: &mut Vote) -> (r: Result<(), ConstraintError>)
    requires
        old(ctx).vote_account.smooth < u64::MAX,
    ensures
        r is Ok,
        final(ctx).vote_account == after_smooth(old(ctx).vote_account),
{
    ctx.vote_account.smooth = ctx.vote_account.smooth + 1;
    Ok(())
}

/// Each vote adds exactly one to the total and changes only its own count,
/// and the order of two votes does not matter.
pub proof fn lemma_votes_count_once(v: VoteAccount)
    requires
        v.crunchy < u64::MAX,
        v.smooth < u64::MAX,
    ensures
        total_votes(after_crunchy(v)) == total_votes(v) + 1,
        total_votes(after_smooth(v)) == total_votes(v) + 1,
        after_crunchy(v).smooth == v.smooth && after_crunchy(v).bump == v.bump,
        after_smooth(v).crunchy == v.crunchy && after_smooth(v).bump == v.bump,
        after_smooth(after_crunchy(v)) == after_crunchy(after_smooth(v)),
{
}

/// The seed of the poll account: "vote_account".
pub open spec fn vote_account_seed() -> Seq<u8> {
    seq![118u8, 111u8, 116u8, 101u8, 95u8, 97u8, 99u8, 99u8, 111u8, 117u8, 110u8, 116u8]
}

/// Checks the address of the poll account that `initialize` creates: the
/// program derived address of "vote_account".
pub fn validate_initialize(vote_account_key: &Pubkey, program_id: &Pubkey) -> (r: Result<(), ConstraintError>)
    ensures
        r is Ok <==> is_canonical_address(seq![vote_account_seed()], *program_id, *vote_account_key, None),
        r is Err ==> r == Err::<(), ConstraintError>(ConstraintError::ConstraintSeeds),
{
    let lit: [u8; 12] = [118, 111, 116, 101, 95, 97, 99, 99, 111, 117, 110, 116];
    let mut seeds: Vec<Vec<u8>> = Vec::new();
    seeds.push(seed_from(&lit));
    assert(seeds.deep_view() =~= seq![vote_account_seed()]);
    if check_canonical_address(&seeds, program_id, vote_account_key, None) {
        Ok(())
    } else {
        Err(ConstraintError::ConstraintSeeds)
    }
}

} // verus!
