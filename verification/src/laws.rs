//! System-wide laws of the state machine, stated over the same spec
//! functions the operations' contracts use and proved from them.

use vstd::arithmetic::div_mod::{
    lemma_div_denominator, lemma_fundamental_div_mod, lemma_mod_bound,
};
use vstd::arithmetic::mul::{
    lemma_mul_basics, lemma_mul_is_commutative, lemma_mul_nonnegative,
    lemma_mul_strictly_positive,
};
use vstd::prelude::*;

use crate::claim::claim_post;
use crate::fund::{carried_value, topped_up_rate};
use crate::staking::{stake_post, unstake_post};
use crate::state::{User, Vault, CALC_PRECISION};
use crate::util::{accrue_ok, accrue_post, accrued_pending, reward_per_slot};

verus! {

/// Total assets staked across a collection of user records.
pub open spec fn staked_sum(users: Seq<User>) -> int
    decreases users.len(),
{
    if users.len() == 0 {
        0
    } else {
        staked_sum(users.drop_last()) + users.last().mint_staked_count
    }
}

/// Replacing one record changes the total by that record's difference.
pub proof fn lemma_staked_sum_update(users: Seq<User>, i: int, u: User)
    requires
        0 <= i < users.len(),
    ensures
        staked_sum(users.update(i, u)) == staked_sum(users) - users[i].mint_staked_count
            + u.mint_staked_count,
    decreases users.len(),
{
    let upd = users.update(i, u);
    if i == users.len() - 1 {
        assert(upd.drop_last() =~= users.drop_last());
        assert(upd.last() == u);
    } else {
        assert(upd.drop_last() =~= users.drop_last().update(i, u));
        assert(upd.last() == users.last());
        lemma_staked_sum_update(users.drop_last(), i, u);
    }
}

/// Appending a record adds that record's stake to the total.
pub proof fn lemma_staked_sum_push(users: Seq<User>, u: User)
    ensures
        staked_sum(users.push(u)) == staked_sum(users) + u.mint_staked_count,
{
    assert(users.push(u).drop_last() =~= users);
    assert(users.push(u).last() == u);
}

/// Dropping a record removes that record's stake from the total.
pub proof fn lemma_staked_sum_remove(users: Seq<User>, i: int)
    requires
        0 <= i < users.len(),
    ensures
        staked_sum(users.remove(i)) == staked_sum(users) - users[i].mint_staked_count,
    decreases users.len(),
{
    if i == users.len() - 1 {
        assert(users.remove(i) =~= users.drop_last());
    } else {
        assert(users.remove(i).drop_last() =~= users.drop_last().remove(i));
        assert(users.remove(i).last() == users.last());
        lemma_staked_sum_remove(users.drop_last(), i);
    }
}

/// Law: a vault whose `staked_count` equals the sum of its users' stakes
/// keeps that equality across a successful `stake` — both sides rise by one.
pub proof fn lemma_stake_preserves_staked_total(
    v0: Vault,
    u0: User,
    v1: Vault,
    u1: User,
    users: Seq<User>,
    i: int,
    mint_account: u64,
    now: u64,
)
    requires
        0 <= i < users.len(),
        users[i] == u0,
        v0.staked_count == staked_sum(users),
        stake_post(v0, u0, v1, u1, mint_account, now),
    ensures
        v1.staked_count == staked_sum(users.update(i, u1)),
{
    lemma_staked_sum_update(users, i, u1);
}

/// Law: a vault whose `staked_count` equals the sum of its users' stakes
/// keeps that equality across a successful `unstake` — both sides fall by one.
pub proof fn lemma_unstake_preserves_staked_total(
    v0: Vault,
    u0: User,
    v1: Vault,
    u1: User,
    users: Seq<User>,
    i: int,
    mint_account: u64,
    now: u64,
)
    requires
        0 <= i < users.len(),
        users[i] == u0,
        v0.staked_count == staked_sum(users),
        unstake_post(v0, u0, v1, u1, mint_account, now),
    ensures
        v1.staked_count == staked_sum(users.update(i, u1)),
{
    lemma_staked_sum_update(users, i, u1);
}

/// Law: registering a user (stake zero) leaves the equality between
/// `staked_count` and the users' total stake intact.
pub proof fn lemma_create_user_preserves_staked_total(
    v0: Vault,
    v1: Vault,
    users: Seq<User>,
    new_user: User,
)
    requires
        v0.staked_count == staked_sum(users),
        v1.staked_count == v0.staked_count,
        new_user.mint_staked_count == 0,
    ensures
        v1.staked_count == staked_sum(users.push(new_user)),
{
    lemma_staked_sum_push(users, new_user);
}

/// Law: retiring a user (stake zero) leaves the equality between
/// `staked_count` and the users' total stake intact.
pub proof fn lemma_close_user_preserves_staked_total(v0: Vault, v1: Vault, users: Seq<User>, i: int)
    requires
        0 <= i < users.len(),
        users[i].mint_staked_count == 0,
        v0.staked_count == staked_sum(users),
        v1.staked_count == v0.staked_count,
    ensures
        v1.staked_count == staked_sum(users.remove(i)),
{
    lemma_staked_sum_remove(users, i);
}

/// Over an empty interval the accrual formula hands the pending counter back
/// unchanged, and cannot overflow.
pub proof fn lemma_zero_elapsed_accrual(user: User, rate: u128, now: u64)
    requires
        user.last_stake_time == now,
    ensures
        accrue_ok(user, rate, now),
        accrued_pending(user, rate, now) == user.reward_earned_pending,
{
    lemma_mul_basics(reward_per_slot(rate) * (user.mint_staked_count as int));
}

/// Law: accrual is idempotent — after one pass at `now`, a second pass with
/// the same `now` succeeds and contributes zero additional reward.
pub proof fn lemma_accrue_idempotent(u0: User, u1: User, rate: u128, now: u64)
    requires
        accrue_post(u0, u1, rate, now),
    ensures
        accrue_ok(u1, rate, now),
        accrued_pending(u1, rate, now) == u1.reward_earned_pending,
{
    lemma_zero_elapsed_accrual(u1, rate, now);
}

/// Law: a claim pays out at most the lesser of the pending entitlement and
/// the available liquidity, and moves value only between the pending and
/// claimed counters; with no time elapsed, their sum is exactly what it was
/// before the claim.
pub proof fn lemma_claim_conserves_value(
    v0: Vault,
    u0: User,
    u1: User,
    available: u64,
    now: u64,
    payable: u64,
)
    requires
        claim_post(v0, u0, u1, available, now, payable),
    ensures
        payable <= available,
        payable <= accrued_pending(u0, v0.reward_rate, now),
        u1.reward_earned_pending + u1.reward_earned_claimed == accrued_pending(
            u0,
            v0.reward_rate,
            now,
        ) + u0.reward_earned_claimed,
        u0.last_stake_time == now ==> u1.reward_earned_pending + u1.reward_earned_claimed
            == u0.reward_earned_pending + u0.reward_earned_claimed,
{
    if u0.last_stake_time == now {
        lemma_zero_elapsed_accrual(u0, v0.reward_rate, now);
    }
}

/// Law: staking an asset and immediately unstaking it with zero elapsed time
/// leaves the pending reward unchanged and returns the stake counters and the
/// asset collection to their prior values.
pub proof fn lemma_stake_unstake_zero_elapsed(
    v0: Vault,
    u0: User,
    v1: Vault,
    u1: User,
    v2: Vault,
    u2: User,
    mint_account: u64,
    now: u64,
)
    requires
        u0.last_stake_time == now,
        !u0.mint_accounts@.contains(mint_account),
        stake_post(v0, u0, v1, u1, mint_account, now),
        unstake_post(v1, u1, v2, u2, mint_account, now),
    ensures
        u2.reward_earned_pending == u0.reward_earned_pending,
        u2.mint_staked_count == u0.mint_staked_count,
        u2.mint_accounts@ == u0.mint_accounts@,
        v2.staked_count == v0.staked_count,
{
    lemma_zero_elapsed_accrual(u0, v0.reward_rate, now);
    lemma_zero_elapsed_accrual(u1, v1.reward_rate, now);
    let s0 = u0.mint_accounts@;
    let s1 = u1.mint_accounts@;
    let last = s0.len() as int;
    assert forall|j: int| 0 <= j < s1.len() && s1[j] == mint_account implies j == last by {
        if j < last {
            assert(s0[j] == s1[j]);
        }
    }
    assert(s1[last] == mint_account);
    assert(s1.index_of(mint_account) == last);
    assert(s1.remove(last) =~= s0);
}

/// Law: topping up an active period preserves value up to fixed-point
/// truncation. The carried value is exactly the P-scaled reward still owed
/// under the old rate (`rate * remaining * count`); the new rate re-streams
/// the new liquidity plus that carried value over a full period, and the
/// value lost to the two truncating divisions is less than one rate unit per
/// slot-time-step — `duration * count` P-scaled units in all.
pub proof fn lemma_fund_mid_period_preserves_value(
    amount: u64,
    rate: u128,
    remaining: u64,
    duration: u64,
    count: u32,
)
    requires
        duration >= 1,
        count >= 1,
    ensures
        ({
            let liquidity_value = amount as int * CALC_PRECISION as int;
            let carried = carried_value(rate, remaining, count);
            let new_rate = topped_up_rate(amount, rate, remaining, duration, count);
            let slot_time = duration as int * count as int;
            &&& new_rate == (liquidity_value + carried) / slot_time
            &&& new_rate * slot_time <= liquidity_value + carried
            &&& liquidity_value + carried - new_rate * slot_time < slot_time
        }),
{
    let liquidity_value = amount as int * CALC_PRECISION as int;
    let carried = carried_value(rate, remaining, count);
    let x = liquidity_value + carried;
    let d = duration as int;
    let c = count as int;
    lemma_mul_nonnegative(amount as int, CALC_PRECISION as int);
    lemma_mul_nonnegative(rate as int, remaining as int);
    lemma_mul_nonnegative(rate as int * remaining as int, count as int);
    lemma_div_denominator(x, d, c);
    lemma_mul_strictly_positive(d, c);
    lemma_fundamental_div_mod(x, d * c);
    lemma_mod_bound(x, d * c);
    lemma_mul_is_commutative(d * c, x / (d * c));
}

} // verus!
