//! Data model: the vault record, the per-user staking record, the bounded
//! identity collections they hold, and the error taxonomy.
//!
//! Identities (the vault authority, funders, asset references, token
//! accounts) are plain `u64` values here: the hosting environment owns the
//! mapping between these values and whatever concrete account keys its ledger
//! uses, and it authenticates a caller before handing the caller's identity
//! to an operation.

use vstd::prelude::*;

verus! {

/// Shortest reward period a vault may be configured with, in time units.
pub const MIN_DURATION: u64 = 1;

/// Fixed-point scale factor (2^64) for the reward rate: `reward_rate` is
/// reward-per-slot-per-time-unit multiplied by this constant, so that
/// fractional rates survive integer arithmetic.
pub const CALC_PRECISION: u128 = 18446744073709551616;

/// Hard cap on the number of assets one user may have staked at once.
pub const MAX_MINT_LIMIT: usize = 300;

/// Number of funder slots a vault carries.
pub const MAX_FUNDER_LIMIT: usize = 5;

/// Lifecycle state of a vault. Only `Initialized` permits staking, funding
/// and claiming; a record is `Uninitialized` before creation and again after
/// the vault is closed and its storage reclaimed.
#[derive(Clone, Copy, Debug, PartialEq, Eq, Structural)]
pub enum VaultStatus {
    Uninitialized,
    Initialized,
    Paused,
}

impl Default for VaultStatus {
    fn default() -> (status: Self)
        ensures
            status == VaultStatus::Uninitialized,
    {
        VaultStatus::Uninitialized
    }
}

/// One error per rejected condition, so a caller can always tell a bad
/// request from a numeric limit.
#[derive(Clone, Copy, Debug, PartialEq, Eq, Structural)]
pub enum ErrorCode {
    /// Configured reward period is below [`MIN_DURATION`].
    DurationTooShort,
    /// The vault record has already been initialized.
    AlreadyCreated,
    /// The vault authority may not occupy a funder slot.
    OwnerCanNotBeFunder,
    /// The funder already occupies a slot.
    FunderAlreadyAuthorized,
    /// All funder slots are occupied.
    FunderAlreadyFull,
    /// The funder occupies no slot.
    FunderDoesNotExist,
    /// The vault is not in a state that permits staking.
    CanNotStake,
    /// The asset is already under this user's stake.
    AlreadyStakedAccount,
    /// The user has reached the stake cap of [`MAX_MINT_LIMIT`].
    MaxStakeCountReached,
    /// The asset is not under this user's stake.
    StakedAccountDoesNotExist,
    /// The vault is not in a state that permits the operation.
    VaultNotReady,
    /// Staked assets remain outstanding.
    StakeExist,
    /// Pending reward remains outstanding.
    EarnedPendingExist,
    /// The caller holds neither the authority role nor a funder slot.
    NotAuthorized,
    /// Registered users remain outstanding.
    UserExist,
    /// No reward period has been set, or the current one has not expired.
    RewardPeriodNotOver,
    /// The asset to be staked has no balance.
    NothingToStake,
    /// A checked arithmetic step overflowed, underflowed, or divided by zero.
    ArithmeticOverflow,
}

impl ErrorCode {
    /// A human-readable description, for the layer that reports errors.
    pub fn message(&self) -> &'static str {
        match self {
            ErrorCode::DurationTooShort => "Duration can not be shorter than the minimum.",
            ErrorCode::AlreadyCreated => "Vault has already been created.",
            ErrorCode::OwnerCanNotBeFunder => "Owner can not be a funder.",
            ErrorCode::FunderAlreadyAuthorized => "Funder has already been authorized.",
            ErrorCode::FunderAlreadyFull => "Funders are full.",
            ErrorCode::FunderDoesNotExist => "Funder does not exist.",
            ErrorCode::CanNotStake => "Can not stake now.",
            ErrorCode::AlreadyStakedAccount => "Already staked account.",
            ErrorCode::MaxStakeCountReached => "Max stake count reached.",
            ErrorCode::StakedAccountDoesNotExist => "Stake account does not exist.",
            ErrorCode::VaultNotReady => "Vault is not ready.",
            ErrorCode::StakeExist => "Staked token exists.",
            ErrorCode::EarnedPendingExist => "Earned pending exists.",
            ErrorCode::NotAuthorized => "Caller is not authorized.",
            ErrorCode::UserExist => "Registered users exist.",
            ErrorCode::RewardPeriodNotOver => "Reward period is not over.",
            ErrorCode::NothingToStake => "Stake account holds no balance.",
            ErrorCode::ArithmeticOverflow => "Arithmetic overflow.",
        }
    }
}

/// A bounded collection of distinct identities, used for a vault's funder
/// slots and a user's staked assets. Capacity checks stay at the call sites,
/// which know their own caps; the collection itself keeps its entries unique.
#[derive(Clone, Debug)]
pub struct IdSet {
    ids: Vec<u64>,
}

impl View for IdSet {
    type V = Seq<u64>;

    closed spec fn view(&self) -> Seq<u64> {
        self.ids@
    }
}

impl IdSet {
    /// The entries are pairwise distinct.
    pub open spec fn wf(self) -> bool {
        self@.no_duplicates()
    }

    pub fn new() -> (s: Self)
        ensures
            s@ == Seq::<u64>::empty(),
            s.wf(),
    {
        IdSet { ids: Vec::new() }
    }

    pub fn len(&self) -> (n: usize)
        ensures
            n == self@.len(),
    {
        self.ids.len()
    }

    pub fn contains(&self, id: u64) -> (found: bool)
        ensures
            found == self@.contains(id),
    {
        let mut i: usize = 0;
        while i < self.ids.len()
            invariant
                i <= self.ids.len(),
                forall|k: int| 0 <= k < i ==> self.ids@[k] != id,
            decreases self.ids.len() - i,
        {
            if self.ids[i] == id {
                proof {
                    assert(self@[i as int] == id);
                }
                return true;
            }
            i = i + 1;
        }
        false
    }

    /// Appends an identity that is not yet present.
    pub fn insert(&mut self, id: u64)
        requires
            old(self).wf(),
            !old(self)@.contains(id),
        ensures
            final(self)@ == old(self)@.push(id),
            final(self).wf(),
    {
        proof {
            let s = self.ids@.push(id);
            assert forall|i: int, j: int|
                0 <= i < s.len() && 0 <= j < s.len() && i != j implies s[i] != s[j] by {
                if i < s.len() - 1 && j < s.len() - 1 {
                    assert(s[i] == self.ids@[i] && s[j] == self.ids@[j]);
                } else if j == s.len() - 1 {
                    assert(self.ids@[i] != id);
                } else {
                    assert(self.ids@[j] != id);
                }
            }
        }
        self.ids.push(id);
    }

    /// Removes an identity that is present, keeping the order of the rest.
    pub fn remove(&mut self, id: u64)
        requires
            old(self).wf(),
            old(self)@.contains(id),
        ensures
            final(self)@ == old(self)@.remove(old(self)@.index_of(id)),
            final(self)@.len() == old(self)@.len() - 1,
            final(self).wf(),
            !final(self)@.contains(id),
            forall|x: u64| x != id ==> (final(self)@.contains(x) <==> old(self)@.contains(x)),
    {
        let ghost s0 = self.ids@;
        let mut i: usize = 0;
        let mut found: usize = 0;
        let mut seen = false;
        while i < self.ids.len()
            invariant
                i <= self.ids.len(),
                self.ids@ == s0,
                !seen ==> forall|k: int| 0 <= k < i ==> s0[k] != id,
                seen ==> found < i && s0[found as int] == id,
            decreases self.ids.len() - i,
        {
            if self.ids[i] == id {
                found = i;
                seen = true;
                proof {
                    assert(s0[i as int] == id);
                }
                i = self.ids.len();
            } else {
                i = i + 1;
            }
        }
        proof {
            if !seen {
                let j = choose|j: int| 0 <= j < s0.len() && s0[j] == id;
                assert(s0[j] != id);
            }
            // With no duplicates, the found position is the unique index of `id`.
            let ix = s0.index_of(id);
            assert(s0[ix] == id);
            assert(found as int == ix);
        }
        self.ids.remove(found);
        proof {
            let s1 = self.ids@;
            let f = found as int;
            assert(s1 == s0.remove(f));
            s0.remove_ensures(f);
            assert forall|i: int, j: int|
                0 <= i < s1.len() && 0 <= j < s1.len() && i != j implies s1[i] != s1[j] by {
                let oi = if i < f { i } else { i + 1 };
                let oj = if j < f { j } else { j + 1 };
                assert(s1[i] == s0[oi] && s1[j] == s0[oj]);
            }
            assert forall|k: int| 0 <= k < s1.len() implies s1[k] != id by {
                let ok = if k < f { k } else { k + 1 };
                assert(s1[k] == s0[ok] && ok != f);
            }
            assert forall|x: u64| x != id && s0.contains(x) implies s1.contains(x) by {
                let j = choose|j: int| 0 <= j < s0.len() && s0[j] == x;
                if j < f {
                    assert(s1[j] == x);
                } else {
                    assert(s1[j - 1] == x);
                }
            }
            assert forall|x: u64| s1.contains(x) implies s0.contains(x) by {
                let k = choose|k: int| 0 <= k < s1.len() && s1[k] == x;
                let ok = if k < f { k } else { k + 1 };
                assert(s0[ok] == x);
            }
        }
    }
}

/// The pool: configuration, reward curve, shared counters, and funder slots.
#[derive(Clone, Debug)]
pub struct Vault {
    /// Identity of the administrator; immutable after creation.
    pub authority: u64,
    /// Lifecycle state.
    pub status: VaultStatus,
    /// Identity of the reward token.
    pub reward_mint: u64,
    /// Account holding the pool-owned reward liquidity.
    pub reward_mint_account: u64,
    /// Length of one reward period, in time units.
    pub reward_duration: u64,
    /// Timestamp at which the current period's rate expires.
    pub reward_duration_deadline: u64,
    /// Reward per slot per time unit, scaled by [`CALC_PRECISION`].
    pub reward_rate: u128,
    /// Divisor in the rate computation: the vault's stakeable slots.
    pub stake_token_count: u32,
    /// Assets currently staked across all users.
    pub staked_count: u32,
    /// Registered users.
    pub user_count: u32,
    /// Identities authorized to fund besides the authority.
    pub funders: IdSet,
}

impl Vault {
    /// Structural invariant: distinct funders, at most
    /// [`MAX_FUNDER_LIMIT`] of them, never the authority itself, and an
    /// initialized vault carries a legal period length.
    pub open spec fn wf(self) -> bool {
        &&& self.funders.wf()
        &&& self.funders@.len() <= MAX_FUNDER_LIMIT
        &&& !self.funders@.contains(self.authority)
        &&& (self.status == VaultStatus::Initialized ==> self.reward_duration >= MIN_DURATION)
    }

    /// The identities allowed to fund this vault.
    pub open spec fn may_fund(self, id: u64) -> bool {
        id == self.authority || self.funders@.contains(id)
    }

    /// A record carrying no state: how a vault looks before creation and
    /// after its storage is reclaimed.
    pub open spec fn is_blank(self) -> bool {
        &&& self.authority == 0
        &&& self.status == VaultStatus::Uninitialized
        &&& self.reward_mint == 0
        &&& self.reward_mint_account == 0
        &&& self.reward_duration == 0
        &&& self.reward_duration_deadline == 0
        &&& self.reward_rate == 0
        &&& self.stake_token_count == 0
        &&& self.staked_count == 0
        &&& self.user_count == 0
        &&& self.funders@ == Seq::<u64>::empty()
    }
}

impl Default for Vault {
    fn default() -> (vault: Self)
        ensures
            vault.is_blank(),
            vault.wf(),
    {
        Vault {
            authority: 0,
            status: VaultStatus::Uninitialized,
            reward_mint: 0,
            reward_mint_account: 0,
            reward_duration: 0,
            reward_duration_deadline: 0,
            reward_rate: 0,
            stake_token_count: 0,
            staked_count: 0,
            user_count: 0,
            funders: IdSet::new(),
        }
    }
}

/// One participant's staking ledger within a vault.
#[derive(Clone, Debug)]
pub struct User {
    /// The owning vault's identity; immutable.
    pub vault: u64,
    /// The participant's identity; immutable.
    pub key: u64,
    /// Total reward already paid out; only ever increases.
    pub reward_earned_claimed: u64,
    /// Reward accrued but not yet paid out.
    pub reward_earned_pending: u64,
    /// Number of assets currently staked by this user.
    pub mint_staked_count: u32,
    /// The asset references currently under this user's stake.
    pub mint_accounts: IdSet,
    /// Timestamp of the last accrual computation for this user.
    pub last_stake_time: u64,
}

impl User {
    /// Structural invariant: distinct staked assets, at most
    /// [`MAX_MINT_LIMIT`] of them, and the counter mirrors the collection.
    pub open spec fn wf(self) -> bool {
        &&& self.mint_accounts.wf()
        &&& self.mint_accounts@.len() <= MAX_MINT_LIMIT
        &&& self.mint_staked_count == self.mint_accounts@.len()
    }
}

} // verus!
