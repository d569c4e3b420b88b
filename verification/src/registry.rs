//! Settler registry: settler profiles with stake, reputation and track record.
use vstd::prelude::*;

use crate::errors::Refusal;
use crate::types::{Account, Digest};

verus! {

/// A capability code that a settler advertises.
pub type Capability = u32;

/// The reputation a newly registered settler starts with.
pub const INITIAL_REPUTATION: u32 = 500;

/// The reputation a slash costs.
pub const SLASH_PENALTY: u32 = 50;

/// The reputation a recorded success earns.
pub const SUCCESS_REWARD: u32 = 5;

/// Successes earn reputation only below this level.
pub const REPUTATION_CAP: u32 = 1000;

pub struct SettlerProfile {
    pub owner: Account,
    pub active: bool,
    pub stake: i128,
    pub reputation: u32,
    pub completed: u32,
    pub failed: u32,
    pub capabilities: Vec<Capability>,
    pub metadata_hash: Digest,
}

/// The registry contract's instance state.
#[derive(Clone, Copy, Debug, PartialEq, Eq)]
pub struct RegistryConfig {
    pub admin: Account,
    pub treasury: Account,
    pub stake_token: Account,
    pub min_stake: i128,
}

/// The fields of a profile apart from its capabilities.
pub open spec fn profile_record(p: SettlerProfile) -> (Account, bool, i128, u32, u32, u32, Digest) {
    (p.owner, p.active, p.stake, p.reputation, p.completed, p.failed, p.metadata_hash)
}

/// The part of a slash that the stake can cover.
pub open spec fn slash_taken(stake: i128, amount: i128) -> i128 {
    if amount > stake {
        stake
    } else {
        amount
    }
}

/// Reputation after a slash: lowered by the penalty, never below zero.
pub open spec fn reputation_after_slash(reputation: u32) -> u32 {
    if reputation >= SLASH_PENALTY {
        (reputation - SLASH_PENALTY) as u32
    } else {
        0
    }
}

/// Reputation after a success: raised by the reward while below the cap.
pub open spec fn reputation_after_success(reputation: u32) -> u32 {
    if reputation < REPUTATION_CAP {
        (reputation + SUCCESS_REWARD) as u32
    } else {
        reputation
    }
}

pub open spec fn eligible(p: SettlerProfile, min_stake: i128) -> bool {
    p.active && p.stake >= min_stake
}

/// A slash never takes more than the stake and never leaves a non-negative
/// stake below zero, whatever amount it asks for.
pub proof fn law_slash_never_overdraws(stake: i128, amount: i128)
    requires
        stake >= 0,
    ensures
        slash_taken(stake, amount) <= stake,
        stake - slash_taken(stake, amount) >= 0,
        amount >= 0 ==> slash_taken(stake, amount) >= 0,
{
}

/// Reputation stays within the band that registration starts in and the
/// success rewards can reach: never above the cap plus one reward.
pub proof fn law_reputation_stays_bounded(reputation: u32)
    requires
        reputation < REPUTATION_CAP + SUCCESS_REWARD,
    ensures
        reputation_after_success(reputation) < REPUTATION_CAP + SUCCESS_REWARD,
        reputation_after_slash(reputation) <= reputation,
        INITIAL_REPUTATION < REPUTATION_CAP + SUCCESS_REWARD,
{
}

/// The registry contract.
pub struct RegistryContract;

impl RegistryContract {
    /// The initial state; refused when an admin is already stored.
    pub fn init(
        has_admin: bool,
        admin: Account,
        treasury: Account,
        stake_token: Account,
        min_stake: i128,
    ) -> (r: Result<RegistryConfig, Refusal>)
        ensures
            r == (if has_admin {
                Err(Refusal::AlreadyInitialized)
            } else {
                Ok(RegistryConfig { admin, treasury, stake_token, min_stake })
            }),
    {
        if has_admin {
            return Err(Refusal::AlreadyInitialized);
        }
        Ok(RegistryConfig { admin, treasury, stake_token, min_stake })
    }

    /// A new, active profile with no stake and no record; refused when the
    /// settler already has a profile.
    pub fn register(
        exists: bool,
        settler: Account,
        metadata_hash: Digest,
        capabilities: Vec<Capability>,
    ) -> (r: Result<SettlerProfile, Refusal>)
        ensures
            exists ==> r == Err::<SettlerProfile, Refusal>(Refusal::SettlerExists),
            !exists ==> (r matches Ok(p) && profile_record(p) == (
                settler,
                true,
                0i128,
                INITIAL_REPUTATION,
                0u32,
                0u32,
                metadata_hash,
            ) && p.capabilities@ == capabilities@),
    {
        if exists {
            return Err(Refusal::SettlerExists);
        }
        Ok(
            SettlerProfile {
                owner: settler,
                active: true,
                stake: 0,
                reputation: INITIAL_REPUTATION,
                completed: 0,
                failed: 0,
                capabilities,
                metadata_hash,
            },
        )
    }

    pub fn update_capabilities(p: &mut SettlerProfile, capabilities: Vec<Capability>)
        ensures
            profile_record(*final(p)) == profile_record(*old(p)),
            final(p).capabilities@ == capabilities@,
    {
        p.capabilities = capabilities;
    }

    /// Adds a deposit to the stake; refused when the sum leaves the stake's range.
    pub fn deposit_stake(p: &mut SettlerProfile, amount: i128) -> (r: Result<(), Refusal>)
        ensures
            final(p).capabilities@ == old(p).capabilities@,
            i128::MIN <= old(p).stake + amount <= i128::MAX ==> r is Ok && profile_record(
                *final(p),
            ) == profile_record(
                SettlerProfile { stake: (old(p).stake + amount) as i128, ..*old(p) },
            ),
            !(i128::MIN <= old(p).stake + amount <= i128::MAX) ==> r == Err::<(), Refusal>(
                Refusal::ArithmeticOverflow,
            ) && profile_record(*final(p)) == profile_record(*old(p)),
    {
        match p.stake.checked_add(amount) {
            Some(stake) => {
                p.stake = stake;
                Ok(())
            },
            None => Err(Refusal::ArithmeticOverflow),
        }
    }

    /// Slashes up to `amount` from the stake, records a failure and lowers the
    /// reputation; returns what was taken. Refused when the stake or the
    /// failure count would leave its range.
    pub fn slash(p: &mut SettlerProfile, amount: i128) -> (r: Result<i128, Refusal>)
        ensures
            final(p).capabilities@ == old(p).capabilities@,
            ({
                let taken = slash_taken(old(p).stake, amount);
                if old(p).failed < u32::MAX && i128::MIN <= old(p).stake - taken <= i128::MAX {
                    &&& r == Ok::<i128, Refusal>(taken)
                    &&& profile_record(*final(p)) == profile_record(
                        SettlerProfile {
                            stake: (old(p).stake - taken) as i128,
                            failed: (old(p).failed + 1) as u32,
                            reputation: reputation_after_slash(old(p).reputation),
                            ..*old(p)
                        },
                    )
                } else {
                    &&& r == Err::<i128, Refusal>(Refusal::ArithmeticOverflow)
                    &&& profile_record(*final(p)) == profile_record(*old(p))
                }
            }),
    {
        let taken = if amount > p.stake {
            p.stake
        } else {
            amount
        };
        let stake = match p.stake.checked_sub(taken) {
            Some(s) => s,
            None => return Err(Refusal::ArithmeticOverflow),
        };
        if p.failed == u32::MAX {
            return Err(Refusal::ArithmeticOverflow);
        }
        p.stake = stake;
        p.failed = p.failed + 1;
        if p.reputation >= SLASH_PENALTY {
            p.reputation = p.reputation - SLASH_PENALTY;
        } else {
            p.reputation = 0;
        }
        Ok(taken)
    }

    /// Records a completed settlement; refused when the count is at its maximum.
    pub fn record_success(p: &mut SettlerProfile) -> (r: Result<(), Refusal>)
        ensures
            final(p).capabilities@ == old(p).capabilities@,
            old(p).completed < u32::MAX ==> r is Ok && profile_record(*final(p))
                == profile_record(
                SettlerProfile {
                    completed: (old(p).completed + 1) as u32,
                    reputation: reputation_after_success(old(p).reputation),
                    ..*old(p)
                },
            ),
            old(p).completed == u32::MAX ==> r == Err::<(), Refusal>(Refusal::ArithmeticOverflow)
                && profile_record(*final(p)) == profile_record(*old(p)),
    {
        if p.completed == u32::MAX {
            return Err(Refusal::ArithmeticOverflow);
        }
        p.completed = p.completed + 1;
        if p.reputation < REPUTATION_CAP {
            p.reputation = p.reputation + SUCCESS_REWARD;
        }
        Ok(())
    }

    pub fn set_active(p: &mut SettlerProfile, active: bool)
        ensures
            profile_record(*final(p)) == profile_record(SettlerProfile { active, ..*old(p) }),
            final(p).capabilities@ == old(p).capabilities@,
    {
        p.active = active;
    }

    /// An active settler with at least the minimum stake may settle.
    pub fn is_eligible(p: &SettlerProfile, min_stake: i128) -> (r: bool)
        ensures
            r == eligible(*p, min_stake),
    {
        p.active && p.stake >= min_stake
    }
}

} // verus!
