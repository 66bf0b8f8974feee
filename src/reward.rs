use vstd::prelude::*;

use crate::error::StakingError;

verus! {

/// Length of a reward day in ledger seconds.
pub const SECONDS_PER_DAY: u64 = 86400;

/// Reward paid per staked NFT per day, in the reward token's base units
/// (250 tokens of 9 decimals).
pub const REWARD_RATE_PER_DAY: u64 = 250_000_000_000;

/// The rate at which rewards accrue.
#[derive(Debug, Clone, Copy, PartialEq, Eq, Structural)]
pub struct RewardConfig {
    /// Base units of reward earned per day.
    pub rate_per_day: u64,
    /// Seconds in one day.
    pub seconds_per_day: u64,
}

impl RewardConfig {
    /// The rate this program pays: 250 tokens per 86400-second day.
    pub fn standard() -> (r: RewardConfig)
        ensures
            r.rate_per_day == REWARD_RATE_PER_DAY,
            r.seconds_per_day == SECONDS_PER_DAY,
    {
        RewardConfig { rate_per_day: REWARD_RATE_PER_DAY, seconds_per_day: SECONDS_PER_DAY }
    }
}

/// The outcome of one reward computation.
#[derive(Debug, Clone, Copy, PartialEq, Eq, Structural)]
pub struct Accrual {
    /// What is paid out now.
    pub payable: u64,
    /// The claim checkpoint after paying.
    pub new_last_claim_time: i64,
    /// Whether everything owed up to now was paid.
    pub fully_paid: bool,
}

/// Reward owed for the seconds from `last` to `now`, before any rounding to
/// the output type: `floor(elapsed * rate / seconds_per_day)`.
pub open spec fn entitlement(now: i64, last: i64, config: RewardConfig) -> int {
    ((now - last) * config.rate_per_day) / (config.seconds_per_day as int)
}

/// How far a partial payout of `balance` moves the checkpoint: the whole days
/// that `balance` pays for, never past `now`.
pub open spec fn partial_advance(now: i64, last: i64, config: RewardConfig, balance: u64) -> int {
    let whole_days = (balance / config.rate_per_day) * config.seconds_per_day;
    if whole_days > now - last {
        now - last
    } else {
        whole_days
    }
}

/// What a claim at `now`, with checkpoint `last` and `balance` in the
/// treasury, pays and where it leaves the checkpoint.
pub open spec fn accrual(now: i64, last: i64, config: RewardConfig, balance: u64) -> Result<
    Accrual,
    StakingError,
> {
    if now <= last {
        Ok(Accrual { payable: 0, new_last_claim_time: last, fully_paid: true })
    } else if config.seconds_per_day == 0 {
        Err(StakingError::ArithmeticOverflow)
    } else if entitlement(now, last, config) > u64::MAX {
        Err(StakingError::ArithmeticOverflow)
    } else if entitlement(now, last, config) == 0 {
        Ok(Accrual { payable: 0, new_last_claim_time: last, fully_paid: true })
    } else if balance >= entitlement(now, last, config) {
        Ok(
            Accrual {
                payable: entitlement(now, last, config) as u64,
                new_last_claim_time: now,
                fully_paid: true,
            },
        )
    } else if balance == 0 {
        Err(StakingError::InsufficientRewards)
    } else {
        Ok(
            Accrual {
                payable: balance,
                new_last_claim_time: (last + partial_advance(now, last, config, balance)) as i64,
                fully_paid: false,
            },
        )
    }
}

proof fn lemma_mul_bound(a: u64, b: u64)
    ensures
        (a as int) * (b as int) <= u128::MAX,
        (a as int) * (b as int) >= 0,
{
    assert((a as int) * (b as int) <= (u64::MAX as int) * (u64::MAX as int)) by (nonlinear_arith);
    assert((a as int) * (b as int) >= 0) by (nonlinear_arith);
}

proof fn lemma_entitlement_monotone(x: int, y: int, rate: int, spd: int)
    requires
        0 <= x <= y,
        rate >= 0,
        spd > 0,
    ensures
        (x * rate) / spd <= (y * rate) / spd,
        (x * rate) / spd >= 0,
{
    assert(x * rate <= y * rate) by (nonlinear_arith)
        requires
            0 <= x <= y,
            rate >= 0,
    ;
    assert(x * rate >= 0) by (nonlinear_arith)
        requires
            0 <= x,
            rate >= 0,
    ;
    vstd::arithmetic::div_mod::lemma_div_is_ordered(x * rate, y * rate, spd);
    vstd::arithmetic::div_mod::lemma_div_pos_is_pos(x * rate, spd);
}

/// Computes what a claim pays: the reward owed since the checkpoint, capped
/// by the treasury, and the checkpoint that results.
pub fn compute_rewards(
    now: i64,
    last_claim_time: i64,
    config: &RewardConfig,
    treasury_balance: u64,
) -> (r: Result<Accrual, StakingError>)
    ensures
        r == accrual(now, last_claim_time, *config, treasury_balance),
{
    if now <= last_claim_time {
        return Ok(Accrual { payable: 0, new_last_claim_time: last_claim_time, fully_paid: true });
    }
    let elapsed: u64 = (now as i128 - last_claim_time as i128) as u64;
    if config.seconds_per_day == 0 {
        return Err(StakingError::ArithmeticOverflow);
    }
    proof {
        lemma_mul_bound(elapsed, config.rate_per_day);
        lemma_entitlement_monotone(
            elapsed as int,
            elapsed as int,
            config.rate_per_day as int,
            config.seconds_per_day as int,
        );
    }
    let product: u128 = (elapsed as u128) * (config.rate_per_day as u128);
    let owed_wide: u128 = product / (config.seconds_per_day as u128);
    if owed_wide > u64::MAX as u128 {
        return Err(StakingError::ArithmeticOverflow);
    }
    let owed: u64 = owed_wide as u64;
    if owed == 0 {
        return Ok(Accrual { payable: 0, new_last_claim_time: last_claim_time, fully_paid: true });
    }
    if treasury_balance >= owed {
        return Ok(Accrual { payable: owed, new_last_claim_time: now, fully_paid: true });
    }
    if treasury_balance == 0 {
        return Err(StakingError::InsufficientRewards);
    }
    // A positive entitlement needs a positive rate.
    assert(config.rate_per_day > 0) by {
        if config.rate_per_day == 0 {
            assert((elapsed as int) * 0 == 0);
        }
    }
    let days: u64 = treasury_balance / config.rate_per_day;
    proof {
        lemma_mul_bound(days, config.seconds_per_day);
    }
    let whole_days: u128 = (days as u128) * (config.seconds_per_day as u128);
    let advance: u64 = if whole_days > elapsed as u128 {
        elapsed
    } else {
        whole_days as u64
    };
    let new_last: i64 = (last_claim_time as i128 + advance as i128) as i64;
    Ok(Accrual { payable: treasury_balance, new_last_claim_time: new_last, fully_paid: false })
}

/// A claim never pays more than the treasury holds, and its checkpoint only
/// moves forward, never past the time of the claim.
pub proof fn lemma_accrual_bounds(now: i64, last: i64, config: RewardConfig, balance: u64)
    requires
        accrual(now, last, config, balance) is Ok,
    ensures
        ({
            let a = accrual(now, last, config, balance).unwrap();
            &&& a.payable <= balance
            &&& last <= a.new_last_claim_time
            &&& (now > last ==> a.new_last_claim_time <= now)
            &&& (a.payable == 0 ==> a.new_last_claim_time == last)
        }),
{
}

/// Claiming again at the same time, against the treasury that the first
/// claim left, pays nothing and keeps the checkpoint: the second claim
/// succeeds with nothing to pay, or finds the treasury empty. After a claim
/// that paid in full it always succeeds with nothing to pay.
pub proof fn lemma_claim_twice_pays_nothing(now: i64, last: i64, config: RewardConfig, balance: u64)
    requires
        accrual(now, last, config, balance) is Ok,
    ensures
        ({
            let a = accrual(now, last, config, balance).unwrap();
            let second = accrual(now, a.new_last_claim_time, config, (balance - a.payable) as u64);
            &&& match second {
                Ok(b) => b.payable == 0 && b.new_last_claim_time == a.new_last_claim_time,
                Err(e) => e == StakingError::InsufficientRewards,
            }
            &&& (a.fully_paid ==> second == Ok::<Accrual, StakingError>(
                Accrual { payable: 0, new_last_claim_time: a.new_last_claim_time, fully_paid: true },
            ))
        }),
{
    let a = accrual(now, last, config, balance).unwrap();
    if now > last && config.seconds_per_day > 0 {
        lemma_entitlement_monotone(
            now - a.new_last_claim_time,
            now - last,
            config.rate_per_day as int,
            config.seconds_per_day as int,
        );
    }
}

} // verus!
