use vstd::prelude::*;

use crate::error::RwaError;

verus! {

pub const SECONDS_PER_YEAR: u64 = 31_536_000;

pub const SECONDS_PER_DAY: u64 = 86_400;

/// Nominal yearly yield of the annual-rate policy, in percent.
pub const ANNUAL_YIELD_PERCENT: u64 = 6;

/// Population that counts as one step of the population multiplier.
pub const POPULATION_PER_STEP: u64 = 1_000_000;

pub const MIN_MULTIPLIER: u64 = 5;

pub const MAX_MULTIPLIER: u64 = 10;

/// How a stake position accrues rewards, chosen by the deployment.
#[derive(Clone, Copy, Debug, PartialEq, Eq, Structural)]
pub enum RewardPolicy {
    /// A yearly yield on the staked tokens' value in settlement currency,
    /// paid from the settlement vault. A zero reward on claim is an error.
    AnnualRate { city_price_usd: u64, sol_price_usd: u64 },
    /// A daily reward in a distinct reward token, scaled by the city's
    /// population, paid from the reward pool. A zero reward is no error.
    PopulationMultiplier { population: u64, base_rate: u64 },
}

/// Whole seconds from `start` to `now`; zero when `now` is not later.
pub open spec fn elapsed_since(start: i64, now: i64) -> nat {
    if now > start {
        (now - start) as nat
    } else {
        0
    }
}

/// `population / POPULATION_PER_STEP`, kept between the two multiplier bounds.
pub open spec fn population_multiplier(population: u64) -> int {
    let steps = population as int / POPULATION_PER_STEP as int;
    if steps < MIN_MULTIPLIER {
        MIN_MULTIPLIER as int
    } else if steps > MAX_MULTIPLIER {
        MAX_MULTIPLIER as int
    } else {
        steps
    }
}

/// Reward of the annual-rate policy for `staked` tokens over `elapsed`
/// seconds: value in settlement currency, times seconds, times the yield,
/// over a year; or the arithmetic error.
pub open spec fn annual_reward(staked: u64, city_price_usd: u64, sol_price_usd: u64, elapsed: u64) -> Result<u64, RwaError> {
    if staked * city_price_usd > u64::MAX {
        Err(RwaError::Overflow)
    } else if sol_price_usd == 0 {
        Err(RwaError::DivideByZero)
    } else {
        let value = (staked * city_price_usd) / sol_price_usd as int;
        if value * elapsed > u64::MAX || value * elapsed * ANNUAL_YIELD_PERCENT > u64::MAX {
            Err(RwaError::Overflow)
        } else {
            Ok((value * elapsed * ANNUAL_YIELD_PERCENT / 100 / SECONDS_PER_YEAR as int) as u64)
        }
    }
}

/// Reward of the population-multiplier policy for `staked` tokens over
/// `elapsed` seconds: tokens times whole days times multiplier times base
/// rate; or the arithmetic error.
pub open spec fn population_reward(staked: u64, population: u64, base_rate: u64, elapsed: u64) -> Result<u64, RwaError> {
    let days = elapsed as int / SECONDS_PER_DAY as int;
    let multiplier = population_multiplier(population);
    if staked * days > u64::MAX || staked * days * multiplier > u64::MAX || staked * days * multiplier
        * base_rate > u64::MAX {
        Err(RwaError::Overflow)
    } else {
        Ok((staked * days * multiplier * base_rate) as u64)
    }
}

/// Reward that `policy` gives `staked` tokens over `elapsed` seconds.
pub open spec fn reward_quote(policy: RewardPolicy, staked: u64, elapsed: u64) -> Result<u64, RwaError> {
    match policy {
        RewardPolicy::AnnualRate { city_price_usd, sol_price_usd } => annual_reward(
            staked,
            city_price_usd,
            sol_price_usd,
            elapsed,
        ),
        RewardPolicy::PopulationMultiplier { population, base_rate } => population_reward(
            staked,
            population,
            base_rate,
            elapsed,
        ),
    }
}

impl RewardPolicy {
    /// Whether the inputs carry a zero price that the policy divides by or
    /// values with.
    pub open spec fn spec_has_invalid_price(&self) -> bool {
        match *self {
            RewardPolicy::AnnualRate { city_price_usd, sol_price_usd } => city_price_usd == 0
                || sol_price_usd == 0,
            RewardPolicy::PopulationMultiplier { .. } => false,
        }
    }

    pub open spec fn spec_is_annual(&self) -> bool {
        self is AnnualRate
    }

    pub fn has_invalid_price(&self) -> (r: bool)
        ensures
            r == self.spec_has_invalid_price(),
    {
        match self {
            RewardPolicy::AnnualRate { city_price_usd, sol_price_usd } => *city_price_usd == 0
                || *sol_price_usd == 0,
            RewardPolicy::PopulationMultiplier { .. } => false,
        }
    }

    pub fn is_annual(&self) -> (r: bool)
        ensures
            r == self.spec_is_annual(),
    {
        match self {
            RewardPolicy::AnnualRate { .. } => true,
            RewardPolicy::PopulationMultiplier { .. } => false,
        }
    }

    /// Checked computation of `reward_quote`.
    pub fn compute_reward(&self, staked: u64, elapsed: u64) -> (r: Result<u64, RwaError>)
        ensures
            r == reward_quote(*self, staked, elapsed),
    {
        match self {
            RewardPolicy::AnnualRate { city_price_usd, sol_price_usd } => {
                let value_usd = match staked.checked_mul(*city_price_usd) {
                    Some(v) => v,
                    None => return Err(RwaError::Overflow),
                };
                if *sol_price_usd == 0 {
                    return Err(RwaError::DivideByZero);
                }
                let value = value_usd / *sol_price_usd;
                let over_time = match value.checked_mul(elapsed) {
                    Some(v) => v,
                    None => return Err(RwaError::Overflow),
                };
                let with_yield = match over_time.checked_mul(ANNUAL_YIELD_PERCENT) {
                    Some(v) => v,
                    None => return Err(RwaError::Overflow),
                };
                Ok(with_yield / 100 / SECONDS_PER_YEAR)
            },
            RewardPolicy::PopulationMultiplier { population, base_rate } => {
                let days = elapsed / SECONDS_PER_DAY;
                let multiplier = multiplier_for(*population);
                let staked_days = match staked.checked_mul(days) {
                    Some(v) => v,
                    None => return Err(RwaError::Overflow),
                };
                let scaled = match staked_days.checked_mul(multiplier) {
                    Some(v) => v,
                    None => return Err(RwaError::Overflow),
                };
                match scaled.checked_mul(*base_rate) {
                    Some(v) => Ok(v),
                    None => Err(RwaError::Overflow),
                }
            },
        }
    }
}

/// Exec form of `population_multiplier`.
pub fn multiplier_for(population: u64) -> (r: u64)
    ensures
        r == population_multiplier(population),
{
    let steps = population / POPULATION_PER_STEP;
    if steps < MIN_MULTIPLIER {
        MIN_MULTIPLIER
    } else if steps > MAX_MULTIPLIER {
        MAX_MULTIPLIER
    } else {
        steps
    }
}

/// Exec form of `elapsed_since`.
pub fn elapsed_seconds(start: i64, now: i64) -> (r: u64)
    ensures
        r == elapsed_since(start, now),
{
    if now > start {
        let diff: i128 = now as i128 - start as i128;
        diff as u64
    } else {
        0
    }
}

} // verus!
