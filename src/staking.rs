use vstd::prelude::*;

use crate::error::RwaError;
use crate::key::Key;
use crate::reward::{elapsed_seconds, elapsed_since, population_multiplier, reward_quote, RewardPolicy};
use crate::state::{Authority, UserStake, Vault};
use crate::vault::{vault_apply, VaultOp};

verus! {

/// A reward handed out by a claim or an unstake.
#[derive(Clone, Copy, Debug, PartialEq, Eq, Structural)]
pub enum Payout {
    Nothing,
    /// Settlement currency from the settlement vault; already taken out of
    /// the vault's balance.
    Settlement { amount: u64 },
    /// Reward tokens from the reward pool's holding.
    RewardToken { amount: u64 },
}

/// The settlement vault and payout after paying `reward` under `policy`, or
/// the error that rejects it.
pub open spec fn payout_step(policy: RewardPolicy, vault: Vault, reward: u64) -> Result<(Vault, Payout), RwaError> {
    if reward == 0 {
        Ok((vault, Payout::Nothing))
    } else if policy.spec_is_annual() {
        match vault_apply(vault.balance, VaultOp::Withdraw(reward)) {
            Ok(balance) => Ok((Vault { balance, ..vault }, Payout::Settlement { amount: reward })),
            Err(e) => Err(e),
        }
    } else {
        Ok((vault, Payout::RewardToken { amount: reward }))
    }
}

fn pay_reward(vault: &mut Vault, proof: &Authority, policy: &RewardPolicy, reward: u64) -> (r: Result<Payout, RwaError>)
    requires
        proof.spec_controls_vault(*old(vault)),
    ensures
        match payout_step(*policy, *old(vault), reward) {
            Ok((after, payout)) => r == Ok::<Payout, RwaError>(payout) && *final(vault) == after,
            Err(e) => r == Err::<Payout, RwaError>(e) && *final(vault) == *old(vault),
        },
{
    if reward == 0 {
        Ok(Payout::Nothing)
    } else if policy.is_annual() {
        match vault.withdraw(reward, proof) {
            Ok(()) => Ok(Payout::Settlement { amount: reward }),
            Err(e) => Err(e),
        }
    } else {
        Ok(Payout::RewardToken { amount: reward })
    }
}

/// The records a stake reads and writes: the staker, the city token, the
/// stake position and the escrow holding that the position owns.
#[derive(Clone, Copy, Debug)]
pub struct StakeCity {
    pub user: Key,
    pub city_mint: Key,
    pub user_stake: UserStake,
    pub stake_vault_ata: Key,
}

/// The records an unstake reads and writes.
#[derive(Clone, Copy, Debug)]
pub struct UnstakeCity {
    pub user: Key,
    pub admin: Key,
    pub city_mint: Key,
    pub admin_vault: Vault,
    pub user_stake: UserStake,
    pub stake_vault_ata: Key,
}

/// What an accepted unstake owes the outside world: the reward payout, and
/// `returned` tokens moved from the escrow back to the staker under the
/// position's capability.
#[derive(Clone, Copy, Debug)]
pub struct UnstakeReceipt {
    pub reward: Payout,
    pub returned: u64,
}

/// The records a claim reads and writes.
#[derive(Clone, Copy, Debug)]
pub struct ClaimReward {
    pub user: Key,
    pub admin: Key,
    pub admin_vault: Vault,
    pub city_mint: Key,
    pub user_stake: UserStake,
}

/// The records a position close reads: the staker, the city token, the
/// position, and the reserve held by the position's storage.
#[derive(Clone, Copy, Debug)]
pub struct CloseStake {
    pub user: Key,
    pub city_mint: Key,
    pub user_stake: UserStake,
    pub reserve_lamports: u64,
}

/// The records after a stake, or the error that rejects it.
pub open spec fn stake_step(ctx: StakeCity, amount: u64, stake_bump: u8, now: i64) -> Result<StakeCity, RwaError> {
    let stake = ctx.user_stake;
    let created = stake.owner.spec_is_unset();
    let staked: int = if created { 0 } else { stake.staked_amount as int };
    if amount == 0 {
        Err(RwaError::InvalidAmount)
    } else if staked + amount > u64::MAX {
        Err(RwaError::Overflow)
    } else {
        Ok(
            StakeCity {
                user_stake: UserStake {
                    owner: if created { ctx.user } else { stake.owner },
                    city_mint: if created { ctx.city_mint } else { stake.city_mint },
                    staked_amount: (staked + amount) as u64,
                    stake_start: if staked == 0 { now } else { stake.stake_start },
                    vault_ata: if created { ctx.stake_vault_ata } else { stake.vault_ata },
                    bump: if created { stake_bump } else { stake.bump },
                },
                ..ctx
            },
        )
    }
}

/// The records and receipt after an unstake, or the error that rejects it.
pub open spec fn unstake_step(ctx: UnstakeCity, amount: u64, policy: RewardPolicy, now: i64) -> Result<
    (UnstakeCity, UnstakeReceipt),
    RwaError,
> {
    let stake = ctx.user_stake;
    if amount == 0 {
        Err(RwaError::InvalidAmount)
    } else if stake.staked_amount < amount {
        Err(RwaError::InsufficientStakedAmount)
    } else if policy.spec_has_invalid_price() {
        Err(RwaError::InvalidPrice)
    } else {
        match reward_quote(policy, stake.staked_amount, elapsed_since(stake.stake_start, now) as u64) {
            Err(e) => Err(e),
            Ok(reward) => match payout_step(policy, ctx.admin_vault, reward) {
                Err(e) => Err(e),
                Ok((vault, payout)) => {
                    let left = stake.staked_amount - amount;
                    let after = UserStake {
                        staked_amount: left as u64,
                        stake_start: if left == 0 { 0 } else { stake.stake_start },
                        ..stake
                    };
                    Ok((
                        UnstakeCity { admin_vault: vault, user_stake: after, ..ctx },
                        UnstakeReceipt { reward: payout, returned: amount },
                    ))
                },
            },
        }
    }
}

/// The records and payout after a claim, or the error that rejects it.
pub open spec fn claim_step(ctx: ClaimReward, policy: RewardPolicy, now: i64) -> Result<(ClaimReward, Payout), RwaError> {
    let stake = ctx.user_stake;
    if stake.staked_amount == 0 {
        Err(RwaError::NothingStaked)
    } else if policy.spec_has_invalid_price() {
        Err(RwaError::InvalidPrice)
    } else {
        match reward_quote(policy, stake.staked_amount, elapsed_since(stake.stake_start, now) as u64) {
            Err(e) => Err(e),
            Ok(reward) => {
                if policy.spec_is_annual() && reward == 0 {
                    Err(RwaError::NoRewardsAvailable)
                } else {
                    match payout_step(policy, ctx.admin_vault, reward) {
                        Err(e) => Err(e),
                        Ok((vault, payout)) => Ok((
                            ClaimReward {
                                admin_vault: vault,
                                user_stake: UserStake { stake_start: now, ..stake },
                                ..ctx
                            },
                            payout,
                        )),
                    }
                }
            },
        }
    }
}

/// Takes `amount` out of the position, for the holder of the position's
/// capability; the accrual clock stops when nothing is left.
fn release_from_escrow(stake: &mut UserStake, amount: u64, proof: &Authority)
    requires
        proof.spec_controls_position(*old(stake)),
        amount <= old(stake).staked_amount,
    ensures
        final(stake).staked_amount == old(stake).staked_amount - amount,
        final(stake).stake_start == (if final(stake).staked_amount == 0 {
            0
        } else {
            old(stake).stake_start
        }),
        final(stake).owner == old(stake).owner,
        final(stake).city_mint == old(stake).city_mint,
        final(stake).vault_ata == old(stake).vault_ata,
        final(stake).bump == old(stake).bump,
{
    stake.staked_amount = stake.staked_amount - amount;
    if stake.staked_amount == 0 {
        stake.stake_start = 0;
    }
}

impl StakeCity {
    /// Moves `amount` tokens of the staker into the position's escrow,
    /// creating the position on first use and starting the accrual clock at
    /// `now` when nothing was staked.
    ///
    /// Rejects a zero amount (`InvalidAmount`) and a stake that would not
    /// fit (`Overflow`), leaving the records as they were.
    pub fn stake_city(&mut self, amount: u64, stake_bump: u8, now: i64) -> (r: Result<(), RwaError>)
        ensures
            match stake_step(*old(self), amount, stake_bump, now) {
                Ok(after) => r is Ok && *final(self) == after,
                Err(e) => r == Err::<(), RwaError>(e) && *final(self) == *old(self),
            },
            now != 0 && (old(self).user_stake.wf() || (old(self).user_stake.owner.spec_is_unset()
                && r is Ok)) ==> final(self).user_stake.wf(),
    {
        if amount == 0 {
            return Err(RwaError::InvalidAmount);
        }
        let created = self.user_stake.owner.is_unset();
        let staked: u64 = if created { 0 } else { self.user_stake.staked_amount };
        let total = match staked.checked_add(amount) {
            Some(t) => t,
            None => return Err(RwaError::Overflow),
        };
        if created {
            self.user_stake.owner = self.user;
            self.user_stake.city_mint = self.city_mint;
            self.user_stake.vault_ata = self.stake_vault_ata;
            self.user_stake.bump = stake_bump;
        }
        if staked == 0 {
            self.user_stake.stake_start = now;
        }
        self.user_stake.staked_amount = total;
        Ok(())
    }
}

impl UnstakeCity {
    /// Whether the records carry the capabilities that an unstake acts
    /// under: the vault's, from the administrator and `vault_bump`, and the
    /// position's, from the staker and the city token.
    pub open spec fn spec_capabilities_hold(&self, vault_bump: u8) -> bool {
        &&& self.admin == self.admin_vault.authority
        &&& vault_bump == self.admin_vault.bump
        &&& self.user == self.user_stake.owner
        &&& self.city_mint == self.user_stake.city_mint
    }

    /// Pays the reward accrued so far under `policy` (when it is positive)
    /// and returns `amount` staked tokens from the escrow.
    ///
    /// When something stays staked the accrual clock keeps running from its
    /// start: the next claim counts that whole span again. When nothing
    /// stays, the clock stops.
    ///
    /// Rejects a zero amount (`InvalidAmount`), more than is staked
    /// (`InsufficientStakedAmount`), a zero price (`InvalidPrice`), a reward
    /// above the vault balance (`InsufficientFunds`) and any overflow,
    /// leaving the records as they were.
    pub fn unstake_city(&mut self, amount: u64, vault_bump: u8, policy: RewardPolicy, now: i64) -> (r: Result<
        UnstakeReceipt,
        RwaError,
    >)
        requires
            old(self).spec_capabilities_hold(vault_bump),
        ensures
            match unstake_step(*old(self), amount, policy, now) {
                Ok((after, receipt)) => r == Ok::<UnstakeReceipt, RwaError>(receipt) && *final(self) == after,
                Err(e) => r == Err::<UnstakeReceipt, RwaError>(e) && *final(self) == *old(self),
            },
            amount > old(self).user_stake.staked_amount ==> r == Err::<UnstakeReceipt, RwaError>(
                RwaError::InsufficientStakedAmount,
            ) && *final(self) == *old(self),
            old(self).user_stake.wf() ==> final(self).user_stake.wf(),
    {
        if amount == 0 {
            return Err(RwaError::InvalidAmount);
        }
        let staked = self.user_stake.staked_amount;
        if staked < amount {
            return Err(RwaError::InsufficientStakedAmount);
        }
        if policy.has_invalid_price() {
            return Err(RwaError::InvalidPrice);
        }
        let elapsed = elapsed_seconds(self.user_stake.stake_start, now);
        let reward = match policy.compute_reward(staked, elapsed) {
            Ok(v) => v,
            Err(e) => return Err(e),
        };
        let vault_proof = Authority::vault(self.admin, vault_bump);
        let mut vault = self.admin_vault;
        let payout = match pay_reward(&mut vault, &vault_proof, &policy, reward) {
            Ok(p) => p,
            Err(e) => return Err(e),
        };
        let escrow_proof = Authority::position(self.user, self.city_mint, self.user_stake.bump);
        self.admin_vault = vault;
        release_from_escrow(&mut self.user_stake, amount, &escrow_proof);
        Ok(UnstakeReceipt { reward: payout, returned: amount })
    }
}

impl ClaimReward {
    /// Whether the administrator and `vault_bump` derive the vault's
    /// capability.
    pub open spec fn spec_vault_bound(&self, vault_bump: u8) -> bool {
        self.admin == self.admin_vault.authority && vault_bump == self.admin_vault.bump
    }

    /// Pays the reward accrued under `policy` since the accrual clock
    /// started, then restarts the clock at `now`; the stake is untouched.
    ///
    /// Rejects an empty position (`NothingStaked`), a zero price
    /// (`InvalidPrice`), a reward above the vault balance
    /// (`InsufficientFunds`) and any overflow; under the annual-rate policy a
    /// zero reward is rejected too (`NoRewardsAvailable`), while under the
    /// population-multiplier policy it pays nothing. Rejections leave the
    /// records as they were.
    pub fn claim_reward(&mut self, vault_bump: u8, policy: RewardPolicy, now: i64) -> (r: Result<Payout, RwaError>)
        requires
            old(self).spec_vault_bound(vault_bump),
        ensures
            match claim_step(*old(self), policy, now) {
                Ok((after, payout)) => r == Ok::<Payout, RwaError>(payout) && *final(self) == after,
                Err(e) => r == Err::<Payout, RwaError>(e) && *final(self) == *old(self),
            },
            old(self).user_stake.wf() && now != 0 ==> final(self).user_stake.wf(),
    {
        let staked = self.user_stake.staked_amount;
        if staked == 0 {
            return Err(RwaError::NothingStaked);
        }
        if policy.has_invalid_price() {
            return Err(RwaError::InvalidPrice);
        }
        let elapsed = elapsed_seconds(self.user_stake.stake_start, now);
        let reward = match policy.compute_reward(staked, elapsed) {
            Ok(v) => v,
            Err(e) => return Err(e),
        };
        if policy.is_annual() && reward == 0 {
            return Err(RwaError::NoRewardsAvailable);
        }
        let proof = Authority::vault(self.admin, vault_bump);
        let mut vault = self.admin_vault;
        let payout = match pay_reward(&mut vault, &proof, &policy, reward) {
            Ok(p) => p,
            Err(e) => return Err(e),
        };
        self.admin_vault = vault;
        self.user_stake.stake_start = now;
        Ok(payout)
    }
}

/// Claiming again at the same moment as an accepted claim yields no reward:
/// under the annual-rate policy it is rejected with `NoRewardsAvailable`,
/// under the population-multiplier policy it succeeds, pays nothing and
/// changes nothing.
pub proof fn lemma_second_claim_pays_nothing(ctx: ClaimReward, policy: RewardPolicy, now: i64)
    requires
        claim_step(ctx, policy, now) is Ok,
    ensures
        ({
            let after = claim_step(ctx, policy, now)->Ok_0.0;
            &&& policy.spec_is_annual() ==> claim_step(after, policy, now) == Err::<
                (ClaimReward, Payout),
                RwaError,
            >(RwaError::NoRewardsAvailable)
            &&& !policy.spec_is_annual() ==> claim_step(after, policy, now) == Ok::<
                (ClaimReward, Payout),
                RwaError,
            >((after, Payout::Nothing))
        }),
{
    let after = claim_step(ctx, policy, now)->Ok_0.0;
    let staked = after.user_stake.staked_amount;
    assert(after.user_stake.stake_start == now);
    assert(elapsed_since(now, now) == 0);
    match policy {
        RewardPolicy::AnnualRate { city_price_usd, sol_price_usd } => {
            let value = (staked * city_price_usd) / sol_price_usd as int;
            assert(value * 0 == 0);
            assert(reward_quote(policy, staked, 0) == Ok::<u64, RwaError>(0));
        },
        RewardPolicy::PopulationMultiplier { population, base_rate } => {
            let multiplier = population_multiplier(population);
            assert(staked * 0 == 0);
            assert(0 * multiplier == 0);
            assert(0 * base_rate == 0);
            assert(reward_quote(policy, staked, 0) == Ok::<u64, RwaError>(0));
            assert(claim_step(after, policy, now)->Ok_0.0 == after);
        },
    }
}

impl CloseStake {
    /// The reserve that closing the emptied position hands back to the
    /// staker.
    pub fn close_stake(&self) -> (r: u64)
        requires
            self.user_stake.staked_amount == 0,
        ensures
            r == self.reserve_lamports,
    {
        self.reserve_lamports
    }
}

} // verus!
