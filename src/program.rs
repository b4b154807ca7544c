use vstd::prelude::*;

use crate::admin::{create_vault_step, withdraw_step, AdminVault, Withdraw};
use crate::error::RwaError;
use crate::exchange::{buy_step, sell_step, Buy, BuyReceipt, Sell, SellReceipt};
use crate::reward::RewardPolicy;
use crate::staking::{
    claim_step,
    stake_step,
    unstake_step,
    ClaimReward,
    CloseStake,
    Payout,
    StakeCity,
    UnstakeCity,
    UnstakeReceipt,
};

verus! {

/// Sets up the administrator's vault; `bump` is its derivation nonce.
pub fn vault_initialize(ctx: &mut AdminVault, bump: u8) -> (r: Result<(), RwaError>)
    ensures
        r is Ok,
        *final(ctx) == create_vault_step(*old(ctx), bump),
{
    ctx.create_vault(bump)
}

/// Buys city tokens with `sol_amount` smallest settlement units.
pub fn buy(
    ctx: &mut Buy,
    city_name: String,
    sol_amount: u64,
    circle_rate: u64,
    sol_price_usd: u64,
    metadata_uri: String,
) -> (r: Result<BuyReceipt, RwaError>)
    ensures
        match buy_step(*old(ctx), city_name, sol_amount, circle_rate, sol_price_usd, metadata_uri) {
            Ok((after, receipt)) => r == Ok::<BuyReceipt, RwaError>(receipt) && *final(ctx) == after,
            Err(e) => r == Err::<BuyReceipt, RwaError>(e) && *final(ctx) == *old(ctx),
        },
{
    ctx.buy_token(city_name, sol_amount, circle_rate, sol_price_usd, metadata_uri)
}

/// Sells `token_amount` smallest city-token units back for settlement
/// currency; `vault_bump` is the vault's derivation nonce.
pub fn sell(
    ctx: &mut Sell,
    circle_rate: u64,
    sol_price_usd: u64,
    token_amount: u64,
    vault_bump: u8,
) -> (r: Result<SellReceipt, RwaError>)
    requires
        old(ctx).spec_vault_bound(vault_bump),
    ensures
        match sell_step(*old(ctx), token_amount, circle_rate, sol_price_usd) {
            Ok((after, receipt)) => r == Ok::<SellReceipt, RwaError>(receipt) && *final(ctx) == after,
            Err(e) => r == Err::<SellReceipt, RwaError>(e) && *final(ctx) == *old(ctx),
        },
{
    ctx.sell_token(token_amount, circle_rate, sol_price_usd, vault_bump)
}

/// Pays `amount` from the administrator's vault to the recipient.
pub fn withdraw(ctx: &mut Withdraw, amount: u64) -> (r: Result<(), RwaError>)
    requires
        old(ctx).spec_admin_owns_vault(),
    ensures
        match withdraw_step(*old(ctx), amount) {
            Ok(after) => r is Ok && *final(ctx) == after,
            Err(e) => r == Err::<(), RwaError>(e) && *final(ctx) == *old(ctx),
        },
{
    ctx.withdraw(amount)
}

/// Stakes `amount` city tokens at time `now`; `bump` is the position's
/// derivation nonce.
pub fn stake(ctx: &mut StakeCity, amount: u64, bump: u8, now: i64) -> (r: Result<(), RwaError>)
    ensures
        match stake_step(*old(ctx), amount, bump, now) {
            Ok(after) => r is Ok && *final(ctx) == after,
            Err(e) => r == Err::<(), RwaError>(e) && *final(ctx) == *old(ctx),
        },
{
    ctx.stake_city(amount, bump, now)
}

/// Unstakes `amount` city tokens at time `now`, paying the accrued reward
/// under `policy`; `vault_bump` is the vault's derivation nonce.
pub fn unstake(ctx: &mut UnstakeCity, amount: u64, vault_bump: u8, policy: RewardPolicy, now: i64) -> (r: Result<
    UnstakeReceipt,
    RwaError,
>)
    requires
        old(ctx).spec_capabilities_hold(vault_bump),
    ensures
        match unstake_step(*old(ctx), amount, policy, now) {
            Ok((after, receipt)) => r == Ok::<UnstakeReceipt, RwaError>(receipt) && *final(ctx) == after,
            Err(e) => r == Err::<UnstakeReceipt, RwaError>(e) && *final(ctx) == *old(ctx),
        },
{
    ctx.unstake_city(amount, vault_bump, policy, now)
}

/// Claims the reward accrued under `policy` up to `now`; `vault_bump` is the
/// vault's derivation nonce.
pub fn claim(ctx: &mut ClaimReward, vault_bump: u8, policy: RewardPolicy, now: i64) -> (r: Result<Payout, RwaError>)
    requires
        old(ctx).spec_vault_bound(vault_bump),
    ensures
        match claim_step(*old(ctx), policy, now) {
            Ok((after, payout)) => r == Ok::<Payout, RwaError>(payout) && *final(ctx) == after,
            Err(e) => r == Err::<Payout, RwaError>(e) && *final(ctx) == *old(ctx),
        },
{
    ctx.claim_reward(vault_bump, policy, now)
}

/// The reserve returned to the staker when an emptied position is closed.
pub fn close_stake(ctx: &CloseStake) -> (r: u64)
    requires
        ctx.user_stake.staked_amount == 0,
    ensures
        r == ctx.reserve_lamports,
{
    ctx.close_stake()
}

} // verus!
