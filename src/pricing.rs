use vstd::prelude::*;

use crate::error::RwaError;

verus! {

/// Smallest settlement-currency units per whole unit.
pub const NATIVE_UNIT_SCALE: u64 = 1_000_000_000;

/// Smallest token units per whole token (six decimals).
pub const TOKEN_DECIMAL_SCALE: u64 = 1_000_000;

/// USD value and token amount of a purchase of `lamports` smallest
/// settlement units at `sol_price` USD per whole unit and `rate` USD per
/// whole token, multiplying before each division; or the arithmetic error.
pub open spec fn buy_quote(lamports: u64, rate: u64, sol_price: u64) -> Result<(u64, u64), RwaError> {
    if lamports * sol_price > u64::MAX {
        Err(RwaError::Overflow)
    } else {
        let usd = (lamports * sol_price) / NATIVE_UNIT_SCALE as int;
        if usd * TOKEN_DECIMAL_SCALE > u64::MAX {
            Err(RwaError::Overflow)
        } else if rate == 0 {
            Err(RwaError::DivideByZero)
        } else {
            Ok((usd as u64, (usd * TOKEN_DECIMAL_SCALE / rate as int) as u64))
        }
    }
}

/// USD value and settlement amount of a sale of `tokens` smallest token
/// units: whole tokens times `rate`, divided into whole settlement units at
/// `sol_price`, scaled back to smallest units; or the arithmetic error.
pub open spec fn sell_quote(tokens: u64, rate: u64, sol_price: u64) -> Result<(u64, u64), RwaError> {
    let whole_tokens = tokens as int / TOKEN_DECIMAL_SCALE as int;
    if whole_tokens * rate > u64::MAX {
        Err(RwaError::Overflow)
    } else if sol_price == 0 {
        Err(RwaError::DivideByZero)
    } else {
        let usd = whole_tokens * rate;
        let units = usd / sol_price as int;
        if units * NATIVE_UNIT_SCALE > u64::MAX {
            Err(RwaError::Overflow)
        } else {
            Ok((usd as u64, (units * NATIVE_UNIT_SCALE) as u64))
        }
    }
}

/// Checked computation of `buy_quote`.
pub fn buy_amounts(lamports: u64, rate: u64, sol_price: u64) -> (r: Result<(u64, u64), RwaError>)
    ensures
        r == buy_quote(lamports, rate, sol_price),
{
    let product = match lamports.checked_mul(sol_price) {
        Some(v) => v,
        None => return Err(RwaError::Overflow),
    };
    let usd = product / NATIVE_UNIT_SCALE;
    let scaled = match usd.checked_mul(TOKEN_DECIMAL_SCALE) {
        Some(v) => v,
        None => return Err(RwaError::Overflow),
    };
    if rate == 0 {
        return Err(RwaError::DivideByZero);
    }
    Ok((usd, scaled / rate))
}

/// Checked computation of `sell_quote`.
pub fn sell_amounts(tokens: u64, rate: u64, sol_price: u64) -> (r: Result<(u64, u64), RwaError>)
    ensures
        r == sell_quote(tokens, rate, sol_price),
{
    let whole_tokens = tokens / TOKEN_DECIMAL_SCALE;
    let usd = match whole_tokens.checked_mul(rate) {
        Some(v) => v,
        None => return Err(RwaError::Overflow),
    };
    if sol_price == 0 {
        return Err(RwaError::DivideByZero);
    }
    let units = usd / sol_price;
    match units.checked_mul(NATIVE_UNIT_SCALE) {
        Some(lamports) => Ok((usd, lamports)),
        None => Err(RwaError::Overflow),
    }
}

/// `x` rounded down to a multiple of `d` is at most `x`.
proof fn lemma_floor_div_mul_le(x: int, d: int)
    requires
        x >= 0,
        d > 0,
    ensures
        (x / d) * d <= x,
        x / d >= 0,
{
    vstd::arithmetic::div_mod::lemma_fundamental_div_mod(x, d);
    vstd::arithmetic::div_mod::lemma_mod_bound(x, d);
    vstd::arithmetic::div_mod::lemma_div_pos_is_pos(x, d);
    vstd::arithmetic::mul::lemma_mul_is_commutative(x / d, d);
}

/// Selling back what a purchase bought, at the same rate and price, is
/// always accepted by the arithmetic and never returns more settlement
/// currency than the purchase paid.
pub proof fn lemma_round_trip_never_gains(lamports: u64, rate: u64, sol_price: u64)
    requires
        buy_quote(lamports, rate, sol_price) is Ok,
        sol_price > 0,
    ensures
        ({
            let tokens = buy_quote(lamports, rate, sol_price)->Ok_0.1;
            &&& sell_quote(tokens, rate, sol_price) is Ok
            &&& sell_quote(tokens, rate, sol_price)->Ok_0.1 <= lamports
        }),
{
    let l = lamports as int;
    let r = rate as int;
    let p = sol_price as int;
    let usd = (l * p) / NATIVE_UNIT_SCALE as int;
    let tokens = (usd * TOKEN_DECIMAL_SCALE as int) / r;
    let whole = tokens / TOKEN_DECIMAL_SCALE as int;
    let value = whole * r;
    let units = value / p;
    assert(l * p >= 0) by (nonlinear_arith)
        requires
            l >= 0,
            p >= 0,
    ;
    lemma_floor_div_mul_le(l * p, NATIVE_UNIT_SCALE as int);
    lemma_floor_div_mul_le(usd * TOKEN_DECIMAL_SCALE as int, r);
    lemma_floor_div_mul_le(tokens, TOKEN_DECIMAL_SCALE as int);
    assert(value <= usd) by (nonlinear_arith)
        requires
            tokens * r <= usd * 1_000_000,
            whole * 1_000_000 <= tokens,
            whole >= 0,
            r > 0,
            value == whole * r,
    ;
    assert(value >= 0) by (nonlinear_arith)
        requires
            whole >= 0,
            r > 0,
            value == whole * r,
    ;
    lemma_floor_div_mul_le(value, p);
    assert(units * 1_000_000_000 <= l) by (nonlinear_arith)
        requires
            units * p <= value,
            value <= usd,
            usd * 1_000_000_000 <= l * p,
            units >= 0,
            p > 0,
    ;
}

/// A purchase of a whole number of settlement units that buys a whole number
/// of tokens is given back exactly when those tokens are sold at the same
/// rate and price.
pub proof fn lemma_round_trip_exact_for_whole_units(lamports: u64, rate: u64, sol_price: u64)
    requires
        buy_quote(lamports, rate, sol_price) is Ok,
        sol_price > 0,
        lamports as int % NATIVE_UNIT_SCALE as int == 0,
        ((lamports as int / NATIVE_UNIT_SCALE as int) * sol_price) % (rate as int) == 0,
    ensures
        ({
            let tokens = buy_quote(lamports, rate, sol_price)->Ok_0.1;
            &&& sell_quote(tokens, rate, sol_price) is Ok
            &&& sell_quote(tokens, rate, sol_price)->Ok_0.1 == lamports
        }),
{
    let l = lamports as int;
    let r = rate as int;
    let p = sol_price as int;
    let n = l / NATIVE_UNIT_SCALE as int;
    let usd = (l * p) / NATIVE_UNIT_SCALE as int;
    let k = (n * p) / r;
    vstd::arithmetic::div_mod::lemma_fundamental_div_mod(l, NATIVE_UNIT_SCALE as int);
    assert(l * p == (n * p) * 1_000_000_000) by (nonlinear_arith)
        requires
            l == 1_000_000_000 * n,
    ;
    vstd::arithmetic::div_mod::lemma_div_multiples_vanish(n * p, NATIVE_UNIT_SCALE as int);
    assert(usd == n * p);
    vstd::arithmetic::div_mod::lemma_fundamental_div_mod(n * p, r);
    assert(usd == r * k);
    assert(usd * 1_000_000 == (k * 1_000_000) * r) by (nonlinear_arith)
        requires
            usd == r * k,
    ;
    vstd::arithmetic::div_mod::lemma_div_multiples_vanish(k * 1_000_000, r);
    let tokens = (usd * TOKEN_DECIMAL_SCALE as int) / r;
    assert(tokens == k * 1_000_000);
    vstd::arithmetic::div_mod::lemma_div_multiples_vanish(k, TOKEN_DECIMAL_SCALE as int);
    assert(tokens / TOKEN_DECIMAL_SCALE as int == k);
    assert(k * r == n * p) by (nonlinear_arith)
        requires
            usd == r * k,
            usd == n * p,
    ;
    vstd::arithmetic::div_mod::lemma_div_multiples_vanish(n, p);
    assert((k * r) / p == n);
    lemma_round_trip_never_gains(lamports, rate, sol_price);
}

} // verus!
