use cirkle_contract::error::RwaError;
use cirkle_contract::exchange::{Buy, Sell};
use cirkle_contract::key::Key;
use cirkle_contract::pricing::{buy_amounts, sell_amounts};
use cirkle_contract::state::{CityConfig, Vault};
use cirkle_contract::{buy, sell};

fn key(b: u8) -> Key {
    Key::new([b; 32])
}

fn empty_city() -> CityConfig {
    CityConfig {
        city_name: String::new(),
        mint: Key::unset(),
        total_supply: 0,
        bump: 254,
        metadata_uri: String::new(),
    }
}

fn buy_ctx(balance: u64, city: CityConfig) -> Buy {
    Buy {
        user: key(1),
        admin: key(2),
        vault: Vault { authority: key(2), balance, bump: 255 },
        city_config: city,
        city_mint: key(3),
    }
}

fn to_sell(b: &Buy) -> Sell {
    Sell {
        user: b.user,
        admin: b.admin,
        vault: b.vault,
        city_config: b.city_config.clone(),
        city_mint: b.city_mint,
    }
}

fn same_city(a: &CityConfig, b: &CityConfig) -> bool {
    a.city_name == b.city_name
        && a.mint == b.mint
        && a.total_supply == b.total_supply
        && a.bump == b.bump
        && a.metadata_uri == b.metadata_uri
}

#[test]
fn buy_paris_scenario() {
    let mut ctx = buy_ctx(0, empty_city());
    let r = buy(
        &mut ctx,
        "paris".to_string(),
        1_000_000_000,
        50_000_000,
        150_000_000,
        "https://example.org/paris.json".to_string(),
    )
    .unwrap();
    assert_eq!(r.usd_value, 150_000_000);
    assert_eq!(r.token_amount, 3_000_000);
    assert_eq!(r.lamports, 1_000_000_000);
    assert!(r.new_city);
    assert_eq!(ctx.vault.balance, 1_000_000_000);
    assert_eq!(ctx.city_config.total_supply, 3_000_000);
    assert_eq!(ctx.city_config.city_name, "paris");
    assert_eq!(ctx.city_config.metadata_uri, "https://example.org/paris.json");
    assert!(ctx.city_config.mint == key(3));
}

#[test]
fn buy_amounts_scenario() {
    assert_eq!(buy_amounts(1_000_000_000, 50_000_000, 150_000_000), Ok((150_000_000, 3_000_000)));
}

#[test]
fn buy_multiplies_before_dividing() {
    // 0.1 unit at 150 USD buys 15 USD worth: 0.3 tokens at 50 USD each.
    assert_eq!(buy_amounts(100_000_000, 50_000_000, 150_000_000), Ok((15_000_000, 300_000)));
    // A tiny purchase still yields its fractional token amount.
    assert_eq!(buy_amounts(7, 3, 1_000_000_000), Ok((7, 2_333_333)));
}

#[test]
fn buy_existing_city_keeps_name_and_adds_supply() {
    let mut ctx = buy_ctx(0, empty_city());
    buy(&mut ctx, "paris".to_string(), 1_000_000_000, 50_000_000, 150_000_000, "u1".to_string()).unwrap();
    let r = buy(&mut ctx, "other".to_string(), 2_000_000_000, 50_000_000, 150_000_000, "u2".to_string())
        .unwrap();
    assert!(!r.new_city);
    assert_eq!(r.token_amount, 6_000_000);
    assert_eq!(ctx.city_config.total_supply, 9_000_000);
    assert_eq!(ctx.vault.balance, 3_000_000_000);
    assert_eq!(ctx.city_config.city_name, "paris");
    assert_eq!(ctx.city_config.metadata_uri, "u1");
}

#[test]
fn buy_with_zero_rate_changes_nothing() {
    let mut ctx = buy_ctx(500, empty_city());
    let r = buy(&mut ctx, "paris".to_string(), 1_000_000_000, 0, 150_000_000, String::new());
    assert_eq!(r.unwrap_err(), RwaError::RateNotValid);
    assert_eq!(ctx.vault.balance, 500);
    assert!(same_city(&ctx.city_config, &empty_city()));
}

#[test]
fn buy_with_zero_price_is_rate_not_valid() {
    let mut ctx = buy_ctx(0, empty_city());
    let r = buy(&mut ctx, "paris".to_string(), 1_000_000_000, 50_000_000, 0, String::new());
    assert_eq!(r.unwrap_err(), RwaError::RateNotValid);
}

#[test]
fn buy_with_zero_amount_is_invalid_amount() {
    let mut ctx = buy_ctx(0, empty_city());
    let r = buy(&mut ctx, "paris".to_string(), 0, 50_000_000, 150_000_000, String::new());
    assert_eq!(r.unwrap_err(), RwaError::InvalidAmount);
}

#[test]
fn buy_with_other_mint_is_invalid_mint() {
    let mut city = empty_city();
    city.mint = key(9);
    let mut ctx = buy_ctx(0, city);
    let r = buy(&mut ctx, "paris".to_string(), 1_000_000_000, 50_000_000, 150_000_000, String::new());
    assert_eq!(r.unwrap_err(), RwaError::InvalidMint);
    assert_eq!(ctx.vault.balance, 0);
}

#[test]
fn buy_with_unset_mint_is_invalid_mint() {
    let mut ctx = buy_ctx(0, empty_city());
    ctx.city_mint = Key::unset();
    let r = buy(&mut ctx, "paris".to_string(), 1_000_000_000, 50_000_000, 150_000_000, String::new());
    assert_eq!(r.unwrap_err(), RwaError::InvalidMint);
}

#[test]
fn buy_price_overflow_is_overflow() {
    let mut ctx = buy_ctx(0, empty_city());
    let r = buy(&mut ctx, "paris".to_string(), u64::MAX, 50_000_000, 2, String::new());
    assert_eq!(r.unwrap_err(), RwaError::Overflow);
    assert_eq!(ctx.vault.balance, 0);
}

#[test]
fn buy_vault_overflow_is_overflow() {
    let mut ctx = buy_ctx(u64::MAX, empty_city());
    let r = buy(&mut ctx, "paris".to_string(), 1_000_000_000, 50_000_000, 150_000_000, String::new());
    assert_eq!(r.unwrap_err(), RwaError::Overflow);
    assert_eq!(ctx.vault.balance, u64::MAX);
    assert!(same_city(&ctx.city_config, &empty_city()));
}

#[test]
fn buy_supply_overflow_is_overflow() {
    let mut city = empty_city();
    city.mint = key(3);
    city.total_supply = u64::MAX - 1;
    let mut ctx = buy_ctx(0, city);
    let r = buy(&mut ctx, "paris".to_string(), 1_000_000_000, 50_000_000, 150_000_000, String::new());
    assert_eq!(r.unwrap_err(), RwaError::Overflow);
    assert_eq!(ctx.vault.balance, 0);
    assert_eq!(ctx.city_config.total_supply, u64::MAX - 1);
}

#[test]
fn arithmetic_division_by_zero() {
    assert_eq!(buy_amounts(1_000_000_000, 0, 150_000_000), Err(RwaError::DivideByZero));
    assert_eq!(sell_amounts(3_000_000, 50_000_000, 0), Err(RwaError::DivideByZero));
}

#[test]
fn sell_amounts_scale_whole_units() {
    assert_eq!(sell_amounts(3_000_000, 50_000_000, 150_000_000), Ok((150_000_000, 1_000_000_000)));
    // Fractions of a token and of a settlement unit are dropped.
    assert_eq!(sell_amounts(4_500_000, 50_000_000, 150_000_000), Ok((200_000_000, 1_000_000_000)));
    assert_eq!(sell_amounts(999_999, 50_000_000, 150_000_000), Ok((0, 0)));
    assert_eq!(sell_amounts(u64::MAX, u64::MAX, 1), Err(RwaError::Overflow));
    assert_eq!(sell_amounts(1_000_000, u64::MAX, 1), Err(RwaError::Overflow));
}

#[test]
fn buy_then_sell_round_trip_is_exact_for_whole_units() {
    let mut ctx = buy_ctx(0, empty_city());
    let bought = buy(&mut ctx, "paris".to_string(), 1_000_000_000, 50_000_000, 150_000_000, String::new())
        .unwrap();
    let mut s = to_sell(&ctx);
    let sold = sell(&mut s, 50_000_000, 150_000_000, bought.token_amount, 255).unwrap();
    assert_eq!(sold.lamports, 1_000_000_000);
    assert_eq!(sold.token_amount, 3_000_000);
    assert_eq!(s.vault.balance, 0);
    assert_eq!(s.city_config.total_supply, 0);
}

#[test]
fn buy_then_sell_never_returns_more() {
    let cases: [(u64, u64, u64); 4] = [
        (1_500_000_000, 50_000_000, 150_000_000),
        (2_345_678_901, 7_000_000, 123_456_789),
        (10_000_000_000, 999_999_999, 1_000_000_001),
        (123_456_789_012, 3, 5),
    ];
    for (lamports, rate, price) in cases {
        let (_, tokens) = buy_amounts(lamports, rate, price).unwrap();
        let (_, back) = sell_amounts(tokens, rate, price).unwrap();
        assert!(back <= lamports);
    }
    // Half a unit of rounding: the sale pays back one whole unit of 1.5.
    let (_, tokens) = buy_amounts(1_500_000_000, 50_000_000, 150_000_000).unwrap();
    assert_eq!(tokens, 4_500_000);
    assert_eq!(sell_amounts(tokens, 50_000_000, 150_000_000), Ok((200_000_000, 1_000_000_000)));
}

#[test]
fn sell_more_than_vault_holds_is_insufficient_funds() {
    let mut city = empty_city();
    city.mint = key(3);
    city.total_supply = 6_000_000;
    let mut s = to_sell(&buy_ctx(1_000_000_000, city));
    let r = sell(&mut s, 50_000_000, 150_000_000, 6_000_000, 255);
    assert_eq!(r.unwrap_err(), RwaError::InsufficientFunds);
    assert_eq!(s.vault.balance, 1_000_000_000);
    assert_eq!(s.city_config.total_supply, 6_000_000);
}

#[test]
fn sell_rejections() {
    let mut city = empty_city();
    city.mint = key(3);
    city.total_supply = 3_000_000;
    let base = to_sell(&buy_ctx(5_000_000_000, city));

    let mut s = to_sell(&buy_ctx(0, empty_city()));
    s.vault = base.vault;
    s.city_config = base.city_config.clone();
    assert_eq!(sell(&mut s, 0, 150_000_000, 3_000_000, 255).unwrap_err(), RwaError::RateNotValid);
    assert_eq!(sell(&mut s, 50_000_000, 0, 3_000_000, 255).unwrap_err(), RwaError::RateNotValid);
    assert_eq!(sell(&mut s, 50_000_000, 150_000_000, 0, 255).unwrap_err(), RwaError::InvalidAmount);
    // Under one whole token the payout rounds to nothing.
    assert_eq!(sell(&mut s, 50_000_000, 150_000_000, 999_999, 255).unwrap_err(), RwaError::InvalidAmount);
    // More than the circulating supply.
    assert_eq!(sell(&mut s, 50_000_000, 150_000_000, 6_000_000, 255).unwrap_err(), RwaError::Overflow);
    s.city_mint = key(8);
    assert_eq!(sell(&mut s, 50_000_000, 150_000_000, 3_000_000, 255).unwrap_err(), RwaError::InvalidMint);
    assert_eq!(s.vault.balance, 5_000_000_000);
    assert_eq!(s.city_config.total_supply, 3_000_000);
}

#[test]
fn sell_of_uncreated_city_is_city_not_found() {
    let mut s = to_sell(&buy_ctx(5_000_000_000, empty_city()));
    let r = sell(&mut s, 50_000_000, 150_000_000, 3_000_000, 255);
    assert_eq!(r.unwrap_err(), RwaError::CityNotFound);
    assert_eq!(s.vault.balance, 5_000_000_000);
}

#[test]
fn supply_tracks_minted_minus_burned() {
    let mut ctx = buy_ctx(0, empty_city());
    let mut minted: u64 = 0;
    let mut burned: u64 = 0;
    for lamports in [1_000_000_000u64, 2_500_000_000, 700_000_000] {
        minted += buy(&mut ctx, "paris".to_string(), lamports, 50_000_000, 150_000_000, String::new())
            .unwrap()
            .token_amount;
    }
    let mut s = to_sell(&ctx);
    burned += sell(&mut s, 50_000_000, 150_000_000, 4_000_000, 255).unwrap().token_amount;
    // A rejected sale burns nothing.
    assert!(sell(&mut s, 50_000_000, 150_000_000, 500_000_000, 255).is_err());
    burned += sell(&mut s, 50_000_000, 150_000_000, 3_000_000, 255).unwrap().token_amount;
    assert_eq!(minted, 12_600_000);
    assert_eq!(burned, 7_000_000);
    assert_eq!(s.city_config.total_supply, minted - burned);
    assert_eq!(s.vault.balance, 4_200_000_000 - 1_000_000_000 - 1_000_000_000);
}
