use cirkle_contract::admin::{AdminVault, InitializeStakeVault, Withdraw};
use cirkle_contract::error::RwaError;
use cirkle_contract::key::Key;
use cirkle_contract::state::{Authority, StakeVault, Vault};
use cirkle_contract::{vault_initialize, withdraw};

fn key(b: u8) -> Key {
    Key::new([b; 32])
}

fn unset_vault() -> Vault {
    Vault { authority: Key::unset(), balance: 0, bump: 0 }
}

#[test]
fn key_equality_is_bytewise() {
    let mut bytes = [7u8; 32];
    assert!(Key::new(bytes) == key(7));
    bytes[31] = 8;
    assert!(Key::new(bytes) != key(7));
    assert!(Key::unset().is_unset());
    assert!(!Key::new(bytes).is_unset());
}

#[test]
fn vault_initialize_creates_once() {
    let mut ctx = AdminVault { admin: key(2), admin_vault: unset_vault() };
    vault_initialize(&mut ctx, 254).unwrap();
    assert!(ctx.admin_vault.authority == key(2));
    assert_eq!(ctx.admin_vault.balance, 0);
    assert_eq!(ctx.admin_vault.bump, 254);
    ctx.admin_vault.balance = 77;
    vault_initialize(&mut ctx, 1).unwrap();
    assert_eq!(ctx.admin_vault.balance, 77);
    assert_eq!(ctx.admin_vault.bump, 254);
}

#[test]
fn stake_pool_records_its_holdings() {
    let mut ctx = InitializeStakeVault {
        admin: key(2),
        cirkle_mint: key(5),
        admin_vault: StakeVault { admin: Key::unset(), cirkle_mint: Key::unset(), cirkle_vault: Key::unset(), sol_vault: Key::unset(), bump: 0 },
        admin_vault_key: key(6),
        cirkle_vault_ata: key(7),
    };
    ctx.initialize_stake_vault(253).unwrap();
    assert!(ctx.admin_vault.admin == key(2));
    assert!(ctx.admin_vault.cirkle_mint == key(5));
    assert!(ctx.admin_vault.cirkle_vault == key(7));
    assert!(ctx.admin_vault.sol_vault == key(6));
    assert_eq!(ctx.admin_vault.bump, 253);
}

#[test]
fn withdraw_moves_balance() {
    let mut ctx = Withdraw { admin: key(2), vault: Vault { authority: key(2), balance: 1_000, bump: 255 }, recipient: key(9) };
    withdraw(&mut ctx, 400).unwrap();
    assert_eq!(ctx.vault.balance, 600);
    withdraw(&mut ctx, 600).unwrap();
    assert_eq!(ctx.vault.balance, 0);
}

#[test]
fn withdraw_rejections() {
    let mut ctx = Withdraw { admin: key(2), vault: Vault { authority: key(2), balance: 1_000, bump: 255 }, recipient: key(9) };
    assert_eq!(withdraw(&mut ctx, 0).unwrap_err(), RwaError::AmountNotValid);
    assert_eq!(withdraw(&mut ctx, 1_001).unwrap_err(), RwaError::InsufficientFunds);
    assert_eq!(ctx.vault.balance, 1_000);
}

#[test]
fn vault_balance_is_deposits_minus_withdrawals() {
    let mut v = Vault { authority: key(2), balance: 0, bump: 255 };
    let proof = Authority::vault(key(2), 255);
    assert!(proof.controls_vault(&v));
    let mut deposited: u64 = 0;
    let mut withdrawn: u64 = 0;
    for amount in [500u64, 250, 1_000] {
        v.deposit(amount).unwrap();
        deposited += amount;
    }
    for amount in [300u64, 5_000, 0, 450] {
        if v.withdraw(amount, &proof).is_ok() {
            withdrawn += amount;
        }
    }
    assert_eq!(v.withdraw(5_000, &proof), Err(RwaError::InsufficientFunds));
    assert_eq!(v.withdraw(0, &proof), Err(RwaError::InvalidAmount));
    assert_eq!(v.deposit(u64::MAX), Err(RwaError::Overflow));
    assert_eq!(deposited, 1_750);
    assert_eq!(withdrawn, 750);
    assert_eq!(v.balance, deposited - withdrawn);
}

#[test]
fn capabilities_match_their_records() {
    let v = Vault { authority: key(2), balance: 0, bump: 255 };
    assert!(Authority::vault(key(2), 255).controls_vault(&v));
    assert!(!Authority::vault(key(2), 254).controls_vault(&v));
    assert!(!Authority::vault(key(3), 255).controls_vault(&v));
    assert!(!Authority::stake_pool(key(2), 255).controls_vault(&v));
}
