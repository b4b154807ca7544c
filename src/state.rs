use vstd::prelude::*;

use crate::key::Key;

verus! {

/// Custodial settlement-currency record of one administrator.
///
/// `balance` moves only through `Vault::deposit` and `Vault::withdraw`.
#[derive(Clone, Copy, Debug)]
pub struct Vault {
    pub authority: Key,
    pub balance: u64,
    pub bump: u8,
}

/// One record per tokenized city: its name, the token it is bound to, the
/// circulating supply and an optional descriptive URI (empty when absent).
///
/// A record whose `mint` is unset has not been created yet.
#[derive(Clone, Debug)]
pub struct CityConfig {
    pub city_name: String,
    pub mint: Key,
    pub total_supply: u64,
    pub bump: u8,
    pub metadata_uri: String,
}

/// Stake position of one user in one city token.
///
/// A record whose `owner` is unset has not been created yet.
#[derive(Clone, Copy, Debug)]
pub struct UserStake {
    pub owner: Key,
    pub city_mint: Key,
    pub staked_amount: u64,
    pub stake_start: i64,
    pub vault_ata: Key,
    pub bump: u8,
}

/// Reward pool of one administrator: the reward token, the holding that pays
/// it, and the settlement vault.
#[derive(Clone, Copy, Debug)]
pub struct StakeVault {
    pub admin: Key,
    pub cirkle_mint: Key,
    pub cirkle_vault: Key,
    pub sol_vault: Key,
    pub bump: u8,
}

impl CityConfig {
    /// A record that is not created yet has no supply.
    pub open spec fn wf(&self) -> bool {
        self.mint.spec_is_unset() ==> self.total_supply == 0
    }
}

impl UserStake {
    /// The accrual clock runs exactly while something is staked.
    pub open spec fn wf(&self) -> bool {
        (self.staked_amount == 0) == (self.stake_start == 0)
    }
}

/// Fixed label that a derived account's identifier is computed from.
#[derive(Clone, Copy, Debug, PartialEq, Eq, Structural)]
pub enum AuthorityLabel {
    /// The settlement vault of an administrator.
    ProtocolAdmin,
    /// The reward pool of an administrator.
    AdminStake,
    /// The stake position of a user in one asset; it owns the escrow.
    Stake,
}

/// Capability to act for a derived account: the label, the owning key, the
/// asset key (unset where the label takes none) and the derivation nonce.
#[derive(Clone, Copy, Debug)]
pub struct Authority {
    pub label: AuthorityLabel,
    pub owner: Key,
    pub asset: Key,
    pub bump: u8,
}

impl Authority {
    /// Whether this capability is the one of `vault`.
    pub open spec fn spec_controls_vault(&self, vault: Vault) -> bool {
        &&& self.label == AuthorityLabel::ProtocolAdmin
        &&& self.owner == vault.authority
        &&& self.bump == vault.bump
    }

    /// Whether this capability is the one of the position `stake`, which
    /// owns its escrow.
    pub open spec fn spec_controls_position(&self, stake: UserStake) -> bool {
        &&& self.label == AuthorityLabel::Stake
        &&& self.owner == stake.owner
        &&& self.asset == stake.city_mint
        &&& self.bump == stake.bump
    }

    /// The capability of the vault of `admin`, derived with nonce `bump`.
    pub fn vault(admin: Key, bump: u8) -> (r: Authority)
        ensures
            r.label == AuthorityLabel::ProtocolAdmin,
            r.owner == admin,
            r.asset.spec_is_unset(),
            r.bump == bump,
    {
        Authority { label: AuthorityLabel::ProtocolAdmin, owner: admin, asset: Key::unset(), bump }
    }

    /// The capability of the reward pool of `admin`, derived with nonce `bump`.
    pub fn stake_pool(admin: Key, bump: u8) -> (r: Authority)
        ensures
            r.label == AuthorityLabel::AdminStake,
            r.owner == admin,
            r.asset.spec_is_unset(),
            r.bump == bump,
    {
        Authority { label: AuthorityLabel::AdminStake, owner: admin, asset: Key::unset(), bump }
    }

    /// The capability of the stake position of `owner` in `asset`.
    pub fn position(owner: Key, asset: Key, bump: u8) -> (r: Authority)
        ensures
            r.label == AuthorityLabel::Stake,
            r.owner == owner,
            r.asset == asset,
            r.bump == bump,
    {
        Authority { label: AuthorityLabel::Stake, owner, asset, bump }
    }

    pub fn controls_vault(&self, vault: &Vault) -> (r: bool)
        ensures
            r == self.spec_controls_vault(*vault),
    {
        self.label == AuthorityLabel::ProtocolAdmin && self.owner.same_as(&vault.authority)
            && self.bump == vault.bump
    }

    pub fn controls_position(&self, stake: &UserStake) -> (r: bool)
        ensures
            r == self.spec_controls_position(*stake),
    {
        self.label == AuthorityLabel::Stake && self.owner.same_as(&stake.owner)
            && self.asset.same_as(&stake.city_mint) && self.bump == stake.bump
    }
}

} // verus!
