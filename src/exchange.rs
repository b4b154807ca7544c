use vstd::prelude::*;

use crate::error::RwaError;
use crate::key::Key;
use crate::pricing::{buy_amounts, buy_quote, sell_amounts, sell_quote};
use crate::state::{Authority, CityConfig, Vault};
use crate::vault::{vault_apply, VaultOp};

verus! {

/// The records a purchase reads and writes: the buyer, the administrator
/// whose vault takes the payment, that vault, the city record, and the city
/// token that the caller supplied.
#[derive(Clone, Debug)]
pub struct Buy {
    pub user: Key,
    pub admin: Key,
    pub vault: Vault,
    pub city_config: CityConfig,
    pub city_mint: Key,
}

/// The records a sale reads and writes, as for `Buy`.
#[derive(Clone, Debug)]
pub struct Sell {
    pub user: Key,
    pub admin: Key,
    pub vault: Vault,
    pub city_config: CityConfig,
    pub city_mint: Key,
}

/// What an accepted purchase owes the outside world, to be carried out
/// together with the record changes: move `lamports` from the buyer into the
/// vault, mint `token_amount` of the city token to the buyer under the
/// vault's capability, and, for a `new_city`, attach descriptive metadata.
#[derive(Clone, Copy, Debug)]
pub struct BuyReceipt {
    pub usd_value: u64,
    pub token_amount: u64,
    pub lamports: u64,
    pub new_city: bool,
}

/// What an accepted sale owes the outside world: burn `token_amount` from
/// the seller and pay `lamports` from the vault to the seller under the
/// vault's capability.
#[derive(Clone, Copy, Debug)]
pub struct SellReceipt {
    pub usd_value: u64,
    pub token_amount: u64,
    pub lamports: u64,
}

/// Whether `mint` is a token identifier that the city record is bound to,
/// or may be bound to because the record is not created yet.
pub open spec fn city_accepts_mint(city: CityConfig, mint: Key) -> bool {
    !mint.spec_is_unset() && (city.mint.spec_is_unset() || city.mint == mint)
}

/// The records and receipt after a purchase, or the error that rejects it.
pub open spec fn buy_step(
    ctx: Buy,
    city_name: String,
    lamports: u64,
    circle_rate: u64,
    sol_price_usd: u64,
    metadata_uri: String,
) -> Result<(Buy, BuyReceipt), RwaError> {
    if circle_rate == 0 || sol_price_usd == 0 {
        Err(RwaError::RateNotValid)
    } else if lamports == 0 {
        Err(RwaError::InvalidAmount)
    } else if !city_accepts_mint(ctx.city_config, ctx.city_mint) {
        Err(RwaError::InvalidMint)
    } else {
        match buy_quote(lamports, circle_rate, sol_price_usd) {
            Err(e) => Err(e),
            Ok((usd, tokens)) => {
                let new_city = ctx.city_config.mint.spec_is_unset();
                let supply: int = if new_city { 0 } else { ctx.city_config.total_supply as int };
                let deposit = vault_apply(ctx.vault.balance, VaultOp::Deposit(lamports));
                if deposit is Err {
                    Err(deposit->Err_0)
                } else if supply + tokens > u64::MAX {
                    Err(RwaError::Overflow)
                } else {
                    let city = if new_city {
                        CityConfig {
                            city_name,
                            mint: ctx.city_mint,
                            total_supply: tokens,
                            bump: ctx.city_config.bump,
                            metadata_uri,
                        }
                    } else {
                        CityConfig { total_supply: (supply + tokens) as u64, ..ctx.city_config }
                    };
                    let vault = Vault { balance: deposit->Ok_0, ..ctx.vault };
                    let receipt = BuyReceipt {
                        usd_value: usd,
                        token_amount: tokens,
                        lamports,
                        new_city,
                    };
                    Ok((Buy { vault, city_config: city, ..ctx }, receipt))
                }
            },
        }
    }
}

/// The records and receipt after a sale, or the error that rejects it.
pub open spec fn sell_step(
    ctx: Sell,
    token_amount: u64,
    circle_rate: u64,
    sol_price_usd: u64,
) -> Result<(Sell, SellReceipt), RwaError> {
    if circle_rate == 0 || sol_price_usd == 0 {
        Err(RwaError::RateNotValid)
    } else if token_amount == 0 {
        Err(RwaError::InvalidAmount)
    } else if ctx.city_config.mint.spec_is_unset() {
        Err(RwaError::CityNotFound)
    } else if ctx.city_config.mint != ctx.city_mint {
        Err(RwaError::InvalidMint)
    } else {
        match sell_quote(token_amount, circle_rate, sol_price_usd) {
            Err(e) => Err(e),
            Ok((usd, lamports)) => {
                let payment = vault_apply(ctx.vault.balance, VaultOp::Withdraw(lamports));
                if payment is Err {
                    Err(payment->Err_0)
                } else if ctx.city_config.total_supply < token_amount {
                    Err(RwaError::Overflow)
                } else {
                    let city = CityConfig {
                        total_supply: (ctx.city_config.total_supply - token_amount) as u64,
                        ..ctx.city_config
                    };
                    let vault = Vault { balance: payment->Ok_0, ..ctx.vault };
                    let receipt = SellReceipt { usd_value: usd, token_amount, lamports };
                    Ok((Sell { vault, city_config: city, ..ctx }, receipt))
                }
            },
        }
    }
}

/// A purchase or a sale of one city's token.
#[derive(Clone, Copy, Debug, PartialEq, Eq, Structural)]
pub enum Trade {
    Buy { lamports: u64, circle_rate: u64, sol_price_usd: u64 },
    Sell { token_amount: u64, circle_rate: u64, sol_price_usd: u64 },
}

/// Records reached by a sequence of trades, with the accepted trades' totals.
pub struct TradeTotals {
    pub end: Buy,
    pub minted: int,
    pub burned: int,
    pub paid_in: int,
    pub paid_out: int,
}

pub open spec fn sell_view(ctx: Buy) -> Sell {
    Sell {
        user: ctx.user,
        admin: ctx.admin,
        vault: ctx.vault,
        city_config: ctx.city_config,
        city_mint: ctx.city_mint,
    }
}

pub open spec fn buy_view(ctx: Sell) -> Buy {
    Buy {
        user: ctx.user,
        admin: ctx.admin,
        vault: ctx.vault,
        city_config: ctx.city_config,
        city_mint: ctx.city_mint,
    }
}

/// The records after `trades` in order, where a rejected trade changes
/// nothing, with the token amounts minted and burned and the settlement
/// amounts paid into and out of the vault by the accepted ones.
pub open spec fn trade_run(start: Buy, city_name: String, metadata_uri: String, trades: Seq<Trade>) -> TradeTotals
    decreases trades.len(),
{
    if trades.len() == 0 {
        TradeTotals { end: start, minted: 0, burned: 0, paid_in: 0, paid_out: 0 }
    } else {
        let before = trade_run(start, city_name, metadata_uri, trades.drop_last());
        match trades.last() {
            Trade::Buy { lamports, circle_rate, sol_price_usd } => {
                match buy_step(before.end, city_name, lamports, circle_rate, sol_price_usd, metadata_uri) {
                    Ok((after, receipt)) => TradeTotals {
                        end: after,
                        minted: before.minted + receipt.token_amount,
                        paid_in: before.paid_in + receipt.lamports,
                        ..before
                    },
                    Err(_) => before,
                }
            },
            Trade::Sell { token_amount, circle_rate, sol_price_usd } => {
                match sell_step(sell_view(before.end), token_amount, circle_rate, sol_price_usd) {
                    Ok((after, receipt)) => TradeTotals {
                        end: buy_view(after),
                        burned: before.burned + receipt.token_amount,
                        paid_out: before.paid_out + receipt.lamports,
                        ..before
                    },
                    Err(_) => before,
                }
            },
        }
    }
}

/// After any sequence of purchases and sales, a city's circulating supply is
/// its starting supply plus everything minted minus everything burned, and
/// never below zero.
pub proof fn lemma_supply_is_minted_minus_burned(
    start: Buy,
    city_name: String,
    metadata_uri: String,
    trades: Seq<Trade>,
)
    requires
        start.city_config.wf(),
    ensures
        ({
            let run = trade_run(start, city_name, metadata_uri, trades);
            &&& run.end.city_config.total_supply == start.city_config.total_supply + run.minted - run.burned
            &&& start.city_config.total_supply + run.minted - run.burned >= 0
            &&& run.end.city_config.wf()
        }),
    decreases trades.len(),
{
    if trades.len() > 0 {
        lemma_supply_is_minted_minus_burned(start, city_name, metadata_uri, trades.drop_last());
    }
}

/// After any sequence of purchases and sales, the vault balance is its
/// starting balance plus what buyers paid in minus what sellers were paid
/// out, and never below zero.
pub proof fn lemma_vault_is_paid_in_minus_paid_out(
    start: Buy,
    city_name: String,
    metadata_uri: String,
    trades: Seq<Trade>,
)
    ensures
        ({
            let run = trade_run(start, city_name, metadata_uri, trades);
            &&& run.end.vault.balance == start.vault.balance + run.paid_in - run.paid_out
            &&& start.vault.balance + run.paid_in - run.paid_out >= 0
        }),
    decreases trades.len(),
{
    if trades.len() > 0 {
        lemma_vault_is_paid_in_minus_paid_out(start, city_name, metadata_uri, trades.drop_last());
    }
}

impl Buy {
    /// Exchanges `lamports` of settlement currency for city tokens.
    ///
    /// Rejects a zero rate or price (`RateNotValid`), a zero amount
    /// (`InvalidAmount`), an unset token or a city record bound to another
    /// token (`InvalidMint`), and any overflow. The first purchase of a city creates its record with
    /// the given name and URI. Every rejection leaves all records as they
    /// were.
    pub fn buy_token(
        &mut self,
        city_name: String,
        lamports: u64,
        circle_rate: u64,
        sol_price_usd: u64,
        metadata_uri: String,
    ) -> (r: Result<BuyReceipt, RwaError>)
        ensures
            match buy_step(*old(self), city_name, lamports, circle_rate, sol_price_usd, metadata_uri) {
                Ok((after, receipt)) => r == Ok::<BuyReceipt, RwaError>(receipt) && *final(self) == after,
                Err(e) => r == Err::<BuyReceipt, RwaError>(e) && *final(self) == *old(self),
            },
            circle_rate == 0 ==> r == Err::<BuyReceipt, RwaError>(RwaError::RateNotValid) && *final(self) == *old(self),
    {
        if circle_rate == 0 || sol_price_usd == 0 {
            return Err(RwaError::RateNotValid);
        }
        if lamports == 0 {
            return Err(RwaError::InvalidAmount);
        }
        let new_city = self.city_config.mint.is_unset();
        if self.city_mint.is_unset() || (!new_city && !self.city_config.mint.same_as(&self.city_mint)) {
            return Err(RwaError::InvalidMint);
        }
        let (usd, tokens) = match buy_amounts(lamports, circle_rate, sol_price_usd) {
            Ok(q) => q,
            Err(e) => return Err(e),
        };
        let mut vault = self.vault;
        match vault.deposit(lamports) {
            Ok(()) => {},
            Err(e) => return Err(e),
        }
        let supply: u64 = if new_city { 0 } else { self.city_config.total_supply };
        let new_supply = match supply.checked_add(tokens) {
            Some(s) => s,
            None => return Err(RwaError::Overflow),
        };
        self.vault = vault;
        if new_city {
            self.city_config.mint = self.city_mint;
            self.city_config.city_name = city_name;
            self.city_config.metadata_uri = metadata_uri;
        }
        self.city_config.total_supply = new_supply;
        Ok(BuyReceipt { usd_value: usd, token_amount: tokens, lamports, new_city })
    }
}

impl Sell {
    /// Whether `vault_bump` and the administrator derive the vault's
    /// capability.
    pub open spec fn spec_vault_bound(&self, vault_bump: u8) -> bool {
        self.admin == self.vault.authority && vault_bump == self.vault.bump
    }

    /// Redeems `token_amount` city tokens for settlement currency.
    ///
    /// Rejects a zero rate or price (`RateNotValid`), a zero amount or a
    /// payout that rounds to zero (`InvalidAmount`), a city record that was
    /// never created (`CityNotFound`), a token other than the city's
    /// (`InvalidMint`), a payout above the vault balance
    /// (`InsufficientFunds`) and any overflow. Every rejection leaves all
    /// records as they were, and nothing is burned.
    pub fn sell_token(
        &mut self,
        token_amount: u64,
        circle_rate: u64,
        sol_price_usd: u64,
        vault_bump: u8,
    ) -> (r: Result<SellReceipt, RwaError>)
        requires
            old(self).spec_vault_bound(vault_bump),
        ensures
            match sell_step(*old(self), token_amount, circle_rate, sol_price_usd) {
                Ok((after, receipt)) => r == Ok::<SellReceipt, RwaError>(receipt) && *final(self) == after,
                Err(e) => r == Err::<SellReceipt, RwaError>(e) && *final(self) == *old(self),
            },
            ({
                let q = sell_quote(token_amount, circle_rate, sol_price_usd);
                circle_rate > 0 && sol_price_usd > 0 && token_amount > 0
                    && !old(self).city_config.mint.spec_is_unset()
                    && old(self).city_config.mint == old(self).city_mint
                    && q is Ok && q->Ok_0.1 > 0 && q->Ok_0.1 > old(self).vault.balance
                    ==> r == Err::<SellReceipt, RwaError>(RwaError::InsufficientFunds)
                        && *final(self) == *old(self)
            }),
    {
        if circle_rate == 0 || sol_price_usd == 0 {
            return Err(RwaError::RateNotValid);
        }
        if token_amount == 0 {
            return Err(RwaError::InvalidAmount);
        }
        if self.city_config.mint.is_unset() {
            return Err(RwaError::CityNotFound);
        }
        if !self.city_config.mint.same_as(&self.city_mint) {
            return Err(RwaError::InvalidMint);
        }
        let (usd, lamports) = match sell_amounts(token_amount, circle_rate, sol_price_usd) {
            Ok(q) => q,
            Err(e) => return Err(e),
        };
        if lamports == 0 {
            return Err(RwaError::InvalidAmount);
        }
        let proof = Authority::vault(self.admin, vault_bump);
        let mut vault = self.vault;
        match vault.withdraw(lamports, &proof) {
            Ok(()) => {},
            Err(e) => return Err(e),
        }
        let new_supply = match self.city_config.total_supply.checked_sub(token_amount) {
            Some(s) => s,
            None => return Err(RwaError::Overflow),
        };
        self.vault = vault;
        self.city_config.total_supply = new_supply;
        Ok(SellReceipt { usd_value: usd, token_amount, lamports })
    }
}

} // verus!
