//! A spot market: the pooled deposits and borrows of one token.
use vstd::prelude::*;
use crate::math::constants::{
    SPOT_CUMULATIVE_INTEREST_PRECISION, SPOT_WEIGHT_PRECISION, SPOT_BALANCE_DECIMALS,
};

verus! {

/// The side of a balance: tokens held or tokens owed.
#[derive(Clone, Copy, Debug, PartialEq, Eq, Structural)]
pub enum SpotBalanceType {
    /// Tokens held.
    Deposit,
    /// Tokens owed.
    Borrow,
}

impl Default for SpotBalanceType {
    fn default() -> (r: Self)
        ensures
            r == SpotBalanceType::Deposit,
    {
        SpotBalanceType::Deposit
    }
}

/// A spot market. The two balances are pooled over all positions of the
/// market and kept at the scale of the balances; the other fields are the
/// market's configuration and are never changed by the ledger.
#[derive(Clone, Copy, Debug, PartialEq, Eq, Structural)]
pub struct SpotMarket {
    /// The index of the market among the spot markets; zero is the quote market.
    pub market_index: u16,
    /// The decimals of the token.
    pub decimals: u8,
    /// What one unit of deposit balance is worth, at the scale of the
    /// cumulative interest.
    pub cumulative_deposit_interest: u128,
    /// What one unit of borrow balance costs, at the scale of the cumulative
    /// interest.
    pub cumulative_borrow_interest: u128,
    /// The sum of the deposit balances of all positions.
    pub deposit_balance: u128,
    /// The sum of the borrow balances of all positions.
    pub borrow_balance: u128,
    /// Weight of a deposit when a new position is opened.
    pub initial_asset_weight: u128,
    /// Weight of a deposit when an existing position is judged.
    pub maintenance_asset_weight: u128,
    /// Weight of a borrow when a new position is opened.
    pub initial_liability_weight: u128,
    /// Weight of a borrow when an existing position is judged.
    pub maintenance_liability_weight: u128,
    /// Factor of the size-dependent margin.
    pub imf_factor: u128,
}

impl SpotMarket {
    /// The interest of the given side.
    pub open spec fn cumulative_interest(self, balance_type: SpotBalanceType) -> u128 {
        match balance_type {
            SpotBalanceType::Deposit => self.cumulative_deposit_interest,
            SpotBalanceType::Borrow => self.cumulative_borrow_interest,
        }
    }

    /// The pooled balance of the given side.
    pub open spec fn pooled_balance(self, balance_type: SpotBalanceType) -> u128 {
        match balance_type {
            SpotBalanceType::Deposit => self.deposit_balance,
            SpotBalanceType::Borrow => self.borrow_balance,
        }
    }

    /// The pooled deposits less the pooled borrows, at the scale of the
    /// balances.
    pub open spec fn net_balance(self) -> int {
        self.deposit_balance - self.borrow_balance
    }

    /// Whether two markets differ in their pooled balances at most.
    pub open spec fn same_configuration(self, other: SpotMarket) -> bool {
        other == (SpotMarket {
            deposit_balance: other.deposit_balance,
            borrow_balance: other.borrow_balance,
            ..self
        })
    }

    /// The configuration allows balances to be converted: the decimals do not
    /// exceed the scale, and a unit of balance is worth something.
    pub open spec fn well_formed(self) -> bool {
        &&& self.decimals <= SPOT_BALANCE_DECIMALS
        &&& self.cumulative_deposit_interest > 0
        &&& self.cumulative_borrow_interest > 0
    }

    /// The market of a quote token with six decimals, no interest accrued so
    /// far, full weights and empty pools.
    pub fn default_quote_market() -> (r: Self)
        ensures
            r == (SpotMarket {
                market_index: 0,
                decimals: 6,
                cumulative_deposit_interest: SPOT_CUMULATIVE_INTEREST_PRECISION,
                cumulative_borrow_interest: SPOT_CUMULATIVE_INTEREST_PRECISION,
                deposit_balance: 0,
                borrow_balance: 0,
                initial_asset_weight: SPOT_WEIGHT_PRECISION,
                maintenance_asset_weight: SPOT_WEIGHT_PRECISION,
                initial_liability_weight: SPOT_WEIGHT_PRECISION,
                maintenance_liability_weight: SPOT_WEIGHT_PRECISION,
                imf_factor: 0,
            }),
            r.well_formed(),
    {
        SpotMarket {
            market_index: 0,
            decimals: 6,
            cumulative_deposit_interest: SPOT_CUMULATIVE_INTEREST_PRECISION,
            cumulative_borrow_interest: SPOT_CUMULATIVE_INTEREST_PRECISION,
            deposit_balance: 0,
            borrow_balance: 0,
            initial_asset_weight: SPOT_WEIGHT_PRECISION,
            maintenance_asset_weight: SPOT_WEIGHT_PRECISION,
            initial_liability_weight: SPOT_WEIGHT_PRECISION,
            maintenance_liability_weight: SPOT_WEIGHT_PRECISION,
            imf_factor: 0,
        }
    }
}

impl Default for SpotMarket {
    /// The zeroed market. Its interest is zero, so no balance can be
    /// converted on it: it is a blank to fill in, not a market to trade on.
    fn default() -> (r: Self)
        ensures
            r == (SpotMarket {
                market_index: 0,
                decimals: 0,
                cumulative_deposit_interest: 0,
                cumulative_borrow_interest: 0,
                deposit_balance: 0,
                borrow_balance: 0,
                initial_asset_weight: 0,
                maintenance_asset_weight: 0,
                initial_liability_weight: 0,
                maintenance_liability_weight: 0,
                imf_factor: 0,
            }),
    {
        SpotMarket {
            market_index: 0,
            decimals: 0,
            cumulative_deposit_interest: 0,
            cumulative_borrow_interest: 0,
            deposit_balance: 0,
            borrow_balance: 0,
            initial_asset_weight: 0,
            maintenance_asset_weight: 0,
            initial_liability_weight: 0,
            maintenance_liability_weight: 0,
            imf_factor: 0,
        }
    }
}

} // verus!
