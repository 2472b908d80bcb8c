//! What one account holds in one spot market.
use vstd::prelude::*;
use crate::state::spot_market::SpotBalanceType;

verus! {

/// The position of one account in one spot market. It is created zeroed on
/// the account's first dealing with the market and stays, as a record with no
/// balance, once the account has left.
#[derive(Clone, Copy, Debug, PartialEq, Eq, Structural)]
pub struct SpotPosition {
    /// The index of the spot market.
    pub market_index: u16,
    /// Whether the balance is held or owed.
    pub balance_type: SpotBalanceType,
    /// The size of the balance, at the scale of the balances.
    pub balance: u128,
    /// Tokens that the resting buy orders of the account may still bring in.
    pub open_bids: u64,
    /// Room that is left for the resting sell orders of the account.
    pub open_asks: u64,
    /// All tokens deposited less all tokens borrowed, in tokens. A running
    /// total for reporting; it is not a balance.
    pub cumulative_deposits: i64,
}

impl SpotPosition {
    /// The balance with its sign: positive when held, negative when owed.
    pub open spec fn signed_balance(self) -> int {
        match self.balance_type {
            SpotBalanceType::Deposit => self.balance as int,
            SpotBalanceType::Borrow => -(self.balance as int),
        }
    }
}

impl Default for SpotPosition {
    /// The zeroed position in the quote market.
    fn default() -> (r: Self)
        ensures
            r == (SpotPosition {
                market_index: 0,
                balance_type: SpotBalanceType::Deposit,
                balance: 0,
                open_bids: 0,
                open_asks: 0,
                cumulative_deposits: 0,
            }),
    {
        SpotPosition {
            market_index: 0,
            balance_type: SpotBalanceType::Deposit,
            balance: 0,
            open_bids: 0,
            open_asks: 0,
            cumulative_deposits: 0,
        }
    }
}

/// The most spot markets that one account can hold a position in.
pub const MAX_SPOT_POSITIONS: usize = 8;

/// An account, as far as the spot ledger knows it: its positions in the spot
/// markets. The first one is always the position in the quote market.
#[derive(Clone, Copy, Debug)]
pub struct User {
    /// The positions of the account, the quote market first.
    pub spot_positions: [SpotPosition; MAX_SPOT_POSITIONS],
}

impl User {
    /// The position of the account in the quote market.
    pub fn get_quote_spot_position_mut(&mut self) -> (position: &mut SpotPosition)
        ensures
            *position == old(self).spot_positions[0],
            final(self).spot_positions@ == old(self).spot_positions@.update(0, *final(position)),
    {
        &mut self.spot_positions[0]
    }
}

impl Default for User {
    /// The account with eight zeroed positions.
    fn default() -> (r: Self)
        ensures
            forall|i: int| 0 <= i < MAX_SPOT_POSITIONS ==> r.spot_positions[i] == (SpotPosition {
                market_index: 0,
                balance_type: SpotBalanceType::Deposit,
                balance: 0,
                open_bids: 0,
                open_asks: 0,
                cumulative_deposits: 0,
            }),
    {
        let zeroed: SpotPosition = SpotPosition::default();
        User { spot_positions: [zeroed, zeroed, zeroed, zeroed, zeroed, zeroed, zeroed, zeroed] }
    }
}

} // verus!
