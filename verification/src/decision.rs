//! The decision maker: arbitrates one trading decision per signal.
//!
//! It holds the KRW balance and the current-position snapshot, and turns
//! every incoming signal into exactly one decision. It never buys while a
//! position is held, and never buys when the balance is under the minimum
//! order amount.

use vstd::prelude::*;
use crate::apply_bps;
use crate::config::TradingConfig;
use crate::strings::{spec_decimal, str_eq, u64_to_string};
use crate::types::{Decision, Position, Signal, SignalType};
use crate::BPS_SCALE;

verus! {

/// Arbitrates signals against balance and position state.
pub struct DecisionMaker {
    config: TradingConfig,
    current_position: Option<Position>,
    krw_balance: u64,
}

impl DecisionMaker {
    /// The held position, as the decision logic sees it.
    pub closed spec fn spec_position(&self) -> Option<Position> {
        self.current_position
    }

    /// The KRW balance, as the decision logic sees it.
    pub closed spec fn spec_balance(&self) -> u64 {
        self.krw_balance
    }

    /// The trading parameters the maker runs on.
    pub closed spec fn spec_config(&self) -> TradingConfig {
        self.config
    }

    /// What the decision logic needs of its state: valid trading parameters.
    pub open spec fn wf(&self) -> bool {
        self.spec_config().wf()
    }

    /// The KRW amount a buy decision spends: the configured share of the
    /// balance, rounded down.
    pub open spec fn spec_order_amount(&self) -> int {
        self.spec_balance() as int * self.spec_config().max_position_ratio_bps as int / (
        BPS_SCALE as int)
    }

    /// Whether a buy-side signal is answered with a buy: no position is held
    /// and the balance covers the minimum order amount.
    pub open spec fn spec_may_buy(&self) -> bool {
        self.spec_position() is None && self.spec_balance() >= self.spec_config().min_order_amount
    }

    /// Whether a sell-side signal for this market is answered with a sell:
    /// the held position is for the same market.
    pub open spec fn spec_may_sell(&self, market: Seq<char>) -> bool {
        match self.spec_position() {
            Some(pos) => pos.market@ == market,
            None => false,
        }
    }

    /// A fresh maker with no position and an empty balance.
    pub fn new(config: TradingConfig) -> (r: DecisionMaker)
        requires
            config.wf(),
        ensures
            r.wf(),
            r.spec_config() == config,
            r.spec_position() is None,
            r.spec_balance() == 0,
    {
        DecisionMaker { config, current_position: None, krw_balance: 0 }
    }

    /// Replace the balance snapshot.
    pub fn set_balance(&mut self, balance: u64)
        requires
            old(self).wf(),
        ensures
            final(self).wf(),
            final(self).spec_balance() == balance,
            final(self).spec_position() == old(self).spec_position(),
            final(self).spec_config() == old(self).spec_config(),
    {
        self.krw_balance = balance;
    }

    /// Replace the position snapshot.
    pub fn set_position(&mut self, position: Option<Position>)
        requires
            old(self).wf(),
        ensures
            final(self).wf(),
            final(self).spec_position() == position,
            final(self).spec_balance() == old(self).spec_balance(),
            final(self).spec_config() == old(self).spec_config(),
    {
        self.current_position = position;
    }

    /// Turn one signal into exactly one decision.
    ///
    /// Buy and strong-buy signals go through `evaluate_buy_signal`, sell and
    /// strong-sell signals through `evaluate_sell_signal`; a hold signal is
    /// answered with a hold decision. Whatever the signal, a buy is never
    /// emitted while a position is held, nor when the balance is under the
    /// minimum order amount.
    pub fn make_decision(&self, signal: &Signal) -> (r: Decision)
        requires
            self.wf(),
        ensures
            self.spec_position() is Some ==> !(r is Buy),
            self.spec_balance() < self.spec_config().min_order_amount ==> !(r is Buy),
            (signal.signal_type is Buy || signal.signal_type is StrongBuy)
                && self.spec_may_buy() ==> (r matches Decision::Buy { market, amount_krw, reason }
                && market == signal.market && amount_krw == self.spec_order_amount() && reason
                == signal.reason),
            (signal.signal_type is Buy || signal.signal_type is StrongBuy) && self.spec_position()
                is Some ==> (r matches Decision::Hold { reason } && reason@
                == "Position already exists"@),
            (signal.signal_type is Buy || signal.signal_type is StrongBuy) && self.spec_position()
                is None && !self.spec_may_buy() ==> (r matches Decision::Hold { reason } && reason@
                == "Insufficient balance: "@ + spec_decimal(self.spec_balance() as int) + " KRW"@),
            (signal.signal_type is Sell || signal.signal_type is StrongSell) && self.spec_may_sell(
                signal.market@,
            ) ==> (r matches Decision::Sell { market, amount, reason } && market == signal.market
                && amount == self.spec_position()->Some_0.amount && reason == signal.reason),
            (signal.signal_type is Sell || signal.signal_type is StrongSell)
                && !self.spec_may_sell(signal.market@) ==> (r matches Decision::Hold { reason }
                && reason@ == "No matching position to sell"@),
            signal.signal_type is Hold ==> (r matches Decision::Hold { reason } && reason@
                == "No significant signal"@),
    {
        match signal.signal_type {
            SignalType::Buy | SignalType::StrongBuy => self.evaluate_buy_signal(signal),
            SignalType::Sell | SignalType::StrongSell => self.evaluate_sell_signal(signal),
            SignalType::Hold => Decision::hold(String::from_str("No significant signal")),
        }
    }

    /// Evaluate a buy-side signal against position and balance: hold while a
    /// position exists, hold on an insufficient balance, else buy the
    /// configured share of the balance on the signal's market.
    pub fn evaluate_buy_signal(&self, signal: &Signal) -> (r: Decision)
        requires
            self.wf(),
        ensures
            self.spec_position() is Some ==> (r matches Decision::Hold { reason } && reason@
                == "Position already exists"@),
            self.spec_position() is None && self.spec_balance()
                < self.spec_config().min_order_amount ==> (r matches Decision::Hold { reason }
                && reason@ == "Insufficient balance: "@ + spec_decimal(self.spec_balance() as int)
                + " KRW"@),
            self.spec_may_buy() ==> (r matches Decision::Buy { market, amount_krw, reason }
                && market == signal.market && amount_krw == self.spec_order_amount() && reason
                == signal.reason),
            !self.spec_may_buy() ==> r is Hold,
    {
        if self.current_position.is_some() {
            return Decision::hold(String::from_str("Position already exists"));
        }
        if self.krw_balance < self.config.min_order_amount {
            let mut reason = String::from_str("Insufficient balance: ");
            let shown = u64_to_string(self.krw_balance);
            reason.append(shown.as_str());
            reason.append(" KRW");
            return Decision::hold(reason);
        }
        let order_amount = apply_bps(self.krw_balance, self.config.max_position_ratio_bps);
        Decision::buy(signal.market.clone(), order_amount, signal.reason.clone())
    }

    /// Evaluate a sell-side signal against the held position: sell the whole
    /// held amount when the signal's market matches, else hold.
    pub fn evaluate_sell_signal(&self, signal: &Signal) -> (r: Decision)
        requires
            self.wf(),
        ensures
            !(r is Buy),
            self.spec_may_sell(signal.market@) ==> (r matches Decision::Sell {
                market,
                amount,
                reason,
            } && market == signal.market && amount == self.spec_position()->Some_0.amount && reason
                == signal.reason),
            !self.spec_may_sell(signal.market@) ==> (r matches Decision::Hold { reason } && reason@
                == "No matching position to sell"@),
    {
        if let Some(pos) = &self.current_position {
            if str_eq(pos.market.as_str(), signal.market.as_str()) {
                return Decision::sell(signal.market.clone(), pos.amount, signal.reason.clone());
            }
        }
        Decision::hold(String::from_str("No matching position to sell"))
    }
}

/// True when an order would bind more than half the balance; such an order
/// is flagged for operator visibility without blocking it.
pub fn large_order_flag(balance: u64, order_amount: u64) -> (r: bool)
    ensures
        r == (2 * order_amount as int > balance as int),
{
    let doubled: u128 = (order_amount as u128) * 2;
    doubled > balance as u128
}

} // verus!

