//! The risk manager: watches the held position on every tick and emits
//! risk-driven sell decisions.
//!
//! For each tick whose market matches the held position: at or under the
//! stop-loss price it emits a sell with reason "Stop loss triggered"; at or
//! over the take-profit price a sell with reason "Take profit reached";
//! otherwise nothing.

use vstd::prelude::*;
use crate::config::TradingConfig;
use crate::strings::str_eq;
use crate::types::{Decision, PnL, Position, PriceTick, RiskAction};
use crate::{BPS_SCALE, PRICE_LIMIT};

verus! {

/// Watches the held position for stop-loss and take-profit exits.
pub struct RiskManager {
    config: TradingConfig,
    current_position: Option<Position>,
}

impl RiskManager {
    /// The held position, as the risk logic sees it.
    pub closed spec fn spec_position(&self) -> Option<Position> {
        self.current_position
    }

    /// The trading parameters the manager runs on.
    pub closed spec fn spec_config(&self) -> TradingConfig {
        self.config
    }

    /// What the risk logic needs of its state: valid parameters and a
    /// well-formed position whenever one is held.
    pub open spec fn wf(&self) -> bool {
        &&& self.spec_config().wf()
        &&& (self.spec_position() matches Some(p) ==> p.wf())
    }

    /// Whether a tick for this market concerns the held position.
    pub open spec fn spec_watches(&self, market: Seq<char>) -> bool {
        match self.spec_position() {
            Some(pos) => pos.market@ == market,
            None => false,
        }
    }

    /// A fresh manager with no position loaded.
    pub fn new(config: TradingConfig) -> (r: RiskManager)
        requires
            config.wf(),
        ensures
            r.wf(),
            r.spec_config() == config,
            r.spec_position() is None,
    {
        RiskManager { config, current_position: None }
    }

    /// Replace the position snapshot.
    pub fn set_position(&mut self, position: Option<Position>)
        requires
            old(self).wf(),
            position matches Some(p) ==> p.wf(),
        ensures
            final(self).wf(),
            final(self).spec_position() == position,
            final(self).spec_config() == old(self).spec_config(),
    {
        self.current_position = position;
    }

    /// Replace the position snapshot after an execution result is known.
    pub fn update_position(&mut self, position: Option<Position>)
        requires
            old(self).wf(),
            position matches Some(p) ==> p.wf(),
        ensures
            final(self).wf(),
            final(self).spec_position() == position,
            final(self).spec_config() == old(self).spec_config(),
    {
        self.current_position = position;
    }

    /// Pick the position the manager watches out of the persisted active
    /// positions: the first one. More than one active position is a
    /// data-consistency anomaly; the caller reports it and the first is
    /// still used.
    pub fn select_active_position(positions: &Vec<Position>) -> (r: Option<Position>)
        ensures
            positions@.len() == 0 ==> r is None,
            positions@.len() > 0 ==> r == Some(positions@[0]),
    {
        if positions.len() > 0 {
            Some(positions[0].clone())
        } else {
            None
        }
    }

    /// True exactly when the persisted active positions are anomalous:
    /// more than one exists where at most one should.
    pub fn is_position_anomaly(positions: &Vec<Position>) -> (r: bool)
        ensures
            r == (positions@.len() > 1),
    {
        positions.len() > 1
    }

    /// Judge one price against the position's exit thresholds.
    ///
    /// At or under the stop-loss price the answer is a stop-loss exit; else
    /// at or over the take-profit price a take-profit exit; else maintain.
    pub fn evaluate_risk(&self, position: &Position, current_price: u64) -> (r: RiskAction)
        requires
            position.wf(),
            current_price <= PRICE_LIMIT,
        ensures
            current_price <= position.stop_loss ==> (r matches RiskAction::StopLoss {
                market,
                current_price: cp,
                pnl_rate_bps,
            } && market == position.market && cp == current_price),
            current_price > position.stop_loss && current_price >= position.take_profit ==> (
            r matches RiskAction::TakeProfit { market, current_price: cp, pnl_rate_bps } && market
                == position.market && cp == current_price),
            position.stop_loss < current_price < position.take_profit ==> r is Maintain,
            r matches RiskAction::StopLoss { pnl_rate_bps, .. } ==> pnl_rate_bps
                == current_price as int * (BPS_SCALE as int) / (position.entry_price as int) - (
            BPS_SCALE as int),
            r matches RiskAction::TakeProfit { pnl_rate_bps, .. } ==> pnl_rate_bps
                == current_price as int * (BPS_SCALE as int) / (position.entry_price as int) - (
            BPS_SCALE as int),
    {
        let pnl = position.calculate_pnl(current_price);
        if position.should_stop_loss(current_price) {
            return RiskAction::StopLoss {
                market: position.market.clone(),
                current_price,
                pnl_rate_bps: pnl.profit_rate_bps,
            };
        }
        if position.should_take_profit(current_price) {
            return RiskAction::TakeProfit {
                market: position.market.clone(),
                current_price,
                pnl_rate_bps: pnl.profit_rate_bps,
            };
        }
        RiskAction::Maintain
    }

    /// Judge one tick against the held position and emit the due decision.
    ///
    /// For a tick on the held position's market: at or under the stop-loss
    /// price, a sell of the whole amount with reason "Stop loss triggered";
    /// else at or over the take-profit price, the same sell with reason
    /// "Take profit reached"; otherwise no decision. Ticks on other markets,
    /// and all ticks while no position is held, yield no decision.
    pub fn on_tick(&self, tick: &PriceTick) -> (r: Option<Decision>)
        requires
            self.wf(),
            tick.trade_price <= PRICE_LIMIT,
        ensures
            self.spec_position() is None ==> r is None,
            self.spec_watches(tick.market@) == false ==> r is None,
            self.spec_watches(tick.market@) && tick.trade_price
                <= self.spec_position()->Some_0.stop_loss ==> (r matches Some(d)
                && d matches Decision::Sell { market, amount, reason } && market
                == self.spec_position()->Some_0.market && amount
                == self.spec_position()->Some_0.amount && reason@ == "Stop loss triggered"@),
            self.spec_watches(tick.market@) && tick.trade_price
                > self.spec_position()->Some_0.stop_loss && tick.trade_price
                >= self.spec_position()->Some_0.take_profit ==> (r matches Some(d)
                && d matches Decision::Sell { market, amount, reason } && market
                == self.spec_position()->Some_0.market && amount
                == self.spec_position()->Some_0.amount && reason@ == "Take profit reached"@),
            self.spec_watches(tick.market@) && self.spec_position()->Some_0.stop_loss
                < tick.trade_price < self.spec_position()->Some_0.take_profit ==> r is None,
    {
        let position = match &self.current_position {
            Some(p) => p,
            None => {
                return None;
            },
        };
        if !str_eq(position.market.as_str(), tick.market.as_str()) {
            return None;
        }
        match self.evaluate_risk(position, tick.trade_price) {
            RiskAction::StopLoss { .. } => Some(
                Decision::sell(
                    position.market.clone(),
                    position.amount,
                    String::from_str("Stop loss triggered"),
                ),
            ),
            RiskAction::TakeProfit { .. } => Some(
                Decision::sell(
                    position.market.clone(),
                    position.amount,
                    String::from_str("Take profit reached"),
                ),
            ),
            RiskAction::Maintain => None,
        }
    }

    /// The position's profit and loss snapshot without a current price: cost
    /// and value both stand at the entry cost, so profit and rate are zero.
    pub fn get_current_pnl(&self) -> (r: Option<PnL>)
        requires
            self.wf(),
        ensures
            self.spec_position() is None ==> r is None,
            self.spec_position() matches Some(p) ==> (r matches Some(pnl) && pnl.cost
                == p.entry_price as int * p.amount as int && pnl.value == pnl.cost && pnl.profit
                == 0 && pnl.profit_rate_bps == 0),
    {
        match &self.current_position {
            Some(p) => {
                let cost = crate::mul_wide(p.entry_price, p.amount);
                Some(PnL { cost, value: cost, profit: 0, profit_rate_bps: 0 })
            },
            None => None,
        }
    }
}

} // verus!
