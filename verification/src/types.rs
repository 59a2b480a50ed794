//! Core trading data types.
//!
//! Money and volume are plain integers: prices and KRW amounts in whole KRW,
//! volumes in the exchange's smallest volume unit. Rates and confidences are
//! basis points (`BPS_SCALE` = one). Composite amounts (price times volume)
//! use 128-bit integers so that no product can overflow.

use vstd::prelude::*;
use crate::clock::now_millis;
use crate::ids::new_uuid_string;
use crate::{mul_wide, AMOUNT_LIMIT, BPS_SCALE, PRICE_LIMIT};

verus! {

/// One real-time price/volume observation for a market.
#[derive(Debug, PartialEq)]
pub struct PriceTick {
    /// Market code, such as "KRW-BTC".
    pub market: String,
    /// Observation time in milliseconds since the Unix epoch.
    pub timestamp: u64,
    /// Trade price in KRW.
    pub trade_price: u64,
    /// Change against the previous close, in basis points.
    pub change_rate_bps: i64,
    /// Traded volume in volume units.
    pub volume: u64,
    /// Traded amount: price times volume.
    pub trade_amount: u128,
}

impl Clone for PriceTick {
    /// An exact copy, field by field.
    fn clone(&self) -> (res: PriceTick)
        ensures
            res == *self,
    {
        PriceTick {
            market: self.market.clone(),
            timestamp: self.timestamp,
            trade_price: self.trade_price,
            change_rate_bps: self.change_rate_bps,
            volume: self.volume,
            trade_amount: self.trade_amount,
        }
    }
}

impl PriceTick {
    /// Build a tick; the traded amount is derived from price and volume.
    pub fn new(
        market: String,
        timestamp: u64,
        trade_price: u64,
        change_rate_bps: i64,
        volume: u64,
    ) -> (r: PriceTick)
        ensures
            r.market == market,
            r.timestamp == timestamp,
            r.trade_price == trade_price,
            r.change_rate_bps == change_rate_bps,
            r.volume == volume,
            r.trade_amount == trade_price as int * volume as int,
    {
        let trade_amount: u128 = mul_wide(trade_price, volume);
        PriceTick { market, timestamp, trade_price, change_rate_bps, volume, trade_amount }
    }
}

/// Direction of a trading suggestion.
#[derive(Debug, Clone, Copy, PartialEq, Eq, Structural)]
pub enum SignalType {
    Buy,
    StrongBuy,
    Sell,
    StrongSell,
    Hold,
}

/// A directional trading suggestion with confidence, derived from ticks.
#[derive(Debug, Clone, PartialEq)]
pub struct Signal {
    pub market: String,
    pub signal_type: SignalType,
    /// Confidence in basis points, between 0 and `BPS_SCALE`.
    pub confidence_bps: u32,
    pub reason: String,
    /// Creation time in milliseconds since the Unix epoch.
    pub timestamp: u64,
}

impl Signal {
    /// A buy suggestion. The timestamp is the wall clock at the call.
    pub fn buy(market: String, confidence_bps: u32, reason: String) -> (r: Signal)
        ensures
            r.market == market,
            r.signal_type == SignalType::Buy,
            r.confidence_bps == confidence_bps,
            r.reason == reason,
    {
        Signal {
            market,
            signal_type: SignalType::Buy,
            confidence_bps,
            reason,
            timestamp: now_millis(),
        }
    }

    /// A sell suggestion. The timestamp is the wall clock at the call.
    pub fn sell(market: String, confidence_bps: u32, reason: String) -> (r: Signal)
        ensures
            r.market == market,
            r.signal_type == SignalType::Sell,
            r.confidence_bps == confidence_bps,
            r.reason == reason,
    {
        Signal {
            market,
            signal_type: SignalType::Sell,
            confidence_bps,
            reason,
            timestamp: now_millis(),
        }
    }

    /// A strong buy suggestion. The timestamp is the wall clock at the call.
    pub fn strong_buy(market: String, confidence_bps: u32, reason: String) -> (r: Signal)
        ensures
            r.market == market,
            r.signal_type == SignalType::StrongBuy,
            r.confidence_bps == confidence_bps,
            r.reason == reason,
    {
        Signal {
            market,
            signal_type: SignalType::StrongBuy,
            confidence_bps,
            reason,
            timestamp: now_millis(),
        }
    }

    /// A neutral suggestion with zero confidence.
    pub fn hold(market: String) -> (r: Signal)
        ensures
            r.market == market,
            r.signal_type == SignalType::Hold,
            r.confidence_bps == 0,
            r.reason@ == "No significant signal"@,
    {
        Signal {
            market,
            signal_type: SignalType::Hold,
            confidence_bps: 0,
            reason: String::from_str("No significant signal"),
            timestamp: now_millis(),
        }
    }
}

/// A concrete action derived from a signal and current state.
///
/// A decision carries intent only, never state.
#[derive(Debug, Clone, PartialEq)]
pub enum Decision {
    /// Spend `amount_krw` KRW on a market buy.
    Buy { market: String, amount_krw: u64, reason: String },
    /// Sell `amount` volume units at market.
    Sell { market: String, amount: u64, reason: String },
    /// Do nothing.
    Hold { reason: String },
}

impl Decision {
    pub fn buy(market: String, amount_krw: u64, reason: String) -> (r: Decision)
        ensures
            r == (Decision::Buy { market, amount_krw, reason }),
    {
        Decision::Buy { market, amount_krw, reason }
    }

    pub fn sell(market: String, amount: u64, reason: String) -> (r: Decision)
        ensures
            r == (Decision::Sell { market, amount, reason }),
    {
        Decision::Sell { market, amount, reason }
    }

    pub fn hold(reason: String) -> (r: Decision)
        ensures
            r == (Decision::Hold { reason }),
    {
        Decision::Hold { reason }
    }

    /// True exactly when the decision places an order.
    pub fn is_trade(&self) -> (r: bool)
        ensures
            r == !(self is Hold),
    {
        match self {
            Decision::Buy { .. } => true,
            Decision::Sell { .. } => true,
            Decision::Hold { .. } => false,
        }
    }
}

/// A held market exposure with defined exit thresholds.
///
/// The stop-loss and take-profit prices are fixed at creation:
/// `stop_loss = entry_price * (BPS_SCALE - stop_loss_rate) / BPS_SCALE` and
/// `take_profit = entry_price * (BPS_SCALE + take_profit_rate) / BPS_SCALE`.
#[derive(Debug, PartialEq)]
pub struct Position {
    pub market: String,
    /// Entry price in KRW; always at least 1.
    pub entry_price: u64,
    /// Held volume in volume units.
    pub amount: u64,
    /// Entry time in milliseconds since the Unix epoch.
    pub entry_time: u64,
    /// Exit threshold below: selling is due at or under this price.
    pub stop_loss: u64,
    /// Exit threshold above: selling is due at or over this price.
    pub take_profit: u64,
}

impl Clone for Position {
    /// An exact copy, field by field.
    fn clone(&self) -> (res: Position)
        ensures
            res == *self,
    {
        Position {
            market: self.market.clone(),
            entry_price: self.entry_price,
            amount: self.amount,
            entry_time: self.entry_time,
            stop_loss: self.stop_loss,
            take_profit: self.take_profit,
        }
    }
}

impl Position {
    /// What every position satisfies from creation on: a positive, bounded
    /// entry price, a bounded amount, and a stop-loss at or under the entry.
    pub open spec fn wf(&self) -> bool {
        &&& 1 <= self.entry_price <= PRICE_LIMIT
        &&& self.amount <= AMOUNT_LIMIT
        &&& self.stop_loss <= self.entry_price
    }

    /// Open a position; thresholds are derived from the entry price.
    pub fn new(
        market: String,
        entry_price: u64,
        amount: u64,
        stop_loss_rate_bps: u32,
        take_profit_rate_bps: u32,
    ) -> (r: Position)
        requires
            1 <= entry_price <= PRICE_LIMIT,
            amount <= AMOUNT_LIMIT,
            stop_loss_rate_bps <= BPS_SCALE,
            take_profit_rate_bps <= BPS_SCALE,
        ensures
            r.market == market,
            r.entry_price == entry_price,
            r.amount == amount,
            r.stop_loss == entry_price as int * (BPS_SCALE - stop_loss_rate_bps) as int / (
            BPS_SCALE as int),
            r.take_profit == entry_price as int * (BPS_SCALE + take_profit_rate_bps) as int / (
            BPS_SCALE as int),
            r.wf(),
    {
        let down: u32 = BPS_SCALE - stop_loss_rate_bps;
        let up: u32 = BPS_SCALE + take_profit_rate_bps;
        let stop_loss_wide: u128 = mul_wide(entry_price, down as u64) / (BPS_SCALE as u128);
        let take_profit_wide: u128 = mul_wide(entry_price, up as u64) / (BPS_SCALE as u128);
        proof {
            assert(stop_loss_wide <= entry_price && take_profit_wide <= 2 * entry_price)
                by (nonlinear_arith)
                requires
                    stop_loss_wide == entry_price as int * down as int / 10000,
                    take_profit_wide == entry_price as int * up as int / 10000,
                    down <= 10000,
                    up <= 20000,
            ;
        }
        Position {
            market,
            entry_price,
            amount,
            entry_time: now_millis(),
            stop_loss: stop_loss_wide as u64,
            take_profit: take_profit_wide as u64,
        }
    }

    /// Profit and loss of the position at the given current price.
    pub fn calculate_pnl(&self, current_price: u64) -> (r: PnL)
        requires
            self.wf(),
            current_price <= PRICE_LIMIT,
        ensures
            r.cost == self.amount as int * self.entry_price as int,
            r.value == self.amount as int * current_price as int,
            r.profit == r.value - r.cost,
            r.profit_rate_bps == current_price as int * (BPS_SCALE as int) / (
            self.entry_price as int) - (BPS_SCALE as int),
    {
        let cost: u128 = mul_wide(self.amount, self.entry_price);
        let value: u128 = mul_wide(self.amount, current_price);
        proof {
            assert(cost <= AMOUNT_LIMIT as int * PRICE_LIMIT as int && value <= AMOUNT_LIMIT as int
                * PRICE_LIMIT as int) by (nonlinear_arith)
                requires
                    cost == self.amount as int * self.entry_price as int,
                    value == self.amount as int * current_price as int,
                    self.amount <= AMOUNT_LIMIT,
                    self.entry_price <= PRICE_LIMIT,
                    current_price <= PRICE_LIMIT,
            ;
        }
        let profit: i128 = (value as i128) - (cost as i128);
        let numerator: u128 = mul_wide(current_price, BPS_SCALE as u64);
        let scaled: u128 = numerator / (self.entry_price as u128);
        proof {
            assert(scaled <= numerator) by (nonlinear_arith)
                requires
                    scaled == numerator as int / self.entry_price as int,
                    1 <= self.entry_price,
            ;
        }
        let profit_rate_bps: i128 = (scaled as i128) - (BPS_SCALE as i128);
        PnL { cost, value, profit, profit_rate_bps }
    }

    /// True exactly when the price has reached the stop-loss threshold.
    pub fn should_stop_loss(&self, current_price: u64) -> (r: bool)
        ensures
            r == (current_price <= self.stop_loss),
    {
        current_price <= self.stop_loss
    }

    /// True exactly when the price has reached the take-profit threshold.
    pub fn should_take_profit(&self, current_price: u64) -> (r: bool)
        ensures
            r == (current_price >= self.take_profit),
    {
        current_price >= self.take_profit
    }
}

/// Profit and loss derived on demand from a position and a current price.
#[derive(Debug, Clone, PartialEq)]
pub struct PnL {
    /// What the position cost at entry: amount times entry price.
    pub cost: u128,
    /// What the position is worth now: amount times current price.
    pub value: u128,
    /// `value - cost`; negative on a loss.
    pub profit: i128,
    /// Relative gain in basis points; negative on a loss.
    pub profit_rate_bps: i128,
}

/// Order direction.
#[derive(Debug, Clone, Copy, PartialEq, Eq, Structural)]
pub enum OrderSide {
    Bid,
    Ask,
}

impl OrderSide {
    pub fn is_bid(&self) -> (r: bool)
        ensures
            r == (self is Bid),
    {
        matches!(self, OrderSide::Bid)
    }

    pub fn is_ask(&self) -> (r: bool)
        ensures
            r == (self is Ask),
    {
        matches!(self, OrderSide::Ask)
    }
}

/// Order lifecycle state.
#[derive(Debug, Clone, Copy, PartialEq, Eq, Structural)]
pub enum OrderStatus {
    Waiting,
    Executed,
    Canceled,
    Failed,
}

/// One execution attempt on the exchange; persisted regardless of success.
#[derive(Debug, Clone, PartialEq)]
pub struct Order {
    /// Order UUID.
    pub id: String,
    pub market: String,
    pub side: OrderSide,
    /// Order price in KRW.
    pub price: u64,
    /// Order volume in volume units.
    pub volume: u64,
    pub status: OrderStatus,
    /// Creation time in milliseconds since the Unix epoch.
    pub created_at: u64,
    /// Volume filled so far, in volume units.
    pub executed_volume: u64,
    /// KRW amount filled so far.
    pub executed_amount: u64,
}

impl Order {
    /// A fresh waiting order with a new UUID and no fills.
    pub fn new(market: String, side: OrderSide, price: u64, volume: u64) -> (r: Order)
        ensures
            r.market == market,
            r.side == side,
            r.price == price,
            r.volume == volume,
            r.status == OrderStatus::Waiting,
            r.executed_volume == 0,
            r.executed_amount == 0,
    {
        Order {
            id: new_uuid_string(),
            market,
            side,
            price,
            volume,
            status: OrderStatus::Waiting,
            created_at: now_millis(),
            executed_volume: 0,
            executed_amount: 0,
        }
    }

    pub fn is_executed(&self) -> (r: bool)
        ensures
            r == (self.status is Executed),
    {
        matches!(self.status, OrderStatus::Executed)
    }

    pub fn is_waiting(&self) -> (r: bool)
        ensures
            r == (self.status is Waiting),
    {
        matches!(self.status, OrderStatus::Waiting)
    }
}

/// Outcome of one decision as executed: the order plus success or error.
#[derive(Debug, Clone, PartialEq)]
pub struct OrderResult {
    pub order: Order,
    pub success: bool,
    /// The error message when the execution failed.
    pub error: Option<String>,
    /// Fill time in milliseconds since the Unix epoch, when successful.
    pub executed_at: Option<u64>,
}

impl OrderResult {
    /// A successful result carrying the filled order.
    pub fn success(order: Order) -> (r: OrderResult)
        ensures
            r.order == order,
            r.success,
            r.error is None,
            r.executed_at is Some,
    {
        OrderResult { order, success: true, error: None, executed_at: Some(now_millis()) }
    }

    /// A failed result carrying the error; the order is an empty placeholder.
    pub fn failure(market: String, side: OrderSide, error: String) -> (r: OrderResult)
        ensures
            r.order.market == market,
            r.order.side == side,
            !r.success,
            r.error == Some(error),
            r.executed_at is None,
    {
        let order = Order::new(market, side, 0, 0);
        OrderResult { order, success: false, error: Some(error), executed_at: None }
    }
}

/// What the risk monitor asks for on one tick.
#[derive(Debug, Clone, PartialEq)]
pub enum RiskAction {
    /// Keep the position.
    Maintain,
    /// Sell: the price fell to the stop-loss threshold.
    StopLoss { market: String, current_price: u64, pnl_rate_bps: i128 },
    /// Sell: the price rose to the take-profit threshold.
    TakeProfit { market: String, current_price: u64, pnl_rate_bps: i128 },
}

/// One OHLCV candle.
#[derive(Debug, Clone, PartialEq)]
pub struct Candle {
    pub market: String,
    /// Candle time in milliseconds since the Unix epoch.
    pub timestamp: u64,
    pub open_price: u64,
    pub high_price: u64,
    pub low_price: u64,
    pub close_price: u64,
    pub volume: u64,
}

impl Candle {
    pub fn new(
        market: String,
        timestamp: u64,
        open_price: u64,
        high_price: u64,
        low_price: u64,
        close_price: u64,
        volume: u64,
    ) -> (r: Candle)
        ensures
            r == (Candle { market, timestamp, open_price, high_price, low_price, close_price, volume }),
    {
        Candle { market, timestamp, open_price, high_price, low_price, close_price, volume }
    }

    /// True exactly when the candle closed above its open.
    pub fn is_bullish(&self) -> (r: bool)
        ensures
            r == (self.close_price > self.open_price),
    {
        self.close_price > self.open_price
    }

    /// True exactly when the candle closed below its open.
    pub fn is_bearish(&self) -> (r: bool)
        ensures
            r == (self.close_price < self.open_price),
    {
        self.close_price < self.open_price
    }

    /// Relative change from open to close, in basis points.
    pub fn change_rate_bps(&self) -> (r: i128)
        requires
            1 <= self.open_price,
        ensures
            r == self.close_price as int * (BPS_SCALE as int) / (self.open_price as int) - (
            BPS_SCALE as int),
    {
        let scaled: u128 = (self.close_price as u128) * (BPS_SCALE as u128) / (
        self.open_price as u128);
        (scaled as i128) - (BPS_SCALE as i128)
    }
}

/// Holdings of one currency in the exchange account.
#[derive(Debug, Clone, PartialEq)]
pub struct Balance {
    /// Currency code, such as "KRW".
    pub currency: String,
    /// Total held amount.
    pub balance: u64,
    /// Amount locked by open orders.
    pub locked: u64,
    /// Amount free to spend.
    pub available: u64,
    /// Average buy price in KRW, for coin balances.
    pub avg_buy_price: u64,
}

impl Balance {
    /// The spendable amount: total minus locked, never below zero.
    pub fn available_balance(&self) -> (r: u64)
        ensures
            self.locked <= self.balance ==> r == self.balance - self.locked,
            self.locked > self.balance ==> r == 0,
    {
        if self.locked <= self.balance {
            self.balance - self.locked
        } else {
            0
        }
    }
}

} // verus!
