//! Trading strategies: the momentum-following strategy and its factory.
//!
//! The momentum strategy detects the same surge condition as the live signal
//! detector — a price rise of at least its threshold inside its lookback
//! window, on a volume of at least its multiple of the window average — over
//! its own smaller window, so it can also run on candles.

use vstd::prelude::*;
use crate::signal::{
    confidence_formula, spec_avg_volume, spec_confidence_formula, spec_frame, spec_price_change,
    spec_surge_reason, PriceHistory,
};
use crate::types::{Candle, PriceTick, Signal};
use crate::{AMOUNT_LIMIT, BPS_SCALE, PRICE_LIMIT};

verus! {

/// How many ticks the momentum strategy's window holds.
pub const MOMENTUM_HISTORY_CAPACITY: usize = 1000;

/// Detects price surges with abnormal volume over a rolling window.
pub struct MomentumStrategy {
    surge_threshold_bps: u32,
    volume_multiplier_bps: u32,
    timeframe_minutes: u64,
    history: PriceHistory,
}

impl MomentumStrategy {
    /// The surge threshold in basis points.
    pub closed spec fn spec_threshold(&self) -> u32 {
        self.surge_threshold_bps
    }

    /// The volume multiplier in basis points.
    pub closed spec fn spec_multiplier(&self) -> u32 {
        self.volume_multiplier_bps
    }

    /// The lookback window in minutes.
    pub closed spec fn spec_timeframe_minutes(&self) -> u64 {
        self.timeframe_minutes
    }

    /// The stored ticks, oldest first.
    pub closed spec fn spec_ticks(&self) -> Seq<PriceTick> {
        self.history.spec_ticks()
    }

    /// What the strategy needs of its state: positive thresholds, a bounded
    /// lookback, and a sound window.
    pub open spec fn wf(&self) -> bool {
        &&& 1 <= self.spec_threshold()
        &&& 1 <= self.spec_multiplier()
        &&& self.spec_timeframe_minutes() <= 1000000
        &&& self.spec_history_wf()
    }

    /// The window invariant, exposed for callers.
    pub closed spec fn spec_history_wf(&self) -> bool {
        self.history.wf() && self.history.spec_max_size() == MOMENTUM_HISTORY_CAPACITY
    }

    /// A fresh strategy with an empty window.
    pub fn new(surge_threshold_bps: u32, volume_multiplier_bps: u32, timeframe_minutes: u64) -> (r:
        MomentumStrategy)
        requires
            1 <= surge_threshold_bps,
            1 <= volume_multiplier_bps,
            timeframe_minutes <= 1000000,
        ensures
            r.wf(),
            r.spec_threshold() == surge_threshold_bps,
            r.spec_multiplier() == volume_multiplier_bps,
            r.spec_timeframe_minutes() == timeframe_minutes,
            r.spec_ticks() == Seq::<PriceTick>::empty(),
    {
        MomentumStrategy {
            surge_threshold_bps,
            volume_multiplier_bps,
            timeframe_minutes,
            history: PriceHistory::new(MOMENTUM_HISTORY_CAPACITY),
        }
    }

    /// The tick's lookback frame within the current window, judged at the
    /// tick's own timestamp.
    pub open spec fn spec_frame_of(&self, tick: PriceTick) -> Seq<PriceTick> {
        spec_frame(
            self.spec_ticks(),
            tick.market@,
            tick.timestamp,
            (self.spec_timeframe_minutes() * 60000) as u64,
        )
    }

    /// The tick's volume against the frame's average, in basis points; one
    /// (as `BPS_SCALE`) when the average is zero.
    pub open spec fn spec_volume_ratio(&self, tick: PriceTick) -> int {
        let avg = spec_avg_volume(self.spec_frame_of(tick));
        if avg > 0 {
            tick.volume as int * (BPS_SCALE as int) / avg
        } else {
            BPS_SCALE as int
        }
    }

    /// Whether the tick completes a surge under this strategy's thresholds.
    pub open spec fn spec_surges(&self, tick: PriceTick) -> bool {
        &&& spec_price_change(self.spec_frame_of(tick)) is Some
        &&& spec_price_change(self.spec_frame_of(tick))->Some_0 >= self.spec_threshold()
        &&& self.spec_volume_ratio(tick) >= self.spec_multiplier()
    }

    /// Store one tick, then judge it: the signal comes exactly when the tick
    /// completes a surge in the updated window.
    pub fn update_and_analyze(&mut self, tick: PriceTick) -> (r: Option<Signal>)
        requires
            old(self).wf(),
            tick.trade_price <= PRICE_LIMIT,
            tick.volume <= AMOUNT_LIMIT,
        ensures
            final(self).wf(),
            final(self).spec_threshold() == old(self).spec_threshold(),
            final(self).spec_multiplier() == old(self).spec_multiplier(),
            final(self).spec_timeframe_minutes() == old(self).spec_timeframe_minutes(),
            r is Some <==> final(self).spec_surges(tick),
            r matches Some(sig) ==> (sig.market == tick.market && sig.signal_type is Buy
                && sig.confidence_bps == spec_confidence_formula(
                old(self).spec_threshold(),
                old(self).spec_multiplier(),
                spec_price_change(final(self).spec_frame_of(tick))->Some_0,
                final(self).spec_volume_ratio(tick),
            ) && sig.reason@ == spec_surge_reason(
                spec_price_change(final(self).spec_frame_of(tick))->Some_0,
                final(self).spec_volume_ratio(tick),
            )),
    {
        let judged = tick.clone();
        self.history.add(tick);
        self.analyze(&judged)
    }

    /// Judge one tick against the window without storing it.
    pub fn analyze(&self, tick: &PriceTick) -> (r: Option<Signal>)
        requires
            self.wf(),
            tick.trade_price <= PRICE_LIMIT,
            tick.volume <= AMOUNT_LIMIT,
        ensures
            r is Some <==> self.spec_surges(*tick),
            r matches Some(sig) ==> (sig.market == tick.market && sig.signal_type is Buy
                && sig.confidence_bps == spec_confidence_formula(
                self.spec_threshold(),
                self.spec_multiplier(),
                spec_price_change(self.spec_frame_of(*tick))->Some_0,
                self.spec_volume_ratio(*tick),
            ) && sig.reason@ == spec_surge_reason(
                spec_price_change(self.spec_frame_of(*tick))->Some_0,
                self.spec_volume_ratio(*tick),
            )),
    {
        let timeframe_ms: u64 = self.timeframe_minutes * 60000;
        let change_opt = self.history.calculate_price_change(
            tick.market.as_str(),
            tick.timestamp,
            timeframe_ms,
        );
        let change: i128 = match change_opt {
            Some(c) => c,
            None => {
                return None;
            },
        };
        let avg_volume = self.history.calculate_avg_volume(
            tick.market.as_str(),
            tick.timestamp,
            timeframe_ms,
        );
        let volume_ratio: u64 = if avg_volume > 0 {
            let numerator = crate::mul_wide(tick.volume, BPS_SCALE as u64);
            let scaled = numerator / (avg_volume as u128);
            proof {
                assert(scaled <= numerator) by (nonlinear_arith)
                    requires
                        scaled == numerator as int / avg_volume as int,
                        1 <= avg_volume,
                ;
            }
            scaled as u64
        } else {
            BPS_SCALE as u64
        };
        if change >= self.surge_threshold_bps as i128 && volume_ratio
            >= self.volume_multiplier_bps as u64 {
            let change_u64 = change as u64;
            let confidence = confidence_formula(
                self.surge_threshold_bps,
                self.volume_multiplier_bps,
                change_u64,
                volume_ratio,
            );
            let mut reason = String::from_str("Price surged ");
            let percent = crate::signal::render_percent_2dp(change_u64);
            reason.append(percent.as_str());
            reason.append("% with ");
            let ratio_text = crate::signal::render_ratio_1dp(volume_ratio);
            reason.append(ratio_text.as_str());
            reason.append("x volume");
            proof {
                assert(reason@ =~= spec_surge_reason(change as int, volume_ratio as int));
            }
            Some(Signal::buy(tick.market.clone(), confidence, reason))
        } else {
            None
        }
    }

    /// Judge one candle: its close, change and volume stand in for the tick
    /// `spec_candle_tick` describes, and the signal comes exactly when that
    /// tick completes a surge in the updated window.
    pub fn on_candle(&mut self, candle: &Candle) -> (r: Option<Signal>)
        requires
            old(self).wf(),
            1 <= candle.open_price,
            candle.close_price <= PRICE_LIMIT,
            candle.volume <= AMOUNT_LIMIT,
        ensures
            final(self).wf(),
            final(self).spec_threshold() == old(self).spec_threshold(),
            final(self).spec_multiplier() == old(self).spec_multiplier(),
            final(self).spec_timeframe_minutes() == old(self).spec_timeframe_minutes(),
            r is Some <==> final(self).spec_surges(spec_candle_tick(*candle)),
            r matches Some(sig) ==> (sig.market == candle.market && sig.signal_type is Buy
                && sig.confidence_bps == spec_confidence_formula(
                old(self).spec_threshold(),
                old(self).spec_multiplier(),
                spec_price_change(final(self).spec_frame_of(spec_candle_tick(*candle)))->Some_0,
                final(self).spec_volume_ratio(spec_candle_tick(*candle)),
            ) && sig.reason@ == spec_surge_reason(
                spec_price_change(final(self).spec_frame_of(spec_candle_tick(*candle)))->Some_0,
                final(self).spec_volume_ratio(spec_candle_tick(*candle)),
            )),
    {
        let change_bps_wide: i128 = candle.change_rate_bps();
        let change_bps: i64 = if change_bps_wide > i64::MAX as i128 {
            i64::MAX
        } else if change_bps_wide < i64::MIN as i128 {
            i64::MIN
        } else {
            change_bps_wide as i64
        };
        let tick = PriceTick::new(
            candle.market.clone(),
            candle.timestamp,
            candle.close_price,
            change_bps,
            candle.volume,
        );
        proof {
            assert(tick == spec_candle_tick(*candle));
        }
        self.update_and_analyze(tick)
    }

    /// Replace the detection thresholds.
    pub fn update_parameters(&mut self, surge_threshold_bps: u32, volume_multiplier_bps: u32)
        requires
            old(self).wf(),
            1 <= surge_threshold_bps,
            1 <= volume_multiplier_bps,
        ensures
            final(self).wf(),
            final(self).spec_threshold() == surge_threshold_bps,
            final(self).spec_multiplier() == volume_multiplier_bps,
            final(self).spec_timeframe_minutes() == old(self).spec_timeframe_minutes(),
            final(self).spec_ticks() == old(self).spec_ticks(),
    {
        self.surge_threshold_bps = surge_threshold_bps;
        self.volume_multiplier_bps = volume_multiplier_bps;
    }

    /// Replace any of the parameters, validating each: a zero threshold,
    /// multiplier or timeframe is rejected and nothing changes.
    pub fn set_parameters(
        &mut self,
        surge_threshold_bps: Option<u32>,
        volume_multiplier_bps: Option<u32>,
        timeframe_minutes: Option<u64>,
    ) -> (r: Result<(), String>)
        requires
            old(self).wf(),
            timeframe_minutes matches Some(t) ==> t <= 1000000,
        ensures
            final(self).wf(),
            r is Ok <==> !(surge_threshold_bps == Some(0u32) || volume_multiplier_bps == Some(0u32)
                || timeframe_minutes == Some(0u64)),
            r is Ok ==> final(self).spec_threshold() == (match surge_threshold_bps {
                Some(v) => v,
                None => old(self).spec_threshold(),
            }),
            r is Ok ==> final(self).spec_multiplier() == (match volume_multiplier_bps {
                Some(v) => v,
                None => old(self).spec_multiplier(),
            }),
            r is Ok ==> final(self).spec_timeframe_minutes() == (match timeframe_minutes {
                Some(v) => v,
                None => old(self).spec_timeframe_minutes(),
            }),
            r is Err ==> *final(self) == *old(self),
    {
        if surge_threshold_bps == Some(0u32) {
            return Err(String::from_str("surge_threshold must be positive"));
        }
        if volume_multiplier_bps == Some(0u32) {
            return Err(String::from_str("volume_multiplier must be positive"));
        }
        if timeframe_minutes == Some(0u64) {
            return Err(String::from_str("timeframe_minutes must be positive"));
        }
        if let Some(v) = surge_threshold_bps {
            self.surge_threshold_bps = v;
        }
        if let Some(v) = volume_multiplier_bps {
            self.volume_multiplier_bps = v;
        }
        if let Some(v) = timeframe_minutes {
            self.timeframe_minutes = v;
        }
        Ok(())
    }

    /// The strategy's name.
    pub fn get_name(&self) -> (r: &'static str)
        ensures
            r@ == "Momentum"@,
    {
        "Momentum"
    }

    /// Forget the stored ticks.
    pub fn clear_history(&mut self)
        requires
            old(self).wf(),
        ensures
            final(self).wf(),
            final(self).spec_ticks() == Seq::<PriceTick>::empty(),
            final(self).spec_threshold() == old(self).spec_threshold(),
            final(self).spec_multiplier() == old(self).spec_multiplier(),
            final(self).spec_timeframe_minutes() == old(self).spec_timeframe_minutes(),
    {
        self.history = PriceHistory::new(MOMENTUM_HISTORY_CAPACITY);
    }

    /// Reset the strategy to its starting state.
    pub fn reset(&mut self)
        requires
            old(self).wf(),
        ensures
            final(self).wf(),
            final(self).spec_ticks() == Seq::<PriceTick>::empty(),
            final(self).spec_threshold() == old(self).spec_threshold(),
            final(self).spec_multiplier() == old(self).spec_multiplier(),
            final(self).spec_timeframe_minutes() == old(self).spec_timeframe_minutes(),
    {
        self.clear_history();
    }
}

/// The tick a candle stands in for: the candle's market, time, close price
/// and volume, with the open-to-close change in basis points clamped to a
/// machine word.
pub open spec fn spec_candle_tick(candle: Candle) -> PriceTick {
    let change = candle.close_price as int * (BPS_SCALE as int) / (candle.open_price as int) - (
    BPS_SCALE as int);
    PriceTick {
        market: candle.market,
        timestamp: candle.timestamp,
        trade_price: candle.close_price,
        change_rate_bps: (if change > i64::MAX as int {
            i64::MAX as int
        } else if change < i64::MIN as int {
            i64::MIN as int
        } else {
            change
        }) as i64,
        volume: candle.volume,
        trade_amount: (candle.close_price as int * candle.volume as int) as u128,
    }
}

/// Builds the library's strategies with preset parameters.
pub struct StrategyFactory;

impl StrategyFactory {
    /// The default momentum strategy: 5% surge, twice the volume, 60
    /// minutes.
    pub fn momentum() -> (r: MomentumStrategy)
        ensures
            r.wf(),
            r.spec_threshold() == 500,
            r.spec_multiplier() == 20000,
            r.spec_timeframe_minutes() == 60,
    {
        MomentumStrategy::new(500, 20000, 60)
    }

    /// A momentum strategy with the given parameters.
    pub fn momentum_with_params(
        surge_threshold_bps: u32,
        volume_multiplier_bps: u32,
        timeframe_minutes: u64,
    ) -> (r: MomentumStrategy)
        requires
            1 <= surge_threshold_bps,
            1 <= volume_multiplier_bps,
            timeframe_minutes <= 1000000,
        ensures
            r.wf(),
            r.spec_threshold() == surge_threshold_bps,
            r.spec_multiplier() == volume_multiplier_bps,
            r.spec_timeframe_minutes() == timeframe_minutes,
    {
        MomentumStrategy::new(surge_threshold_bps, volume_multiplier_bps, timeframe_minutes)
    }

    /// A conservative variant: a lower threshold, a higher volume bar, a
    /// longer window.
    pub fn conservative_momentum() -> (r: MomentumStrategy)
        ensures
            r.wf(),
            r.spec_threshold() == 300,
            r.spec_multiplier() == 30000,
            r.spec_timeframe_minutes() == 120,
    {
        MomentumStrategy::new(300, 30000, 120)
    }

    /// An aggressive variant: a higher threshold, a lower volume bar, a
    /// shorter window.
    pub fn aggressive_momentum() -> (r: MomentumStrategy)
        ensures
            r.wf(),
            r.spec_threshold() == 800,
            r.spec_multiplier() == 15000,
            r.spec_timeframe_minutes() == 30,
    {
        MomentumStrategy::new(800, 15000, 30)
    }
}

/// The kinds of technical indicators the strategies know.
#[derive(Debug, Clone, Copy, PartialEq, Eq, Hash, Structural)]
pub enum IndicatorType {
    RSI,
    MACD,
    BollingerBands,
    SMA,
    EMA,
    MultiIndicator,
}

impl IndicatorType {
    /// The indicator's name.
    pub fn name(&self) -> (r: &'static str)
        ensures
            self is RSI ==> r@ == "RSI"@,
            self is MACD ==> r@ == "MACD"@,
            self is BollingerBands ==> r@ == "BollingerBands"@,
            self is SMA ==> r@ == "SMA"@,
            self is EMA ==> r@ == "EMA"@,
            self is MultiIndicator ==> r@ == "MultiIndicator"@,
    {
        match self {
            IndicatorType::RSI => "RSI",
            IndicatorType::MACD => "MACD",
            IndicatorType::BollingerBands => "BollingerBands",
            IndicatorType::SMA => "SMA",
            IndicatorType::EMA => "EMA",
            IndicatorType::MultiIndicator => "MultiIndicator",
        }
    }
}

/// Errors of the strategy manager.
#[derive(Debug, Clone, PartialEq)]
pub enum StrategyError {
    /// No strategy is registered under the name.
    NotFound(String),
    /// The active strategy cannot be removed.
    ActiveStrategyCannotBeRemoved,
}

impl StrategyError {
    /// The error's message, as the operator sees it.
    pub fn message(&self) -> (r: String)
        ensures
            self matches StrategyError::NotFound(name) ==> r@ == "Strategy '"@ + name@
                + "' not found"@,
            self is ActiveStrategyCannotBeRemoved ==> r@ == "Active strategy cannot be removed"@,
    {
        match self {
            StrategyError::NotFound(name) => {
                let mut s = String::from_str("Strategy '");
                s.append(name.as_str());
                s.append("' not found");
                s
            },
            StrategyError::ActiveStrategyCannotBeRemoved => String::from_str(
                "Active strategy cannot be removed",
            ),
        }
    }
}

} // verus!
