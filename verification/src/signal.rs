//! The signal detector: maintains a bounded rolling tick window and emits a
//! buy signal when a market surges.
//!
//! A surge is a relative price rise of at least the configured threshold
//! inside the lookback window, together with a tick volume of at least the
//! configured multiple of the window's average volume. The window is one
//! FIFO across all markets; the oldest tick is evicted on overflow.

use vstd::prelude::*;
use crate::config::TradingConfig;
use crate::strings::{spec_decimal, spec_digit_char, str_eq, u64_to_string};
use crate::types::{PriceTick, Signal};
use crate::{AMOUNT_LIMIT, BPS_SCALE, PRICE_LIMIT};

verus! {

/// How many ticks the rolling window holds across all markets.
pub const HISTORY_CAPACITY: usize = 10000;

/// Whether a tick belongs to the lookback frame: same market, and no older
/// than `duration_ms` before `now`.
pub open spec fn spec_in_frame(t: PriceTick, market: Seq<char>, now: u64, duration_ms: u64) -> bool {
    t.market@ == market && now <= t.timestamp + duration_ms
}

/// The ticks of the frame, in window order.
pub open spec fn spec_frame(
    s: Seq<PriceTick>,
    market: Seq<char>,
    now: u64,
    duration_ms: u64,
) -> Seq<PriceTick> {
    s.filter(|t: PriceTick| spec_in_frame(t, market, now, duration_ms))
}

/// The total volume of a sequence of ticks.
pub open spec fn spec_volume_sum(s: Seq<PriceTick>) -> int
    decreases s.len(),
{
    if s.len() == 0 {
        0
    } else {
        spec_volume_sum(s.drop_last()) + s.last().volume
    }
}

/// The mean volume of a sequence of ticks, rounded down; zero when empty.
pub open spec fn spec_avg_volume(s: Seq<PriceTick>) -> int {
    if s.len() == 0 {
        0
    } else {
        spec_volume_sum(s) / s.len() as int
    }
}

/// The relative price change over a frame, in basis points: latest against
/// oldest. Undefined with fewer than two ticks or a zero oldest price.
pub open spec fn spec_price_change(s: Seq<PriceTick>) -> Option<int> {
    if s.len() < 2 {
        None
    } else if s[0].trade_price == 0 {
        None
    } else {
        Some(
            s.last().trade_price as int * (BPS_SCALE as int) / (s[0].trade_price as int) - (
            BPS_SCALE as int),
        )
    }
}

/// A bounded FIFO window of the most recent ticks across all markets.
pub struct PriceHistory {
    ticks: Vec<PriceTick>,
    max_size: usize,
}

impl PriceHistory {
    /// The stored ticks, oldest first.
    pub closed spec fn spec_ticks(&self) -> Seq<PriceTick> {
        self.ticks@
    }

    /// The window capacity.
    pub closed spec fn spec_max_size(&self) -> usize {
        self.max_size
    }

    /// What the window keeps true: it never exceeds its capacity, and every
    /// stored tick carries a bounded price and volume.
    pub open spec fn wf(&self) -> bool {
        &&& 1 <= self.spec_max_size()
        &&& self.spec_ticks().len() <= self.spec_max_size()
        &&& forall|i: int|
            0 <= i < self.spec_ticks().len() ==> (#[trigger] self.spec_ticks()[i]).trade_price
                <= PRICE_LIMIT && self.spec_ticks()[i].volume <= AMOUNT_LIMIT
    }

    /// An empty window of the given capacity.
    pub fn new(max_size: usize) -> (r: PriceHistory)
        requires
            1 <= max_size,
        ensures
            r.wf(),
            r.spec_ticks() == Seq::<PriceTick>::empty(),
            r.spec_max_size() == max_size,
    {
        PriceHistory { ticks: Vec::new(), max_size }
    }

    /// Append a tick; when the window is full, the oldest tick leaves.
    pub fn add(&mut self, tick: PriceTick)
        requires
            old(self).wf(),
            tick.trade_price <= PRICE_LIMIT,
            tick.volume <= AMOUNT_LIMIT,
        ensures
            final(self).wf(),
            final(self).spec_max_size() == old(self).spec_max_size(),
            old(self).spec_ticks().len() < old(self).spec_max_size() ==> final(self).spec_ticks()
                == old(self).spec_ticks().push(tick),
            old(self).spec_ticks().len() >= old(self).spec_max_size() ==> final(self).spec_ticks()
                == old(self).spec_ticks().push(tick).subrange(
                1,
                old(self).spec_ticks().len() as int + 1,
            ),
    {
        self.ticks.push(tick);
        if self.ticks.len() > self.max_size {
            self.ticks.remove(0);
            proof {
                assert(self.ticks@ =~= old(self).spec_ticks().push(tick).subrange(
                    1,
                    old(self).spec_ticks().len() as int + 1,
                ));
            }
        }
    }

    /// The most recent stored tick of a market, when one exists.
    pub fn get_latest(&self, market: &str) -> (r: Option<&PriceTick>)
        ensures
            r matches Some(t) ==> (exists|i: int|
                0 <= i < self.spec_ticks().len() && *t == self.spec_ticks()[i] && t.market@
                    == market@ && (forall|j: int|
                    i < j < self.spec_ticks().len() ==> (#[trigger] self.spec_ticks()[j]).market@
                        != market@)),
            r is None ==> (forall|i: int|
                0 <= i < self.spec_ticks().len() ==> (#[trigger] self.spec_ticks()[i]).market@
                    != market@),
    {
        let mut k: usize = self.ticks.len();
        while k > 0
            invariant
                k <= self.spec_ticks().len(),
                forall|j: int|
                    k <= j < self.spec_ticks().len() ==> (#[trigger] self.spec_ticks()[j]).market@
                        != market@,
            decreases k,
        {
            k = k - 1;
            if str_eq(self.ticks[k].market.as_str(), market) {
                return Some(&self.ticks[k]);
            }
        }
        None
    }

    /// The stored ticks of a market whose age at `now` is at most
    /// `duration_ms`, oldest first.
    pub fn ticks_in_timeframe(&self, market: &str, now: u64, duration_ms: u64) -> (r: Vec<
        PriceTick,
    >)
        ensures
            r@ == spec_frame(self.spec_ticks(), market@, now, duration_ms),
            self.wf() ==> forall|k: int|
                0 <= k < r@.len() ==> (#[trigger] r@[k]).trade_price <= PRICE_LIMIT
                    && r@[k].volume <= AMOUNT_LIMIT,
    {
        let ghost pred = |t: PriceTick| spec_in_frame(t, market@, now, duration_ms);
        let mut out: Vec<PriceTick> = Vec::new();
        let mut i: usize = 0;
        proof {
            assert(self.spec_ticks().subrange(0, 0).filter(pred) =~= Seq::<PriceTick>::empty())
                by {
                reveal(Seq::filter);
            }
        }
        while i < self.ticks.len()
            invariant
                i <= self.spec_ticks().len(),
                pred == (|t: PriceTick| spec_in_frame(t, market@, now, duration_ms)),
                out@ == self.spec_ticks().subrange(0, i as int).filter(pred),
                self.wf() ==> forall|k: int|
                    0 <= k < out@.len() ==> (#[trigger] out@[k]).trade_price <= PRICE_LIMIT
                        && out@[k].volume <= AMOUNT_LIMIT,
            decreases self.spec_ticks().len() - i,
        {
            let t = &self.ticks[i];
            let ghost prefix = self.spec_ticks().subrange(0, i as int);
            proof {
                assert(self.spec_ticks().subrange(0, i as int + 1) =~= prefix.push(
                    self.spec_ticks()[i as int],
                ));
                lemma_filter_push(prefix, pred, self.spec_ticks()[i as int]);
            }
            if str_eq(t.market.as_str(), market) && now <= t.timestamp.saturating_add(duration_ms)
            {
                out.push(t.clone());
            }
            i = i + 1;
        }
        proof {
            assert(self.spec_ticks().subrange(0, self.spec_ticks().len() as int)
                =~= self.spec_ticks());
        }
        out
    }

    /// The mean volume over the lookback frame, rounded down; zero when the
    /// frame is empty.
    pub fn calculate_avg_volume(&self, market: &str, now: u64, duration_ms: u64) -> (r: u64)
        ensures
            r == spec_avg_volume(spec_frame(self.spec_ticks(), market@, now, duration_ms)),
    {
        let frame = self.ticks_in_timeframe(market, now, duration_ms);
        if frame.len() == 0 {
            return 0;
        }
        let mut sum: u128 = 0;
        let mut i: usize = 0;
        proof {
            assert(frame@.subrange(0, 0) =~= Seq::<PriceTick>::empty());
        }
        while i < frame.len()
            invariant
                i <= frame@.len(),
                sum == spec_volume_sum(frame@.subrange(0, i as int)),
                sum <= i as int * (u64::MAX as int),
            decreases frame@.len() - i,
        {
            proof {
                assert(frame@.subrange(0, i as int + 1).drop_last() =~= frame@.subrange(
                    0,
                    i as int,
                ));
                assert(sum + frame@[i as int].volume <= (i as int + 1) * (u64::MAX as int))
                    by (nonlinear_arith)
                    requires
                        sum <= i as int * (u64::MAX as int),
                        frame@[i as int].volume <= u64::MAX,
                ;
                assert((i as int + 1) * (u64::MAX as int) <= u128::MAX as int) by (nonlinear_arith)
                    requires
                        i as int + 1 <= u64::MAX as int,
                ;
            }
            sum = sum + frame[i].volume as u128;
            i = i + 1;
        }
        proof {
            assert(frame@.subrange(0, frame@.len() as int) =~= frame@);
        }
        let avg: u128 = sum / (frame.len() as u128);
        proof {
            assert(avg <= u64::MAX as int) by (nonlinear_arith)
                requires
                    avg == sum as int / frame@.len() as int,
                    sum <= frame@.len() as int * (u64::MAX as int),
                    frame@.len() >= 1,
            ;
        }
        avg as u64
    }

    /// The relative price change over the lookback frame, in basis points:
    /// the latest frame tick against the oldest. Nothing with fewer than two
    /// frame ticks or a zero oldest price.
    pub fn calculate_price_change(&self, market: &str, now: u64, duration_ms: u64) -> (r: Option<
        i128,
    >)
        ensures
            r is Some <==> spec_price_change(
                spec_frame(self.spec_ticks(), market@, now, duration_ms),
            ) is Some,
            r matches Some(v) ==> v == spec_price_change(
                spec_frame(self.spec_ticks(), market@, now, duration_ms),
            )->Some_0,
            self.wf() ==> (r matches Some(v) ==> v <= PRICE_LIMIT as int * (BPS_SCALE as int)),
    {
        let frame = self.ticks_in_timeframe(market, now, duration_ms);
        if frame.len() < 2 {
            return None;
        }
        let oldest_price = frame[0].trade_price;
        let latest_price = frame[frame.len() - 1].trade_price;
        if oldest_price == 0 {
            return None;
        }
        let numerator: u128 = crate::mul_wide(latest_price, crate::BPS_SCALE as u64);
        let scaled: u128 = numerator / (oldest_price as u128);
        proof {
            assert(scaled <= numerator) by (nonlinear_arith)
                requires
                    scaled == numerator as int / oldest_price as int,
                    1 <= oldest_price,
            ;
            if self.wf() {
                assert(scaled <= PRICE_LIMIT as int * (BPS_SCALE as int) + BPS_SCALE as int)
                    by (nonlinear_arith)
                    requires
                        scaled == numerator as int / oldest_price as int,
                        numerator == latest_price as int * (BPS_SCALE as int),
                        1 <= oldest_price,
                        latest_price <= PRICE_LIMIT,
                ;
            }
        }
        Some((scaled as i128) - (crate::BPS_SCALE as i128))
    }
}

/// Consumes ticks and emits surge signals.
pub struct SignalDetector {
    config: TradingConfig,
    history: PriceHistory,
}

impl SignalDetector {
    /// The trading parameters the detector runs on.
    pub closed spec fn spec_config(&self) -> TradingConfig {
        self.config
    }

    /// The rolling window's ticks, oldest first.
    pub closed spec fn spec_ticks(&self) -> Seq<PriceTick> {
        self.history.spec_ticks()
    }

    /// What the detection logic needs: valid parameters, a sound window.
    pub open spec fn wf(&self) -> bool {
        &&& self.spec_config().wf()
        &&& self.spec_history_wf()
    }

    /// The window invariant, exposed for callers.
    pub closed spec fn spec_history_wf(&self) -> bool {
        self.history.wf() && self.history.spec_max_size() == HISTORY_CAPACITY
    }

    /// A fresh detector with an empty window.
    pub fn new(config: TradingConfig) -> (r: SignalDetector)
        requires
            config.wf(),
        ensures
            r.wf(),
            r.spec_config() == config,
            r.spec_ticks() == Seq::<PriceTick>::empty(),
    {
        SignalDetector { config, history: PriceHistory::new(HISTORY_CAPACITY) }
    }

    /// The lookback duration in milliseconds.
    pub open spec fn spec_timeframe_ms(&self) -> int {
        self.spec_config().surge_timeframe_minutes as int * 60000
    }

    /// The tick's lookback frame within the current window, judged at the
    /// tick's own timestamp.
    pub open spec fn spec_frame_of(&self, tick: PriceTick) -> Seq<PriceTick> {
        spec_frame(
            self.spec_ticks(),
            tick.market@,
            tick.timestamp,
            (self.spec_config().surge_timeframe_minutes * 60000) as u64,
        )
    }

    /// The tick's volume against the frame's average, in basis points; one
    /// (as `BPS_SCALE`) when the average is zero.
    pub open spec fn spec_volume_ratio(&self, tick: PriceTick) -> int {
        let avg = spec_avg_volume(self.spec_frame_of(tick));
        if avg > 0 {
            tick.volume as int * (BPS_SCALE as int) / avg
        } else {
            BPS_SCALE as int
        }
    }

    /// Whether the tick completes a surge: a defined price change of at
    /// least the threshold, and a volume ratio of at least the multiplier.
    pub open spec fn spec_surges(&self, tick: PriceTick) -> bool {
        &&& spec_price_change(self.spec_frame_of(tick)) is Some
        &&& spec_price_change(self.spec_frame_of(tick))->Some_0
            >= self.spec_config().surge_threshold_bps
        &&& self.spec_volume_ratio(tick) >= self.spec_config().volume_multiplier_bps
    }

    /// The confidence of a surge signal against this detector's thresholds.
    pub open spec fn spec_confidence(&self, change_bps: int, volume_ratio_bps: int) -> int {
        spec_confidence_formula(
            self.spec_config().surge_threshold_bps,
            self.spec_config().volume_multiplier_bps,
            change_bps,
            volume_ratio_bps,
        )
    }

    /// Compute a surge's confidence in basis points, as `spec_confidence`
    /// states it.
    pub fn calculate_confidence(&self, price_change_bps: u64, volume_ratio_bps: u64) -> (r: u32)
        requires
            self.wf(),
        ensures
            r == self.spec_confidence(price_change_bps as int, volume_ratio_bps as int),
            r <= BPS_SCALE,
    {
        confidence_formula(
            self.config.surge_threshold_bps,
            self.config.volume_multiplier_bps,
            price_change_bps,
            volume_ratio_bps,
        )
    }

    /// Judge one tick against the window and emit a buy signal exactly when
    /// the market surges.
    ///
    /// The signal carries the tick's market, the computed confidence, and a
    /// reason naming the rise and the volume ratio.
    pub fn analyze_market(&self, tick: &PriceTick) -> (r: Option<Signal>)
        requires
            self.wf(),
            tick.trade_price <= PRICE_LIMIT,
            tick.volume <= AMOUNT_LIMIT,
        ensures
            r is Some <==> self.spec_surges(*tick),
            r matches Some(sig) ==> (sig.market == tick.market && sig.signal_type is Buy
                && sig.confidence_bps == self.spec_confidence(
                spec_price_change(self.spec_frame_of(*tick))->Some_0,
                self.spec_volume_ratio(*tick),
            ) && sig.reason@ == spec_surge_reason(
                spec_price_change(self.spec_frame_of(*tick))->Some_0,
                self.spec_volume_ratio(*tick),
            )),
    {
        let timeframe_ms: u64 = self.config.surge_timeframe_minutes * 60000;
        let change_opt = self.history.calculate_price_change(
            tick.market.as_str(),
            tick.timestamp,
            timeframe_ms,
        );
        let change: i128 = match change_opt {
            Some(c) => c,
            None => {
                return None;
            },
        };
        let avg_volume = self.history.calculate_avg_volume(
            tick.market.as_str(),
            tick.timestamp,
            timeframe_ms,
        );
        let volume_ratio: u64 = if avg_volume > 0 {
            let numerator = crate::mul_wide(tick.volume, BPS_SCALE as u64);
            let scaled = numerator / (avg_volume as u128);
            proof {
                assert(scaled <= numerator) by (nonlinear_arith)
                    requires
                        scaled == numerator as int / avg_volume as int,
                        1 <= avg_volume,
                ;
            }
            scaled as u64
        } else {
            BPS_SCALE as u64
        };
        if change >= self.config.surge_threshold_bps as i128 && volume_ratio
            >= self.config.volume_multiplier_bps as u64 {
            let change_u64 = change as u64;
            let confidence = self.calculate_confidence(change_u64, volume_ratio);
            let mut reason = String::from_str("Price surged ");
            let percent = render_percent_2dp(change_u64);
            reason.append(percent.as_str());
            reason.append("% with ");
            let ratio_text = render_ratio_1dp(volume_ratio);
            reason.append(ratio_text.as_str());
            reason.append("x volume");
            proof {
                assert(reason@ =~= spec_surge_reason(change as int, volume_ratio as int));
            }
            Some(Signal::buy(tick.market.clone(), confidence, reason))
        } else {
            None
        }
    }

    /// Store one tick in the window, then judge it: the signal comes exactly
    /// when the tick completes a surge in the updated window.
    pub fn on_tick(&mut self, tick: &PriceTick) -> (r: Option<Signal>)
        requires
            old(self).wf(),
            tick.trade_price <= PRICE_LIMIT,
            tick.volume <= AMOUNT_LIMIT,
        ensures
            final(self).wf(),
            final(self).spec_config() == old(self).spec_config(),
            old(self).spec_ticks().len() < HISTORY_CAPACITY ==> final(self).spec_ticks() == old(
                self,
            ).spec_ticks().push(*tick),
            old(self).spec_ticks().len() >= HISTORY_CAPACITY ==> final(self).spec_ticks() == old(
                self,
            ).spec_ticks().push(*tick).subrange(1, old(self).spec_ticks().len() as int + 1),
            r is Some <==> final(self).spec_surges(*tick),
            r matches Some(sig) ==> (sig.market == tick.market && sig.signal_type is Buy
                && sig.confidence_bps == final(self).spec_confidence(
                spec_price_change(final(self).spec_frame_of(*tick))->Some_0,
                final(self).spec_volume_ratio(*tick),
            ) && sig.reason@ == spec_surge_reason(
                spec_price_change(final(self).spec_frame_of(*tick))->Some_0,
                final(self).spec_volume_ratio(*tick),
            )),
    {
        self.history.add(tick.clone());
        self.analyze_market(tick)
    }
}

/// Filtering a sequence extended by one element keeps the filtered prefix
/// and appends the element exactly when it satisfies the predicate.
proof fn lemma_filter_push(s: Seq<PriceTick>, pred: spec_fn(PriceTick) -> bool, x: PriceTick)
    ensures
        s.push(x).filter(pred) == (if pred(x) {
            s.filter(pred).push(x)
        } else {
            s.filter(pred)
        }),
{
    reveal(Seq::filter);
    assert(s.push(x).drop_last() =~= s);
    assert(s.push(x).last() == x);
}

/// The smaller of two integers.
pub open spec fn min_int(a: int, b: int) -> int {
    if a <= b {
        a
    } else {
        b
    }
}

/// The confidence of a surge signal, in basis points: six tenths from the
/// price score (the change against the threshold, capped at two) and four
/// tenths from the volume score (the ratio against the multiplier, capped at
/// three), capped at one.
pub open spec fn spec_confidence_formula(
    surge_threshold_bps: u32,
    volume_multiplier_bps: u32,
    change_bps: int,
    volume_ratio_bps: int,
) -> int {
    let price_component = min_int(
        change_bps * (BPS_SCALE as int) / (surge_threshold_bps as int),
        2 * (BPS_SCALE as int),
    ) / 2;
    let volume_component = min_int(
        volume_ratio_bps * (BPS_SCALE as int) / (volume_multiplier_bps as int),
        3 * (BPS_SCALE as int),
    ) / 3;
    min_int((price_component * 6 + volume_component * 4) / 10, BPS_SCALE as int)
}

/// Compute the confidence formula on machine words.
pub fn confidence_formula(
    surge_threshold_bps: u32,
    volume_multiplier_bps: u32,
    price_change_bps: u64,
    volume_ratio_bps: u64,
) -> (r: u32)
    requires
        1 <= surge_threshold_bps,
        1 <= volume_multiplier_bps,
    ensures
        r == spec_confidence_formula(
            surge_threshold_bps,
            volume_multiplier_bps,
            price_change_bps as int,
            volume_ratio_bps as int,
        ),
        r <= BPS_SCALE,
{
    let threshold = surge_threshold_bps as u128;
    let multiplier = volume_multiplier_bps as u128;
    let pc_scaled: u128 = crate::mul_wide(price_change_bps, BPS_SCALE as u64) / threshold;
    let price_component: u128 = (
    if pc_scaled <= 2 * (BPS_SCALE as u128) {
        pc_scaled
    } else {
        2 * (BPS_SCALE as u128)
    }) / 2;
    let vr_scaled: u128 = crate::mul_wide(volume_ratio_bps, BPS_SCALE as u64) / multiplier;
    let volume_component: u128 = (
    if vr_scaled <= 3 * (BPS_SCALE as u128) {
        vr_scaled
    } else {
        3 * (BPS_SCALE as u128)
    }) / 3;
    let mixed: u128 = (price_component * 6 + volume_component * 4) / 10;
    let confidence: u128 = if mixed <= BPS_SCALE as u128 {
        mixed
    } else {
        BPS_SCALE as u128
    };
    confidence as u32
}

/// A percentage with two decimals, rendered from basis points: 523 becomes
/// "5.23".
pub open spec fn spec_percent_2dp(bps: int) -> Seq<char> {
    spec_decimal(bps / 100) + seq!['.'] + (if bps % 100 < 10 {
        seq!['0', spec_digit_char(bps % 100)]
    } else {
        spec_decimal(bps % 100)
    })
}

/// A ratio with one decimal, rendered from basis points: 25000 becomes
/// "2.5".
pub open spec fn spec_ratio_1dp(bps: int) -> Seq<char> {
    spec_decimal(bps / 10000) + seq!['.'] + seq![spec_digit_char((bps / 1000) % 10)]
}

/// The reason text of a surge signal, naming the rise and the volume ratio.
pub open spec fn spec_surge_reason(change_bps: int, volume_ratio_bps: int) -> Seq<char> {
    "Price surged "@ + spec_percent_2dp(change_bps) + "% with "@ + spec_ratio_1dp(volume_ratio_bps)
        + "x volume"@
}

/// Render a percentage with two decimals from basis points.
pub(crate) fn render_percent_2dp(bps: u64) -> (r: String)
    ensures
        r@ == spec_percent_2dp(bps as int),
{
    let mut s = u64_to_string(bps / 100);
    s.append(".");
    proof {
        reveal_strlit(".");
        assert(s@ =~= spec_decimal(bps as int / 100) + seq!['.']);
    }
    let frac = bps % 100;
    if frac < 10 {
        s.append("0");
        proof {
            reveal_strlit("0");
            assert("0"@ =~= seq!['0']) by {
                reveal_strlit("0");
            }
        }
        let digit = u64_to_string(frac);
        s.append(digit.as_str());
        proof {
            assert(spec_decimal(frac as int) =~= seq![spec_digit_char(frac as int)]);
            assert(s@ =~= spec_percent_2dp(bps as int));
        }
    } else {
        let digits = u64_to_string(frac);
        s.append(digits.as_str());
        proof {
            assert(s@ =~= spec_percent_2dp(bps as int));
        }
    }
    s
}

/// Render a ratio with one decimal from basis points.
pub(crate) fn render_ratio_1dp(bps: u64) -> (r: String)
    ensures
        r@ == spec_ratio_1dp(bps as int),
{
    let mut s = u64_to_string(bps / 10000);
    s.append(".");
    let tenth = (bps / 1000) % 10;
    let digit = u64_to_string(tenth);
    s.append(digit.as_str());
    proof {
        reveal_strlit(".");
        assert(spec_decimal(tenth as int) =~= seq![spec_digit_char(tenth as int)]);
        assert(s@ =~= spec_ratio_1dp(bps as int));
    }
    s
}

} // verus!
