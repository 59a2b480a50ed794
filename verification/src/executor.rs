//! The execution agent's decision logic: what call each decision plans, how
//! failures are retried with exponential backoff, and what a fill does to
//! the tracked portfolio.
//!
//! The exchange calls themselves are network work and live with the process
//! entry point; this module fixes, with proofs, every choice around them: a
//! hold plans no call and changes nothing; a retryable failure before the
//! attempt limit waits `base * 2^attempt` milliseconds and tries again; any
//! other failure gives up; a buy fill opens the tracked position and a sell
//! fill closes it.

use vstd::prelude::*;
use crate::config::TradingConfig;
use crate::error::TradingError;
use crate::types::{Decision, Order, Position};
use crate::BPS_SCALE;

verus! {

/// How many attempts a market order gets before the decision is aborted.
pub const ORDER_MAX_RETRIES: u32 = 3;

/// Two to the given power.
pub open spec fn spec_pow2(n: int) -> int
    decreases n,
{
    if n <= 0 {
        1
    } else {
        2 * spec_pow2(n - 1)
    }
}

/// Powers of two grow with the exponent.
proof fn lemma_pow2_increases(a: int, b: int)
    requires
        0 <= a <= b,
    ensures
        spec_pow2(a) <= spec_pow2(b),
        1 <= spec_pow2(a),
    decreases b,
{
    if a < b {
        lemma_pow2_increases(a, b - 1);
    }
    if 0 < a {
        lemma_pow2_increases(0, a - 1);
    }
}

/// The exchange call a decision plans.
#[derive(Debug, Clone, PartialEq)]
pub enum PlannedCall {
    /// Place a market buy spending this many KRW.
    BuyCall { market: String, amount_krw: u64 },
    /// Place a market sell of this many volume units.
    SellCall { market: String, amount: u64 },
    /// Place nothing.
    NoCall,
}

/// What the caller of a failed exchange call must do next.
#[derive(Debug, Clone, Copy, PartialEq, Eq, Structural)]
pub enum RetryStep {
    /// Sleep this many milliseconds, then try the same call again.
    RetryAfter { delay_ms: u64 },
    /// Abort the decision; the failure is surfaced as a failed order result.
    GiveUp,
}

/// The retry counter of one order's attempt loop.
pub struct OrderRetryState {
    attempts_failed: u32,
    max_retries: u32,
}

impl OrderRetryState {
    /// How many attempts have failed so far.
    pub closed spec fn spec_attempts(&self) -> u32 {
        self.attempts_failed
    }

    /// The attempt limit.
    pub closed spec fn spec_max(&self) -> u32 {
        self.max_retries
    }

    /// The counter never passes its limit, and the limit is small enough
    /// that every backoff delay stays a machine word.
    pub open spec fn wf(&self) -> bool {
        &&& self.spec_attempts() <= self.spec_max()
        &&& self.spec_max() <= 30
    }

    /// A fresh counter: no attempt has failed yet.
    pub fn new(max_retries: u32) -> (r: OrderRetryState)
        requires
            max_retries <= 30,
        ensures
            r.wf(),
            r.spec_attempts() == 0,
            r.spec_max() == max_retries,
    {
        OrderRetryState { attempts_failed: 0, max_retries }
    }

    /// Record one failed attempt and say what to do: when the error is
    /// retryable and attempts remain, wait the error's base delay doubled
    /// once per failure so far, then retry; otherwise give up.
    pub fn on_failure(&mut self, error: &TradingError) -> (r: RetryStep)
        requires
            old(self).wf(),
        ensures
            final(self).wf(),
            final(self).spec_max() == old(self).spec_max(),
            final(self).spec_attempts() == (if old(self).spec_attempts() < old(self).spec_max() {
                old(self).spec_attempts() + 1
            } else {
                old(self).spec_attempts() as int
            }),
            (r is RetryAfter) == (error.spec_is_retryable() && old(self).spec_attempts() + 1 < old(
                self,
            ).spec_max()),
            r matches RetryStep::RetryAfter { delay_ms } ==> delay_ms
                == error.spec_retry_delay() as int * spec_pow2(old(self).spec_attempts() + 1),
    {
        if self.attempts_failed < self.max_retries {
            self.attempts_failed = self.attempts_failed + 1;
        }
        if error.is_retryable() && self.attempts_failed < self.max_retries {
            let delay = backoff_delay(error, self.attempts_failed);
            RetryStep::RetryAfter { delay_ms: delay }
        } else {
            RetryStep::GiveUp
        }
    }
}

/// The backoff delay of one failed attempt: the error's base delay, doubled
/// once per failure so far.
pub fn backoff_delay(error: &TradingError, attempt: u32) -> (r: u64)
    requires
        attempt <= 30,
    ensures
        r == error.spec_retry_delay() as int * spec_pow2(attempt as int),
{
    let base = error.retry_delay();
    let mut delay: u64 = base;
    let mut i: u32 = 0;
    proof {
        lemma_pow2_increases(0, attempt as int);
    }
    while i < attempt
        invariant
            i <= attempt <= 30,
            base <= 5000,
            delay == base as int * spec_pow2(i as int),
        decreases attempt - i,
    {
        proof {
            lemma_pow2_increases(i as int, 30);
            assert(delay * 2 <= 5000 * spec_pow2(30) * 2) by (nonlinear_arith)
                requires
                    delay == base as int * spec_pow2(i as int),
                    base <= 5000,
                    1 <= spec_pow2(i as int) <= spec_pow2(30),
            ;
            assert(spec_pow2(30) == 0x40000000) by {
                reveal_with_fuel(spec_pow2, 32);
            }
            assert(spec_pow2(i as int + 1) == 2 * spec_pow2(i as int));
            assert(delay * 2 == base as int * spec_pow2(i as int + 1)) by (nonlinear_arith)
                requires
                    delay == base as int * spec_pow2(i as int),
                    spec_pow2(i as int + 1) == 2 * spec_pow2(i as int),
            ;
        }
        delay = delay * 2;
        i = i + 1;
    }
    delay
}

/// The locally tracked portfolio: what the decision maker's balance and
/// position snapshots are updated to after each execution result.
#[derive(Debug, PartialEq)]
pub struct PortfolioSnapshot {
    /// Spendable KRW.
    pub krw_balance: u64,
    /// The tracked open position, at most one.
    pub position: Option<Position>,
}

impl Clone for PortfolioSnapshot {
    /// An exact copy, field by field.
    fn clone(&self) -> (res: PortfolioSnapshot)
        ensures
            res == *self,
    {
        PortfolioSnapshot { krw_balance: self.krw_balance, position: self.position.clone() }
    }
}

/// The position a buy fill opens, as tracked locally: the average fill
/// price (the filled amount over the filled volume, at least one) becomes
/// the entry price, and the exit thresholds follow the configured rates.
/// The entry time is the order's creation time.
pub open spec fn spec_position_of_fill(order: Order, config: TradingConfig) -> Position {
    let avg_price = order.executed_amount as int / (if order.executed_volume >= 1 {
        order.executed_volume as int
    } else {
        1
    });
    Position {
        market: order.market,
        entry_price: avg_price as u64,
        amount: order.executed_volume,
        entry_time: order.created_at,
        stop_loss: (avg_price * (BPS_SCALE - config.stop_loss_rate_bps) as int / (
        BPS_SCALE as int)) as u64,
        take_profit: (avg_price * (BPS_SCALE + config.profit_rate_bps) as int / (
        BPS_SCALE as int)) as u64,
    }
}

/// What one executed decision does to the tracked portfolio.
///
/// A hold changes nothing. A buy or sell whose call failed changes nothing:
/// no partial state is committed. A filled buy opens the fill's position and
/// the filled KRW amount leaves the balance (never below zero). A filled
/// sell closes the position and the filled KRW amount joins the balance
/// (never above the machine word).
pub open spec fn spec_apply_execution(
    config: TradingConfig,
    snapshot: PortfolioSnapshot,
    decision: Decision,
    fill: Option<Order>,
) -> PortfolioSnapshot {
    match decision {
        Decision::Hold { .. } => snapshot,
        Decision::Buy { .. } => match fill {
            Some(order) => PortfolioSnapshot {
                krw_balance: if snapshot.krw_balance >= order.executed_amount {
                    (snapshot.krw_balance - order.executed_amount) as u64
                } else {
                    0u64
                },
                position: Some(spec_position_of_fill(order, config)),
            },
            None => snapshot,
        },
        Decision::Sell { .. } => match fill {
            Some(order) => PortfolioSnapshot {
                krw_balance: if snapshot.krw_balance + order.executed_amount <= u64::MAX {
                    (snapshot.krw_balance + order.executed_amount) as u64
                } else {
                    u64::MAX
                },
                position: None,
            },
            None => snapshot,
        },
    }
}

/// The tracked portfolio after a run of executed decisions, oldest first.
pub open spec fn spec_portfolio_after(
    config: TradingConfig,
    snapshot: PortfolioSnapshot,
    decisions: Seq<Decision>,
    fills: Seq<Option<Order>>,
) -> PortfolioSnapshot
    decreases decisions.len(),
{
    if decisions.len() == 0 {
        snapshot
    } else {
        spec_portfolio_after(
            config,
            spec_apply_execution(config, snapshot, decisions[0], fills[0]),
            decisions.drop_first(),
            fills.drop_first(),
        )
    }
}

/// Hold decisions are idempotent: a run of them, however long and whatever
/// the stray fills beside them, leaves balance and position exactly as they
/// were.
pub proof fn lemma_repeated_holds_never_mutate(
    config: TradingConfig,
    snapshot: PortfolioSnapshot,
    decisions: Seq<Decision>,
    fills: Seq<Option<Order>>,
)
    requires
        decisions.len() == fills.len(),
        forall|i: int| 0 <= i < decisions.len() ==> (#[trigger] decisions[i]) is Hold,
    ensures
        spec_portfolio_after(config, snapshot, decisions, fills) == snapshot,
    decreases decisions.len(),
{
    if decisions.len() > 0 {
        lemma_repeated_holds_never_mutate(
            config,
            snapshot,
            decisions.drop_first(),
            fills.drop_first(),
        );
    }
}

/// Places orders for decisions, with bounded retries, and keeps the tracked
/// portfolio.
pub struct ExecutionAgent {
    config: TradingConfig,
}

impl ExecutionAgent {
    /// The trading parameters the agent runs on.
    pub closed spec fn spec_config(&self) -> TradingConfig {
        self.config
    }

    /// What the agent needs of its state: valid trading parameters.
    pub open spec fn wf(&self) -> bool {
        self.spec_config().wf()
    }

    /// A fresh agent.
    pub fn new(config: TradingConfig) -> (r: ExecutionAgent)
        requires
            config.wf(),
        ensures
            r.wf(),
            r.spec_config() == config,
    {
        ExecutionAgent { config }
    }

    /// A fresh retry counter for one order's attempt loop.
    pub fn new_retry_state(&self) -> (r: OrderRetryState)
        ensures
            r.wf(),
            r.spec_attempts() == 0,
            r.spec_max() == ORDER_MAX_RETRIES,
    {
        OrderRetryState::new(ORDER_MAX_RETRIES)
    }

    /// The exchange call a decision plans: a buy decision plans a market
    /// buy, a sell decision a market sell, a hold nothing.
    pub fn plan_decision(&self, decision: &Decision) -> (r: PlannedCall)
        ensures
            decision matches Decision::Buy { market, amount_krw, .. } ==> (
            r matches PlannedCall::BuyCall { market: m, amount_krw: a } && m == market && a
                == amount_krw),
            decision matches Decision::Sell { market, amount, .. } ==> (
            r matches PlannedCall::SellCall { market: m, amount: a } && m == market && a
                == amount),
            decision is Hold ==> r is NoCall,
    {
        match decision {
            Decision::Buy { market, amount_krw, .. } => PlannedCall::BuyCall {
                market: market.clone(),
                amount_krw: *amount_krw,
            },
            Decision::Sell { market, amount, .. } => PlannedCall::SellCall {
                market: market.clone(),
                amount: *amount,
            },
            Decision::Hold { .. } => PlannedCall::NoCall,
        }
    }

    /// Apply one executed decision to the tracked portfolio, exactly as
    /// `spec_apply_execution` states it.
    pub fn apply_execution(
        &self,
        snapshot: &PortfolioSnapshot,
        decision: &Decision,
        fill: &Option<Order>,
    ) -> (r: PortfolioSnapshot)
        requires
            self.wf(),
            fill matches Some(o) ==> o.executed_amount <= u64::MAX / 2,
        ensures
            r == spec_apply_execution(self.spec_config(), *snapshot, *decision, *fill),
    {
        match decision {
            Decision::Hold { .. } => snapshot.clone(),
            Decision::Buy { .. } => match fill {
                Some(order) => {
                    let position = self.position_of_fill(order);
                    let spent = order.executed_amount;
                    let balance = if snapshot.krw_balance >= spent {
                        snapshot.krw_balance - spent
                    } else {
                        0
                    };
                    PortfolioSnapshot { krw_balance: balance, position: Some(position) }
                },
                None => snapshot.clone(),
            },
            Decision::Sell { .. } => match fill {
                Some(order) => {
                    let gained = order.executed_amount;
                    let balance = if snapshot.krw_balance <= u64::MAX - gained {
                        snapshot.krw_balance + gained
                    } else {
                        u64::MAX
                    };
                    PortfolioSnapshot { krw_balance: balance, position: None }
                },
                None => snapshot.clone(),
            },
        }
    }

    /// Build the tracked position a buy fill opens, exactly as
    /// `spec_position_of_fill` states it.
    pub fn position_of_fill(&self, order: &Order) -> (r: Position)
        requires
            self.wf(),
            order.executed_amount <= u64::MAX / 2,
        ensures
            r == spec_position_of_fill(*order, self.spec_config()),
    {
        let volume = if order.executed_volume >= 1 {
            order.executed_volume
        } else {
            1
        };
        let avg_price = order.executed_amount / volume;
        proof {
            assert(avg_price <= order.executed_amount) by (nonlinear_arith)
                requires
                    avg_price == order.executed_amount as int / volume as int,
                    1 <= volume,
            ;
        }
        let down = (BPS_SCALE - self.config.stop_loss_rate_bps) as u64;
        let up = (BPS_SCALE + self.config.profit_rate_bps) as u64;
        let stop_loss_wide = crate::mul_wide(avg_price, down) / (BPS_SCALE as u128);
        let take_profit_wide = crate::mul_wide(avg_price, up) / (BPS_SCALE as u128);
        proof {
            assert(stop_loss_wide <= avg_price && take_profit_wide <= 2 * avg_price)
                by (nonlinear_arith)
                requires
                    stop_loss_wide == avg_price as int * down as int / 10000,
                    take_profit_wide == avg_price as int * up as int / 10000,
                    down <= 10000,
                    up <= 20000,
            ;
        }
        Position {
            market: order.market.clone(),
            entry_price: avg_price,
            amount: order.executed_volume,
            entry_time: order.created_at,
            stop_loss: stop_loss_wide as u64,
            take_profit: take_profit_wide as u64,
        }
    }
}

} // verus!
