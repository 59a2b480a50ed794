//! Verified core of a momentum-trading pipeline for the Upbit exchange.
//!
//! The library holds the decision logic of the pipeline: signal detection
//! over a rolling tick window, trade arbitration against balance and the
//! single held position, risk monitoring for stop-loss / take-profit exits,
//! bounded-retry policies for orders and the market-data stream, and the
//! plain-value records that durable storage keeps. All prices and amounts
//! are integers (KRW, smallest volume units); all rates are in basis points.

use vstd::prelude::*;

pub mod backtest;
pub mod clock;
pub mod config;
pub mod dashboard;
pub mod decision;
pub mod discord;
pub mod error;
pub mod exchange;
pub mod executor;
pub mod historical;
pub mod ids;
pub mod persist;
pub mod ratelimit;
pub mod risk;
pub mod signal;
pub mod strategy;
pub mod stream;
pub mod strings;
pub mod types;
pub mod watchdog;
pub mod web;

verus! {

/// One ten-thousandth; rates and ratios are expressed in basis points.
pub const BPS_SCALE: u32 = 10000;

/// Largest representable price: one trillion KRW per unit.
///
/// Keeps every product of a price, an amount and `BPS_SCALE` inside 128 bits.
pub const PRICE_LIMIT: u64 = 1_000_000_000_000;

/// Largest representable volume, in volume units.
///
/// Keeps every product of a price, an amount and `BPS_SCALE` inside 128 bits.
pub const AMOUNT_LIMIT: u64 = 1_000_000_000_000_000;

/// Widening product of two machine words; can never overflow.
pub fn mul_wide(a: u64, b: u64) -> (r: u128)
    ensures
        r == a as int * b as int,
{
    proof {
        assert(a as int * b as int <= u128::MAX as int) by (nonlinear_arith)
            requires
                a <= u64::MAX,
                b <= u64::MAX,
        ;
    }
    (a as u128) * (b as u128)
}

/// Scale a KRW amount by a basis-point ratio, rounding down.
///
/// The result never exceeds the input amount when the ratio is at most
/// `BPS_SCALE`, so the narrowing cast back to `u64` is exact.
pub fn apply_bps(amount: u64, ratio_bps: u32) -> (r: u64)
    requires
        ratio_bps <= BPS_SCALE,
    ensures
        r == amount as int * ratio_bps as int / (BPS_SCALE as int),
        r <= amount,
{
    proof {
        assert(amount as int * ratio_bps as int <= u64::MAX as int * 10000) by (nonlinear_arith)
            requires
                amount <= u64::MAX,
                ratio_bps <= 10000,
        ;
    }
    let product: u128 = (amount as u128) * (ratio_bps as u128);
    let wide: u128 = product / (BPS_SCALE as u128);
    proof {
        assert(wide <= amount) by (nonlinear_arith)
            requires
                wide == amount as int * ratio_bps as int / 10000,
                ratio_bps <= 10000,
        ;
    }
    wide as u64
}

} // verus!
