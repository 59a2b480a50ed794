//! Historical candle data: the supported candle units.

use vstd::prelude::*;

verus! {

/// The minute units the exchange serves candles in.
#[derive(Debug, Clone, Copy, PartialEq, Eq, Structural)]
pub enum CandleUnit {
    OneMinute,
    ThreeMinutes,
    FiveMinutes,
    TenMinutes,
    FifteenMinutes,
    ThirtyMinutes,
    SixtyMinutes,
    TwoHundredFortyMinutes,
}

impl CandleUnit {
    /// The unit in minutes.
    pub open spec fn spec_minutes(&self) -> int {
        match self {
            CandleUnit::OneMinute => 1,
            CandleUnit::ThreeMinutes => 3,
            CandleUnit::FiveMinutes => 5,
            CandleUnit::TenMinutes => 10,
            CandleUnit::FifteenMinutes => 15,
            CandleUnit::ThirtyMinutes => 30,
            CandleUnit::SixtyMinutes => 60,
            CandleUnit::TwoHundredFortyMinutes => 240,
        }
    }

    /// The unit in minutes, as the REST path wants it.
    pub fn as_u32(&self) -> (r: u32)
        ensures
            r == self.spec_minutes(),
    {
        match self {
            CandleUnit::OneMinute => 1,
            CandleUnit::ThreeMinutes => 3,
            CandleUnit::FiveMinutes => 5,
            CandleUnit::TenMinutes => 10,
            CandleUnit::FifteenMinutes => 15,
            CandleUnit::ThirtyMinutes => 30,
            CandleUnit::SixtyMinutes => 60,
            CandleUnit::TwoHundredFortyMinutes => 240,
        }
    }

    /// The unit in minutes, for duration arithmetic.
    pub fn as_minutes(&self) -> (r: u64)
        ensures
            r == self.spec_minutes(),
    {
        match self {
            CandleUnit::OneMinute => 1,
            CandleUnit::ThreeMinutes => 3,
            CandleUnit::FiveMinutes => 5,
            CandleUnit::TenMinutes => 10,
            CandleUnit::FifteenMinutes => 15,
            CandleUnit::ThirtyMinutes => 30,
            CandleUnit::SixtyMinutes => 60,
            CandleUnit::TwoHundredFortyMinutes => 240,
        }
    }
}

impl Default for CandleUnit {
    /// One-minute candles.
    fn default() -> (r: CandleUnit)
        ensures
            r is OneMinute,
    {
        CandleUnit::OneMinute
    }
}

} // verus!
