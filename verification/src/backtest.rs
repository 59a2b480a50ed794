//! Labels used by the offline backtest subsystem: performance ratings,
//! optimization targets, and trade direction.
//!
//! The simulator and optimizer themselves are a separate batch-analytics
//! collaborator; the library fixes the vocabulary they report in.

use vstd::prelude::*;

verus! {

/// Rating bands of a strategy's risk-adjusted return.
#[derive(Debug, Clone, Copy, PartialEq, Eq, Structural)]
pub enum SharpeRating {
    /// Under one.
    Poor,
    /// One to two.
    Good,
    /// Two to three.
    Excellent,
    /// Over three.
    Outstanding,
}

impl SharpeRating {
    /// The rating's name.
    pub fn name(&self) -> (r: &'static str)
        ensures
            self is Poor ==> r@ == "Poor"@,
            self is Good ==> r@ == "Good"@,
            self is Excellent ==> r@ == "Excellent"@,
            self is Outstanding ==> r@ == "Outstanding"@,
    {
        match self {
            SharpeRating::Poor => "Poor",
            SharpeRating::Good => "Good",
            SharpeRating::Excellent => "Excellent",
            SharpeRating::Outstanding => "Outstanding",
        }
    }

    /// A sentence describing the rating; never empty.
    pub fn description(&self) -> (r: &'static str)
        ensures
            self is Poor ==> r@ == "Risk-adjusted returns are below market expectations"@,
            self is Good ==> r@ == "Acceptable risk-adjusted performance"@,
            self is Excellent ==> r@ == "Strong risk-adjusted performance"@,
            self is Outstanding ==> r@ == "Exceptional risk-adjusted returns"@,
            r@.len() > 0,
    {
        let r = match self {
            SharpeRating::Poor => "Risk-adjusted returns are below market expectations",
            SharpeRating::Good => "Acceptable risk-adjusted performance",
            SharpeRating::Excellent => "Strong risk-adjusted performance",
            SharpeRating::Outstanding => "Exceptional risk-adjusted returns",
        };
        proof {
            reveal_strlit("Risk-adjusted returns are below market expectations");
            reveal_strlit("Acceptable risk-adjusted performance");
            reveal_strlit("Strong risk-adjusted performance");
            reveal_strlit("Exceptional risk-adjusted returns");
        }
        r
    }
}

/// The objective a parameter search maximizes or minimizes.
#[derive(Debug, Clone, Copy, PartialEq, Eq, Structural)]
pub enum OptimizationTarget {
    TotalReturn,
    SharpeRatio,
    WinRate,
    MinDrawdown,
    OverallScore,
    ProfitFactor,
}

impl OptimizationTarget {
    /// Every optimization target, in reporting order.
    pub fn all() -> (r: Vec<OptimizationTarget>)
        ensures
            r@ == seq![
                OptimizationTarget::TotalReturn,
                OptimizationTarget::SharpeRatio,
                OptimizationTarget::WinRate,
                OptimizationTarget::MinDrawdown,
                OptimizationTarget::OverallScore,
                OptimizationTarget::ProfitFactor,
            ],
    {
        let mut v: Vec<OptimizationTarget> = Vec::new();
        v.push(OptimizationTarget::TotalReturn);
        v.push(OptimizationTarget::SharpeRatio);
        v.push(OptimizationTarget::WinRate);
        v.push(OptimizationTarget::MinDrawdown);
        v.push(OptimizationTarget::OverallScore);
        v.push(OptimizationTarget::ProfitFactor);
        proof {
            assert(v@ =~= seq![
                OptimizationTarget::TotalReturn,
                OptimizationTarget::SharpeRatio,
                OptimizationTarget::WinRate,
                OptimizationTarget::MinDrawdown,
                OptimizationTarget::OverallScore,
                OptimizationTarget::ProfitFactor,
            ]);
        }
        v
    }

    /// The target's name.
    pub fn name(&self) -> (r: &'static str)
        ensures
            self is TotalReturn ==> r@ == "Total Return"@,
            self is SharpeRatio ==> r@ == "Sharpe Ratio"@,
            self is WinRate ==> r@ == "Win Rate"@,
            self is MinDrawdown ==> r@ == "Min Drawdown"@,
            self is OverallScore ==> r@ == "Overall Score"@,
            self is ProfitFactor ==> r@ == "Profit Factor"@,
    {
        match self {
            OptimizationTarget::TotalReturn => "Total Return",
            OptimizationTarget::SharpeRatio => "Sharpe Ratio",
            OptimizationTarget::WinRate => "Win Rate",
            OptimizationTarget::MinDrawdown => "Min Drawdown",
            OptimizationTarget::OverallScore => "Overall Score",
            OptimizationTarget::ProfitFactor => "Profit Factor",
        }
    }
}

/// Direction of a simulated trade.
#[derive(Debug, Clone, Copy, PartialEq, Eq, Structural)]
pub enum TradeType {
    /// A long position.
    Long,
    /// A short position; the live pipeline never opens one.
    Short,
}

} // verus!
