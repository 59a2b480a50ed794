//! Plain-value records as durable storage keeps them, and the proofs that
//! persisting loses nothing.
//!
//! Storage itself is an external collaborator with simple create/read/update
//! operations; the library fixes what is written and what a loaded row means.
//! Persisting a position and loading it back yields identical entry price,
//! amount, stop-loss and take-profit values.

use vstd::prelude::*;
use crate::types::{Position, PnL};
use crate::{BPS_SCALE, PRICE_LIMIT};

verus! {

/// Lifecycle state of a stored position.
#[derive(Debug, Clone, Copy, PartialEq, Eq, Structural)]
pub enum PositionStatus {
    Active,
    Closed,
}

/// One row of the positions table.
#[derive(Debug, PartialEq)]
pub struct PositionRecord {
    /// Row id.
    pub id: String,
    pub market: String,
    pub entry_price: u64,
    pub amount: u64,
    /// Entry time in milliseconds since the Unix epoch.
    pub entry_time: u64,
    pub stop_loss: u64,
    pub take_profit: u64,
    pub status: PositionStatus,
}

impl Clone for PositionRecord {
    /// An exact copy, field by field.
    fn clone(&self) -> (res: PositionRecord)
        ensures
            res == *self,
    {
        PositionRecord {
            id: self.id.clone(),
            market: self.market.clone(),
            entry_price: self.entry_price,
            amount: self.amount,
            entry_time: self.entry_time,
            stop_loss: self.stop_loss,
            take_profit: self.take_profit,
            status: self.status,
        }
    }
}

/// The row an open position is persisted as: the position's fields under the
/// given row id, with active status.
pub open spec fn spec_record_of(position: Position, id: String) -> PositionRecord {
    PositionRecord {
        id,
        market: position.market,
        entry_price: position.entry_price,
        amount: position.amount,
        entry_time: position.entry_time,
        stop_loss: position.stop_loss,
        take_profit: position.take_profit,
        status: PositionStatus::Active,
    }
}

/// The position a loaded row means: its fields, without the row id and
/// status.
pub open spec fn spec_position_of(record: PositionRecord) -> Position {
    Position {
        market: record.market,
        entry_price: record.entry_price,
        amount: record.amount,
        entry_time: record.entry_time,
        stop_loss: record.stop_loss,
        take_profit: record.take_profit,
    }
}

/// Persisting then loading a position yields it back: every field — the
/// market, entry price, amount, entry time, stop-loss and take-profit — is
/// identical, whatever row id the store assigned.
pub proof fn lemma_position_round_trip(position: Position, id: String)
    ensures
        spec_position_of(spec_record_of(position, id)) == position,
{
}

/// Build the row an open position is persisted as.
pub fn position_to_record(position: &Position, id: String) -> (r: PositionRecord)
    ensures
        r == spec_record_of(*position, id),
{
    PositionRecord {
        id,
        market: position.market.clone(),
        entry_price: position.entry_price,
        amount: position.amount,
        entry_time: position.entry_time,
        stop_loss: position.stop_loss,
        take_profit: position.take_profit,
        status: PositionStatus::Active,
    }
}

/// Read the position a loaded row means.
pub fn record_to_position(record: &PositionRecord) -> (r: Position)
    ensures
        r == spec_position_of(*record),
{
    Position {
        market: record.market.clone(),
        entry_price: record.entry_price,
        amount: record.amount,
        entry_time: record.entry_time,
        stop_loss: record.stop_loss,
        take_profit: record.take_profit,
    }
}

/// The close transition of a stored position: exit price and time, realized
/// profit and profit rate, closed status.
#[derive(Debug, Clone, PartialEq)]
pub struct ClosedPosition {
    pub market: String,
    pub exit_price: u64,
    /// Exit time in milliseconds since the Unix epoch.
    pub exit_time: u64,
    /// Realized profit in composite units (volume units times KRW);
    /// negative on a loss.
    pub pnl: i128,
    /// Realized profit rate in basis points; negative on a loss.
    pub pnl_rate_bps: i128,
}

/// Close a position against its execution price: the realized profit and
/// rate come from the position's own profit-and-loss computation at that
/// price.
pub fn close_position(position: &Position, exit_price: u64, exit_time: u64) -> (r: ClosedPosition)
    requires
        position.wf(),
        exit_price <= PRICE_LIMIT,
    ensures
        r.market == position.market,
        r.exit_price == exit_price,
        r.exit_time == exit_time,
        r.pnl == position.amount as int * exit_price as int - position.amount as int
            * position.entry_price as int,
        r.pnl_rate_bps == exit_price as int * (BPS_SCALE as int) / (position.entry_price as int)
            - (BPS_SCALE as int),
{
    let pnl: PnL = position.calculate_pnl(exit_price);
    ClosedPosition {
        market: position.market.clone(),
        exit_price,
        exit_time,
        pnl: pnl.profit,
        pnl_rate_bps: pnl.profit_rate_bps,
    }
}

} // verus!
