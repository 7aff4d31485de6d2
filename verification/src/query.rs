//! Node read-model (response) DTOs — the client's decode view of
//! `/v1/account` and market queries. Plain positional structs over the shared
//! wire types; trailing fields default so older node blobs stay decodable.
use vstd::prelude::*;

use crate::types::{Branch, EventId, MarketId, PositionEpoch, Side};

verus! {

/// Position with response-only enrichment fields. The first six fields match
/// the on-state `Position` struct in identical order; indices 6.. are
/// response enrichment that older clients may ignore. The enrichment fields
/// are per-leg anchors, not a decomposition of account health: summing them
/// does not reconstruct `AccountInfo.equity`, `total_mm` or `total_im`.
#[derive(Clone, Debug)]
pub struct PositionBrief {
    pub owner: [u8; 20],
    pub market: MarketId,
    pub side: Side,
    pub entry_price: u64,
    pub size: u64,
    pub last_funding_index: i64,
    /// Unrealized P&L at the current mark (0 placeholder for prediction binaries).
    pub upnl_now: i64,
    /// Stand-alone maintenance-margin anchor at the current underlying mark.
    pub mm_now: u64,
    /// Stand-alone initial-margin anchor.
    pub im_now: u64,
    /// Payoff when the position's branch fires.
    pub pnl_if_fires: i64,
    /// Payoff when the position's branch does not fire.
    pub pnl_if_dies: i64,
    /// Funding accrued since the position's last settled funding index.
    pub funding_since: i64,
    /// ADL queue score; 0 for losing positions and when `im_now == 0`.
    pub adl_score: i64,
    /// Persistent generation of this live position (`None` for pre-index state).
    pub position_epoch: Option<PositionEpoch>,
}

/// Account info response — includes margin breakdown for liquidation bar.
pub struct AccountInfo {
    pub balance: u64,
    pub positions: Vec<PositionBrief>,
    /// Equity in the binding liquidation-ratio scenario. Signed.
    pub equity: i64,
    /// Maintenance margin in the same binding scenario as `equity`.
    pub total_mm: u64,
    /// Total initial margin required (positions + resting orders).
    pub total_im: u64,
    /// Binding-scenario equity / total_mm in bps (10000 = 1.0x); 0 if no positions.
    pub margin_ratio_bps: u64,
    /// One (event, branch) entry per active event the account touches
    /// through a conditional, in ascending event-id order.
    pub binding_scenario: Vec<(EventId, Branch)>,
    /// Cumulative trading fees paid (positive) or rebates received (negative).
    pub fees_accrued: i64,
    /// Rolling 30-day taker volume in micro-USDC.
    pub volume_30d_micro_usdc: u64,
    /// Mark-to-market account value in micro-USDC for portfolio charts.
    pub cashout_equity: i64,
}

} // verus!
