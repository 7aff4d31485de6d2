//! Core domain types for the exchange engine.
//!
//! All wire-format structs are positional (field-order dependent).
//! Monetary values are in **micro-USDC** (1 USDC = 1_000_000) unless otherwise noted.
//! Prices are unsigned 64-bit integers in quote-currency micro-units.
use vstd::prelude::*;
use vstd::string::StringSliceAdditionalSpecFns;
use vstd::utf8::encode_utf8;

use crate::bytes::{be_bytes, u16_to_be, u64_from_be, u64_to_be, be_value};
use crate::render::decimal;
use crate::text::{new_text, push_str, push_u64_text, utf8_string};

pub mod error;
pub mod event;

pub use self::error::ExecError;
pub use self::event::{CancelReason, ConversionFallbackReason, Event};




verus! {

// ---------------------------------------------------------------------------
// Identifiers
// ---------------------------------------------------------------------------

/// Auto-incrementing order identifier, unique across all markets.
pub type OrderId = u64;

/// Numeric market identifier (e.g., 1 = BTC-USD perp).
pub type MarketId = u32;

/// Auto-incrementing fill identifier, unique across all trades.
pub type FillId = u64;

/// Impact market family identifier (1 family owns 4 child markets — CPY/CPN/EBY/EBN).
pub type ImpactMarketId = u32;

/// Identifier of a standalone event, structurally distinct from
/// [`ImpactMarketId`]. Encodes as a bare `u32`.
#[derive(Clone, Copy, Debug, PartialEq, Eq, PartialOrd, Ord, Hash)]
pub struct EventId(pub u32);

impl EventId {
    /// The decimal rendering of the id.
    pub fn to_string(&self) -> (r: String)
        ensures
            encode_utf8(r@) == decimal(self.0 as nat),
    {
        let mut out = new_text();
        push_u64_text(&mut out, self.0 as u64);
        utf8_string(out)
    }
}

/// Well-known market ID for the BTC-USD perpetual.
pub const MARKET_BTC_USD_PERP: MarketId = 1;

/// Maximum price (in micro-USDC) for a prediction-binary share. $1.00 = 1_000_000 µUSDC.
pub const BINARY_PRICE_MAX: u64 = 1_000_000;

/// Published size scale for prediction-binary books (EBY/EBN): 2dp
/// (hundredths of a contract).
pub const PREDICTION_BINARY_SZ_DECIMALS: u8 = 2;

/// Size lot for prediction-binary books (EBY/EBN): one unit at the 2dp size
/// scale = 0.01 share. Execution-relevant: `quantity % lot_size != 0` is rejected.
pub const PREDICTION_BINARY_LOT_SIZE: u64 = 1;

/// Price tick for prediction-binary books (EBY/EBN): 1 µUSDC.
pub const PREDICTION_BINARY_TICK_SIZE: u64 = 1;

// ---------------------------------------------------------------------------
// Impact market enums
// ---------------------------------------------------------------------------

/// Which branch of a binary event a conditional/prediction book represents.
#[derive(Clone, Copy, Debug, PartialEq, Eq, Hash)]
pub enum Branch {
    Yes,
    No,
}

impl Branch {
    /// The variant's discriminant, as the wire and the allocation ledger give it.
    pub open spec fn spec_tag(self) -> u8 {
        match self {
            Branch::Yes => 1,
            Branch::No => 2,
        }
    }

    /// The variant's discriminant, as the wire and the allocation ledger give it.
    pub fn tag(&self) -> (r: u8)
        ensures
            r == self.spec_tag(),
            self is Yes ==> r == 1,
            self is No ==> r == 2,
    {
        match self {
            Branch::Yes => 1,
            Branch::No => 2,
        }
    }

    /// The display text: `yes` / `no`.
    pub open spec fn spec_text(self) -> Seq<char> {
        match self {
            Branch::Yes => "yes"@,
            Branch::No => "no"@,
        }
    }

    pub(crate) fn as_str(&self) -> (r: &'static str)
        ensures
            r@ == self.spec_text(),
            self is Yes ==> r@ == "yes"@,
            self is No ==> r@ == "no"@,
    {
        match self {
            Branch::Yes => "yes",
            Branch::No => "no",
        }
    }

    pub fn to_string(&self) -> (r: String)
        ensures
            r@ == self.spec_text(),
            self is Yes ==> r@ == "yes"@,
            self is No ==> r@ == "no"@,
    {
        self.as_str().to_owned()
    }
}

/// Outcome of an impact-market event resolution.
#[derive(Clone, Copy, Debug, PartialEq, Eq, Hash)]
pub enum Outcome {
    Yes,
    No,
    /// Auto-voided (neither branch won).
    Void,
}

impl Outcome {
    /// The variant's discriminant, as the wire and the allocation ledger give it.
    pub open spec fn spec_tag(self) -> u8 {
        match self {
            Outcome::Yes => 1,
            Outcome::No => 2,
            Outcome::Void => 3,
        }
    }

    /// The variant's discriminant, as the wire and the allocation ledger give it.
    pub fn tag(&self) -> (r: u8)
        ensures
            r == self.spec_tag(),
            self is Yes ==> r == 1,
            self is No ==> r == 2,
            self is Void ==> r == 3,
    {
        match self {
            Outcome::Yes => 1,
            Outcome::No => 2,
            Outcome::Void => 3,
        }
    }

    /// The display text: `yes` / `no` / `void`.
    pub open spec fn spec_text(self) -> Seq<char> {
        match self {
            Outcome::Yes => "yes"@,
            Outcome::No => "no"@,
            Outcome::Void => "void"@,
        }
    }

    pub(crate) fn as_str(&self) -> (r: &'static str)
        ensures
            r@ == self.spec_text(),
            self is Yes ==> r@ == "yes"@,
            self is No ==> r@ == "no"@,
            self is Void ==> r@ == "void"@,
    {
        match self {
            Outcome::Yes => "yes",
            Outcome::No => "no",
            Outcome::Void => "void",
        }
    }

    pub fn to_string(&self) -> (r: String)
        ensures
            r@ == self.spec_text(),
            self is Yes ==> r@ == "yes"@,
            self is No ==> r@ == "no"@,
            self is Void ==> r@ == "void"@,
    {
        self.as_str().to_owned()
    }
}

/// How the YES/NO outcome of an impact-market event is determined at
/// deadline. `RelayerAttested` is the legacy default.
#[derive(Clone, Copy, Debug, PartialEq, Eq)]
pub enum EventOracleSource {
    /// Resolution by the underlying perp's oracle reading compared against
    /// `strike_price`.
    UnderlyingPriceVsStrike { strike_price: u64, comparison: PriceComparison },
    /// Resolution by a different on-chain market's oracle.
    MarketOracle { market: MarketId, strike_price: u64, comparison: PriceComparison },
    /// Resolution by relayer attestation only.
    RelayerAttested,
}

impl EventOracleSource {
    /// The display bytes:
    /// `underlying_price_vs_strike:{strike_price}:{comparison}`,
    /// `market_oracle:{market}:{strike_price}:{comparison}` or
    /// `relayer_attested`.
    pub open spec fn spec_text_bytes(self) -> Seq<u8> {
        match self {
            EventOracleSource::UnderlyingPriceVsStrike { strike_price, comparison } =>
                "underlying_price_vs_strike:".spec_bytes() + decimal(strike_price as nat)
                    + ":".spec_bytes() + encode_utf8(comparison.spec_text()),
            EventOracleSource::MarketOracle { market, strike_price, comparison } =>
                "market_oracle:".spec_bytes() + decimal(market as nat) + ":".spec_bytes()
                    + decimal(strike_price as nat) + ":".spec_bytes() + encode_utf8(
                    comparison.spec_text(),
                ),
            EventOracleSource::RelayerAttested => "relayer_attested".spec_bytes(),
        }
    }

    pub fn to_string(&self) -> (r: String)
        ensures
            encode_utf8(r@) == self.spec_text_bytes(),
    {
        let mut out = new_text();
        match self {
            EventOracleSource::UnderlyingPriceVsStrike { strike_price, comparison } => {
                push_str(&mut out, "underlying_price_vs_strike:");
                push_u64_text(&mut out, *strike_price);
                push_str(&mut out, ":");
                push_str(&mut out, comparison.as_str());
            },
            EventOracleSource::MarketOracle { market, strike_price, comparison } => {
                push_str(&mut out, "market_oracle:");
                push_u64_text(&mut out, *market as u64);
                push_str(&mut out, ":");
                push_u64_text(&mut out, *strike_price);
                push_str(&mut out, ":");
                push_str(&mut out, comparison.as_str());
            },
            EventOracleSource::RelayerAttested => {
                push_str(&mut out, "relayer_attested");
            },
        }
        assert(out@ =~= self.spec_text_bytes());
        utf8_string(out)
    }
}

/// Comparison operator used by the auto-resolve oracle modes. `YES` fires
/// iff `oracle_price <comparison> strike_price`.
#[derive(Clone, Copy, Debug, PartialEq, Eq)]
pub enum PriceComparison {
    GreaterThan,
    LessThan,
    GreaterThanOrEqual,
    LessThanOrEqual,
}

impl PriceComparison {
    /// Whether the YES branch wins for this oracle reading.
    pub open spec fn spec_apply(self, oracle_price: u64, strike_price: u64) -> bool {
        match self {
            PriceComparison::GreaterThan => oracle_price > strike_price,
            PriceComparison::LessThan => oracle_price < strike_price,
            PriceComparison::GreaterThanOrEqual => oracle_price >= strike_price,
            PriceComparison::LessThanOrEqual => oracle_price <= strike_price,
        }
    }

    /// Apply the comparison: returns true iff the YES branch wins.
    pub fn apply(self, oracle_price: u64, strike_price: u64) -> (r: bool)
        ensures
            r == self.spec_apply(oracle_price, strike_price),
            self is GreaterThan ==> (r <==> oracle_price > strike_price),
            self is LessThan ==> (r <==> oracle_price < strike_price),
            self is GreaterThanOrEqual ==> (r <==> oracle_price >= strike_price),
            self is LessThanOrEqual ==> (r <==> oracle_price <= strike_price),
    {
        match self {
            PriceComparison::GreaterThan => oracle_price > strike_price,
            PriceComparison::LessThan => oracle_price < strike_price,
            PriceComparison::GreaterThanOrEqual => oracle_price >= strike_price,
            PriceComparison::LessThanOrEqual => oracle_price <= strike_price,
        }
    }

    pub open spec fn spec_phrase(self) -> Seq<char> {
        match self {
            PriceComparison::GreaterThan => "strictly greater than"@,
            PriceComparison::LessThan => "strictly less than"@,
            PriceComparison::GreaterThanOrEqual => "greater than or equal to"@,
            PriceComparison::LessThanOrEqual => "less than or equal to"@,
        }
    }

    /// The comparison in words.
    pub fn phrase(&self) -> (r: &'static str)
        ensures
            r@ == self.spec_phrase(),
            self is GreaterThan ==> r@ == "strictly greater than"@,
            self is LessThan ==> r@ == "strictly less than"@,
            self is GreaterThanOrEqual ==> r@ == "greater than or equal to"@,
            self is LessThanOrEqual ==> r@ == "less than or equal to"@,
    {
        match self {
            PriceComparison::GreaterThan => "strictly greater than",
            PriceComparison::LessThan => "strictly less than",
            PriceComparison::GreaterThanOrEqual => "greater than or equal to",
            PriceComparison::LessThanOrEqual => "less than or equal to",
        }
    }

    /// The display text: `gt` / `lt` / `gte` / `lte`.
    pub open spec fn spec_text(self) -> Seq<char> {
        match self {
            PriceComparison::GreaterThan => "gt"@,
            PriceComparison::LessThan => "lt"@,
            PriceComparison::GreaterThanOrEqual => "gte"@,
            PriceComparison::LessThanOrEqual => "lte"@,
        }
    }

    pub(crate) fn as_str(&self) -> (r: &'static str)
        ensures
            r@ == self.spec_text(),
            self is GreaterThan ==> r@ == "gt"@,
            self is LessThan ==> r@ == "lt"@,
            self is GreaterThanOrEqual ==> r@ == "gte"@,
            self is LessThanOrEqual ==> r@ == "lte"@,
    {
        match self {
            PriceComparison::GreaterThan => "gt",
            PriceComparison::LessThan => "lt",
            PriceComparison::GreaterThanOrEqual => "gte",
            PriceComparison::LessThanOrEqual => "lte",
        }
    }

    pub fn to_string(&self) -> (r: String)
        ensures
            r@ == self.spec_text(),
            self is GreaterThan ==> r@ == "gt"@,
            self is LessThan ==> r@ == "lt"@,
            self is GreaterThanOrEqual ==> r@ == "gte"@,
            self is LessThanOrEqual ==> r@ == "lte"@,
    {
        self.as_str().to_owned()
    }
}

/// The YES branch wins exactly when the oracle price stands to the strike
/// as the comparison says: strictly above for `gt`, strictly below for `lt`,
/// at or above for `gte`, at or below for `lte`.
pub proof fn lemma_price_comparison_orders(c: PriceComparison, oracle_price: u64, strike_price: u64)
    ensures
        c is GreaterThan ==> (c.spec_apply(oracle_price, strike_price) <==> oracle_price
            > strike_price),
        c is LessThan ==> (c.spec_apply(oracle_price, strike_price) <==> oracle_price
            < strike_price),
        c is GreaterThanOrEqual ==> (c.spec_apply(oracle_price, strike_price) <==> oracle_price
            >= strike_price),
        c is LessThanOrEqual ==> (c.spec_apply(oracle_price, strike_price) <==> oracle_price
            <= strike_price),
{
}

/// The strict and non-strict comparisons in opposite directions are
/// complements: on any reading exactly one of `gt` / `lte` (and of
/// `lt` / `gte`) lets the YES branch win, and equality at the strike is
/// decided only by the `OrEqual` variants.
pub proof fn lemma_price_comparison_complements(oracle_price: u64, strike_price: u64)
    ensures
        PriceComparison::GreaterThan.spec_apply(oracle_price, strike_price)
            != PriceComparison::LessThanOrEqual.spec_apply(oracle_price, strike_price),
        PriceComparison::LessThan.spec_apply(oracle_price, strike_price)
            != PriceComparison::GreaterThanOrEqual.spec_apply(oracle_price, strike_price),
        oracle_price == strike_price ==> !PriceComparison::GreaterThan.spec_apply(
            oracle_price,
            strike_price,
        ) && !PriceComparison::LessThan.spec_apply(oracle_price, strike_price)
            && PriceComparison::GreaterThanOrEqual.spec_apply(oracle_price, strike_price)
            && PriceComparison::LessThanOrEqual.spec_apply(oracle_price, strike_price),
{
}

/// Kind of market stored on-chain. Stored on [`MarketConfig`].
#[derive(Clone, Copy, Debug, PartialEq, Eq, Default)]
pub enum MarketKind {
    /// Regular perpetual future.
    #[default]
    Perp,
    /// Conditional perpetual — trades like a perp until the parent event
    /// resolves, then settles (if branch wins) or voids (if branch loses).
    ConditionalPerp { impact_market_id: ImpactMarketId, branch: Branch },
    /// Prediction-binary token — trades on [0, BINARY_PRICE_MAX] µUSDC.
    /// Parented by an [`EventInfo`] via `event_id`.
    PredictionBinary { event_id: EventId, branch: Branch },
}

impl MarketKind {
    /// Returns the parent id this market belongs to, if any: the family of
    /// a conditional perp, the event of a prediction binary.
    pub fn impact_market_id(&self) -> (r: Option<ImpactMarketId>)
        ensures
            r == match *self {
                MarketKind::Perp => None,
                MarketKind::ConditionalPerp { impact_market_id, .. } => Some(impact_market_id),
                MarketKind::PredictionBinary { event_id, .. } => Some(event_id.0),
            },
    {
        match self {
            MarketKind::Perp => None,
            MarketKind::ConditionalPerp { impact_market_id, .. } => Some(*impact_market_id),
            MarketKind::PredictionBinary { event_id, .. } => Some(event_id.0),
        }
    }

    /// The event this market is parented by, if it is a prediction binary.
    pub fn event_id(&self) -> (r: Option<EventId>)
        ensures
            r == match *self {
                MarketKind::PredictionBinary { event_id, .. } => Some(event_id),
                _ => None,
            },
    {
        match self {
            MarketKind::PredictionBinary { event_id, .. } => Some(*event_id),
            _ => None,
        }
    }

    /// Returns the branch this market is tied to, if any.
    pub fn branch(&self) -> (r: Option<Branch>)
        ensures
            r == match *self {
                MarketKind::Perp => None,
                MarketKind::ConditionalPerp { branch, .. } => Some(branch),
                MarketKind::PredictionBinary { branch, .. } => Some(branch),
            },
    {
        match self {
            MarketKind::Perp => None,
            MarketKind::ConditionalPerp { branch, .. } => Some(*branch),
            MarketKind::PredictionBinary { branch, .. } => Some(*branch),
        }
    }

    pub fn is_conditional_perp(&self) -> (r: bool)
        ensures
            r == (*self is ConditionalPerp),
    {
        matches!(self, MarketKind::ConditionalPerp { .. })
    }

    pub fn is_prediction_binary(&self) -> (r: bool)
        ensures
            r == (*self is PredictionBinary),
    {
        matches!(self, MarketKind::PredictionBinary { .. })
    }
}

/// Mark-price source for a perp market. Defaults to `OracleOnly`.
#[derive(Clone, Copy, Debug, Default, PartialEq, Eq)]
pub enum MarkSourceMode {
    /// Mark = oracle price.
    #[default]
    OracleOnly,
    /// Mark = median of available sources (oracle, book-mid, composite CEX index).
    Median,
}

/// Built-in default for the thin-book spread guard (100 bps = 1% of mid).
pub const DEFAULT_MAX_MARK_SPREAD_BPS: u32 = 100;

/// Built-in clamp for impact-market branch shocks used by scenario margin (±25%).
pub const DEFAULT_BRANCH_SHOCK_CLAMP_BPS: u32 = 2_500;

/// Built-in default staleness threshold for the composite-CEX price (30 s).
pub const DEFAULT_CEX_COMPOSITE_STALENESS_MS: u64 = 30_000;

/// Maximum per-update oracle price deviation from the stored last-good,
/// in basis points (20% per update).
pub const DEFAULT_MAX_ORACLE_DEVIATION_BPS: u32 = 2_000;

/// Minimum top-of-book notional for a book-mid to be trusted as a mark
/// source, in µUSDC ($50k aggregate, $25k per side).
pub const MARK_MIN_BOOK_NOTIONAL_UUSDC: u128 = 50_000_000_000;

/// Hard-cap multiple on `mark_price_max_oracle_age_ms` past which the
/// stale→last-good mark fallback stops.
pub const DEFAULT_STALE_LAST_GOOD_HARD_CAP_FACTOR: u64 = 10;

/// Lifecycle status of an impact-market family.
#[derive(Clone, Copy, Debug, PartialEq, Eq)]
pub enum ImpactMarketStatus {
    /// Open for trading on all 5 books.
    Trading,
    /// Past deadline, awaiting resolver signatures.
    PreResolution,
    /// Fully resolved.
    Resolved(Outcome),
}

/// Stored on-chain record for a standalone event. Owns its two
/// prediction-binary books (EBY, EBN) and its resolution rule.
#[derive(Clone, Debug)]
pub struct EventInfo {
    pub event_id: EventId,
    /// Prediction-binary YES book.
    pub eby_market: MarketId,
    /// Prediction-binary NO book.
    pub ebn_market: MarketId,
    /// Human-readable question.
    pub question: String,
    /// Event settlement time in ms since Unix epoch.
    pub settlement_ms: u64,
    /// Grace period after `settlement_ms` before a stale-oracle event may be voided.
    pub resolution_window_ms: u64,
    /// Current lifecycle status.
    pub status: ImpactMarketStatus,
    /// Block timestamp when the event was created (ms since epoch).
    pub created_ms: u64,
    /// Block timestamp when the event resolved (ms since epoch), 0 if unresolved.
    pub resolved_ms: u64,
    /// How the YES/NO outcome is determined. `None` means `RelayerAttested`.
    pub oracle_source: Option<EventOracleSource>,
}

/// Stored on-chain record for an impact-market family. Owns pointers to the
/// 4 child markets (CPY, CPN, EBY, EBN) plus the underlying perp.
#[derive(Clone, Debug)]
pub struct ImpactMarketInfo {
    pub impact_market_id: ImpactMarketId,
    /// Underlying perp market (unconditional book 1). Must already exist.
    pub underlying_market: MarketId,
    /// Conditional-perp YES child book.
    pub cpy_market: MarketId,
    /// Conditional-perp NO child book.
    pub cpn_market: MarketId,
    /// Prediction-binary YES child book.
    pub eby_market: MarketId,
    /// Prediction-binary NO child book.
    pub ebn_market: MarketId,
    /// Human-readable question.
    pub question: String,
    /// Event deadline in milliseconds since Unix epoch.
    pub deadline_ms: u64,
    /// Grace period after `deadline_ms` before the auto-void path fires.
    pub resolution_window_ms: u64,
    /// Current lifecycle status.
    pub status: ImpactMarketStatus,
    /// Block timestamp when the impact market was created (ms since epoch).
    pub created_ms: u64,
    /// Block timestamp when the impact market was resolved (ms since epoch), 0 if unresolved.
    pub resolved_ms: u64,
    /// How the YES/NO outcome is determined at deadline (`None` = `RelayerAttested`).
    pub oracle_source: Option<EventOracleSource>,
}

// ---------------------------------------------------------------------------
// Admin multisig governance
// ---------------------------------------------------------------------------

/// Maximum signer-roster size, enforced at genesis, seed, and every rotation.
pub const MAX_ADMIN_SIGNERS: usize = 16;

/// Maximum simultaneously pending proposals; propose fails closed beyond this.
pub const MAX_PENDING_PROPOSALS: usize = 32;

/// Terminal proposals are pruned oldest-first down to this bound.
pub const MAX_TERMINAL_RETAINED: usize = 256;

/// Hard cap on the canonical inner `AdminAction` bytes at propose.
pub const MAX_ADMIN_ACTION_BYTES: usize = 2048;

/// Maximum items in an `AdminAction::Batch`.
pub const MAX_BATCH_ADMIN_ACTIONS: usize = 4;

/// Byte caps on the impact-market free-text fields, enforced at propose.
pub const MAX_IMPACT_QUESTION_BYTES: usize = 256;

pub const MAX_IMPACT_DESCRIPTION_BYTES: usize = 768;

pub const MAX_IMPACT_RULES_BYTES: usize = 640;

/// Proposal time-to-live (72 h), observed lazily.
pub const PROPOSAL_TTL_MS: u64 = 259_200_000;

/// Pagination bound for the proposals query.
pub const MAX_PROPOSAL_PAGE: u16 = 100;

/// Emergency audit-log ring retention.
pub const MAX_EMERGENCY_RETAINED: usize = 256;

/// Global bound on emergency actions per rolling window.
pub const MAX_EMERGENCY_TOTAL_PER_WINDOW: usize = 256;

/// Per-signer bound on emergency actions per rolling window.
pub const MAX_EMERGENCY_PER_SIGNER: usize = 16;

/// Rolling emergency rate window (1 h), judged against block time.
pub const EMERGENCY_RATE_WINDOW_MS: u64 = 3_600_000;

/// Retention covers the whole global window: an in-window record is never
/// ring-evicted, so a reintroduced signer cannot bypass its rate limit.
pub proof fn lemma_emergency_retention_covers_window()
    ensures
        MAX_EMERGENCY_RETAINED >= MAX_EMERGENCY_TOTAL_PER_WINDOW,
        MAX_EMERGENCY_PER_SIGNER <= MAX_EMERGENCY_TOTAL_PER_WINDOW,
{
}

/// Governance domain newtypes: consensus values are never bare primitives.
#[derive(Clone, Copy, Debug, PartialEq, Eq, PartialOrd, Ord, Hash)]
pub struct ProposalId(pub u64);

#[derive(Clone, Copy, Debug, PartialEq, Eq, PartialOrd, Ord, Hash)]
pub struct EmergencyId(pub u64);

#[derive(Clone, Copy, Debug, PartialEq, Eq, PartialOrd, Ord, Hash)]
pub struct RegistryVersion(pub u64);

#[derive(Clone, Copy, Debug, PartialEq, Eq, PartialOrd, Ord, Hash)]
pub struct SignerAddress(pub [u8; 20]);

/// Trading account an admin action targets. Distinct from [`SignerAddress`].
#[derive(Clone, Copy, Debug, PartialEq, Eq, PartialOrd, Ord, Hash)]
pub struct AccountAddress(pub [u8; 20]);

/// Number of member approvals required to execute an admin proposal.
#[derive(Clone, Copy, Debug, PartialEq, Eq, PartialOrd, Ord, Hash)]
pub struct SignatureThreshold(pub u32);

impl ProposalId {
    /// The 8-byte big-endian key of the id.
    pub open spec fn spec_key_bytes(self) -> Seq<u8> {
        be_bytes(self.0 as nat, 8)
    }

    /// Big-endian key encoding, so prefix scans yield ascending id order.
    pub fn to_key_bytes(self) -> (r: [u8; 8])
        ensures
            r@ == self.spec_key_bytes(),
    {
        u64_to_be(self.0)
    }

    pub fn from_key_bytes(bytes: [u8; 8]) -> (r: Self)
        ensures
            r.0 as nat == be_value(bytes@),
    {
        ProposalId(u64_from_be(bytes))
    }
}

impl EmergencyId {
    /// The 8-byte big-endian key of the id.
    pub open spec fn spec_key_bytes(self) -> Seq<u8> {
        be_bytes(self.0 as nat, 8)
    }

    /// Same big-endian contract as `ProposalId::to_key_bytes`.
    pub fn to_key_bytes(self) -> (r: [u8; 8])
        ensures
            r@ == self.spec_key_bytes(),
    {
        u64_to_be(self.0)
    }

    pub fn from_key_bytes(bytes: [u8; 8]) -> (r: Self)
        ensures
            r.0 as nat == be_value(bytes@),
    {
        EmergencyId(u64_from_be(bytes))
    }
}

/// The on-chain signer roster — the single source of who may approve admin
/// actions.
#[derive(Clone, Debug, PartialEq, Eq)]
pub struct AdminSignerRegistry {
    /// Monotone, starts at 1, never reused (a rotation assigns +1).
    pub version: RegistryVersion,
    /// Approvals required to execute a proposal.
    /// Invariant: `2 <= threshold <= members.len()`.
    pub threshold: SignatureThreshold,
    /// Canonically sorted, duplicate-free, `len <= MAX_ADMIN_SIGNERS`.
    pub members: Vec<SignerAddress>,
}

/// Why a scheduled funding interval was skipped without catch-up.
#[derive(Clone, Copy, Debug, PartialEq, Eq)]
pub enum FundingSkipReason {
    /// The market's oracle is older than `mark_price_max_oracle_age_ms`.
    OracleStale,
    /// The market has no `mark_price_max_oracle_age_ms` yet while the
    /// oracle-guard gate is active.
    OracleGuardUnset,
}

impl FundingSkipReason {
    /// The display text: `oracle_stale` / `oracle_guard_unset`.
    pub open spec fn spec_text(self) -> Seq<char> {
        match self {
            FundingSkipReason::OracleStale => "oracle_stale"@,
            FundingSkipReason::OracleGuardUnset => "oracle_guard_unset"@,
        }
    }

    pub(crate) fn as_str(&self) -> (r: &'static str)
        ensures
            r@ == self.spec_text(),
            self is OracleStale ==> r@ == "oracle_stale"@,
            self is OracleGuardUnset ==> r@ == "oracle_guard_unset"@,
    {
        match self {
            FundingSkipReason::OracleStale => "oracle_stale",
            FundingSkipReason::OracleGuardUnset => "oracle_guard_unset",
        }
    }

    pub fn to_string(&self) -> (r: String)
        ensures
            r@ == self.spec_text(),
            self is OracleStale ==> r@ == "oracle_stale"@,
            self is OracleGuardUnset ==> r@ == "oracle_guard_unset"@,
    {
        self.as_str().to_owned()
    }
}

/// Why an `OracleUpdate` was refused by the per-market deviation guard.
#[derive(Clone, Copy, Debug, PartialEq, Eq)]
pub enum OracleRejectReason {
    /// The submitted price sits outside `last_good +- max_oracle_deviation_bps`.
    DeviationExceeded,
    /// The market has no deviation band yet; the default fails closed.
    DeviationBandUnset,
}

impl OracleRejectReason {
    /// The display text: `deviation_exceeded` / `deviation_band_unset`.
    pub open spec fn spec_text(self) -> Seq<char> {
        match self {
            OracleRejectReason::DeviationExceeded => "deviation_exceeded"@,
            OracleRejectReason::DeviationBandUnset => "deviation_band_unset"@,
        }
    }

    pub(crate) fn as_str(&self) -> (r: &'static str)
        ensures
            r@ == self.spec_text(),
            self is DeviationExceeded ==> r@ == "deviation_exceeded"@,
            self is DeviationBandUnset ==> r@ == "deviation_band_unset"@,
    {
        match self {
            OracleRejectReason::DeviationExceeded => "deviation_exceeded",
            OracleRejectReason::DeviationBandUnset => "deviation_band_unset",
        }
    }

    pub fn to_string(&self) -> (r: String)
        ensures
            r@ == self.spec_text(),
            self is DeviationExceeded ==> r@ == "deviation_exceeded"@,
            self is DeviationBandUnset ==> r@ == "deviation_band_unset"@,
    {
        self.as_str().to_owned()
    }
}

/// Why a `Pending` proposal expired.
#[derive(Clone, Copy, Debug, PartialEq, Eq)]
pub enum ExpiryReason {
    /// `expiry_ms` passed (the 72 h TTL, observed lazily).
    Ttl,
    /// A registry rotation invalidated every other Pending proposal.
    RegistryChanged,
}

impl ExpiryReason {
    /// The display text: `ttl` / `registry_changed`.
    pub open spec fn spec_text(self) -> Seq<char> {
        match self {
            ExpiryReason::Ttl => "ttl"@,
            ExpiryReason::RegistryChanged => "registry_changed"@,
        }
    }

    pub(crate) fn as_str(&self) -> (r: &'static str)
        ensures
            r@ == self.spec_text(),
            self is Ttl ==> r@ == "ttl"@,
            self is RegistryChanged ==> r@ == "registry_changed"@,
    {
        match self {
            ExpiryReason::Ttl => "ttl",
            ExpiryReason::RegistryChanged => "registry_changed",
        }
    }

    pub fn to_string(&self) -> (r: String)
        ensures
            r@ == self.spec_text(),
            self is Ttl ==> r@ == "ttl"@,
            self is RegistryChanged ==> r@ == "registry_changed"@,
    {
        self.as_str().to_owned()
    }
}

/// Status of an admin proposal.
#[derive(Clone, Copy, Debug, PartialEq, Eq)]
pub enum ProposalStatus {
    Pending,
    Executed,
    /// Deterministic inner-apply failure, storing the full `ExecError::code()`.
    Failed { code: u32 },
    /// Proposer-cancel, or the member whose rejection reached the bound.
    Rejected { by: SignerAddress },
    Expired { reason: ExpiryReason },
}

impl ProposalStatus {
    /// Filter byte: 0 pending, 1 executed, 2 failed, 3 rejected, 4 expired.
    pub open spec fn spec_status_tag(self) -> u8 {
        match self {
            ProposalStatus::Pending => 0,
            ProposalStatus::Executed => 1,
            ProposalStatus::Failed { .. } => 2,
            ProposalStatus::Rejected { .. } => 3,
            ProposalStatus::Expired { .. } => 4,
        }
    }

    /// Payload-free filter byte for the proposals query (`status`
    /// parameter): 0 pending, 1 executed, 2 failed, 3 rejected, 4 expired.
    pub fn status_tag(&self) -> (r: u8)
        ensures
            r == self.spec_status_tag(),
            self is Pending ==> r == 0,
            self is Executed ==> r == 1,
            self is Failed ==> r == 2,
            self is Rejected ==> r == 3,
            self is Expired ==> r == 4,
    {
        match self {
            ProposalStatus::Pending => 0,
            ProposalStatus::Executed => 1,
            ProposalStatus::Failed { .. } => 2,
            ProposalStatus::Rejected { .. } => 3,
            ProposalStatus::Expired { .. } => 4,
        }
    }

    pub open spec fn spec_label(self) -> Seq<char> {
        match self {
            ProposalStatus::Pending => "pending"@,
            ProposalStatus::Executed => "executed"@,
            ProposalStatus::Failed { .. } => "failed"@,
            ProposalStatus::Rejected { .. } => "rejected"@,
            ProposalStatus::Expired { .. } => "expired"@,
        }
    }

    /// Payload-free label for error messages and event attributes.
    pub fn label(&self) -> (r: &'static str)
        ensures
            r@ == self.spec_label(),
            self is Pending ==> r@ == "pending"@,
            self is Executed ==> r@ == "executed"@,
            self is Failed ==> r@ == "failed"@,
            self is Rejected ==> r@ == "rejected"@,
            self is Expired ==> r@ == "expired"@,
    {
        match self {
            ProposalStatus::Pending => "pending",
            ProposalStatus::Executed => "executed",
            ProposalStatus::Failed { .. } => "failed",
            ProposalStatus::Rejected { .. } => "rejected",
            ProposalStatus::Expired { .. } => "expired",
        }
    }
}

/// The status filter byte depends only on the status kind, is below 5, and
/// separates the five kinds.
pub proof fn lemma_status_tag_separates_kinds(a: ProposalStatus, b: ProposalStatus)
    ensures
        a.spec_status_tag() < 5,
        (a.spec_status_tag() == b.spec_status_tag()) <==> ((a is Pending) && (b is Pending)
            || (a is Executed) && (b is Executed) || (a is Failed) && (b is Failed)
            || (a is Rejected) && (b is Rejected) || (a is Expired) && (b is Expired)),
{
}

/// One admin-multisig proposal. The canonical bytes, not the typed value,
/// are the authoritative content.
#[derive(Clone, Debug, PartialEq, Eq)]
pub struct AdminProposalRecord {
    pub proposal_id: ProposalId,
    /// Registry version this proposal is bound to.
    pub registry_version: RegistryVersion,
    /// Threshold snapshot at propose time.
    pub threshold: SignatureThreshold,
    pub proposer: SignerAddress,
    /// `AdminAction` arm discriminant (indexing/display only).
    pub action_tag: u8,
    /// Engine-canonical encoding of the typed `AdminAction`.
    pub action_bytes: Vec<u8>,
    /// Sorted, deduped; the proposer is inserted at creation.
    pub approvals: Vec<SignerAddress>,
    /// Sorted, deduped, disjoint from `approvals`.
    pub rejections: Vec<SignerAddress>,
    pub status: ProposalStatus,
    pub created_height: u64,
    /// `ctx.block_time_ms` at propose.
    pub created_ms: u64,
    /// `created_ms + PROPOSAL_TTL_MS`.
    pub expiry_ms: u64,
    /// Domain-separated commitment to the immutable proposal context.
    pub content_hash: [u8; 32],
}

/// One executed single-signer emergency action — the on-chain audit trail.
#[derive(Clone, Copy, Debug, PartialEq, Eq)]
pub struct EmergencyActionRecord {
    pub emergency_id: EmergencyId,
    pub signer: SignerAddress,
    /// `EmergencyAction` arm discriminant.
    pub action_tag: u8,
    /// `None` for market-less arms (`HaltTrading`).
    pub market_id: Option<MarketId>,
    pub height: u64,
    /// Block time at execution; feeds the rolling rate window.
    pub time_ms: u64,
}

/// Closed set of actions executable through admin multisig governance.
#[derive(Clone, Debug)]
pub enum AdminAction {
    /// Creates a market. The embedded signer must be zero.
    CreateMarket(CreateMarket),
    /// Replaces the admin signer roster and approval threshold.
    UpdateAdminSignerRegistry(UpdateAdminSignerRegistry),
    /// Creates an impact-market family (4 child books).
    CreateImpactMarket(CreateImpactMarket),
    /// Creates a standalone event (2 binary books, no underlying).
    CreateEvent(CreateEvent),
    /// Two to `MAX_BATCH_ADMIN_ACTIONS` market-creation actions executed
    /// atomically. The item type is a closed enum, so nesting is undecodable.
    Batch(Vec<AdminBatchItem>),
    /// Schedules a complete trigger-policy replacement for one market.
    SetTriggerMarketConfig(crate::triggers::SetTriggerMarketConfig),
    /// Governance authorization to resume the halted bridge.
    UnpauseBridge,
    /// Adds and/or removes addresses in one operator-authority set.
    UpdateAuthoritySet(UpdateAuthoritySet),
    /// Schedules an on-chain upgrade plan.
    ScheduleUpgrade(ScheduleUpgrade),
    /// Cancels a scheduled upgrade plan.
    CancelUpgrade(CancelUpgrade),
    /// Cancels every resting order of one account.
    CancelAllOrdersForAccount(CancelAllOrdersForAccount),
    /// Configures the oracle policy bundle.
    ConfigureOraclePolicy(ConfigureOraclePolicy),
    /// Writes the per-market oracle guards.
    SetOracleGuards(SetOracleGuards),
}

/// Per-market oracle guards written by governance.
#[derive(Clone, Debug, PartialEq, Eq)]
pub struct SetOracleGuards {
    pub market: MarketId,
    pub mark_price_max_oracle_age_ms: Option<u64>,
    pub max_oracle_deviation_bps: Option<u32>,
}

/// Operator-authority sets rotated by governance.
#[derive(Clone, Copy, Debug, PartialEq, Eq, Hash)]
pub enum AuthorityDomain {
    Oracle,
    CexComposite,
    Relayer,
    Custody,
    MarketParams,
    ScheduledOps,
}

impl AuthorityDomain {
    /// The domain's wire discriminant (1 through 6, in declaration order).
    pub open spec fn spec_tag(self) -> u8 {
        match self {
            AuthorityDomain::Oracle => 1,
            AuthorityDomain::CexComposite => 2,
            AuthorityDomain::Relayer => 3,
            AuthorityDomain::Custody => 4,
            AuthorityDomain::MarketParams => 5,
            AuthorityDomain::ScheduledOps => 6,
        }
    }

    /// The variant's discriminant, as the wire and the allocation ledger give it.
    pub fn tag(&self) -> (r: u8)
        ensures
            r == self.spec_tag(),
            self is Oracle ==> r == 1,
            self is CexComposite ==> r == 2,
            self is Relayer ==> r == 3,
            self is Custody ==> r == 4,
            self is MarketParams ==> r == 5,
            self is ScheduledOps ==> r == 6,
    {
        match self {
            AuthorityDomain::Oracle => 1,
            AuthorityDomain::CexComposite => 2,
            AuthorityDomain::Relayer => 3,
            AuthorityDomain::Custody => 4,
            AuthorityDomain::MarketParams => 5,
            AuthorityDomain::ScheduledOps => 6,
        }
    }
}

#[derive(Clone, Debug, PartialEq, Eq)]
pub struct UpdateAuthoritySet {
    pub domain: AuthorityDomain,
    pub add: Vec<SignerAddress>,
    pub remove: Vec<SignerAddress>,
}

#[derive(Clone, Debug, PartialEq, Eq)]
pub struct CancelAllOrdersForAccount {
    pub owner: AccountAddress,
    pub market: Option<MarketId>,
}

#[derive(Clone, Debug, PartialEq, Eq)]
pub struct ScheduleUpgrade {
    pub target_height: u64,
    pub protocol_version: u32,
    pub successor_sha256: [u8; 32],
}

#[derive(Clone, Copy, Debug, Default, PartialEq, Eq)]
pub struct CancelUpgrade {
    pub target_height: u64,
}

/// The closed set of actions a governance batch may hold.
#[derive(Clone, Debug)]
pub enum AdminBatchItem {
    CreateMarket(CreateMarket),
    CreateImpactMarket(CreateImpactMarket),
}

/// Stable inner admin-action tags, committed by the proposal content hash.
#[derive(Clone, Copy, Debug, PartialEq, Eq, Hash)]
pub enum AdminActionType {
    CreateMarket,
    UpdateAdminSignerRegistry,
    CreateImpactMarket,
    Batch,
    SetTriggerMarketConfig,
    UnpauseBridge,
    UpdateAuthoritySet,
    CancelAllOrdersForAccount,
    CreateEvent,
    ReservedRt01B,
    ReservedRt01C,
    ConfigureOraclePolicy,
    SetOracleGuards,
    ScheduleUpgrade,
    CancelUpgrade,
}

impl AdminActionType {
    /// The inner tag byte of each arm (the allocation ledger).
    pub open spec fn spec_tag(self) -> u8 {
        match self {
            AdminActionType::CreateMarket => 1,
            AdminActionType::UpdateAdminSignerRegistry => 2,
            AdminActionType::CreateImpactMarket => 3,
            AdminActionType::Batch => 4,
            AdminActionType::SetTriggerMarketConfig => 5,
            AdminActionType::UnpauseBridge => 6,
            AdminActionType::UpdateAuthoritySet => 7,
            AdminActionType::CancelAllOrdersForAccount => 8,
            AdminActionType::CreateEvent => 9,
            AdminActionType::ReservedRt01B => 10,
            AdminActionType::ReservedRt01C => 11,
            AdminActionType::ConfigureOraclePolicy => 12,
            AdminActionType::SetOracleGuards => 13,
            AdminActionType::ScheduleUpgrade => 14,
            AdminActionType::CancelUpgrade => 15,
        }
    }

    /// The variant's discriminant, as the wire and the allocation ledger give it.
    pub fn tag(&self) -> (r: u8)
        ensures
            r == self.spec_tag(),
            self is CreateMarket ==> r == 1,
            self is UpdateAdminSignerRegistry ==> r == 2,
            self is CreateImpactMarket ==> r == 3,
            self is Batch ==> r == 4,
            self is SetTriggerMarketConfig ==> r == 5,
            self is UnpauseBridge ==> r == 6,
            self is UpdateAuthoritySet ==> r == 7,
            self is CancelAllOrdersForAccount ==> r == 8,
            self is CreateEvent ==> r == 9,
            self is ReservedRt01B ==> r == 10,
            self is ReservedRt01C ==> r == 11,
            self is ConfigureOraclePolicy ==> r == 12,
            self is SetOracleGuards ==> r == 13,
            self is ScheduleUpgrade ==> r == 14,
            self is CancelUpgrade ==> r == 15,
    {
        match self {
            AdminActionType::CreateMarket => 1,
            AdminActionType::UpdateAdminSignerRegistry => 2,
            AdminActionType::CreateImpactMarket => 3,
            AdminActionType::Batch => 4,
            AdminActionType::SetTriggerMarketConfig => 5,
            AdminActionType::UnpauseBridge => 6,
            AdminActionType::UpdateAuthoritySet => 7,
            AdminActionType::CancelAllOrdersForAccount => 8,
            AdminActionType::CreateEvent => 9,
            AdminActionType::ReservedRt01B => 10,
            AdminActionType::ReservedRt01C => 11,
            AdminActionType::ConfigureOraclePolicy => 12,
            AdminActionType::SetOracleGuards => 13,
            AdminActionType::ScheduleUpgrade => 14,
            AdminActionType::CancelUpgrade => 15,
        }
    }
}

impl AdminAction {
    pub open spec fn spec_action_type(self) -> AdminActionType {
        match self {
            AdminAction::CreateMarket(_) => AdminActionType::CreateMarket,
            AdminAction::UpdateAdminSignerRegistry(_) => AdminActionType::UpdateAdminSignerRegistry,
            AdminAction::CreateImpactMarket(_) => AdminActionType::CreateImpactMarket,
            AdminAction::CreateEvent(_) => AdminActionType::CreateEvent,
            AdminAction::Batch(_) => AdminActionType::Batch,
            AdminAction::SetTriggerMarketConfig(_) => AdminActionType::SetTriggerMarketConfig,
            AdminAction::UnpauseBridge => AdminActionType::UnpauseBridge,
            AdminAction::UpdateAuthoritySet(_) => AdminActionType::UpdateAuthoritySet,
            AdminAction::CancelAllOrdersForAccount(_) => AdminActionType::CancelAllOrdersForAccount,
            AdminAction::ConfigureOraclePolicy(_) => AdminActionType::ConfigureOraclePolicy,
            AdminAction::SetOracleGuards(_) => AdminActionType::SetOracleGuards,
            AdminAction::ScheduleUpgrade(_) => AdminActionType::ScheduleUpgrade,
            AdminAction::CancelUpgrade(_) => AdminActionType::CancelUpgrade,
        }
    }

    /// The engine-owned arm type committed by the proposal content hash.
    pub fn action_type(&self) -> (r: AdminActionType)
        ensures
            r == self.spec_action_type(),
            self is CreateMarket ==> r == AdminActionType::CreateMarket,
            self is UpdateAdminSignerRegistry ==> r == AdminActionType::UpdateAdminSignerRegistry,
            self is CreateImpactMarket ==> r == AdminActionType::CreateImpactMarket,
            self is Batch ==> r == AdminActionType::Batch,
            self is SetTriggerMarketConfig ==> r == AdminActionType::SetTriggerMarketConfig,
            self is UnpauseBridge ==> r == AdminActionType::UnpauseBridge,
            self is UpdateAuthoritySet ==> r == AdminActionType::UpdateAuthoritySet,
            self is CancelAllOrdersForAccount ==> r == AdminActionType::CancelAllOrdersForAccount,
            self is CreateEvent ==> r == AdminActionType::CreateEvent,
            self is ConfigureOraclePolicy ==> r == AdminActionType::ConfigureOraclePolicy,
            self is SetOracleGuards ==> r == AdminActionType::SetOracleGuards,
            self is ScheduleUpgrade ==> r == AdminActionType::ScheduleUpgrade,
            self is CancelUpgrade ==> r == AdminActionType::CancelUpgrade,
    {
        match self {
            AdminAction::CreateMarket(_) => AdminActionType::CreateMarket,
            AdminAction::UpdateAdminSignerRegistry(_) => AdminActionType::UpdateAdminSignerRegistry,
            AdminAction::CreateImpactMarket(_) => AdminActionType::CreateImpactMarket,
            AdminAction::CreateEvent(_) => AdminActionType::CreateEvent,
            AdminAction::Batch(_) => AdminActionType::Batch,
            AdminAction::SetTriggerMarketConfig(_) => AdminActionType::SetTriggerMarketConfig,
            AdminAction::UnpauseBridge => AdminActionType::UnpauseBridge,
            AdminAction::UpdateAuthoritySet(_) => AdminActionType::UpdateAuthoritySet,
            AdminAction::CancelAllOrdersForAccount(_) => AdminActionType::CancelAllOrdersForAccount,
            AdminAction::ConfigureOraclePolicy(_) => AdminActionType::ConfigureOraclePolicy,
            AdminAction::SetOracleGuards(_) => AdminActionType::SetOracleGuards,
            AdminAction::ScheduleUpgrade(_) => AdminActionType::ScheduleUpgrade,
            AdminAction::CancelUpgrade(_) => AdminActionType::CancelUpgrade,
        }
    }

    /// The inner tag byte of the action's arm.
    pub fn action_tag(&self) -> (r: u8)
        ensures
            r == self.spec_action_type().spec_tag(),
            self is CreateMarket ==> r == 1,
            self is UpdateAdminSignerRegistry ==> r == 2,
            self is CreateImpactMarket ==> r == 3,
            self is Batch ==> r == 4,
            self is SetTriggerMarketConfig ==> r == 5,
            self is UnpauseBridge ==> r == 6,
            self is UpdateAuthoritySet ==> r == 7,
            self is CancelAllOrdersForAccount ==> r == 8,
            self is CreateEvent ==> r == 9,
            self is ConfigureOraclePolicy ==> r == 12,
            self is SetOracleGuards ==> r == 13,
            self is ScheduleUpgrade ==> r == 14,
            self is CancelUpgrade ==> r == 15,
    {
        match self.action_type() {
            AdminActionType::CreateMarket => 1,
            AdminActionType::UpdateAdminSignerRegistry => 2,
            AdminActionType::CreateImpactMarket => 3,
            AdminActionType::Batch => 4,
            AdminActionType::SetTriggerMarketConfig => 5,
            AdminActionType::UnpauseBridge => 6,
            AdminActionType::UpdateAuthoritySet => 7,
            AdminActionType::CancelAllOrdersForAccount => 8,
            AdminActionType::CreateEvent => 9,
            AdminActionType::ReservedRt01B => 10,
            AdminActionType::ReservedRt01C => 11,
            AdminActionType::ConfigureOraclePolicy => 12,
            AdminActionType::SetOracleGuards => 13,
            AdminActionType::ScheduleUpgrade => 14,
            AdminActionType::CancelUpgrade => 15,
        }
    }
}

/// Inner admin tags are one namespace without reuse: distinct arm types
/// carry distinct tags, every tag is in `1..=15`, and no action ever carries
/// one of the reserved, behaviour-less tags `0x0A` / `0x0B`.
pub proof fn lemma_admin_tags_are_a_ledger(a: AdminActionType, b: AdminActionType, action: AdminAction)
    ensures
        1 <= a.spec_tag() <= 15,
        a.spec_tag() == b.spec_tag() ==> a == b,
        action.spec_action_type().spec_tag() != 10,
        action.spec_action_type().spec_tag() != 11,
{
}

/// Each admin arm carries the inner tag allocated to it in the byte ledger
/// (`0x01` create market through `0x0F` cancel upgrade; `0x0A` and `0x0B`
/// stay reserved), so no two arms share a tag.
pub proof fn lemma_admin_action_tags_per_arm(action: AdminAction)
    ensures
        action is CreateMarket ==> action.spec_action_type().spec_tag() == 1,
        action is UpdateAdminSignerRegistry ==> action.spec_action_type().spec_tag() == 2,
        action is CreateImpactMarket ==> action.spec_action_type().spec_tag() == 3,
        action is Batch ==> action.spec_action_type().spec_tag() == 4,
        action is SetTriggerMarketConfig ==> action.spec_action_type().spec_tag() == 5,
        action is UnpauseBridge ==> action.spec_action_type().spec_tag() == 6,
        action is UpdateAuthoritySet ==> action.spec_action_type().spec_tag() == 7,
        action is CancelAllOrdersForAccount ==> action.spec_action_type().spec_tag() == 8,
        action is CreateEvent ==> action.spec_action_type().spec_tag() == 9,
        action is ConfigureOraclePolicy ==> action.spec_action_type().spec_tag() == 12,
        action is SetOracleGuards ==> action.spec_action_type().spec_tag() == 13,
        action is ScheduleUpgrade ==> action.spec_action_type().spec_tag() == 14,
        action is CancelUpgrade ==> action.spec_action_type().spec_tag() == 15,
{
}

/// Two admin actions carry the same inner tag exactly when they are the same
/// arm: the arm is recovered from the tag.
pub proof fn lemma_admin_action_tag_identifies_arm(a1: AdminAction, a2: AdminAction)
    ensures
        a1.spec_action_type().spec_tag() == a2.spec_action_type().spec_tag() ==> {
            &&& (a1 is CreateMarket <==> a2 is CreateMarket)
            &&& (a1 is UpdateAdminSignerRegistry <==> a2 is UpdateAdminSignerRegistry)
            &&& (a1 is CreateImpactMarket <==> a2 is CreateImpactMarket)
            &&& (a1 is Batch <==> a2 is Batch)
            &&& (a1 is SetTriggerMarketConfig <==> a2 is SetTriggerMarketConfig)
            &&& (a1 is UnpauseBridge <==> a2 is UnpauseBridge)
            &&& (a1 is UpdateAuthoritySet <==> a2 is UpdateAuthoritySet)
            &&& (a1 is CancelAllOrdersForAccount <==> a2 is CancelAllOrdersForAccount)
            &&& (a1 is CreateEvent <==> a2 is CreateEvent)
            &&& (a1 is ConfigureOraclePolicy <==> a2 is ConfigureOraclePolicy)
            &&& (a1 is SetOracleGuards <==> a2 is SetOracleGuards)
            &&& (a1 is ScheduleUpgrade <==> a2 is ScheduleUpgrade)
            &&& (a1 is CancelUpgrade <==> a2 is CancelUpgrade)
        },
{
    lemma_admin_action_tags_per_arm(a1);
    lemma_admin_action_tags_per_arm(a2);
}

#[derive(Clone, Debug)]
pub struct UpdateAdminSignerRegistry {
    pub new_threshold: SignatureThreshold,
    pub new_members: Vec<SignerAddress>,
}

/// Proposes an admin action for multisig execution.
#[derive(Clone, Debug)]
pub struct ProposeAdminAction {
    /// Address authorizing the proposal; verified against the envelope signer.
    pub proposer: SignerAddress,
    /// Registry version the proposal is bound to.
    pub registry_version: RegistryVersion,
    /// Admin operation proposed for multisig execution.
    pub action: AdminAction,
}

/// Approves a proposal by carrying its complete immutable context.
#[derive(Clone, Debug)]
pub struct ApproveAdminAction {
    /// Address authorizing the approval; verified against the envelope signer.
    pub approver: SignerAddress,
    /// Identifier of the proposal being approved.
    pub proposal_id: ProposalId,
    /// Registry version captured when the proposal was created.
    pub registry_version: RegistryVersion,
    /// Required approval count captured when the proposal was created.
    pub threshold: SignatureThreshold,
    /// Address that created the proposal.
    pub proposer: SignerAddress,
    /// Block height at which the proposal was created.
    pub created_height: u64,
    /// Block timestamp at which the proposal was created, in milliseconds.
    pub created_ms: u64,
    /// Block timestamp after which the proposal expires, in milliseconds.
    pub expiry_ms: u64,
    /// Typed admin operation being approved.
    pub action: AdminAction,
    /// Domain-separated commitment to the immutable proposal context.
    pub content_hash: [u8; 32],
}

/// Rejects a proposal identified by its id and content commitment.
#[derive(Clone, Debug)]
pub struct RejectAdminAction {
    /// Address authorizing the rejection; verified against the envelope signer.
    pub rejecter: SignerAddress,
    /// Identifier of the proposal being rejected.
    pub proposal_id: ProposalId,
    /// Domain-separated commitment of the proposal being rejected.
    pub content_hash: [u8; 32],
}

/// Closed set of immediate, loss-reducing actions available to one signer.
#[derive(Clone, Debug)]
pub enum EmergencyAction {
    PauseMarket { market_id: MarketId },
    HaltTrading {},
    SetReduceOnly { market_id: MarketId },
}

/// Stable discriminant for the closed [`EmergencyAction`] namespace.
#[derive(Clone, Copy, Debug, PartialEq, Eq, Hash)]
pub enum EmergencyActionType {
    PauseMarket,
    HaltTrading,
    SetReduceOnly,
}

impl EmergencyActionType {
    /// The arm tag byte: 1 pause, 2 halt, 3 reduce-only.
    pub open spec fn spec_tag(self) -> u8 {
        match self {
            EmergencyActionType::PauseMarket => 1,
            EmergencyActionType::HaltTrading => 2,
            EmergencyActionType::SetReduceOnly => 3,
        }
    }

    /// The variant's discriminant, as the wire and the allocation ledger give it.
    pub fn tag(&self) -> (r: u8)
        ensures
            r == self.spec_tag(),
            self is PauseMarket ==> r == 1,
            self is HaltTrading ==> r == 2,
            self is SetReduceOnly ==> r == 3,
    {
        match self {
            EmergencyActionType::PauseMarket => 1,
            EmergencyActionType::HaltTrading => 2,
            EmergencyActionType::SetReduceOnly => 3,
        }
    }
}

impl EmergencyAction {
    pub open spec fn spec_action_type(self) -> EmergencyActionType {
        match self {
            EmergencyAction::PauseMarket { .. } => EmergencyActionType::PauseMarket,
            EmergencyAction::HaltTrading {  } => EmergencyActionType::HaltTrading,
            EmergencyAction::SetReduceOnly { .. } => EmergencyActionType::SetReduceOnly,
        }
    }

    /// Return the engine-owned arm type committed by the audit log.
    pub fn action_type(&self) -> (r: EmergencyActionType)
        ensures
            r == self.spec_action_type(),
            self is PauseMarket ==> r == EmergencyActionType::PauseMarket,
            self is HaltTrading ==> r == EmergencyActionType::HaltTrading,
            self is SetReduceOnly ==> r == EmergencyActionType::SetReduceOnly,
    {
        match self {
            EmergencyAction::PauseMarket { .. } => EmergencyActionType::PauseMarket,
            EmergencyAction::HaltTrading {  } => EmergencyActionType::HaltTrading,
            EmergencyAction::SetReduceOnly { .. } => EmergencyActionType::SetReduceOnly,
        }
    }

    pub fn action_tag(&self) -> (r: u8)
        ensures
            r == self.spec_action_type().spec_tag(),
            self is PauseMarket ==> r == 1,
            self is HaltTrading ==> r == 2,
            self is SetReduceOnly ==> r == 3,
    {
        match self.action_type() {
            EmergencyActionType::PauseMarket => 1,
            EmergencyActionType::HaltTrading => 2,
            EmergencyActionType::SetReduceOnly => 3,
        }
    }

    /// Target market for market-scoped arms; `None` for chain-wide arms.
    pub fn market_id(&self) -> (r: Option<MarketId>)
        ensures
            r == match *self {
                EmergencyAction::PauseMarket { market_id } => Some(market_id),
                EmergencyAction::SetReduceOnly { market_id } => Some(market_id),
                EmergencyAction::HaltTrading {  } => None,
            },
    {
        match self {
            EmergencyAction::PauseMarket { market_id } => Some(*market_id),
            EmergencyAction::SetReduceOnly { market_id } => Some(*market_id),
            EmergencyAction::HaltTrading {  } => None,
        }
    }
}

/// An emergency arm is market-scoped exactly when its tag is not the
/// chain-wide halt, and the three arm tags are distinct.
pub proof fn lemma_emergency_tag_scope(action: EmergencyAction)
    ensures
        action is PauseMarket ==> action.spec_action_type().spec_tag() == 1,
        action is HaltTrading ==> action.spec_action_type().spec_tag() == 2,
        action is SetReduceOnly ==> action.spec_action_type().spec_tag() == 3,
        1 <= action.spec_action_type().spec_tag() <= 3,
        (action.spec_action_type().spec_tag() == 2) <==> (action is HaltTrading),
{
}

/// Submits an immediate emergency action without the proposal flow.
#[derive(Clone, Debug)]
pub struct EmergencyAdminAction {
    /// Registry member authorizing the action; verified against the envelope signer.
    pub signer: SignerAddress,
    /// Immediate loss-reducing operation to execute.
    pub action: EmergencyAction,
}

// ---------------------------------------------------------------------------
// Domain types
// ---------------------------------------------------------------------------

/// Order/position direction.
#[derive(Clone, Copy, Debug, PartialEq, Eq, PartialOrd, Ord, Hash)]
pub enum Side {
    Buy,
    Sell,
}

impl Side {
    /// The variant's discriminant, as the wire and the allocation ledger give it.
    pub open spec fn spec_tag(self) -> u8 {
        match self {
            Side::Buy => 1,
            Side::Sell => 2,
        }
    }

    /// The variant's discriminant, as the wire and the allocation ledger give it.
    pub fn tag(&self) -> (r: u8)
        ensures
            r == self.spec_tag(),
            self is Buy ==> r == 1,
            self is Sell ==> r == 2,
    {
        match self {
            Side::Buy => 1,
            Side::Sell => 2,
        }
    }

    /// The display text: `buy` / `sell`.
    pub open spec fn spec_text(self) -> Seq<char> {
        match self {
            Side::Buy => "buy"@,
            Side::Sell => "sell"@,
        }
    }

    pub(crate) fn as_str(&self) -> (r: &'static str)
        ensures
            r@ == self.spec_text(),
            self is Buy ==> r@ == "buy"@,
            self is Sell ==> r@ == "sell"@,
    {
        match self {
            Side::Buy => "buy",
            Side::Sell => "sell",
        }
    }

    pub fn to_string(&self) -> (r: String)
        ensures
            r@ == self.spec_text(),
            self is Buy ==> r@ == "buy"@,
            self is Sell ==> r@ == "sell"@,
    {
        self.as_str().to_owned()
    }
}

/// Time-in-force policy for a `PlaceOrder`. Old wire records decode as `Gtc`.
#[derive(Clone, Copy, Debug, Default, PartialEq, Eq, Hash)]
pub enum TimeInForce {
    /// Good-Till-Cancelled: unmatched quantity rests on the book. The default.
    #[default]
    Gtc,
    /// Immediate-Or-Cancel: unmatched quantity after crossing is dropped.
    Ioc,
    /// Fill-Or-Kill: the order must be fully filled immediately.
    Fok,
}

impl TimeInForce {
    /// The variant's discriminant, as the wire and the allocation ledger give it.
    pub open spec fn spec_tag(self) -> u8 {
        match self {
            TimeInForce::Gtc => 0,
            TimeInForce::Ioc => 1,
            TimeInForce::Fok => 2,
        }
    }

    /// The variant's discriminant, as the wire and the allocation ledger give it.
    pub fn tag(&self) -> (r: u8)
        ensures
            r == self.spec_tag(),
            self is Gtc ==> r == 0,
            self is Ioc ==> r == 1,
            self is Fok ==> r == 2,
    {
        match self {
            TimeInForce::Gtc => 0,
            TimeInForce::Ioc => 1,
            TimeInForce::Fok => 2,
        }
    }

    /// The display text: `gtc` / `ioc` / `fok`.
    pub open spec fn spec_text(self) -> Seq<char> {
        match self {
            TimeInForce::Gtc => "gtc"@,
            TimeInForce::Ioc => "ioc"@,
            TimeInForce::Fok => "fok"@,
        }
    }

    pub(crate) fn as_str(&self) -> (r: &'static str)
        ensures
            r@ == self.spec_text(),
            self is Gtc ==> r@ == "gtc"@,
            self is Ioc ==> r@ == "ioc"@,
            self is Fok ==> r@ == "fok"@,
    {
        match self {
            TimeInForce::Gtc => "gtc",
            TimeInForce::Ioc => "ioc",
            TimeInForce::Fok => "fok",
        }
    }

    pub fn to_string(&self) -> (r: String)
        ensures
            r@ == self.spec_text(),
            self is Gtc ==> r@ == "gtc"@,
            self is Ioc ==> r@ == "ioc"@,
            self is Fok ==> r@ == "fok"@,
    {
        self.as_str().to_owned()
    }
}

/// Resting liquidity at one price level, summed over the orders at that
/// price. Every transition is checked; `None` means the caller's
/// bookkeeping is inconsistent with the level.
#[derive(Clone, Copy, Debug, Default, PartialEq, Eq)]
pub struct LevelAggregate {
    pub total_quantity: u64,
    pub order_count: u32,
}

impl LevelAggregate {
    pub open spec fn spec_added(self, quantity: u64) -> Option<LevelAggregate> {
        if self.total_quantity + quantity <= u64::MAX && self.order_count + 1 <= u32::MAX {
            Some(
                LevelAggregate {
                    total_quantity: (self.total_quantity + quantity) as u64,
                    order_count: (self.order_count + 1) as u32,
                },
            )
        } else {
            None
        }
    }

    pub open spec fn spec_removed(self, quantity: u64) -> Option<LevelAggregate> {
        if quantity <= self.total_quantity && self.order_count >= 1 {
            Some(
                LevelAggregate {
                    total_quantity: (self.total_quantity - quantity) as u64,
                    order_count: (self.order_count - 1) as u32,
                },
            )
        } else {
            None
        }
    }

    pub open spec fn spec_reduced(self, quantity: u64) -> Option<LevelAggregate> {
        if self.order_count != 0 && quantity <= self.total_quantity {
            Some(
                LevelAggregate {
                    total_quantity: (self.total_quantity - quantity) as u64,
                    order_count: self.order_count,
                },
            )
        } else {
            None
        }
    }

    pub open spec fn spec_is_vacant(self) -> bool {
        self.order_count == 0 && self.total_quantity == 0
    }

    pub open spec fn spec_is_inconsistent(self) -> bool {
        self.order_count == 0 && self.total_quantity != 0
    }

    /// One order joins the level carrying `quantity` remaining; `None` when
    /// either sum would overflow.
    pub fn added(self, quantity: u64) -> (r: Option<Self>)
        ensures
            r == self.spec_added(quantity),
            r is Some <==> (self.total_quantity + quantity <= u64::MAX && self.order_count + 1
                <= u32::MAX),
            r is Some ==> r->0.total_quantity == self.total_quantity + quantity
                && r->0.order_count == self.order_count + 1,
    {
        let total_quantity = match self.total_quantity.checked_add(quantity) {
            Some(t) => t,
            None => return None,
        };
        let order_count = match self.order_count.checked_add(1) {
            Some(c) => c,
            None => return None,
        };
        Some(Self { total_quantity, order_count })
    }

    /// One order leaves the level, withdrawing its `quantity` remaining;
    /// `None` when the level holds less quantity or no order.
    pub fn removed(self, quantity: u64) -> (r: Option<Self>)
        ensures
            r == self.spec_removed(quantity),
            r is Some <==> (quantity <= self.total_quantity && self.order_count >= 1),
            r is Some ==> r->0.total_quantity == self.total_quantity - quantity
                && r->0.order_count == self.order_count - 1,
    {
        let total_quantity = match self.total_quantity.checked_sub(quantity) {
            Some(t) => t,
            None => return None,
        };
        let order_count = match self.order_count.checked_sub(1) {
            Some(c) => c,
            None => return None,
        };
        Some(Self { total_quantity, order_count })
    }

    /// An order at the level is partially filled; it keeps its slot.
    pub fn reduced(self, quantity: u64) -> (r: Option<Self>)
        ensures
            r == self.spec_reduced(quantity),
            r is Some <==> (quantity <= self.total_quantity && self.order_count >= 1),
            r is Some ==> r->0.total_quantity == self.total_quantity - quantity
                && r->0.order_count == self.order_count,
    {
        if self.order_count == 0 {
            return None;
        }
        let total_quantity = match self.total_quantity.checked_sub(quantity) {
            Some(t) => t,
            None => return None,
        };
        Some(Self { total_quantity, order_count: self.order_count })
    }

    /// No orders rest here, so the row should be deleted rather than written.
    pub fn is_vacant(self) -> (r: bool)
        ensures
            r == self.spec_is_vacant(),
            r <==> (self.order_count == 0 && self.total_quantity == 0),
    {
        self.order_count == 0 && self.total_quantity == 0
    }

    /// Quantity remains but no order claims it.
    pub fn is_inconsistent(self) -> (r: bool)
        ensures
            r == self.spec_is_inconsistent(),
            r <==> (self.order_count == 0 && self.total_quantity > 0),
    {
        self.order_count == 0 && self.total_quantity != 0
    }
}

/// Removing an order undoes adding it: a level that accepted an order of
/// `quantity` returns to exactly its previous state when that order leaves.
pub proof fn lemma_level_remove_undoes_add(level: LevelAggregate, quantity: u64)
    requires
        level.spec_added(quantity) is Some,
    ensures
        level.spec_added(quantity).unwrap().spec_removed(quantity) == Some(level),
{
}

/// A partial fill keeps the order's slot: after an order of `quantity`
/// joins, reducing the level by that quantity restores the previous
/// quantity while the order is still counted.
pub proof fn lemma_level_reduce_after_add(level: LevelAggregate, quantity: u64)
    requires
        level.spec_added(quantity) is Some,
    ensures
        level.spec_added(quantity).unwrap().spec_reduced(quantity) == Some(
            LevelAggregate {
                total_quantity: level.total_quantity,
                order_count: (level.order_count + 1) as u32,
            },
        ),
        level.spec_added(quantity).unwrap().spec_reduced(quantity).unwrap().order_count
            == level.spec_added(quantity).unwrap().order_count,
{
}

/// A level with no orders is either vacant or inconsistent, never both; a
/// level with orders is neither.
pub proof fn lemma_level_states(level: LevelAggregate)
    ensures
        level.order_count == 0 ==> (level.spec_is_vacant() != level.spec_is_inconsistent()),
        level.order_count != 0 ==> !level.spec_is_vacant() && !level.spec_is_inconsistent(),
{
}

/// A resting limit order on the order book.
#[derive(Clone, Debug)]
pub struct Order {
    pub id: OrderId,
    pub market: MarketId,
    /// Keccak-256-derived account address (first 20 bytes of pubkey hash).
    pub owner: [u8; 20],
    pub side: Side,
    /// Limit price in micro-USDC per unit of the base asset.
    pub price: u64,
    /// Remaining quantity in base-asset units.
    pub quantity: u64,
    /// Optional client-assigned order ID.
    pub client_order_id: Option<u64>,
    /// Quantity originally accepted onto the book (`0` for legacy orders).
    pub original_quantity: u64,
    /// Cumulative quantity filled while this order rested as maker.
    pub filled_quantity: u64,
    /// Block timestamp (ms since epoch) when this order was placed; 0 = never expires.
    pub created_at_ms: u64,
    /// Monotonic FIFO priority within a price level (`0` = fall back to `id`).
    pub queue_priority: u64,
    /// Time-in-force the order was placed with.
    pub time_in_force: TimeInForce,
    /// Whether the order was placed post-only.
    pub post_only: bool,
    /// Whether the order was placed reduce-only.
    pub reduce_only: bool,
}

/// Deterministic execution context passed to every transaction handler.
pub struct TxContext {
    /// 1-based block height.
    pub height: u64,
    /// 0-based index within the block. `u32::MAX` / `u32::MAX - 1` are
    /// sentinels for end-of-block liquidation and funding events respectively.
    pub tx_index: u32,
    /// Block timestamp in milliseconds since Unix epoch.
    pub block_time_ms: u64,
    /// 32-byte chain_id binding used by the signing envelope.
    pub chain_id: [u8; 32],
}

// ---------------------------------------------------------------------------
// Position & margin types
// ---------------------------------------------------------------------------

/// Persistent position state per owner per market.
#[derive(Clone, Debug)]
pub struct Position {
    pub owner: [u8; 20],
    pub market: MarketId,
    pub side: Side,
    /// Weighted-average entry price.
    pub entry_price: u64,
    /// Absolute size (always > 0 while position exists).
    pub size: u64,
    /// Cumulative funding index at the time the position was last settled.
    pub last_funding_index: i64,
}

/// Signed open interest for one market, tracked as two unsigned running sums.
/// The enforced cap is `max(long, short)`.
#[derive(Clone, Copy, Debug, Default, PartialEq, Eq)]
pub struct OpenInterest {
    pub long: u64,
    pub short: u64,
}

impl OpenInterest {
    /// The larger of the two sides.
    pub fn magnitude(self) -> (r: u64)
        ensures
            r == if self.long >= self.short {
                self.long
            } else {
                self.short
            },
            r >= self.long,
            r >= self.short,
    {
        if self.long >= self.short {
            self.long
        } else {
            self.short
        }
    }
}

/// Generation of one owner's position on one market.
#[derive(Clone, Copy, Debug, PartialEq, Eq, PartialOrd, Ord, Hash)]
pub struct PositionEpoch(pub u64);

/// Client-scoped idempotency sequence for a position-trigger bracket.
#[derive(Clone, Copy, Debug, PartialEq, Eq, PartialOrd, Ord, Hash)]
pub struct ClientTriggerGroupId(pub u64);

/// Client correlation identifier for one limb within a bracket.
#[derive(Clone, Copy, Debug, PartialEq, Eq, PartialOrd, Ord, Hash)]
pub struct ClientTriggerId(pub u64);

/// Explicit slippage collar for one trigger attempt, in basis points.
#[derive(Clone, Copy, Debug, PartialEq, Eq, PartialOrd, Ord, Hash)]
pub struct TriggerSlippageBps(pub u32);

/// Maximum byte length of a `MarketConfig::ticker` / `CreateMarket::ticker`.
pub const MAX_TICKER_LEN: usize = 24;

/// Per-market configuration stored on-chain.
#[derive(Clone, Debug, Default)]
pub struct MarketConfig {
    pub market: MarketId,
    /// Initial margin in bps.
    pub im_bps: u32,
    /// Maintenance margin in bps.
    pub mm_bps: u32,
    pub taker_fee_bps: u32,
    pub maker_fee_bps: u32,
    pub funding_interval_ms: u64,
    pub max_funding_rate_bps: u32,
    pub kind: MarketKind,
    /// Max absolute position size; 0 = uncapped.
    pub max_position_size: u64,
    /// Default resting-order TTL; 0 = never expires.
    pub default_ttl_ms: u64,
    pub net_delta_margin: bool,
    pub pool_id: u8,
    pub mark_price_max_oracle_age_ms: u64,
    pub fee_tiers: Vec<FeeTier>,
    pub tick_size: u64,
    pub lot_size: u64,
    pub primary_oracle_signer: Option<[u8; 20]>,
    pub oracle_staleness_ms: u64,
    pub mark_source_mode: MarkSourceMode,
    pub max_mark_spread_bps: u32,
    pub cex_composite_staleness_ms: u64,
    pub partial_liquidation_enabled: bool,
    pub sz_decimals: u8,
    pub ticker: String,
    /// Cap on `max(long, short)` open interest; 0 = uncapped.
    pub max_open_interest: u64,
}

#[derive(Clone, Copy, Debug, Default, PartialEq, Eq)]
pub struct MarketOracleGuards {
    pub max_oracle_deviation_bps: u32,
}

/// One volume tier of a market's fee schedule.
#[derive(Clone, Copy, Debug, PartialEq, Eq)]
pub struct FeeTier {
    pub min_30d_volume_micro_usdc: u64,
    pub maker_fee_tenth_bps: i16,
    pub taker_fee_tenth_bps: i16,
}

#[derive(Clone, Debug, Default)]
pub struct HlpConfig {
    pub address: [u8; 20],
    pub bootstrap_balance: u64,
    pub min_balance_floor: u64,
    pub enabled: bool,
}

#[derive(Clone, Copy, Debug, Default, PartialEq, Eq)]
pub struct SocializedLossBlockAccum {
    pub block_height: u64,
    pub applied_micro_usdc: u64,
}

// ---------------------------------------------------------------------------
// Actions (wire types — field order is the wire layout)
// ---------------------------------------------------------------------------

#[derive(Clone, Debug, PartialEq, Eq)]
pub struct TriggerLimb {
    pub trigger_price: u64,
    pub max_slippage_bps: TriggerSlippageBps,
    pub client_trigger_id: Option<ClientTriggerId>,
}

#[derive(Clone, Debug, PartialEq, Eq)]
pub struct SetPositionTriggers {
    pub market: MarketId,
    pub owner: [u8; 20],
    pub expected_position_epoch: PositionEpoch,
    pub stop_loss: Option<TriggerLimb>,
    pub take_profit: Option<TriggerLimb>,
    pub client_group_id: Option<ClientTriggerGroupId>,
}

#[derive(Clone, Debug, PartialEq, Eq)]
pub struct CancelPositionTriggers {
    pub market: MarketId,
    pub owner: [u8; 20],
    pub expected_position_epoch: PositionEpoch,
}

#[derive(Clone, Debug)]
pub struct RunLiquidationSweep {
    pub signer: [u8; 20],
}

pub const MAX_LIQUIDATE_ACCOUNTS_OWNERS: usize = 256;

#[derive(Clone, Debug)]
pub struct LiquidateAccounts {
    pub owners: Vec<[u8; 20]>,
}

#[derive(Clone, Debug)]
pub struct RunFundingTick {
    pub market: MarketId,
    pub signer: [u8; 20],
}

#[derive(Clone, Debug)]
pub struct SetUserMarketLeverage {
    pub owner: [u8; 20],
    pub market: MarketId,
    pub user_im_bps: u32,
}

#[derive(Clone, Debug)]
pub struct ClosePosition {
    pub market: MarketId,
    pub owner: [u8; 20],
}

#[derive(Clone, Debug)]
pub struct MarketOrder {
    pub market: MarketId,
    pub owner: [u8; 20],
    pub side: Side,
    pub quantity: u64,
    pub client_order_id: Option<u64>,
}

#[derive(Clone, Debug)]
pub struct AtomicBasketLeg {
    pub market: MarketId,
    pub side: Side,
    pub price: u64,
    pub quantity: u64,
    pub client_order_id: Option<u64>,
    pub reduce_only: bool,
}

#[derive(Clone, Debug)]
pub struct AtomicBasketOrder {
    pub owner: [u8; 20],
    pub legs: Vec<AtomicBasketLeg>,
    pub max_slippage_bps: u32,
}

#[derive(Clone, Debug)]
pub struct PlaceOrder {
    pub market: MarketId,
    pub owner: [u8; 20],
    pub side: Side,
    pub price: u64,
    pub quantity: u64,
    pub client_order_id: Option<u64>,
    pub post_only: bool,
    pub reduce_only: bool,
    pub time_in_force: TimeInForce,
}

#[derive(Clone, Debug)]
pub struct CancelOrder {
    pub order_id: OrderId,
    pub owner: [u8; 20],
}

#[derive(Clone, Debug)]
pub struct CancelClientOrder {
    pub owner: [u8; 20],
    pub client_order_id: u64,
}

#[derive(Clone, Debug)]
pub struct CancelAllOrders {
    pub owner: [u8; 20],
    pub market: Option<MarketId>,
}

#[derive(Clone, Debug)]
pub struct CancelReplaceOrder {
    pub owner: [u8; 20],
    pub cancel_order_id: Option<OrderId>,
    pub cancel_client_order_id: Option<u64>,
    pub market: MarketId,
    pub side: Side,
    pub price: u64,
    pub quantity: u64,
    pub client_order_id: Option<u64>,
    pub post_only: bool,
    pub reduce_only: bool,
    pub time_in_force: TimeInForce,
}

#[derive(Clone, Debug)]
pub struct AmendOrder {
    pub owner: [u8; 20],
    pub order_id: OrderId,
    pub new_price: Option<u64>,
    pub new_quantity: Option<u64>,
}

#[derive(Clone, Debug)]
pub struct OracleUpdate {
    pub market: MarketId,
    pub price: u64,
    pub signer: [u8; 20],
    pub publish_time_ms: u64,
}

#[derive(Clone, Copy, Debug, PartialEq, Eq)]
pub struct OracleSourceId(pub u32);

#[derive(Clone, Copy, Debug, PartialEq, Eq)]
pub struct OraclePolicyVersion(pub u64);

#[derive(Clone, Debug)]
pub struct SubmitOracleObservation {
    pub market: MarketId,
    pub policy_version: OraclePolicyVersion,
    pub source_id: OracleSourceId,
    pub publish_time_ms: u64,
    pub price_micro: u64,
    pub confidence_micro: Option<u64>,
    pub evidence_digest: [u8; 32],
    pub signer: [u8; 20],
}

#[derive(Clone, Debug)]
pub struct ConfigureOraclePolicy {
    pub effective_height: u64,
    pub bundle: Vec<u8>,
}

#[derive(Clone, Debug)]
pub struct OracleUpdateComposite {
    pub market: MarketId,
    pub price: u64,
    pub n_sources: u8,
    pub signer: [u8; 20],
    pub publish_time_ms: u64,
}

#[derive(Clone, Debug)]
pub struct Deposit {
    pub owner: [u8; 20],
    pub amount: u64,
    pub signer: [u8; 20],
}

#[derive(Clone, Debug)]
pub struct Withdraw {
    pub owner: [u8; 20],
    pub amount: u64,
    pub signer: [u8; 20],
}

#[derive(Clone, Debug)]
pub struct CreateMarket {
    pub market: MarketId,
    pub im_bps: u32,
    pub mm_bps: u32,
    pub taker_fee_bps: u32,
    pub maker_fee_bps: u32,
    pub signer: [u8; 20],
    pub funding_interval_ms: u64,
    pub max_funding_rate_bps: u32,
    pub pool_id: u8,
    pub sz_decimals: u8,
    pub ticker: String,
    pub max_open_interest: u64,
}

impl Default for CreateMarket {
    fn default() -> (r: Self)
        ensures
            r.market == 0,
            r.im_bps == 3334,
            r.mm_bps == 1667,
            r.taker_fee_bps == 5,
            r.maker_fee_bps == 2,
            r.signer@ == Seq::new(20, |i: int| 0u8),
            r.funding_interval_ms == 60_000,
            r.max_funding_rate_bps == 3000,
            r.pool_id == 0,
            r.sz_decimals == 0,
            r.ticker@ == Seq::<char>::empty(),
            r.max_open_interest == 0,
    {
        let r = Self {
            market: 0,
            im_bps: 3334,
            mm_bps: 1667,
            taker_fee_bps: 5,
            maker_fee_bps: 2,
            signer: [0u8; 20],
            funding_interval_ms: 60_000,
            max_funding_rate_bps: 3000,
            pool_id: 0,
            sz_decimals: 0,
            ticker: String::new(),
            max_open_interest: 0,
        };
        assert(r.signer@ =~= Seq::new(20, |i: int| 0u8));
        r
    }
}

#[derive(Clone, Debug)]
pub struct WithdrawRequest {
    pub owner: [u8; 20],
    pub amount: u64,
    pub solana_destination: [u8; 32],
}

/// Which transfer inside a Solana transaction a deposit refers to.
#[derive(Clone, Copy, Debug, PartialEq, Eq)]
pub struct DepositLocator {
    pub top_index: u16,
    pub inner_index: Option<u16>,
}

/// The inner-index sentinel for "no inner instruction".
pub const DEPOSIT_INNER_SENTINEL: u16 = 65535;

impl DepositLocator {
    /// The locator of deposits recorded before locators existed.
    pub fn legacy() -> (r: DepositLocator)
        ensures
            r == (DepositLocator { top_index: 0, inner_index: None }),
    {
        DepositLocator { top_index: 0, inner_index: None }
    }

    /// The 4-byte id suffix: big-endian `top_index`, then big-endian
    /// `inner_index` (the sentinel `0xFFFF` when absent).
    pub open spec fn spec_id_suffix(self) -> Seq<u8> {
        be_bytes(self.top_index as nat, 2) + be_bytes(
            match self.inner_index {
                Some(i) => i,
                None => DEPOSIT_INNER_SENTINEL,
            } as nat,
            2,
        )
    }

    pub fn id_suffix(&self) -> (r: [u8; 4])
        ensures
            r@ == self.spec_id_suffix(),
            r[0] as nat == self.top_index as nat / 256,
            r[1] as nat == self.top_index as nat % 256,
            self.inner_index is Some ==> r[2] as nat == self.inner_index->0 as nat / 256
                && r[3] as nat == self.inner_index->0 as nat % 256,
            self.inner_index is None ==> r[2] == 0xFF && r[3] == 0xFF,
    {
        let top = u16_to_be(self.top_index);
        let inner = u16_to_be(
            match self.inner_index {
                Some(i) => i,
                None => DEPOSIT_INNER_SENTINEL,
            },
        );
        let r = [top[0], top[1], inner[0], inner[1]];
        proof {
            crate::bytes::lemma_be_bytes_len(self.top_index as nat, 2);
            assert(r@ =~= self.spec_id_suffix());
            reveal_with_fuel(be_bytes, 3);
            let t = self.top_index as nat;
            let i = match self.inner_index {
                Some(i) => i,
                None => DEPOSIT_INNER_SENTINEL,
            } as nat;
            assert(be_bytes(t, 2) =~= seq![((t / 256) % 256) as u8, (t % 256) as u8]);
            assert(be_bytes(i, 2) =~= seq![((i / 256) % 256) as u8, (i % 256) as u8]);
            assert(r[0] == self.spec_id_suffix()[0]);
            assert(r[1] == self.spec_id_suffix()[1]);
            assert(r[2] == self.spec_id_suffix()[2]);
            assert(r[3] == self.spec_id_suffix()[3]);
        }
        r
    }
}

#[derive(Clone, Debug)]
pub struct ConfirmDeposit {
    pub owner: [u8; 20],
    pub amount: u64,
    pub solana_tx_sig: Vec<u8>,
    pub signer: [u8; 20],
    pub locator: Option<DepositLocator>,
}

#[derive(Clone, Debug)]
pub struct ConfirmWithdrawal {
    pub withdrawal_id: u64,
    pub solana_tx_sig: Vec<u8>,
    pub signer: [u8; 20],
}

#[derive(Clone, Debug)]
pub struct FailWithdrawal {
    pub withdrawal_id: u64,
    pub reason: String,
    pub signer: [u8; 20],
}

// ---------------------------------------------------------------------------
// Bridge custody: receipt-gated terminal withdrawal actions
// ---------------------------------------------------------------------------

#[derive(Clone, Debug, PartialEq, Eq)]
pub struct BridgeWithdrawalReceipt {
    pub deployment_id: [u8; 32],
    pub authorization_digest: [u8; 32],
    pub withdrawal_id: u64,
    pub terminal_state: u8,
    pub vault_tier: u8,
    pub proof_owner: [u8; 20],
    pub destination_owner: [u8; 32],
    pub destination_token_acct: [u8; 32],
    pub amount_micro_usdc: u64,
    pub fee_micro_usdc: u64,
    pub authorization_signer_epoch: u64,
    pub solana_tx_signature: Vec<u8>,
    pub finalized_slot: u64,
    pub finalized_blockhash: [u8; 32],
    pub receipt_quorum_kind: u8,
    pub receipt_authority_epoch: u64,
}

#[derive(Clone, Debug, PartialEq, Eq)]
pub struct OperatorReceiptProof {
    pub signer_bitmap: Vec<u8>,
    pub signatures: Vec<Vec<u8>>,
}

#[derive(Clone, Debug)]
pub struct ConfirmWithdrawalReceipt {
    pub receipt: BridgeWithdrawalReceipt,
    pub proof: OperatorReceiptProof,
}

#[derive(Clone, Debug)]
pub struct FailWithdrawalReceipt {
    pub receipt: BridgeWithdrawalReceipt,
    pub proof: OperatorReceiptProof,
}

#[derive(Clone, Debug)]
pub struct AuthorizeWithdrawal {
    pub authorization: Vec<u8>,
    pub proof: OperatorReceiptProof,
}

#[derive(Clone, Debug, PartialEq, Eq)]
pub struct OperatorReceiptRegistry {
    pub deployment_id: [u8; 32],
    pub epoch: u64,
    pub threshold: u16,
    pub operator_keys: Vec<[u8; 32]>,
}

/// Why a relayer rejected a Solana deposit transfer.
#[derive(Clone, Copy, Debug, PartialEq, Eq)]
pub enum FailDepositReason {
    MalformedTx,
    UnsupportedToken,
    BelowMinimum,
    Other,
}

impl FailDepositReason {
    /// The display text.
    pub open spec fn spec_text(self) -> Seq<char> {
        match self {
            FailDepositReason::MalformedTx => "malformed_tx"@,
            FailDepositReason::UnsupportedToken => "unsupported_token"@,
            FailDepositReason::BelowMinimum => "below_minimum"@,
            FailDepositReason::Other => "other"@,
        }
    }

    pub(crate) fn as_str(&self) -> (r: &'static str)
        ensures
            r@ == self.spec_text(),
            self is MalformedTx ==> r@ == "malformed_tx"@,
            self is UnsupportedToken ==> r@ == "unsupported_token"@,
            self is BelowMinimum ==> r@ == "below_minimum"@,
            self is Other ==> r@ == "other"@,
    {
        match self {
            FailDepositReason::MalformedTx => "malformed_tx",
            FailDepositReason::UnsupportedToken => "unsupported_token",
            FailDepositReason::BelowMinimum => "below_minimum",
            FailDepositReason::Other => "other",
        }
    }

    pub fn to_string(&self) -> (r: String)
        ensures
            r@ == self.spec_text(),
            self is MalformedTx ==> r@ == "malformed_tx"@,
            self is UnsupportedToken ==> r@ == "unsupported_token"@,
            self is BelowMinimum ==> r@ == "below_minimum"@,
            self is Other ==> r@ == "other"@,
    {
        self.as_str().to_owned()
    }
}

#[derive(Clone, Debug)]
pub struct FailDeposit {
    pub solana_signature: Vec<u8>,
    pub reason: FailDepositReason,
    pub signer: [u8; 20],
    pub locator: Option<DepositLocator>,
}

#[derive(Clone, Debug)]
pub struct ApproveAgent {
    pub owner: [u8; 20],
    pub agent_pubkey: [u8; 32],
}

#[derive(Clone, Debug)]
pub struct RevokeAgent {
    pub owner: [u8; 20],
    pub agent_pubkey: [u8; 32],
}

#[derive(Clone, Debug)]
pub struct CreateSubAccount {
    pub owner: [u8; 20],
    pub sub_account_id: u32,
    pub name: [u8; 32],
}

#[derive(Clone, Debug)]
pub struct SubAccountTransfer {
    pub owner: [u8; 20],
    pub from: [u8; 20],
    pub to: [u8; 20],
    pub amount: u64,
}

#[derive(Clone, Debug)]
pub struct SubAccount {
    pub master: [u8; 20],
    pub sub_account_id: u32,
    pub address: [u8; 20],
    pub name: [u8; 32],
    pub created_height: u64,
}

#[derive(Clone, Debug)]
pub struct CreateImpactMarket {
    pub impact_market_id: ImpactMarketId,
    pub underlying_market: MarketId,
    pub child_market_base: MarketId,
    pub question: String,
    pub deadline_ms: u64,
    pub resolution_window_ms: u64,
    pub im_bps: u32,
    pub mm_bps: u32,
    pub taker_fee_bps: u32,
    pub maker_fee_bps: u32,
    pub funding_interval_ms: u64,
    pub max_funding_rate_bps: u32,
    pub signer: [u8; 20],
    pub oracle_source: Option<EventOracleSource>,
    pub description: String,
    pub rules: String,
}

#[derive(Clone, Debug)]
pub struct CreateEvent {
    pub event_id: EventId,
    pub child_market_base: MarketId,
    pub pool_id: u8,
    pub question: String,
    pub settlement_ms: u64,
    pub resolution_window_ms: u64,
    pub taker_fee_bps: u32,
    pub maker_fee_bps: u32,
    pub signer: [u8; 20],
    pub oracle_source: Option<EventOracleSource>,
    pub description: String,
    pub rules: String,
}

#[derive(Clone, Debug)]
pub struct ResolveImpactMarket {
    pub impact_market_id: ImpactMarketId,
    pub outcome: Outcome,
    pub signer: [u8; 20],
}

#[derive(Clone, Debug)]
pub struct ResolveEvent {
    pub event_id: EventId,
    pub outcome: Outcome,
    pub signer: [u8; 20],
}

#[derive(Clone, Debug)]
pub struct UpdateMarketFees {
    pub market: MarketId,
    pub signer: [u8; 20],
    pub taker_fee_bps: Option<u32>,
    pub maker_fee_bps: Option<u32>,
    pub max_funding_rate_bps: Option<u32>,
    pub funding_interval_ms: Option<u64>,
    pub max_position_size: Option<u64>,
    pub default_ttl_ms: Option<u64>,
    pub net_delta_margin: Option<bool>,
    pub tick_size: Option<u64>,
    pub lot_size: Option<u64>,
    pub primary_oracle_signer: Option<[u8; 20]>,
    pub oracle_staleness_ms: Option<u64>,
    pub mark_source_mode: Option<MarkSourceMode>,
    pub max_mark_spread_bps: Option<u32>,
    pub cex_composite_staleness_ms: Option<u64>,
    pub partial_liquidation_enabled: Option<bool>,
    pub fee_tiers: Option<Vec<FeeTier>>,
    pub im_bps: Option<u32>,
    pub mm_bps: Option<u32>,
    pub max_open_interest: Option<u64>,
}

#[derive(Clone, Debug, PartialEq, Eq)]
pub struct AccountFeeOverride {
    pub taker_fee_bps: u32,
    pub maker_fee_bps: u32,
}

#[derive(Clone, Debug)]
pub struct SetAccountFeeOverride {
    pub account: [u8; 20],
    pub taker_fee_bps: u32,
    pub maker_fee_bps: u32,
    pub signer: [u8; 20],
    pub seq: u64,
}

#[derive(Clone, Debug, PartialEq, Eq)]
pub enum WithdrawalStatus {
    Pending,
    Completed,
    Failed,
}

#[derive(Clone, Debug)]
pub struct WithdrawalRecord {
    pub id: u64,
    pub owner: [u8; 20],
    pub amount: u64,
    pub solana_destination: [u8; 32],
    pub status: WithdrawalStatus,
    pub request_height: u64,
}

#[derive(Clone, Debug, Default, PartialEq, Eq)]
pub struct WithdrawalReceiptSidecar {
    pub authorized_digest: Option<[u8; 32]>,
    pub authorization_epoch: Option<u64>,
    pub fee: u64,
}

#[derive(Clone, Copy, Debug, Default, PartialEq, Eq)]
pub struct WithdrawalPolicy {
    pub fee_micro_usdc: u64,
    pub min_withdrawal_micro_usdc: u64,
}

/// Proposal keys are the big-endian encodings of the ids: decoding a key
/// gives the id back, and keys sort in the same order as the ids (so a
/// prefix scan yields ascending id order).
pub proof fn lemma_proposal_key_order(a: ProposalId, b: ProposalId)
    ensures
        be_value(a.spec_key_bytes()) == a.0,
        a.spec_key_bytes().len() == 8,
        a.0 < b.0 <==> crate::bytes::lex_less(a.spec_key_bytes(), b.spec_key_bytes()),
        a.0 == b.0 <==> a.spec_key_bytes() == b.spec_key_bytes(),
{
    crate::bytes::lemma_u64_key_order(a.0, b.0);
}

/// Emergency keys follow the same big-endian contract as proposal keys.
pub proof fn lemma_emergency_key_order(a: EmergencyId, b: EmergencyId)
    ensures
        be_value(a.spec_key_bytes()) == a.0,
        a.spec_key_bytes().len() == 8,
        a.0 < b.0 <==> crate::bytes::lex_less(a.spec_key_bytes(), b.spec_key_bytes()),
        a.0 == b.0 <==> a.spec_key_bytes() == b.spec_key_bytes(),
{
    crate::bytes::lemma_u64_key_order(a.0, b.0);
}

/// Deposit ids are unambiguous: two locators get the same suffix only if
/// they are the same locator, as long as no inner index equals the `0xFFFF`
/// sentinel that stands for "no inner instruction".
pub proof fn lemma_id_suffix_injective(a: DepositLocator, b: DepositLocator)
    requires
        a.inner_index != Some(DEPOSIT_INNER_SENTINEL),
        b.inner_index != Some(DEPOSIT_INNER_SENTINEL),
        a.spec_id_suffix() == b.spec_id_suffix(),
    ensures
        a == b,
{
    let ai: u16 = match a.inner_index {
        Some(i) => i,
        None => DEPOSIT_INNER_SENTINEL,
    };
    let bi: u16 = match b.inner_index {
        Some(i) => i,
        None => DEPOSIT_INNER_SENTINEL,
    };
    assert(crate::bytes::pow256(2) == 65536) by {
        reveal_with_fuel(crate::bytes::pow256, 3);
    }
    crate::bytes::lemma_be_roundtrip(a.top_index as nat, 2);
    crate::bytes::lemma_be_roundtrip(b.top_index as nat, 2);
    crate::bytes::lemma_be_roundtrip(ai as nat, 2);
    crate::bytes::lemma_be_roundtrip(bi as nat, 2);
    let sa = a.spec_id_suffix();
    let sb = b.spec_id_suffix();
    assert(sa.subrange(0, 2) =~= be_bytes(a.top_index as nat, 2));
    assert(sb.subrange(0, 2) =~= be_bytes(b.top_index as nat, 2));
    assert(sa.subrange(2, 4) =~= be_bytes(ai as nat, 2));
    assert(sb.subrange(2, 4) =~= be_bytes(bi as nat, 2));
    crate::bytes::lemma_be_bytes_injective(a.top_index as nat, b.top_index as nat, 2);
    crate::bytes::lemma_be_bytes_injective(ai as nat, bi as nat, 2);
}

} // verus!
