//! Engine output events, emitted during transaction execution and
//! end-of-block processing, and their ABCI encoding.
//!
//! Each event renders as one ABCI event whose type is the variant name in
//! `snake_case` and whose attributes are the variant's fields in declaration
//! order, keyed by field name: integers in decimal (signed ones with a
//! leading `-`), booleans as `true`/`false`, byte arrays and byte vectors in
//! lower-case hex, strings as-is, enums by their display text, and absent
//! optional values as an empty attribute.
use vstd::prelude::*;
use vstd::string::StringSliceAdditionalSpecFns;
use vstd::seq_lib::lemma_concat_associative;
use vstd::utf8::encode_utf8;

use crate::abci_event::{attrs_bytes, event_bytes, lemma_attrs_bytes_push, AbciAttr, AbciEventWriter};
use crate::render::{attr, decimal, frame, hex, le16, signed_decimal};
use crate::types::{
    EventId, ExpiryReason, FailDepositReason, FillId, FundingSkipReason, ImpactMarketId,
    MarketId, OracleRejectReason, OrderId, Outcome, Side, TimeInForce,
};

verus! {

/// Why an order was cancelled. Serialised as a string in ABCI events.
#[derive(Clone, Debug)]
pub enum CancelReason {
    UserRequested,
    Expired,
    AdminForce,
    Liquidation,
}

impl CancelReason {
    /// The display text.
    pub open spec fn spec_text(self) -> Seq<char> {
        match self {
            CancelReason::UserRequested => "user_requested"@,
            CancelReason::Expired => "expired"@,
            CancelReason::AdminForce => "admin_force"@,
            CancelReason::Liquidation => "liquidation"@,
        }
    }

    pub(crate) fn as_str(&self) -> (r: &'static str)
        ensures
            r@ == self.spec_text(),
            self is UserRequested ==> r@ == "user_requested"@,
            self is Expired ==> r@ == "expired"@,
            self is AdminForce ==> r@ == "admin_force"@,
            self is Liquidation ==> r@ == "liquidation"@,
    {
        match self {
            CancelReason::UserRequested => "user_requested",
            CancelReason::Expired => "expired",
            CancelReason::AdminForce => "admin_force",
            CancelReason::Liquidation => "liquidation",
        }
    }

    pub fn to_string(&self) -> (r: String)
        ensures
            r@ == self.spec_text(),
            self is UserRequested ==> r@ == "user_requested"@,
            self is Expired ==> r@ == "expired"@,
            self is AdminForce ==> r@ == "admin_force"@,
            self is Liquidation ==> r@ == "liquidation"@,
    {
        self.as_str().to_owned()
    }
}

/// Why a winning conditional position settled in cash instead of becoming a
/// perpetual position.
#[derive(Clone, Copy, Debug, PartialEq, Eq)]
pub enum ConversionFallbackReason {
    /// The converted position would not meet initial margin.
    InitialMargin,
    /// The converted position would exceed the market's position size cap.
    PositionSizeCap,
    /// The converted position would exceed the market's open-interest cap.
    OpenInterestCap,
    /// The underlying could not be priced or margined at settlement.
    CannotPriceOrMargin,
    /// The account's balance could not fund the conversion.
    InsufficientBalance,
}

impl ConversionFallbackReason {
    /// The display text; these literals are stable.
    pub open spec fn spec_text(self) -> Seq<char> {
        match self {
            ConversionFallbackReason::InitialMargin => "initial_margin"@,
            ConversionFallbackReason::PositionSizeCap => "position_size_cap"@,
            ConversionFallbackReason::OpenInterestCap => "open_interest_cap"@,
            ConversionFallbackReason::CannotPriceOrMargin => "cannot_price_or_margin"@,
            ConversionFallbackReason::InsufficientBalance => "insufficient_balance"@,
        }
    }

    pub(crate) fn as_str(&self) -> (r: &'static str)
        ensures
            r@ == self.spec_text(),
            self is InitialMargin ==> r@ == "initial_margin"@,
            self is PositionSizeCap ==> r@ == "position_size_cap"@,
            self is OpenInterestCap ==> r@ == "open_interest_cap"@,
            self is CannotPriceOrMargin ==> r@ == "cannot_price_or_margin"@,
            self is InsufficientBalance ==> r@ == "insufficient_balance"@,
    {
        match self {
            ConversionFallbackReason::InitialMargin => "initial_margin",
            ConversionFallbackReason::PositionSizeCap => "position_size_cap",
            ConversionFallbackReason::OpenInterestCap => "open_interest_cap",
            ConversionFallbackReason::CannotPriceOrMargin => "cannot_price_or_margin",
            ConversionFallbackReason::InsufficientBalance => "insufficient_balance",
        }
    }

    pub fn to_string(&self) -> (r: String)
        ensures
            r@ == self.spec_text(),
            self is InitialMargin ==> r@ == "initial_margin"@,
            self is PositionSizeCap ==> r@ == "position_size_cap"@,
            self is OpenInterestCap ==> r@ == "open_interest_cap"@,
            self is CannotPriceOrMargin ==> r@ == "cannot_price_or_margin"@,
            self is InsufficientBalance ==> r@ == "insufficient_balance"@,
    {
        self.as_str().to_owned()
    }
}

/// Display text of a `bool`.
pub open spec fn spec_bool_text(b: bool) -> Seq<char> {
    if b {
        "true"@
    } else {
        "false"@
    }
}

fn bool_text(b: bool) -> (r: &'static str)
    ensures
        r@ == spec_bool_text(b),
        b ==> r@ == "true"@,
        !b ==> r@ == "false"@,
{
    if b {
        "true"
    } else {
        "false"
    }
}

/// An ABCI event header: the framed event type and the attribute count.
pub open spec fn abci_header(event_type: Seq<u8>, attr_count: nat) -> Seq<u8> {
    frame(event_type) + le16(attr_count)
}

/// Hex of an optional address; empty when absent.
pub open spec fn opt_hex(v: Option<[u8; 20]>) -> Seq<u8> {
    match v {
        Some(a) => hex(a@),
        None => Seq::empty(),
    }
}

/// Display text of an optional fallback reason; empty when absent.
pub open spec fn opt_reason_text(v: Option<ConversionFallbackReason>) -> Seq<u8> {
    match v {
        Some(r) => encode_utf8(r.spec_text()),
        None => Seq::empty(),
    }
}

fn write_attr_opt_hex(writer: &mut AbciEventWriter, key: &str, v: &Option<[u8; 20]>)
    ensures
        final(writer)@ == old(writer)@ + attr(key.spec_bytes(), opt_hex(*v)),
{
    match v {
        Some(a) => writer.write_attr_hex(key, a.as_slice()),
        None => {
            let empty: [u8; 0] = [];
            assert(hex(empty@) == Seq::<u8>::empty()) by {
                assert(empty@.len() == 0);
            }
            writer.write_attr_hex(key, empty.as_slice());
        },
    }
}

fn write_attr_opt_reason(
    writer: &mut AbciEventWriter,
    key: &str,
    v: &Option<ConversionFallbackReason>,
)
    ensures
        final(writer)@ == old(writer)@ + attr(key.spec_bytes(), opt_reason_text(*v)),
{
    match v {
        Some(r) => writer.write_attr(key, r.as_str()),
        None => {
            let empty: [u8; 0] = [];
            assert(empty@ =~= Seq::<u8>::empty());
            writer.write_attr_bytes(key, empty.as_slice());
        },
    }
}

/// Engine output events, emitted during transaction execution and end-of-block processing.
/// Encoded as CometBFT ABCI events for indexing and WebSocket streaming.
#[derive(Clone, Debug)]
pub enum Event {
    OrderPlaced {
        order_id: OrderId,
        market: MarketId,
        owner: [u8; 20],
        side: Side,
        price: u64,
        quantity: u64,
        /// Client-assigned order id. `0` means absent.
        client_order_id: u64,
        /// Time-in-force the order rested with (always `gtc` today — IOC/FOK
        /// never rest and so never emit `OrderPlaced`). Emitted so history
        /// can record it without joining to the placement tx.
        time_in_force: TimeInForce,
        post_only: bool,
        reduce_only: bool,
    },
    OrderCancelled {
        order_id: OrderId,
        market: MarketId,
        owner: [u8; 20],
        reason: CancelReason,
        /// Client-assigned order id. `0` means absent.
        client_order_id: u64,
        /// Quantity originally accepted onto the book.
        original_quantity: u64,
        /// Quantity still resting when the cancel occurred.
        remaining_quantity: u64,
        /// Cumulative maker quantity filled before cancellation.
        filled_quantity: u64,
    },
    OrderAmended {
        order_id: OrderId,
        market: MarketId,
        owner: [u8; 20],
        side: Side,
        old_price: u64,
        new_price: u64,
        old_quantity: u64,
        new_quantity: u64,
        remaining_quantity: u64,
        filled_quantity: u64,
        queue_priority_reset: bool,
        /// Client-assigned order id. `0` means absent.
        client_order_id: u64,
    },
    AtomicBasketExecuted {
        owner: [u8; 20],
        leg_count: u32,
        max_slippage_bps: u32,
    },
    PriceUpdated {
        market: MarketId,
        price: u64,
        signer: Option<[u8; 20]>,
    },
    TradeExecuted {
        fill_id: FillId,
        market: MarketId,
        /// Execution price in micro-USDC.
        price: u64,
        /// Filled quantity in base-asset units.
        quantity: u64,
        maker_order_id: OrderId,
        /// Maker's client-assigned order id. `0` means absent.
        maker_client_order_id: u64,
        maker_owner: [u8; 20],
        maker_side: Side,
        /// Engine-assigned id of the taker (aggressor) order. Set even for
        /// market and fully-crossing orders that never rest, so a fill
        /// correlates to both sides' orders.
        taker_order_id: OrderId,
        taker_owner: [u8; 20],
        /// Taker's client-assigned order id. `0` means absent.
        taker_client_order_id: u64,
        /// Taker fee in micro-USDC (positive = charged, negative = rebate).
        taker_fee: i64,
        /// Maker fee in micro-USDC (positive = charged, negative = rebate).
        maker_fee: i64,
    },
    FeesCollected {
        market: MarketId,
        taker_owner: [u8; 20],
        taker_fee: i64,
        maker_owner: [u8; 20],
        maker_fee: i64,
    },
    Deposited {
        owner: [u8; 20],
        amount: u64,
        new_balance: u64,
        signer: Option<[u8; 20]>,
    },
    Withdrawn {
        owner: [u8; 20],
        amount: u64,
        new_balance: u64,
        signer: Option<[u8; 20]>,
    },
    PositionUpdated {
        owner: [u8; 20],
        market: MarketId,
        side: Side,
        entry_price: u64,
        size: u64,
    },
    PositionClosed {
        owner: [u8; 20],
        market: MarketId,
        realized_pnl: i64,
    },
    /// Per-trade MTM event for an impact-family ConditionalPerp close
    /// (no-oracle MTM redesign, 2026-04-26). Issues `signed_delta` units of
    /// the corresponding prediction binary (B+ for CPY closes, B- for CPN
    /// closes) at entry $0 to the closing party, decomposing their
    /// conditional PnL into a fungible binary token.
    ///
    /// `signed_delta` is in conditional dollars (the size of the issued
    /// binary). Positive = long binary issued (closing party gained on the
    /// CP close); negative = short binary issued (loss).
    ///
    /// `cash_pnl_realized` is the cash-settlement byproduct of the v1
    /// limitation where MTM that creates an opposite-side delta against an
    /// existing direct-traded binary position nets out, realizing PnL on
    /// the absorbed portion at the MTM-issued $0 entry. Zero in the common
    /// case (no existing opposite-side binary). Tracked separately for
    /// observability so off-chain monitoring can quantify the cash
    /// imbalance v2 multi-position support will eliminate.
    ///
    /// `final_size` and `final_entry` are the resulting state of the
    /// owner's binary position after the MTM is applied (could be 0 if
    /// the MTM netted out an equal-size opposite position).
    BinaryIssuedFromMTM {
        owner: [u8; 20],
        /// CP market that triggered the MTM (closed via fill).
        cp_market: MarketId,
        /// Target binary market (B+ for CPY closes, B- for CPN closes).
        binary_market: MarketId,
        /// Signed quantity of binary issued. + = long, - = short.
        signed_delta: i64,
        /// Resulting binary position size after MTM applied.
        final_size: u64,
        /// Resulting binary position entry after MTM applied (weighted
        /// average for same-side blends, 0 for fresh issuance).
        final_entry: u64,
        /// Cash debit/credit from netting against an existing opposite-side
        /// binary position. Zero in the common case.
        cash_pnl_realized: i64,
    },
    MarketCreated {
        market: MarketId,
        im_bps: u32,
        mm_bps: u32,
        taker_fee_bps: u32,
        maker_fee_bps: u32,
        funding_interval_ms: u64,
        max_funding_rate_bps: u32,
        /// Address that signed the action. `None` when the market was
        /// created by governance execution, which has no single signer —
        /// the approving roster is carried by the surrounding proposal
        /// events.
        signer: Option<[u8; 20]>,
    },
    /// Admin updated one or more tunable fields on an existing market.
    /// Event carries the FULL post-update set of mutable fields so
    /// consumers see the live config after the tx; no need to diff
    /// against prior state. `kind` remains immutable and is intentionally
    /// omitted because UpdateMarketFees cannot change the accounting model.
    ///
    /// ABCI event derivation requires Display on every attribute, so
    /// Option<T> would break the codegen — we emit the whole config
    /// snapshot instead. Callers that only care about the delta can
    /// compare to the previous MarketConfigUpdated for the same market.
    MarketConfigUpdated {
        market: MarketId,
        im_bps: u32,
        mm_bps: u32,
        taker_fee_bps: u32,
        maker_fee_bps: u32,
        max_funding_rate_bps: u32,
        funding_interval_ms: u64,
        max_position_size: u64,
        default_ttl_ms: u64,
        net_delta_margin: bool,
        tick_size: u64,
        lot_size: u64,
        primary_oracle_signer: [u8; 20],
        oracle_staleness_ms: u64,
        max_open_interest: u64,
        signer: Option<[u8; 20]>,
    },
    /// An account's fee override was set (BE-46). Emitted on success
    /// of `SetAccountFeeOverride`. Carries the post-update values so
    /// off-chain consumers can mirror the override without re-reading
    /// state.
    AccountFeeOverrideSet {
        account: [u8; 20],
        taker_fee_bps: u32,
        maker_fee_bps: u32,
        signer: Option<[u8; 20]>,
    },
    /// Impact-market family was registered. Emitted once; the 5 underlying
    /// `MarketCreated` events follow (1 reused existing perp + 4 new children).
    ImpactMarketCreated {
        impact_market_id: ImpactMarketId,
        underlying_market: MarketId,
        cpy_market: MarketId,
        cpn_market: MarketId,
        eby_market: MarketId,
        ebn_market: MarketId,
        question: String,
        deadline_ms: u64,
        resolution_window_ms: u64,
        description: String,
        rules: String,
    },
    /// A standalone event was created: two prediction-binary books under a
    /// new [`EventInfo`], no underlying perp (G17).
    EventCreated {
        event_id: EventId,
        eby_market: MarketId,
        ebn_market: MarketId,
        question: String,
        settlement_ms: u64,
        resolution_window_ms: u64,
        description: String,
        rules: String,
    },
    /// Impact-market family crossed its deadline and is frozen while
    /// awaiting resolver signatures. New orders on the child books are
    /// rejected; existing resting child orders are cancelled by the sweep.
    ImpactMarketPreResolution {
        impact_market_id: ImpactMarketId,
        timestamp_ms: u64,
    },
    /// Event was resolved with a definitive outcome. Emitted once per family.
    ImpactMarketResolved {
        impact_market_id: ImpactMarketId,
        outcome: Outcome,
        /// Oracle price of the underlying at resolution time (micro-USDC).
        /// Used as the settlement mark for the winning conditional perp.
        settlement_price: u64,
        timestamp_ms: u64,
        signer: Option<[u8; 20]>,
    },
    /// A standalone event resolved to Yes or No. No settlement price (no
    /// underlying) and no Void.
    EventResolved {
        event_id: EventId,
        outcome: Outcome,
        timestamp_ms: u64,
        signer: Option<[u8; 20]>,
    },
    /// A winning conditional-perp position settled because its branch won the
    /// resolution: cash-settled to the owner's balance, and — when
    /// `converted_size > 0` — converted into a perpetual position.
    ///
    /// Bytes written before the conversion fields existed decode as a
    /// cash-only settlement: `converted_size == 0`, `fallback_reason == None`.
    ConditionalSettled {
        /// Event whose resolution settled the position.
        event_id: EventId,
        market: MarketId,
        owner: [u8; 20],
        side: Side,
        size: u64,
        entry_price: u64,
        settlement_price: u64,
        realized_pnl: i64,
        /// Size converted into a perpetual position; `0` when the settlement
        /// stayed cash-only (and for bytes written before conversion existed).
        converted_size: u64,
        /// Why a winning position was not converted; `None` when it was or
        /// when no conversion was attempted.
        fallback_reason: Option<ConversionFallbackReason>,
    },
    /// A conditional-perp position was voided because its branch lost. The
    /// position holder's reserved IM is released (effectively: position deleted,
    /// no balance change, as IM is equity-based not locked collateral).
    ConditionalVoided {
        impact_market_id: ImpactMarketId,
        market: MarketId,
        owner: [u8; 20],
        side: Side,
        size: u64,
    },
    /// A prediction-binary position was cash-settled. Longs receive
    /// `payoff_per_share * size` credited to their balance; shorts have
    /// `(1.0 - payoff_per_share) * size` debited. Payoff is $1 for the winner
    /// and $0 for the loser.
    PredictionSettled {
        impact_market_id: ImpactMarketId,
        market: MarketId,
        owner: [u8; 20],
        side: Side,
        size: u64,
        /// Payoff per share in micro-USDC ($1.00 = 1_000_000, $0.00 = 0).
        payoff_per_share: u64,
        /// Signed cash delta applied to owner balance (micro-USDC).
        cash_delta: i64,
    },
    /// Position forcibly closed by the end-of-block liquidation sweep.
    AccountLiquidated {
        owner: [u8; 20],
        market: MarketId,
        side: Side,
        size: u64,
        /// Oracle mark price at which the position was liquidated (micro-USDC).
        mark_price: u64,
        /// Realized PnL in micro-USDC (negative means a loss).
        realized_pnl: i64,
    },
    /// Insurance fund balance changed (e.g., from liquidation surplus/deficit).
    /// Per-pool variant — the legacy event without `pool_id` continues to
    /// be emitted for pool 0 to preserve consumer compatibility.
    InsuranceFundUpdated {
        /// Pool the change applied to. 0 for legacy/majors pool (the
        /// bare `InsuranceFund` state key); 1+ for newer pools keyed
        /// under `InsuranceFundByPool`. Added 2026-04-25 with the
        /// four-tier waterfall.
        pool_id: u8,
        /// New total balance in micro-USDC (can be negative if fund is depleted).
        balance: i64,
        /// Change amount in micro-USDC (positive = inflow, negative = outflow).
        delta: i64,
    },
    /// Tier 0 of the bad-debt waterfall. HLP absorbed `amount` of
    /// liquidation deficit, leaving HLP balance at `hlp_balance_after`.
    /// Emitted only when HLP is enabled AND its balance was above the
    /// floor at draw time. Once HLP hits the floor, further deficits
    /// route to Tier 1 (per-pool IF) and this event stops firing.
    HlpAbsorbed {
        /// Pool the liquidation came from (informational — HLP is
        /// pool-agnostic at Tier 0).
        pool_id: u8,
        /// Microusdc absorbed by HLP this draw.
        amount: u64,
        /// HLP balance after the draw.
        hlp_balance_after: i64,
    },
    /// Tier 2 of the bad-debt waterfall. The pool's IF was insufficient
    /// to fully absorb a liquidation deficit, so the residual was
    /// distributed pro-rata across eligible open positions in the pool. At
    /// schema v9 and later, eligibility is Perp-only and all Tier-2 draws for
    /// the same pool and block share one `socialized_cap_bps × pool_notional /
    /// 10_000` budget; legacy schemas retain the historical per-event cap.
    /// Each affected account is debited proportionally.
    SocializedLossApplied {
        pool_id: u8,
        /// Microusdc actually debited from counterparties by this Tier-2
        /// event. Each debit is floored by the counterparty's balance.
        total_amount: u64,
        /// Microusdc the cap-respecting model says we *should* have
        /// absorbed: `min(requested, socialized_cap_bps × pool_notional /
        /// 10_000)`. A `total_amount < cap_target` gap reflects balance or
        /// integer pro-rata floors and rolls through to Tier 3 (ADL).
        /// Off-chain consumers can compare these fields to observe it.
        cap_target: u64,
        /// Cap in bps applied to the pool's two-sided notional. Echoed
        /// here for auditability; matches the
        /// `InsuranceFundConfig.socialized_cap_bps` of the time.
        cap_bps: u32,
        /// Number of open positions debited inline.
        affected_count: u32,
    },
    /// Tier 3 of the bad-debt waterfall. A profitable counterparty was
    /// auto-deleveraged (force-closed at the bankruptcy price of the
    /// counterparty being liquidated) because all prior tiers were
    /// exhausted. The ADL queue ranks positions by
    /// `unrealized_pnl × leverage_used` descending; this event is
    /// emitted once per ADL'd position.
    PositionAutoDeleveraged {
        /// Owner whose position was force-closed.
        owner: [u8; 20],
        market: MarketId,
        side: Side,
        /// Number of contracts force-closed in this leg. May be less
        /// than the ADL'd account's full position when the deficit is
        /// covered by a partial close (per audit 2026-04-25 P0 #2 fix);
        /// the remainder of the position keeps its original entry.
        size: u64,
        /// Price the position was actually closed at — the **liquidated
        /// trader's bankruptcy price** `bp = entry − σ × balance / size`
        /// (one `bp` per liquidation event, threaded through to every
        /// ADL leg in the same waterfall call). Equals `close_price_spec`
        /// after the audit P0 #2 fix landed; the two fields are retained
        /// separately for forward compatibility with future settlement-
        /// price experimentation.
        close_price: u64,
        /// Bankruptcy price the spec (`docs/adl-vs-socialized-loss.md`
        /// §3.5) says the position should be closed at. Currently equal
        /// to `close_price`; tracked separately so any future deviation
        /// (e.g., adding a "max haircut per ADL leg" cap that would
        /// re-introduce a spec gap) can be audited via this field.
        close_price_spec: u64,
        /// Realized PnL credited to the ADL'd counterparty at
        /// `close_price` for the closed `size`. Includes any rounding
        /// surplus credited back when ceil-div over-extracted (so the
        /// counterparty's net surrender equals exactly the residual
        /// covered by this leg, not residual + rounding overshoot).
        /// May be negative if `bp` would imply a realized loss for the
        /// counterparty — note that for the alpha-deferred deviation,
        /// we cap credit at 0 rather than driving the counterparty into
        /// negative balance.
        realized_pnl: i64,
    },
    WithdrawRequested {
        withdrawal_id: u64,
        owner: [u8; 20],
        amount: u64,
        solana_destination: [u8; 32],
    },
    DepositConfirmed {
        owner: [u8; 20],
        amount: u64,
        new_balance: u64,
        solana_tx_sig: Vec<u8>,
        signer: Option<[u8; 20]>,
    },
    /// Relayer rejected a Solana deposit transfer. The user was NOT
    /// credited; the engine records a `(signature, locator)` dedup marker
    /// in state, so any subsequent `ConfirmDeposit`/`FailDeposit` for that
    /// same transfer is a silent no-op. The event itself carries only the
    /// signature — it does not name which transfer inside the transaction
    /// failed. `solana_signature` is the raw on-chain sig bytes (typically
    /// 64 bytes — same encoding as `DepositConfirmed.solana_tx_sig`).
    DepositFailed {
        solana_signature: Vec<u8>,
        reason: FailDepositReason,
        signer: Option<[u8; 20]>,
    },
    WithdrawalConfirmed {
        withdrawal_id: u64,
        solana_tx_sig: Vec<u8>,
        /// Address that signed the action. `None` when confirmed via an
        /// operator-quorum receipt, which has no single signer.
        signer: Option<[u8; 20]>,
    },
    WithdrawalFailed {
        withdrawal_id: u64,
        owner: [u8; 20],
        amount: u64,
        new_balance: u64,
        reason: String,
        /// Address that signed the action. `None` when failed via an
        /// operator-quorum receipt, which has no single signer.
        signer: Option<[u8; 20]>,
    },
    WithdrawalAuthorized {
        withdrawal_id: u64,
        authorization_digest: [u8; 32],
    },
    AgentApproved {
        owner: [u8; 20],
        agent: [u8; 20],
        agent_pubkey: [u8; 32],
    },
    AgentRevoked {
        owner: [u8; 20],
        agent: [u8; 20],
        agent_pubkey: [u8; 32],
    },
    /// A new funding rate was computed and applied to the market.
    FundingApplied {
        market: MarketId,
        /// Signed funding rate in basis points for this interval.
        funding_rate_bps: i64,
        /// New cumulative funding index after applying this rate.
        cumulative_funding: i64,
        timestamp_ms: u64,
    },
    /// Funding payment settled for a single position.
    FundingSettled {
        owner: [u8; 20],
        market: MarketId,
        /// Payment in micro-USDC (positive = received, negative = paid).
        payment: i64,
    },
    /// Account lacked sufficient balance to pay full funding obligation.
    FundingShortfall {
        owner: [u8; 20],
        market: MarketId,
        /// Full amount owed in micro-USDC.
        owed: i64,
        /// Amount actually collected in micro-USDC.
        actual: i64,
        /// Unfunded gap absorbed by the insurance fund (micro-USDC).
        shortfall: u64,
    },
    /// Emitted when a fill causes an account to drop below maintenance margin.
    /// The fill is NOT blocked — the end-of-block liquidation sweep will handle it.
    /// This event provides immediate observability for off-chain monitoring.
    MarginWarning {
        owner: [u8; 20],
        equity: i64,
        maintenance_margin: u64,
    },
    /// Emitted exactly once at the end of every market-order tx that passes
    /// envelope checks, regardless of how many fills happened.
    ///
    /// Market orders use IOC semantics — any unfilled remainder is silently
    /// dropped. Without this event, callers would have to count downstream
    /// `TradeExecuted` events to learn whether a market order actually moved
    /// any quantity, and could not distinguish "no counterparty" from "fully
    /// filled and the trade events arrived in a different stream view".
    ///
    /// Off-chain monitors and SDKs should treat this as the authoritative
    /// "did my market order do anything?" signal:
    ///   - `filled_quantity == requested_quantity` → fully filled
    ///   - `0 < filled_quantity < requested_quantity` → partial fill, rest dropped
    ///   - `filled_quantity == 0` → no counterparty (or all counterparties were
    ///     the taker themselves and got rejected by self-match prevention)
    MarketOrderProcessed {
        /// Engine-assigned id of this market order, referenceable in fills
        /// and order history.
        order_id: OrderId,
        market: MarketId,
        owner: [u8; 20],
        side: Side,
        requested_quantity: u64,
        filled_quantity: u64,
        /// Client-assigned order id. `0` means absent.
        client_order_id: u64,
    },
    /// User picked a per-market IM override (BE-16). `user_im_bps == 0`
    /// means the override was cleared (engine reverts to market
    /// default).
    UserMarketLeverageSet {
        owner: [u8; 20],
        market: MarketId,
        user_im_bps: u32,
    },
    /// Compatibility settlement for a position liability left by the retired
    /// schema-v9 socialized-loss index. No new Tier-2 event increments that
    /// index. `collected < owed` means the account's balance floored the debit.
    SocializedLossSettled {
        owner: [u8; 20],
        market: MarketId,
        /// Share owed for the index movement since last settle (µUSDC).
        owed: u64,
        /// Amount actually debited, floored at the account balance (µUSDC).
        collected: u64,
    },
    /// An admin proposal was accepted. Carries the engine-assigned id —
    /// the only channel that returns it to the proposer. Full
    /// `action_bytes` deliberately stay out of events; state plus the
    /// proposals query is the reconstruction source of record.
    ProposalCreated {
        proposal_id: u64,
        proposer: [u8; 20],
        registry_version: u64,
        threshold: u32,
        action_tag: u8,
        content_hash: [u8; 32],
        created_ms: u64,
        expiry_ms: u64,
    },
    /// An approval vote was recorded (including the proposer's implicit
    /// approval #1 — not evented separately; it rides `ProposalCreated`).
    ProposalApproved {
        proposal_id: u64,
        approver: [u8; 20],
        approvals_count: u32,
        threshold: u32,
    },
    /// Threshold reached and the inner action applied. Followed in the
    /// same transaction result by the inner action's own events.
    ProposalExecuted {
        proposal_id: u64,
    },
    /// Threshold reached but the inner apply failed deterministically.
    /// The child overlay was dropped; `error_code` is the full
    /// `ExecError::code()` value, unnarrowed.
    ProposalFailed {
        proposal_id: u64,
        error_code: u32,
    },
    /// A rejection was recorded. Terminal when `by_proposer` (cancel) or
    /// when `rejections_count` reached `members - threshold + 1`.
    ProposalRejected {
        proposal_id: u64,
        rejecter: [u8; 20],
        by_proposer: bool,
        rejections_count: u32,
    },
    /// A `Pending` proposal was flipped terminal by the lazy expiry
    /// sweep (`ttl`) or a registry rotation (`registry_changed`).
    ProposalExpired {
        proposal_id: u64,
        reason: ExpiryReason,
    },
    /// A single-signer emergency action executed. `market_id` is zero
    /// for market-less arms (`HaltTrading`).
    EmergencyActionExecuted {
        signer: [u8; 20],
        action_tag: u8,
        market_id: MarketId,
    },
    /// The signer roster was replaced (a rotation executed, or genesis /
    /// seed wrote version 1). `members` is the full replacement roster,
    /// concatenated 40-hex-char addresses in canonical order.
    AdminSignerRegistryUpdated {
        version: u64,
        threshold: u32,
        members: String,
    },
    /// The admin multisig reached quorum on a bridge un-halt. The engine
    /// holds no halt flag; this is the authoritative decision record the
    /// Squads operator quorum acts on to unfreeze the vault on Solana.
    BridgeUnpauseAuthorized {
        proposal_id: u64,
    },
    /// An operator-authority set was rotated by governance (#422). `domain`
    /// is the `AuthorityDomain` discriminant; `added`/`removed` are the
    /// affected addresses as concatenated 40-hex-char strings. The signer is
    /// carried by the accompanying `ProposalExecuted`/approval events.
    AuthoritySetUpdated {
        domain: u8,
        added: String,
        removed: String,
        proposal_id: u64,
    },
    /// The admin quorum wrote the per-market oracle guards. Carries
    /// the FULL post-update guard set so consumers need not diff; zero means
    /// the field is still unset.
    OracleGuardsUpdated {
        market: MarketId,
        mark_price_max_oracle_age_ms: u64,
        max_oracle_deviation_bps: u32,
        proposal_id: u64,
    },
    /// An authorized `OracleUpdate` was refused by the per-market deviation
    /// guard once the oracle-guard gate is active. The
    /// transaction itself is accepted (nonce burned, no state written): the
    /// submitted price is NOT stored, the publish time does NOT advance, and
    /// this event records why. `max_oracle_deviation_bps == 0` with reason
    /// `deviation_band_unset` is the fail-closed default before governance
    /// sets a band.
    OracleUpdateRejected {
        market: MarketId,
        submitted_price: u64,
        last_good: u64,
        max_oracle_deviation_bps: u32,
        signer: Option<[u8; 20]>,
        reason: OracleRejectReason,
    },
    /// A due funding interval on `market` was skipped because its mark was
    /// stale or unguarded while the oracle-guard gate is active (pause,
    /// no retroactive catch-up). The interval clock restarts at
    /// `timestamp_ms`, so the missed interval is lost, not replayed.
    FundingSkipped {
        market: MarketId,
        timestamp_ms: u64,
        reason: FundingSkipReason,
    },
    /// A multisig-approved trigger-market policy was stored for automatic
    /// application at `effective_height`. The complete replacement is evented
    /// so operators can audit the scheduled transition without interpreting
    /// proposal bytes. This event does not mean the policy is effective yet.
    TriggerMarketConfigScheduled {
        market: MarketId,
        version: u64,
        accepted_height: u64,
        effective_height: u64,
        enabled: bool,
        max_trigger_slippage_bps: u32,
        max_mark_age_ms: u64,
        max_future_publish_skew_ms: u64,
        max_active_brackets: u64,
    },
    /// A previously scheduled trigger-market policy became effective at this
    /// block's automatic pre-transaction configuration phase.
    TriggerMarketConfigActivated {
        market: MarketId,
        version: u64,
        effective_height: u64,
        enabled: bool,
        max_trigger_slippage_bps: u32,
        max_mark_age_ms: u64,
        max_future_publish_skew_ms: u64,
        max_active_brackets: u64,
    },
    /// A whole-position protection bracket was installed or atomically
    /// replaced. Zero client/limb ids mean the optional field was absent.
    PositionTriggersSet {
        owner: [u8; 20],
        market: MarketId,
        position_epoch: u64,
        group_id: u64,
        client_group_id: u64,
        stop_limb_id: u64,
        stop_client_trigger_id: u64,
        take_profit_limb_id: u64,
        take_profit_client_trigger_id: u64,
        accepted_height: u64,
        active_from_height: u64,
        replaced_group_id: u64,
    },
    /// A user explicitly removed a stored position-protection bracket.
    PositionTriggersCancelled {
        owner: [u8; 20],
        market: MarketId,
        position_epoch: u64,
        group_id: u64,
    },
    /// A position close or side flip invalidated both linked limbs.
    PositionTriggersInvalidated {
        owner: [u8; 20],
        market: MarketId,
        position_epoch: u64,
        group_id: u64,
    },
    /// A crossed limb passed authoritative snapshot/account validation and
    /// began its one bounded reduce-only IOC-limit attempt.
    PositionTriggerActivated {
        owner: [u8; 20],
        market: MarketId,
        position_epoch: u64,
        group_id: u64,
        limb_id: u64,
        /// Zero means no client id was supplied.
        client_group_id: u64,
        /// Zero means no client id was supplied.
        client_trigger_id: u64,
        limb_kind: String,
        trigger_price: u64,
        frozen_mark: u64,
        limit_price: u64,
        requested_quantity: u64,
        execution_order_id: u64,
    },
    /// Terminal result of the activated limb's single bounded attempt.
    PositionTriggerExecuted {
        owner: [u8; 20],
        market: MarketId,
        position_epoch: u64,
        group_id: u64,
        limb_id: u64,
        client_group_id: u64,
        client_trigger_id: u64,
        limb_kind: String,
        trigger_price: u64,
        frozen_mark: u64,
        limit_price: u64,
        requested_quantity: u64,
        filled_quantity: u64,
        residual_quantity: u64,
        execution_order_id: u64,
        /// Aggregate signed fee charged by the attempt's committed fills.
        total_fee: i64,
        result: String,
        /// Empty when the terminal result has no additional reason.
        reason: String,
    },
    /// Account-level evaluation deferred this crossed limb. Repeated equal
    /// reasons are suppressed by the lifecycle repository.
    PositionTriggerDeferred {
        owner: [u8; 20],
        market: MarketId,
        position_epoch: u64,
        group_id: u64,
        limb_id: u64,
        client_group_id: u64,
        client_trigger_id: u64,
        limb_kind: String,
        trigger_price: u64,
        frozen_mark: u64,
        requested_quantity: u64,
        reason: String,
    },
    /// Shared market health changed from available to deferred. This is a
    /// market transition, never one event per stored bracket.
    TriggerMarketDeferred {
        market: MarketId,
        reason: String,
    },
    /// Shared market health recovered from the previously deferred reason.
    TriggerMarketResumed {
        market: MarketId,
        previous_reason: String,
    },
    SubAccountCreated {
        owner: [u8; 20],
        sub_account_id: u32,
        address: [u8; 20],
        name: [u8; 32],
    },
    SubAccountTransferCompleted {
        owner: [u8; 20],
        from: [u8; 20],
        to: [u8; 20],
        amount: u64,
    },
}

impl Event {
    /// Whether the active trigger contract requires canonical chain
    /// coordinates on this event.
    pub open spec fn spec_requires_trigger_coordinates(self) -> bool {
        ||| self is TradeExecuted
        ||| self is PositionTriggersSet
        ||| self is PositionTriggersCancelled
        ||| self is PositionTriggersInvalidated
        ||| self is PositionTriggerActivated
        ||| self is PositionTriggerExecuted
        ||| self is PositionTriggerDeferred
        ||| self is TriggerMarketDeferred
        ||| self is TriggerMarketResumed
    }

    /// Whether the active trigger contract requires canonical chain
    /// coordinates on this event.
    pub fn requires_trigger_coordinates(&self) -> (r: bool)
        ensures
            r == self.spec_requires_trigger_coordinates(),
            r <==> (self is TradeExecuted
                || self is PositionTriggersSet
                || self is PositionTriggersCancelled
                || self is PositionTriggersInvalidated
                || self is PositionTriggerActivated
                || self is PositionTriggerExecuted
                || self is PositionTriggerDeferred
                || self is TriggerMarketDeferred
                || self is TriggerMarketResumed),
    {
        matches!(
            self,
            Event::TradeExecuted { .. } | Event::PositionTriggersSet { .. }
                | Event::PositionTriggersCancelled { .. } | Event::PositionTriggersInvalidated {
                .. } | Event::PositionTriggerActivated { .. } | Event::PositionTriggerExecuted {
                .. } | Event::PositionTriggerDeferred { .. } | Event::TriggerMarketDeferred { .. }
                | Event::TriggerMarketResumed { .. }
        )
    }

    /// The complete ABCI encoding of the event: its framed type, its
    /// attribute count (one per field), then one attribute per field in
    /// declaration order.
    pub open spec fn spec_abci_bytes(self) -> Seq<u8> {
        match self {
            Event::OrderPlaced {
                order_id,
                market,
                owner,
                side,
                price,
                quantity,
                client_order_id,
                time_in_force,
                post_only,
                reduce_only,
            } => abci_header("order_placed".spec_bytes(), 10)
                + attr("order_id".spec_bytes(), decimal(order_id as nat))
                + attr("market".spec_bytes(), decimal(market as nat))
                + attr("owner".spec_bytes(), hex(owner@))
                + attr("side".spec_bytes(), encode_utf8(side.spec_text()))
                + attr("price".spec_bytes(), decimal(price as nat))
                + attr("quantity".spec_bytes(), decimal(quantity as nat))
                + attr("client_order_id".spec_bytes(), decimal(client_order_id as nat))
                + attr("time_in_force".spec_bytes(), encode_utf8(time_in_force.spec_text()))
                + attr("post_only".spec_bytes(), encode_utf8(spec_bool_text(post_only)))
                + attr("reduce_only".spec_bytes(), encode_utf8(spec_bool_text(reduce_only))),
            Event::OrderCancelled {
                order_id,
                market,
                owner,
                reason,
                client_order_id,
                original_quantity,
                remaining_quantity,
                filled_quantity,
            } => abci_header("order_cancelled".spec_bytes(), 8)
                + attr("order_id".spec_bytes(), decimal(order_id as nat))
                + attr("market".spec_bytes(), decimal(market as nat))
                + attr("owner".spec_bytes(), hex(owner@))
                + attr("reason".spec_bytes(), encode_utf8(reason.spec_text()))
                + attr("client_order_id".spec_bytes(), decimal(client_order_id as nat))
                + attr("original_quantity".spec_bytes(), decimal(original_quantity as nat))
                + attr("remaining_quantity".spec_bytes(), decimal(remaining_quantity as nat))
                + attr("filled_quantity".spec_bytes(), decimal(filled_quantity as nat)),
            Event::OrderAmended {
                order_id,
                market,
                owner,
                side,
                old_price,
                new_price,
                old_quantity,
                new_quantity,
                remaining_quantity,
                filled_quantity,
                queue_priority_reset,
                client_order_id,
            } => abci_header("order_amended".spec_bytes(), 12)
                + attr("order_id".spec_bytes(), decimal(order_id as nat))
                + attr("market".spec_bytes(), decimal(market as nat))
                + attr("owner".spec_bytes(), hex(owner@))
                + attr("side".spec_bytes(), encode_utf8(side.spec_text()))
                + attr("old_price".spec_bytes(), decimal(old_price as nat))
                + attr("new_price".spec_bytes(), decimal(new_price as nat))
                + attr("old_quantity".spec_bytes(), decimal(old_quantity as nat))
                + attr("new_quantity".spec_bytes(), decimal(new_quantity as nat))
                + attr("remaining_quantity".spec_bytes(), decimal(remaining_quantity as nat))
                + attr("filled_quantity".spec_bytes(), decimal(filled_quantity as nat))
                + attr("queue_priority_reset".spec_bytes(), encode_utf8(spec_bool_text(queue_priority_reset)))
                + attr("client_order_id".spec_bytes(), decimal(client_order_id as nat)),
            Event::AtomicBasketExecuted { owner, leg_count, max_slippage_bps } => abci_header("atomic_basket_executed".spec_bytes(), 3)
                + attr("owner".spec_bytes(), hex(owner@))
                + attr("leg_count".spec_bytes(), decimal(leg_count as nat))
                + attr("max_slippage_bps".spec_bytes(), decimal(max_slippage_bps as nat)),
            Event::PriceUpdated { market, price, signer } => abci_header("price_updated".spec_bytes(), 3)
                + attr("market".spec_bytes(), decimal(market as nat))
                + attr("price".spec_bytes(), decimal(price as nat))
                + attr("signer".spec_bytes(), opt_hex(signer)),
            Event::TradeExecuted {
                fill_id,
                market,
                price,
                quantity,
                maker_order_id,
                maker_client_order_id,
                maker_owner,
                maker_side,
                taker_order_id,
                taker_owner,
                taker_client_order_id,
                taker_fee,
                maker_fee,
            } => abci_header("trade_executed".spec_bytes(), 13)
                + attr("fill_id".spec_bytes(), decimal(fill_id as nat))
                + attr("market".spec_bytes(), decimal(market as nat))
                + attr("price".spec_bytes(), decimal(price as nat))
                + attr("quantity".spec_bytes(), decimal(quantity as nat))
                + attr("maker_order_id".spec_bytes(), decimal(maker_order_id as nat))
                + attr("maker_client_order_id".spec_bytes(), decimal(maker_client_order_id as nat))
                + attr("maker_owner".spec_bytes(), hex(maker_owner@))
                + attr("maker_side".spec_bytes(), encode_utf8(maker_side.spec_text()))
                + attr("taker_order_id".spec_bytes(), decimal(taker_order_id as nat))
                + attr("taker_owner".spec_bytes(), hex(taker_owner@))
                + attr("taker_client_order_id".spec_bytes(), decimal(taker_client_order_id as nat))
                + attr("taker_fee".spec_bytes(), signed_decimal(taker_fee as int))
                + attr("maker_fee".spec_bytes(), signed_decimal(maker_fee as int)),
            Event::FeesCollected { market, taker_owner, taker_fee, maker_owner, maker_fee } => abci_header("fees_collected".spec_bytes(), 5)
                + attr("market".spec_bytes(), decimal(market as nat))
                + attr("taker_owner".spec_bytes(), hex(taker_owner@))
                + attr("taker_fee".spec_bytes(), signed_decimal(taker_fee as int))
                + attr("maker_owner".spec_bytes(), hex(maker_owner@))
                + attr("maker_fee".spec_bytes(), signed_decimal(maker_fee as int)),
            Event::Deposited { owner, amount, new_balance, signer } => abci_header("deposited".spec_bytes(), 4)
                + attr("owner".spec_bytes(), hex(owner@))
                + attr("amount".spec_bytes(), decimal(amount as nat))
                + attr("new_balance".spec_bytes(), decimal(new_balance as nat))
                + attr("signer".spec_bytes(), opt_hex(signer)),
            Event::Withdrawn { owner, amount, new_balance, signer } => abci_header("withdrawn".spec_bytes(), 4)
                + attr("owner".spec_bytes(), hex(owner@))
                + attr("amount".spec_bytes(), decimal(amount as nat))
                + attr("new_balance".spec_bytes(), decimal(new_balance as nat))
                + attr("signer".spec_bytes(), opt_hex(signer)),
            Event::PositionUpdated { owner, market, side, entry_price, size } => abci_header("position_updated".spec_bytes(), 5)
                + attr("owner".spec_bytes(), hex(owner@))
                + attr("market".spec_bytes(), decimal(market as nat))
                + attr("side".spec_bytes(), encode_utf8(side.spec_text()))
                + attr("entry_price".spec_bytes(), decimal(entry_price as nat))
                + attr("size".spec_bytes(), decimal(size as nat)),
            Event::PositionClosed { owner, market, realized_pnl } => abci_header("position_closed".spec_bytes(), 3)
                + attr("owner".spec_bytes(), hex(owner@))
                + attr("market".spec_bytes(), decimal(market as nat))
                + attr("realized_pnl".spec_bytes(), signed_decimal(realized_pnl as int)),
            Event::BinaryIssuedFromMTM {
                owner,
                cp_market,
                binary_market,
                signed_delta,
                final_size,
                final_entry,
                cash_pnl_realized,
            } => abci_header("binary_issued_from_mtm".spec_bytes(), 7)
                + attr("owner".spec_bytes(), hex(owner@))
                + attr("cp_market".spec_bytes(), decimal(cp_market as nat))
                + attr("binary_market".spec_bytes(), decimal(binary_market as nat))
                + attr("signed_delta".spec_bytes(), signed_decimal(signed_delta as int))
                + attr("final_size".spec_bytes(), decimal(final_size as nat))
                + attr("final_entry".spec_bytes(), decimal(final_entry as nat))
                + attr("cash_pnl_realized".spec_bytes(), signed_decimal(cash_pnl_realized as int)),
            Event::MarketCreated {
                market,
                im_bps,
                mm_bps,
                taker_fee_bps,
                maker_fee_bps,
                funding_interval_ms,
                max_funding_rate_bps,
                signer,
            } => abci_header("market_created".spec_bytes(), 8)
                + attr("market".spec_bytes(), decimal(market as nat))
                + attr("im_bps".spec_bytes(), decimal(im_bps as nat))
                + attr("mm_bps".spec_bytes(), decimal(mm_bps as nat))
                + attr("taker_fee_bps".spec_bytes(), decimal(taker_fee_bps as nat))
                + attr("maker_fee_bps".spec_bytes(), decimal(maker_fee_bps as nat))
                + attr("funding_interval_ms".spec_bytes(), decimal(funding_interval_ms as nat))
                + attr("max_funding_rate_bps".spec_bytes(), decimal(max_funding_rate_bps as nat))
                + attr("signer".spec_bytes(), opt_hex(signer)),
            Event::MarketConfigUpdated {
                market,
                im_bps,
                mm_bps,
                taker_fee_bps,
                maker_fee_bps,
                max_funding_rate_bps,
                funding_interval_ms,
                max_position_size,
                default_ttl_ms,
                net_delta_margin,
                tick_size,
                lot_size,
                primary_oracle_signer,
                oracle_staleness_ms,
                max_open_interest,
                signer,
            } => abci_header("market_config_updated".spec_bytes(), 16)
                + attr("market".spec_bytes(), decimal(market as nat))
                + attr("im_bps".spec_bytes(), decimal(im_bps as nat))
                + attr("mm_bps".spec_bytes(), decimal(mm_bps as nat))
                + attr("taker_fee_bps".spec_bytes(), decimal(taker_fee_bps as nat))
                + attr("maker_fee_bps".spec_bytes(), decimal(maker_fee_bps as nat))
                + attr("max_funding_rate_bps".spec_bytes(), decimal(max_funding_rate_bps as nat))
                + attr("funding_interval_ms".spec_bytes(), decimal(funding_interval_ms as nat))
                + attr("max_position_size".spec_bytes(), decimal(max_position_size as nat))
                + attr("default_ttl_ms".spec_bytes(), decimal(default_ttl_ms as nat))
                + attr("net_delta_margin".spec_bytes(), encode_utf8(spec_bool_text(net_delta_margin)))
                + attr("tick_size".spec_bytes(), decimal(tick_size as nat))
                + attr("lot_size".spec_bytes(), decimal(lot_size as nat))
                + attr("primary_oracle_signer".spec_bytes(), hex(primary_oracle_signer@))
                + attr("oracle_staleness_ms".spec_bytes(), decimal(oracle_staleness_ms as nat))
                + attr("max_open_interest".spec_bytes(), decimal(max_open_interest as nat))
                + attr("signer".spec_bytes(), opt_hex(signer)),
            Event::AccountFeeOverrideSet { account, taker_fee_bps, maker_fee_bps, signer } => abci_header("account_fee_override_set".spec_bytes(), 4)
                + attr("account".spec_bytes(), hex(account@))
                + attr("taker_fee_bps".spec_bytes(), decimal(taker_fee_bps as nat))
                + attr("maker_fee_bps".spec_bytes(), decimal(maker_fee_bps as nat))
                + attr("signer".spec_bytes(), opt_hex(signer)),
            Event::ImpactMarketCreated {
                impact_market_id,
                underlying_market,
                cpy_market,
                cpn_market,
                eby_market,
                ebn_market,
                question,
                deadline_ms,
                resolution_window_ms,
                description,
                rules,
            } => abci_header("impact_market_created".spec_bytes(), 11)
                + attr("impact_market_id".spec_bytes(), decimal(impact_market_id as nat))
                + attr("underlying_market".spec_bytes(), decimal(underlying_market as nat))
                + attr("cpy_market".spec_bytes(), decimal(cpy_market as nat))
                + attr("cpn_market".spec_bytes(), decimal(cpn_market as nat))
                + attr("eby_market".spec_bytes(), decimal(eby_market as nat))
                + attr("ebn_market".spec_bytes(), decimal(ebn_market as nat))
                + attr("question".spec_bytes(), encode_utf8(question@))
                + attr("deadline_ms".spec_bytes(), decimal(deadline_ms as nat))
                + attr("resolution_window_ms".spec_bytes(), decimal(resolution_window_ms as nat))
                + attr("description".spec_bytes(), encode_utf8(description@))
                + attr("rules".spec_bytes(), encode_utf8(rules@)),
            Event::EventCreated {
                event_id,
                eby_market,
                ebn_market,
                question,
                settlement_ms,
                resolution_window_ms,
                description,
                rules,
            } => abci_header("event_created".spec_bytes(), 8)
                + attr("event_id".spec_bytes(), decimal(event_id.0 as nat))
                + attr("eby_market".spec_bytes(), decimal(eby_market as nat))
                + attr("ebn_market".spec_bytes(), decimal(ebn_market as nat))
                + attr("question".spec_bytes(), encode_utf8(question@))
                + attr("settlement_ms".spec_bytes(), decimal(settlement_ms as nat))
                + attr("resolution_window_ms".spec_bytes(), decimal(resolution_window_ms as nat))
                + attr("description".spec_bytes(), encode_utf8(description@))
                + attr("rules".spec_bytes(), encode_utf8(rules@)),
            Event::ImpactMarketPreResolution { impact_market_id, timestamp_ms } => abci_header("impact_market_pre_resolution".spec_bytes(), 2)
                + attr("impact_market_id".spec_bytes(), decimal(impact_market_id as nat))
                + attr("timestamp_ms".spec_bytes(), decimal(timestamp_ms as nat)),
            Event::ImpactMarketResolved {
                impact_market_id,
                outcome,
                settlement_price,
                timestamp_ms,
                signer,
            } => abci_header("impact_market_resolved".spec_bytes(), 5)
                + attr("impact_market_id".spec_bytes(), decimal(impact_market_id as nat))
                + attr("outcome".spec_bytes(), encode_utf8(outcome.spec_text()))
                + attr("settlement_price".spec_bytes(), decimal(settlement_price as nat))
                + attr("timestamp_ms".spec_bytes(), decimal(timestamp_ms as nat))
                + attr("signer".spec_bytes(), opt_hex(signer)),
            Event::EventResolved { event_id, outcome, timestamp_ms, signer } => abci_header("event_resolved".spec_bytes(), 4)
                + attr("event_id".spec_bytes(), decimal(event_id.0 as nat))
                + attr("outcome".spec_bytes(), encode_utf8(outcome.spec_text()))
                + attr("timestamp_ms".spec_bytes(), decimal(timestamp_ms as nat))
                + attr("signer".spec_bytes(), opt_hex(signer)),
            Event::ConditionalSettled {
                event_id,
                market,
                owner,
                side,
                size,
                entry_price,
                settlement_price,
                realized_pnl,
                converted_size,
                fallback_reason,
            } => abci_header("conditional_settled".spec_bytes(), 10)
                + attr("event_id".spec_bytes(), decimal(event_id.0 as nat))
                + attr("market".spec_bytes(), decimal(market as nat))
                + attr("owner".spec_bytes(), hex(owner@))
                + attr("side".spec_bytes(), encode_utf8(side.spec_text()))
                + attr("size".spec_bytes(), decimal(size as nat))
                + attr("entry_price".spec_bytes(), decimal(entry_price as nat))
                + attr("settlement_price".spec_bytes(), decimal(settlement_price as nat))
                + attr("realized_pnl".spec_bytes(), signed_decimal(realized_pnl as int))
                + attr("converted_size".spec_bytes(), decimal(converted_size as nat))
                + attr("fallback_reason".spec_bytes(), opt_reason_text(fallback_reason)),
            Event::ConditionalVoided { impact_market_id, market, owner, side, size } => abci_header("conditional_voided".spec_bytes(), 5)
                + attr("impact_market_id".spec_bytes(), decimal(impact_market_id as nat))
                + attr("market".spec_bytes(), decimal(market as nat))
                + attr("owner".spec_bytes(), hex(owner@))
                + attr("side".spec_bytes(), encode_utf8(side.spec_text()))
                + attr("size".spec_bytes(), decimal(size as nat)),
            Event::PredictionSettled {
                impact_market_id,
                market,
                owner,
                side,
                size,
                payoff_per_share,
                cash_delta,
            } => abci_header("prediction_settled".spec_bytes(), 7)
                + attr("impact_market_id".spec_bytes(), decimal(impact_market_id as nat))
                + attr("market".spec_bytes(), decimal(market as nat))
                + attr("owner".spec_bytes(), hex(owner@))
                + attr("side".spec_bytes(), encode_utf8(side.spec_text()))
                + attr("size".spec_bytes(), decimal(size as nat))
                + attr("payoff_per_share".spec_bytes(), decimal(payoff_per_share as nat))
                + attr("cash_delta".spec_bytes(), signed_decimal(cash_delta as int)),
            Event::AccountLiquidated { owner, market, side, size, mark_price, realized_pnl } => abci_header("account_liquidated".spec_bytes(), 6)
                + attr("owner".spec_bytes(), hex(owner@))
                + attr("market".spec_bytes(), decimal(market as nat))
                + attr("side".spec_bytes(), encode_utf8(side.spec_text()))
                + attr("size".spec_bytes(), decimal(size as nat))
                + attr("mark_price".spec_bytes(), decimal(mark_price as nat))
                + attr("realized_pnl".spec_bytes(), signed_decimal(realized_pnl as int)),
            Event::InsuranceFundUpdated { pool_id, balance, delta } => abci_header("insurance_fund_updated".spec_bytes(), 3)
                + attr("pool_id".spec_bytes(), decimal(pool_id as nat))
                + attr("balance".spec_bytes(), signed_decimal(balance as int))
                + attr("delta".spec_bytes(), signed_decimal(delta as int)),
            Event::HlpAbsorbed { pool_id, amount, hlp_balance_after } => abci_header("hlp_absorbed".spec_bytes(), 3)
                + attr("pool_id".spec_bytes(), decimal(pool_id as nat))
                + attr("amount".spec_bytes(), decimal(amount as nat))
                + attr("hlp_balance_after".spec_bytes(), signed_decimal(hlp_balance_after as int)),
            Event::SocializedLossApplied { pool_id, total_amount, cap_target, cap_bps, affected_count } => abci_header("socialized_loss_applied".spec_bytes(), 5)
                + attr("pool_id".spec_bytes(), decimal(pool_id as nat))
                + attr("total_amount".spec_bytes(), decimal(total_amount as nat))
                + attr("cap_target".spec_bytes(), decimal(cap_target as nat))
                + attr("cap_bps".spec_bytes(), decimal(cap_bps as nat))
                + attr("affected_count".spec_bytes(), decimal(affected_count as nat)),
            Event::PositionAutoDeleveraged {
                owner,
                market,
                side,
                size,
                close_price,
                close_price_spec,
                realized_pnl,
            } => abci_header("position_auto_deleveraged".spec_bytes(), 7)
                + attr("owner".spec_bytes(), hex(owner@))
                + attr("market".spec_bytes(), decimal(market as nat))
                + attr("side".spec_bytes(), encode_utf8(side.spec_text()))
                + attr("size".spec_bytes(), decimal(size as nat))
                + attr("close_price".spec_bytes(), decimal(close_price as nat))
                + attr("close_price_spec".spec_bytes(), decimal(close_price_spec as nat))
                + attr("realized_pnl".spec_bytes(), signed_decimal(realized_pnl as int)),
            Event::WithdrawRequested { withdrawal_id, owner, amount, solana_destination } => abci_header("withdraw_requested".spec_bytes(), 4)
                + attr("withdrawal_id".spec_bytes(), decimal(withdrawal_id as nat))
                + attr("owner".spec_bytes(), hex(owner@))
                + attr("amount".spec_bytes(), decimal(amount as nat))
                + attr("solana_destination".spec_bytes(), hex(solana_destination@)),
            Event::DepositConfirmed { owner, amount, new_balance, solana_tx_sig, signer } => abci_header("deposit_confirmed".spec_bytes(), 5)
                + attr("owner".spec_bytes(), hex(owner@))
                + attr("amount".spec_bytes(), decimal(amount as nat))
                + attr("new_balance".spec_bytes(), decimal(new_balance as nat))
                + attr("solana_tx_sig".spec_bytes(), hex(solana_tx_sig@))
                + attr("signer".spec_bytes(), opt_hex(signer)),
            Event::DepositFailed { solana_signature, reason, signer } => abci_header("deposit_failed".spec_bytes(), 3)
                + attr("solana_signature".spec_bytes(), hex(solana_signature@))
                + attr("reason".spec_bytes(), encode_utf8(reason.spec_text()))
                + attr("signer".spec_bytes(), opt_hex(signer)),
            Event::WithdrawalConfirmed { withdrawal_id, solana_tx_sig, signer } => abci_header("withdrawal_confirmed".spec_bytes(), 3)
                + attr("withdrawal_id".spec_bytes(), decimal(withdrawal_id as nat))
                + attr("solana_tx_sig".spec_bytes(), hex(solana_tx_sig@))
                + attr("signer".spec_bytes(), opt_hex(signer)),
            Event::WithdrawalFailed { withdrawal_id, owner, amount, new_balance, reason, signer } => abci_header("withdrawal_failed".spec_bytes(), 6)
                + attr("withdrawal_id".spec_bytes(), decimal(withdrawal_id as nat))
                + attr("owner".spec_bytes(), hex(owner@))
                + attr("amount".spec_bytes(), decimal(amount as nat))
                + attr("new_balance".spec_bytes(), decimal(new_balance as nat))
                + attr("reason".spec_bytes(), encode_utf8(reason@))
                + attr("signer".spec_bytes(), opt_hex(signer)),
            Event::WithdrawalAuthorized { withdrawal_id, authorization_digest } => abci_header("withdrawal_authorized".spec_bytes(), 2)
                + attr("withdrawal_id".spec_bytes(), decimal(withdrawal_id as nat))
                + attr("authorization_digest".spec_bytes(), hex(authorization_digest@)),
            Event::AgentApproved { owner, agent, agent_pubkey } => abci_header("agent_approved".spec_bytes(), 3)
                + attr("owner".spec_bytes(), hex(owner@))
                + attr("agent".spec_bytes(), hex(agent@))
                + attr("agent_pubkey".spec_bytes(), hex(agent_pubkey@)),
            Event::AgentRevoked { owner, agent, agent_pubkey } => abci_header("agent_revoked".spec_bytes(), 3)
                + attr("owner".spec_bytes(), hex(owner@))
                + attr("agent".spec_bytes(), hex(agent@))
                + attr("agent_pubkey".spec_bytes(), hex(agent_pubkey@)),
            Event::FundingApplied { market, funding_rate_bps, cumulative_funding, timestamp_ms } => abci_header("funding_applied".spec_bytes(), 4)
                + attr("market".spec_bytes(), decimal(market as nat))
                + attr("funding_rate_bps".spec_bytes(), signed_decimal(funding_rate_bps as int))
                + attr("cumulative_funding".spec_bytes(), signed_decimal(cumulative_funding as int))
                + attr("timestamp_ms".spec_bytes(), decimal(timestamp_ms as nat)),
            Event::FundingSettled { owner, market, payment } => abci_header("funding_settled".spec_bytes(), 3)
                + attr("owner".spec_bytes(), hex(owner@))
                + attr("market".spec_bytes(), decimal(market as nat))
                + attr("payment".spec_bytes(), signed_decimal(payment as int)),
            Event::FundingShortfall { owner, market, owed, actual, shortfall } => abci_header("funding_shortfall".spec_bytes(), 5)
                + attr("owner".spec_bytes(), hex(owner@))
                + attr("market".spec_bytes(), decimal(market as nat))
                + attr("owed".spec_bytes(), signed_decimal(owed as int))
                + attr("actual".spec_bytes(), signed_decimal(actual as int))
                + attr("shortfall".spec_bytes(), decimal(shortfall as nat)),
            Event::MarginWarning { owner, equity, maintenance_margin } => abci_header("margin_warning".spec_bytes(), 3)
                + attr("owner".spec_bytes(), hex(owner@))
                + attr("equity".spec_bytes(), signed_decimal(equity as int))
                + attr("maintenance_margin".spec_bytes(), decimal(maintenance_margin as nat)),
            Event::MarketOrderProcessed {
                order_id,
                market,
                owner,
                side,
                requested_quantity,
                filled_quantity,
                client_order_id,
            } => abci_header("market_order_processed".spec_bytes(), 7)
                + attr("order_id".spec_bytes(), decimal(order_id as nat))
                + attr("market".spec_bytes(), decimal(market as nat))
                + attr("owner".spec_bytes(), hex(owner@))
                + attr("side".spec_bytes(), encode_utf8(side.spec_text()))
                + attr("requested_quantity".spec_bytes(), decimal(requested_quantity as nat))
                + attr("filled_quantity".spec_bytes(), decimal(filled_quantity as nat))
                + attr("client_order_id".spec_bytes(), decimal(client_order_id as nat)),
            Event::UserMarketLeverageSet { owner, market, user_im_bps } => abci_header("user_market_leverage_set".spec_bytes(), 3)
                + attr("owner".spec_bytes(), hex(owner@))
                + attr("market".spec_bytes(), decimal(market as nat))
                + attr("user_im_bps".spec_bytes(), decimal(user_im_bps as nat)),
            Event::SocializedLossSettled { owner, market, owed, collected } => abci_header("socialized_loss_settled".spec_bytes(), 4)
                + attr("owner".spec_bytes(), hex(owner@))
                + attr("market".spec_bytes(), decimal(market as nat))
                + attr("owed".spec_bytes(), decimal(owed as nat))
                + attr("collected".spec_bytes(), decimal(collected as nat)),
            Event::ProposalCreated {
                proposal_id,
                proposer,
                registry_version,
                threshold,
                action_tag,
                content_hash,
                created_ms,
                expiry_ms,
            } => abci_header("proposal_created".spec_bytes(), 8)
                + attr("proposal_id".spec_bytes(), decimal(proposal_id as nat))
                + attr("proposer".spec_bytes(), hex(proposer@))
                + attr("registry_version".spec_bytes(), decimal(registry_version as nat))
                + attr("threshold".spec_bytes(), decimal(threshold as nat))
                + attr("action_tag".spec_bytes(), decimal(action_tag as nat))
                + attr("content_hash".spec_bytes(), hex(content_hash@))
                + attr("created_ms".spec_bytes(), decimal(created_ms as nat))
                + attr("expiry_ms".spec_bytes(), decimal(expiry_ms as nat)),
            Event::ProposalApproved { proposal_id, approver, approvals_count, threshold } => abci_header("proposal_approved".spec_bytes(), 4)
                + attr("proposal_id".spec_bytes(), decimal(proposal_id as nat))
                + attr("approver".spec_bytes(), hex(approver@))
                + attr("approvals_count".spec_bytes(), decimal(approvals_count as nat))
                + attr("threshold".spec_bytes(), decimal(threshold as nat)),
            Event::ProposalExecuted { proposal_id } => abci_header("proposal_executed".spec_bytes(), 1)
                + attr("proposal_id".spec_bytes(), decimal(proposal_id as nat)),
            Event::ProposalFailed { proposal_id, error_code } => abci_header("proposal_failed".spec_bytes(), 2)
                + attr("proposal_id".spec_bytes(), decimal(proposal_id as nat))
                + attr("error_code".spec_bytes(), decimal(error_code as nat)),
            Event::ProposalRejected { proposal_id, rejecter, by_proposer, rejections_count } => abci_header("proposal_rejected".spec_bytes(), 4)
                + attr("proposal_id".spec_bytes(), decimal(proposal_id as nat))
                + attr("rejecter".spec_bytes(), hex(rejecter@))
                + attr("by_proposer".spec_bytes(), encode_utf8(spec_bool_text(by_proposer)))
                + attr("rejections_count".spec_bytes(), decimal(rejections_count as nat)),
            Event::ProposalExpired { proposal_id, reason } => abci_header("proposal_expired".spec_bytes(), 2)
                + attr("proposal_id".spec_bytes(), decimal(proposal_id as nat))
                + attr("reason".spec_bytes(), encode_utf8(reason.spec_text())),
            Event::EmergencyActionExecuted { signer, action_tag, market_id } => abci_header("emergency_action_executed".spec_bytes(), 3)
                + attr("signer".spec_bytes(), hex(signer@))
                + attr("action_tag".spec_bytes(), decimal(action_tag as nat))
                + attr("market_id".spec_bytes(), decimal(market_id as nat)),
            Event::AdminSignerRegistryUpdated { version, threshold, members } => abci_header("admin_signer_registry_updated".spec_bytes(), 3)
                + attr("version".spec_bytes(), decimal(version as nat))
                + attr("threshold".spec_bytes(), decimal(threshold as nat))
                + attr("members".spec_bytes(), encode_utf8(members@)),
            Event::BridgeUnpauseAuthorized { proposal_id } => abci_header("bridge_unpause_authorized".spec_bytes(), 1)
                + attr("proposal_id".spec_bytes(), decimal(proposal_id as nat)),
            Event::AuthoritySetUpdated { domain, added, removed, proposal_id } => abci_header("authority_set_updated".spec_bytes(), 4)
                + attr("domain".spec_bytes(), decimal(domain as nat))
                + attr("added".spec_bytes(), encode_utf8(added@))
                + attr("removed".spec_bytes(), encode_utf8(removed@))
                + attr("proposal_id".spec_bytes(), decimal(proposal_id as nat)),
            Event::OracleGuardsUpdated {
                market,
                mark_price_max_oracle_age_ms,
                max_oracle_deviation_bps,
                proposal_id,
            } => abci_header("oracle_guards_updated".spec_bytes(), 4)
                + attr("market".spec_bytes(), decimal(market as nat))
                + attr("mark_price_max_oracle_age_ms".spec_bytes(), decimal(mark_price_max_oracle_age_ms as nat))
                + attr("max_oracle_deviation_bps".spec_bytes(), decimal(max_oracle_deviation_bps as nat))
                + attr("proposal_id".spec_bytes(), decimal(proposal_id as nat)),
            Event::OracleUpdateRejected {
                market,
                submitted_price,
                last_good,
                max_oracle_deviation_bps,
                signer,
                reason,
            } => abci_header("oracle_update_rejected".spec_bytes(), 6)
                + attr("market".spec_bytes(), decimal(market as nat))
                + attr("submitted_price".spec_bytes(), decimal(submitted_price as nat))
                + attr("last_good".spec_bytes(), decimal(last_good as nat))
                + attr("max_oracle_deviation_bps".spec_bytes(), decimal(max_oracle_deviation_bps as nat))
                + attr("signer".spec_bytes(), opt_hex(signer))
                + attr("reason".spec_bytes(), encode_utf8(reason.spec_text())),
            Event::FundingSkipped { market, timestamp_ms, reason } => abci_header("funding_skipped".spec_bytes(), 3)
                + attr("market".spec_bytes(), decimal(market as nat))
                + attr("timestamp_ms".spec_bytes(), decimal(timestamp_ms as nat))
                + attr("reason".spec_bytes(), encode_utf8(reason.spec_text())),
            Event::TriggerMarketConfigScheduled {
                market,
                version,
                accepted_height,
                effective_height,
                enabled,
                max_trigger_slippage_bps,
                max_mark_age_ms,
                max_future_publish_skew_ms,
                max_active_brackets,
            } => abci_header("trigger_market_config_scheduled".spec_bytes(), 9)
                + attr("market".spec_bytes(), decimal(market as nat))
                + attr("version".spec_bytes(), decimal(version as nat))
                + attr("accepted_height".spec_bytes(), decimal(accepted_height as nat))
                + attr("effective_height".spec_bytes(), decimal(effective_height as nat))
                + attr("enabled".spec_bytes(), encode_utf8(spec_bool_text(enabled)))
                + attr("max_trigger_slippage_bps".spec_bytes(), decimal(max_trigger_slippage_bps as nat))
                + attr("max_mark_age_ms".spec_bytes(), decimal(max_mark_age_ms as nat))
                + attr("max_future_publish_skew_ms".spec_bytes(), decimal(max_future_publish_skew_ms as nat))
                + attr("max_active_brackets".spec_bytes(), decimal(max_active_brackets as nat)),
            Event::TriggerMarketConfigActivated {
                market,
                version,
                effective_height,
                enabled,
                max_trigger_slippage_bps,
                max_mark_age_ms,
                max_future_publish_skew_ms,
                max_active_brackets,
            } => abci_header("trigger_market_config_activated".spec_bytes(), 8)
                + attr("market".spec_bytes(), decimal(market as nat))
                + attr("version".spec_bytes(), decimal(version as nat))
                + attr("effective_height".spec_bytes(), decimal(effective_height as nat))
                + attr("enabled".spec_bytes(), encode_utf8(spec_bool_text(enabled)))
                + attr("max_trigger_slippage_bps".spec_bytes(), decimal(max_trigger_slippage_bps as nat))
                + attr("max_mark_age_ms".spec_bytes(), decimal(max_mark_age_ms as nat))
                + attr("max_future_publish_skew_ms".spec_bytes(), decimal(max_future_publish_skew_ms as nat))
                + attr("max_active_brackets".spec_bytes(), decimal(max_active_brackets as nat)),
            Event::PositionTriggersSet {
                owner,
                market,
                position_epoch,
                group_id,
                client_group_id,
                stop_limb_id,
                stop_client_trigger_id,
                take_profit_limb_id,
                take_profit_client_trigger_id,
                accepted_height,
                active_from_height,
                replaced_group_id,
            } => abci_header("position_triggers_set".spec_bytes(), 12)
                + attr("owner".spec_bytes(), hex(owner@))
                + attr("market".spec_bytes(), decimal(market as nat))
                + attr("position_epoch".spec_bytes(), decimal(position_epoch as nat))
                + attr("group_id".spec_bytes(), decimal(group_id as nat))
                + attr("client_group_id".spec_bytes(), decimal(client_group_id as nat))
                + attr("stop_limb_id".spec_bytes(), decimal(stop_limb_id as nat))
                + attr("stop_client_trigger_id".spec_bytes(), decimal(stop_client_trigger_id as nat))
                + attr("take_profit_limb_id".spec_bytes(), decimal(take_profit_limb_id as nat))
                + attr("take_profit_client_trigger_id".spec_bytes(), decimal(take_profit_client_trigger_id as nat))
                + attr("accepted_height".spec_bytes(), decimal(accepted_height as nat))
                + attr("active_from_height".spec_bytes(), decimal(active_from_height as nat))
                + attr("replaced_group_id".spec_bytes(), decimal(replaced_group_id as nat)),
            Event::PositionTriggersCancelled { owner, market, position_epoch, group_id } => abci_header("position_triggers_cancelled".spec_bytes(), 4)
                + attr("owner".spec_bytes(), hex(owner@))
                + attr("market".spec_bytes(), decimal(market as nat))
                + attr("position_epoch".spec_bytes(), decimal(position_epoch as nat))
                + attr("group_id".spec_bytes(), decimal(group_id as nat)),
            Event::PositionTriggersInvalidated { owner, market, position_epoch, group_id } => abci_header("position_triggers_invalidated".spec_bytes(), 4)
                + attr("owner".spec_bytes(), hex(owner@))
                + attr("market".spec_bytes(), decimal(market as nat))
                + attr("position_epoch".spec_bytes(), decimal(position_epoch as nat))
                + attr("group_id".spec_bytes(), decimal(group_id as nat)),
            Event::PositionTriggerActivated {
                owner,
                market,
                position_epoch,
                group_id,
                limb_id,
                client_group_id,
                client_trigger_id,
                limb_kind,
                trigger_price,
                frozen_mark,
                limit_price,
                requested_quantity,
                execution_order_id,
            } => abci_header("position_trigger_activated".spec_bytes(), 13)
                + attr("owner".spec_bytes(), hex(owner@))
                + attr("market".spec_bytes(), decimal(market as nat))
                + attr("position_epoch".spec_bytes(), decimal(position_epoch as nat))
                + attr("group_id".spec_bytes(), decimal(group_id as nat))
                + attr("limb_id".spec_bytes(), decimal(limb_id as nat))
                + attr("client_group_id".spec_bytes(), decimal(client_group_id as nat))
                + attr("client_trigger_id".spec_bytes(), decimal(client_trigger_id as nat))
                + attr("limb_kind".spec_bytes(), encode_utf8(limb_kind@))
                + attr("trigger_price".spec_bytes(), decimal(trigger_price as nat))
                + attr("frozen_mark".spec_bytes(), decimal(frozen_mark as nat))
                + attr("limit_price".spec_bytes(), decimal(limit_price as nat))
                + attr("requested_quantity".spec_bytes(), decimal(requested_quantity as nat))
                + attr("execution_order_id".spec_bytes(), decimal(execution_order_id as nat)),
            Event::PositionTriggerExecuted {
                owner,
                market,
                position_epoch,
                group_id,
                limb_id,
                client_group_id,
                client_trigger_id,
                limb_kind,
                trigger_price,
                frozen_mark,
                limit_price,
                requested_quantity,
                filled_quantity,
                residual_quantity,
                execution_order_id,
                total_fee,
                result,
                reason,
            } => abci_header("position_trigger_executed".spec_bytes(), 18)
                + attr("owner".spec_bytes(), hex(owner@))
                + attr("market".spec_bytes(), decimal(market as nat))
                + attr("position_epoch".spec_bytes(), decimal(position_epoch as nat))
                + attr("group_id".spec_bytes(), decimal(group_id as nat))
                + attr("limb_id".spec_bytes(), decimal(limb_id as nat))
                + attr("client_group_id".spec_bytes(), decimal(client_group_id as nat))
                + attr("client_trigger_id".spec_bytes(), decimal(client_trigger_id as nat))
                + attr("limb_kind".spec_bytes(), encode_utf8(limb_kind@))
                + attr("trigger_price".spec_bytes(), decimal(trigger_price as nat))
                + attr("frozen_mark".spec_bytes(), decimal(frozen_mark as nat))
                + attr("limit_price".spec_bytes(), decimal(limit_price as nat))
                + attr("requested_quantity".spec_bytes(), decimal(requested_quantity as nat))
                + attr("filled_quantity".spec_bytes(), decimal(filled_quantity as nat))
                + attr("residual_quantity".spec_bytes(), decimal(residual_quantity as nat))
                + attr("execution_order_id".spec_bytes(), decimal(execution_order_id as nat))
                + attr("total_fee".spec_bytes(), signed_decimal(total_fee as int))
                + attr("result".spec_bytes(), encode_utf8(result@))
                + attr("reason".spec_bytes(), encode_utf8(reason@)),
            Event::PositionTriggerDeferred {
                owner,
                market,
                position_epoch,
                group_id,
                limb_id,
                client_group_id,
                client_trigger_id,
                limb_kind,
                trigger_price,
                frozen_mark,
                requested_quantity,
                reason,
            } => abci_header("position_trigger_deferred".spec_bytes(), 12)
                + attr("owner".spec_bytes(), hex(owner@))
                + attr("market".spec_bytes(), decimal(market as nat))
                + attr("position_epoch".spec_bytes(), decimal(position_epoch as nat))
                + attr("group_id".spec_bytes(), decimal(group_id as nat))
                + attr("limb_id".spec_bytes(), decimal(limb_id as nat))
                + attr("client_group_id".spec_bytes(), decimal(client_group_id as nat))
                + attr("client_trigger_id".spec_bytes(), decimal(client_trigger_id as nat))
                + attr("limb_kind".spec_bytes(), encode_utf8(limb_kind@))
                + attr("trigger_price".spec_bytes(), decimal(trigger_price as nat))
                + attr("frozen_mark".spec_bytes(), decimal(frozen_mark as nat))
                + attr("requested_quantity".spec_bytes(), decimal(requested_quantity as nat))
                + attr("reason".spec_bytes(), encode_utf8(reason@)),
            Event::TriggerMarketDeferred { market, reason } => abci_header("trigger_market_deferred".spec_bytes(), 2)
                + attr("market".spec_bytes(), decimal(market as nat))
                + attr("reason".spec_bytes(), encode_utf8(reason@)),
            Event::TriggerMarketResumed { market, previous_reason } => abci_header("trigger_market_resumed".spec_bytes(), 2)
                + attr("market".spec_bytes(), decimal(market as nat))
                + attr("previous_reason".spec_bytes(), encode_utf8(previous_reason@)),
            Event::SubAccountCreated { owner, sub_account_id, address, name } => abci_header("sub_account_created".spec_bytes(), 4)
                + attr("owner".spec_bytes(), hex(owner@))
                + attr("sub_account_id".spec_bytes(), decimal(sub_account_id as nat))
                + attr("address".spec_bytes(), hex(address@))
                + attr("name".spec_bytes(), hex(name@)),
            Event::SubAccountTransferCompleted { owner, from, to, amount } => abci_header("sub_account_transfer_completed".spec_bytes(), 4)
                + attr("owner".spec_bytes(), hex(owner@))
                + attr("from".spec_bytes(), hex(from@))
                + attr("to".spec_bytes(), hex(to@))
                + attr("amount".spec_bytes(), decimal(amount as nat)),
        }
    }


    /// Appends this event as one ABCI event.
    pub fn encode_abci(&self, writer: &mut AbciEventWriter)
        ensures
            final(writer)@ == old(writer)@ + self.spec_abci_bytes(),
    {
        match self {
            Event::OrderPlaced { .. }
            | Event::OrderCancelled { .. }
            | Event::OrderAmended { .. }
            | Event::AtomicBasketExecuted { .. }
            | Event::PriceUpdated { .. }
            | Event::TradeExecuted { .. }
            | Event::FeesCollected { .. }
            | Event::Deposited { .. }
            | Event::Withdrawn { .. }
            | Event::PositionUpdated { .. }
            | Event::PositionClosed { .. }
            | Event::BinaryIssuedFromMTM { .. } => self.encode_trading(writer),
            Event::MarketCreated { .. }
            | Event::MarketConfigUpdated { .. }
            | Event::AccountFeeOverrideSet { .. }
            | Event::ImpactMarketCreated { .. }
            | Event::EventCreated { .. }
            | Event::ImpactMarketPreResolution { .. }
            | Event::ImpactMarketResolved { .. }
            | Event::EventResolved { .. }
            | Event::ConditionalSettled { .. }
            | Event::ConditionalVoided { .. }
            | Event::PredictionSettled { .. } => self.encode_market(writer),
            Event::AccountLiquidated { .. }
            | Event::InsuranceFundUpdated { .. }
            | Event::HlpAbsorbed { .. }
            | Event::SocializedLossApplied { .. }
            | Event::PositionAutoDeleveraged { .. } => self.encode_risk(writer),
            Event::WithdrawRequested { .. }
            | Event::DepositConfirmed { .. }
            | Event::DepositFailed { .. }
            | Event::WithdrawalConfirmed { .. }
            | Event::WithdrawalFailed { .. }
            | Event::WithdrawalAuthorized { .. }
            | Event::AgentApproved { .. }
            | Event::AgentRevoked { .. } => self.encode_custody(writer),
            Event::FundingApplied { .. }
            | Event::FundingSettled { .. }
            | Event::FundingShortfall { .. }
            | Event::MarginWarning { .. }
            | Event::MarketOrderProcessed { .. }
            | Event::UserMarketLeverageSet { .. }
            | Event::SocializedLossSettled { .. } => self.encode_funding(writer),
            Event::ProposalCreated { .. }
            | Event::ProposalApproved { .. }
            | Event::ProposalExecuted { .. }
            | Event::ProposalFailed { .. }
            | Event::ProposalRejected { .. }
            | Event::ProposalExpired { .. }
            | Event::EmergencyActionExecuted { .. }
            | Event::AdminSignerRegistryUpdated { .. }
            | Event::BridgeUnpauseAuthorized { .. }
            | Event::AuthoritySetUpdated { .. }
            | Event::OracleGuardsUpdated { .. }
            | Event::OracleUpdateRejected { .. }
            | Event::FundingSkipped { .. } => self.encode_governance(writer),
            Event::TriggerMarketConfigScheduled { .. }
            | Event::TriggerMarketConfigActivated { .. }
            | Event::PositionTriggersSet { .. }
            | Event::PositionTriggersCancelled { .. }
            | Event::PositionTriggersInvalidated { .. }
            | Event::PositionTriggerActivated { .. }
            | Event::PositionTriggerExecuted { .. }
            | Event::PositionTriggerDeferred { .. }
            | Event::TriggerMarketDeferred { .. }
            | Event::TriggerMarketResumed { .. }
            | Event::SubAccountCreated { .. }
            | Event::SubAccountTransferCompleted { .. } => self.encode_trigger(writer),
        }
    }

    /// Appends one of the order, trade and position events.
    #[verifier::rlimit(50)]
    fn encode_trading(&self, writer: &mut AbciEventWriter)
        requires
            self is OrderPlaced
            || self is OrderCancelled
            || self is OrderAmended
            || self is AtomicBasketExecuted
            || self is PriceUpdated
            || self is TradeExecuted
            || self is FeesCollected
            || self is Deposited
            || self is Withdrawn
            || self is PositionUpdated
            || self is PositionClosed
            || self is BinaryIssuedFromMTM,
        ensures
            final(writer)@ == old(writer)@ + self.spec_abci_bytes(),
    {
        let ghost start = writer@;
        match self {
            Event::OrderPlaced {
                order_id,
                market,
                owner,
                side,
                price,
                quantity,
                client_order_id,
                time_in_force,
                post_only,
                reduce_only,
            } => {
                writer.begin_event("order_placed", 10);
                let ghost mut acc = abci_header("order_placed".spec_bytes(), 10);
                proof {
                    lemma_concat_associative(start, frame("order_placed".spec_bytes()), le16(10));
                }
                writer.write_attr_u64("order_id", *order_id);
                proof {
                    let a = attr("order_id".spec_bytes(), decimal(*order_id as nat));
                    lemma_concat_associative(start, acc, a);
                    acc = acc + a;
                }
                writer.write_attr_u64("market", *market as u64);
                proof {
                    let a = attr("market".spec_bytes(), decimal(*market as nat));
                    lemma_concat_associative(start, acc, a);
                    acc = acc + a;
                }
                writer.write_attr_hex("owner", owner.as_slice());
                proof {
                    let a = attr("owner".spec_bytes(), hex((*owner)@));
                    lemma_concat_associative(start, acc, a);
                    acc = acc + a;
                }
                writer.write_attr("side", side.as_str());
                proof {
                    let a = attr("side".spec_bytes(), encode_utf8((*side).spec_text()));
                    lemma_concat_associative(start, acc, a);
                    acc = acc + a;
                }
                writer.write_attr_u64("price", *price);
                proof {
                    let a = attr("price".spec_bytes(), decimal(*price as nat));
                    lemma_concat_associative(start, acc, a);
                    acc = acc + a;
                }
                writer.write_attr_u64("quantity", *quantity);
                proof {
                    let a = attr("quantity".spec_bytes(), decimal(*quantity as nat));
                    lemma_concat_associative(start, acc, a);
                    acc = acc + a;
                }
                writer.write_attr_u64("client_order_id", *client_order_id);
                proof {
                    let a = attr("client_order_id".spec_bytes(), decimal(*client_order_id as nat));
                    lemma_concat_associative(start, acc, a);
                    acc = acc + a;
                }
                writer.write_attr("time_in_force", time_in_force.as_str());
                proof {
                    let a = attr("time_in_force".spec_bytes(), encode_utf8((*time_in_force).spec_text()));
                    lemma_concat_associative(start, acc, a);
                    acc = acc + a;
                }
                writer.write_attr("post_only", bool_text(*post_only));
                proof {
                    let a = attr("post_only".spec_bytes(), encode_utf8(spec_bool_text(*post_only)));
                    lemma_concat_associative(start, acc, a);
                    acc = acc + a;
                }
                writer.write_attr("reduce_only", bool_text(*reduce_only));
                proof {
                    let a = attr("reduce_only".spec_bytes(), encode_utf8(spec_bool_text(*reduce_only)));
                    lemma_concat_associative(start, acc, a);
                    acc = acc + a;
                }
                assert(writer@ == start + self.spec_abci_bytes());
            },
            Event::OrderCancelled {
                order_id,
                market,
                owner,
                reason,
                client_order_id,
                original_quantity,
                remaining_quantity,
                filled_quantity,
            } => {
                writer.begin_event("order_cancelled", 8);
                let ghost mut acc = abci_header("order_cancelled".spec_bytes(), 8);
                proof {
                    lemma_concat_associative(start, frame("order_cancelled".spec_bytes()), le16(8));
                }
                writer.write_attr_u64("order_id", *order_id);
                proof {
                    let a = attr("order_id".spec_bytes(), decimal(*order_id as nat));
                    lemma_concat_associative(start, acc, a);
                    acc = acc + a;
                }
                writer.write_attr_u64("market", *market as u64);
                proof {
                    let a = attr("market".spec_bytes(), decimal(*market as nat));
                    lemma_concat_associative(start, acc, a);
                    acc = acc + a;
                }
                writer.write_attr_hex("owner", owner.as_slice());
                proof {
                    let a = attr("owner".spec_bytes(), hex((*owner)@));
                    lemma_concat_associative(start, acc, a);
                    acc = acc + a;
                }
                writer.write_attr("reason", reason.as_str());
                proof {
                    let a = attr("reason".spec_bytes(), encode_utf8((*reason).spec_text()));
                    lemma_concat_associative(start, acc, a);
                    acc = acc + a;
                }
                writer.write_attr_u64("client_order_id", *client_order_id);
                proof {
                    let a = attr("client_order_id".spec_bytes(), decimal(*client_order_id as nat));
                    lemma_concat_associative(start, acc, a);
                    acc = acc + a;
                }
                writer.write_attr_u64("original_quantity", *original_quantity);
                proof {
                    let a = attr("original_quantity".spec_bytes(), decimal(*original_quantity as nat));
                    lemma_concat_associative(start, acc, a);
                    acc = acc + a;
                }
                writer.write_attr_u64("remaining_quantity", *remaining_quantity);
                proof {
                    let a = attr("remaining_quantity".spec_bytes(), decimal(*remaining_quantity as nat));
                    lemma_concat_associative(start, acc, a);
                    acc = acc + a;
                }
                writer.write_attr_u64("filled_quantity", *filled_quantity);
                proof {
                    let a = attr("filled_quantity".spec_bytes(), decimal(*filled_quantity as nat));
                    lemma_concat_associative(start, acc, a);
                    acc = acc + a;
                }
                assert(writer@ == start + self.spec_abci_bytes());
            },
            Event::OrderAmended {
                order_id,
                market,
                owner,
                side,
                old_price,
                new_price,
                old_quantity,
                new_quantity,
                remaining_quantity,
                filled_quantity,
                queue_priority_reset,
                client_order_id,
            } => {
                writer.begin_event("order_amended", 12);
                let ghost mut acc = abci_header("order_amended".spec_bytes(), 12);
                proof {
                    lemma_concat_associative(start, frame("order_amended".spec_bytes()), le16(12));
                }
                writer.write_attr_u64("order_id", *order_id);
                proof {
                    let a = attr("order_id".spec_bytes(), decimal(*order_id as nat));
                    lemma_concat_associative(start, acc, a);
                    acc = acc + a;
                }
                writer.write_attr_u64("market", *market as u64);
                proof {
                    let a = attr("market".spec_bytes(), decimal(*market as nat));
                    lemma_concat_associative(start, acc, a);
                    acc = acc + a;
                }
                writer.write_attr_hex("owner", owner.as_slice());
                proof {
                    let a = attr("owner".spec_bytes(), hex((*owner)@));
                    lemma_concat_associative(start, acc, a);
                    acc = acc + a;
                }
                writer.write_attr("side", side.as_str());
                proof {
                    let a = attr("side".spec_bytes(), encode_utf8((*side).spec_text()));
                    lemma_concat_associative(start, acc, a);
                    acc = acc + a;
                }
                writer.write_attr_u64("old_price", *old_price);
                proof {
                    let a = attr("old_price".spec_bytes(), decimal(*old_price as nat));
                    lemma_concat_associative(start, acc, a);
                    acc = acc + a;
                }
                writer.write_attr_u64("new_price", *new_price);
                proof {
                    let a = attr("new_price".spec_bytes(), decimal(*new_price as nat));
                    lemma_concat_associative(start, acc, a);
                    acc = acc + a;
                }
                writer.write_attr_u64("old_quantity", *old_quantity);
                proof {
                    let a = attr("old_quantity".spec_bytes(), decimal(*old_quantity as nat));
                    lemma_concat_associative(start, acc, a);
                    acc = acc + a;
                }
                writer.write_attr_u64("new_quantity", *new_quantity);
                proof {
                    let a = attr("new_quantity".spec_bytes(), decimal(*new_quantity as nat));
                    lemma_concat_associative(start, acc, a);
                    acc = acc + a;
                }
                writer.write_attr_u64("remaining_quantity", *remaining_quantity);
                proof {
                    let a = attr("remaining_quantity".spec_bytes(), decimal(*remaining_quantity as nat));
                    lemma_concat_associative(start, acc, a);
                    acc = acc + a;
                }
                writer.write_attr_u64("filled_quantity", *filled_quantity);
                proof {
                    let a = attr("filled_quantity".spec_bytes(), decimal(*filled_quantity as nat));
                    lemma_concat_associative(start, acc, a);
                    acc = acc + a;
                }
                writer.write_attr("queue_priority_reset", bool_text(*queue_priority_reset));
                proof {
                    let a = attr("queue_priority_reset".spec_bytes(), encode_utf8(spec_bool_text(*queue_priority_reset)));
                    lemma_concat_associative(start, acc, a);
                    acc = acc + a;
                }
                writer.write_attr_u64("client_order_id", *client_order_id);
                proof {
                    let a = attr("client_order_id".spec_bytes(), decimal(*client_order_id as nat));
                    lemma_concat_associative(start, acc, a);
                    acc = acc + a;
                }
                assert(writer@ == start + self.spec_abci_bytes());
            },
            Event::AtomicBasketExecuted { owner, leg_count, max_slippage_bps } => {
                writer.begin_event("atomic_basket_executed", 3);
                let ghost mut acc = abci_header("atomic_basket_executed".spec_bytes(), 3);
                proof {
                    lemma_concat_associative(start, frame("atomic_basket_executed".spec_bytes()), le16(3));
                }
                writer.write_attr_hex("owner", owner.as_slice());
                proof {
                    let a = attr("owner".spec_bytes(), hex((*owner)@));
                    lemma_concat_associative(start, acc, a);
                    acc = acc + a;
                }
                writer.write_attr_u64("leg_count", *leg_count as u64);
                proof {
                    let a = attr("leg_count".spec_bytes(), decimal(*leg_count as nat));
                    lemma_concat_associative(start, acc, a);
                    acc = acc + a;
                }
                writer.write_attr_u64("max_slippage_bps", *max_slippage_bps as u64);
                proof {
                    let a = attr("max_slippage_bps".spec_bytes(), decimal(*max_slippage_bps as nat));
                    lemma_concat_associative(start, acc, a);
                    acc = acc + a;
                }
                assert(writer@ == start + self.spec_abci_bytes());
            },
            Event::PriceUpdated { market, price, signer } => {
                writer.begin_event("price_updated", 3);
                let ghost mut acc = abci_header("price_updated".spec_bytes(), 3);
                proof {
                    lemma_concat_associative(start, frame("price_updated".spec_bytes()), le16(3));
                }
                writer.write_attr_u64("market", *market as u64);
                proof {
                    let a = attr("market".spec_bytes(), decimal(*market as nat));
                    lemma_concat_associative(start, acc, a);
                    acc = acc + a;
                }
                writer.write_attr_u64("price", *price);
                proof {
                    let a = attr("price".spec_bytes(), decimal(*price as nat));
                    lemma_concat_associative(start, acc, a);
                    acc = acc + a;
                }
                write_attr_opt_hex(writer, "signer", signer);
                proof {
                    let a = attr("signer".spec_bytes(), opt_hex((*signer)));
                    lemma_concat_associative(start, acc, a);
                    acc = acc + a;
                }
                assert(writer@ == start + self.spec_abci_bytes());
            },
            Event::TradeExecuted {
                fill_id,
                market,
                price,
                quantity,
                maker_order_id,
                maker_client_order_id,
                maker_owner,
                maker_side,
                taker_order_id,
                taker_owner,
                taker_client_order_id,
                taker_fee,
                maker_fee,
            } => {
                writer.begin_event("trade_executed", 13);
                let ghost mut acc = abci_header("trade_executed".spec_bytes(), 13);
                proof {
                    lemma_concat_associative(start, frame("trade_executed".spec_bytes()), le16(13));
                }
                writer.write_attr_u64("fill_id", *fill_id);
                proof {
                    let a = attr("fill_id".spec_bytes(), decimal(*fill_id as nat));
                    lemma_concat_associative(start, acc, a);
                    acc = acc + a;
                }
                writer.write_attr_u64("market", *market as u64);
                proof {
                    let a = attr("market".spec_bytes(), decimal(*market as nat));
                    lemma_concat_associative(start, acc, a);
                    acc = acc + a;
                }
                writer.write_attr_u64("price", *price);
                proof {
                    let a = attr("price".spec_bytes(), decimal(*price as nat));
                    lemma_concat_associative(start, acc, a);
                    acc = acc + a;
                }
                writer.write_attr_u64("quantity", *quantity);
                proof {
                    let a = attr("quantity".spec_bytes(), decimal(*quantity as nat));
                    lemma_concat_associative(start, acc, a);
                    acc = acc + a;
                }
                writer.write_attr_u64("maker_order_id", *maker_order_id);
                proof {
                    let a = attr("maker_order_id".spec_bytes(), decimal(*maker_order_id as nat));
                    lemma_concat_associative(start, acc, a);
                    acc = acc + a;
                }
                writer.write_attr_u64("maker_client_order_id", *maker_client_order_id);
                proof {
                    let a = attr("maker_client_order_id".spec_bytes(), decimal(*maker_client_order_id as nat));
                    lemma_concat_associative(start, acc, a);
                    acc = acc + a;
                }
                writer.write_attr_hex("maker_owner", maker_owner.as_slice());
                proof {
                    let a = attr("maker_owner".spec_bytes(), hex((*maker_owner)@));
                    lemma_concat_associative(start, acc, a);
                    acc = acc + a;
                }
                writer.write_attr("maker_side", maker_side.as_str());
                proof {
                    let a = attr("maker_side".spec_bytes(), encode_utf8((*maker_side).spec_text()));
                    lemma_concat_associative(start, acc, a);
                    acc = acc + a;
                }
                writer.write_attr_u64("taker_order_id", *taker_order_id);
                proof {
                    let a = attr("taker_order_id".spec_bytes(), decimal(*taker_order_id as nat));
                    lemma_concat_associative(start, acc, a);
                    acc = acc + a;
                }
                writer.write_attr_hex("taker_owner", taker_owner.as_slice());
                proof {
                    let a = attr("taker_owner".spec_bytes(), hex((*taker_owner)@));
                    lemma_concat_associative(start, acc, a);
                    acc = acc + a;
                }
                writer.write_attr_u64("taker_client_order_id", *taker_client_order_id);
                proof {
                    let a = attr("taker_client_order_id".spec_bytes(), decimal(*taker_client_order_id as nat));
                    lemma_concat_associative(start, acc, a);
                    acc = acc + a;
                }
                writer.write_attr_i64("taker_fee", *taker_fee);
                proof {
                    let a = attr("taker_fee".spec_bytes(), signed_decimal(*taker_fee as int));
                    lemma_concat_associative(start, acc, a);
                    acc = acc + a;
                }
                writer.write_attr_i64("maker_fee", *maker_fee);
                proof {
                    let a = attr("maker_fee".spec_bytes(), signed_decimal(*maker_fee as int));
                    lemma_concat_associative(start, acc, a);
                    acc = acc + a;
                }
                assert(writer@ == start + self.spec_abci_bytes());
            },
            Event::FeesCollected { market, taker_owner, taker_fee, maker_owner, maker_fee } => {
                writer.begin_event("fees_collected", 5);
                let ghost mut acc = abci_header("fees_collected".spec_bytes(), 5);
                proof {
                    lemma_concat_associative(start, frame("fees_collected".spec_bytes()), le16(5));
                }
                writer.write_attr_u64("market", *market as u64);
                proof {
                    let a = attr("market".spec_bytes(), decimal(*market as nat));
                    lemma_concat_associative(start, acc, a);
                    acc = acc + a;
                }
                writer.write_attr_hex("taker_owner", taker_owner.as_slice());
                proof {
                    let a = attr("taker_owner".spec_bytes(), hex((*taker_owner)@));
                    lemma_concat_associative(start, acc, a);
                    acc = acc + a;
                }
                writer.write_attr_i64("taker_fee", *taker_fee);
                proof {
                    let a = attr("taker_fee".spec_bytes(), signed_decimal(*taker_fee as int));
                    lemma_concat_associative(start, acc, a);
                    acc = acc + a;
                }
                writer.write_attr_hex("maker_owner", maker_owner.as_slice());
                proof {
                    let a = attr("maker_owner".spec_bytes(), hex((*maker_owner)@));
                    lemma_concat_associative(start, acc, a);
                    acc = acc + a;
                }
                writer.write_attr_i64("maker_fee", *maker_fee);
                proof {
                    let a = attr("maker_fee".spec_bytes(), signed_decimal(*maker_fee as int));
                    lemma_concat_associative(start, acc, a);
                    acc = acc + a;
                }
                assert(writer@ == start + self.spec_abci_bytes());
            },
            Event::Deposited { owner, amount, new_balance, signer } => {
                writer.begin_event("deposited", 4);
                let ghost mut acc = abci_header("deposited".spec_bytes(), 4);
                proof {
                    lemma_concat_associative(start, frame("deposited".spec_bytes()), le16(4));
                }
                writer.write_attr_hex("owner", owner.as_slice());
                proof {
                    let a = attr("owner".spec_bytes(), hex((*owner)@));
                    lemma_concat_associative(start, acc, a);
                    acc = acc + a;
                }
                writer.write_attr_u64("amount", *amount);
                proof {
                    let a = attr("amount".spec_bytes(), decimal(*amount as nat));
                    lemma_concat_associative(start, acc, a);
                    acc = acc + a;
                }
                writer.write_attr_u64("new_balance", *new_balance);
                proof {
                    let a = attr("new_balance".spec_bytes(), decimal(*new_balance as nat));
                    lemma_concat_associative(start, acc, a);
                    acc = acc + a;
                }
                write_attr_opt_hex(writer, "signer", signer);
                proof {
                    let a = attr("signer".spec_bytes(), opt_hex((*signer)));
                    lemma_concat_associative(start, acc, a);
                    acc = acc + a;
                }
                assert(writer@ == start + self.spec_abci_bytes());
            },
            Event::Withdrawn { owner, amount, new_balance, signer } => {
                writer.begin_event("withdrawn", 4);
                let ghost mut acc = abci_header("withdrawn".spec_bytes(), 4);
                proof {
                    lemma_concat_associative(start, frame("withdrawn".spec_bytes()), le16(4));
                }
                writer.write_attr_hex("owner", owner.as_slice());
                proof {
                    let a = attr("owner".spec_bytes(), hex((*owner)@));
                    lemma_concat_associative(start, acc, a);
                    acc = acc + a;
                }
                writer.write_attr_u64("amount", *amount);
                proof {
                    let a = attr("amount".spec_bytes(), decimal(*amount as nat));
                    lemma_concat_associative(start, acc, a);
                    acc = acc + a;
                }
                writer.write_attr_u64("new_balance", *new_balance);
                proof {
                    let a = attr("new_balance".spec_bytes(), decimal(*new_balance as nat));
                    lemma_concat_associative(start, acc, a);
                    acc = acc + a;
                }
                write_attr_opt_hex(writer, "signer", signer);
                proof {
                    let a = attr("signer".spec_bytes(), opt_hex((*signer)));
                    lemma_concat_associative(start, acc, a);
                    acc = acc + a;
                }
                assert(writer@ == start + self.spec_abci_bytes());
            },
            Event::PositionUpdated { owner, market, side, entry_price, size } => {
                writer.begin_event("position_updated", 5);
                let ghost mut acc = abci_header("position_updated".spec_bytes(), 5);
                proof {
                    lemma_concat_associative(start, frame("position_updated".spec_bytes()), le16(5));
                }
                writer.write_attr_hex("owner", owner.as_slice());
                proof {
                    let a = attr("owner".spec_bytes(), hex((*owner)@));
                    lemma_concat_associative(start, acc, a);
                    acc = acc + a;
                }
                writer.write_attr_u64("market", *market as u64);
                proof {
                    let a = attr("market".spec_bytes(), decimal(*market as nat));
                    lemma_concat_associative(start, acc, a);
                    acc = acc + a;
                }
                writer.write_attr("side", side.as_str());
                proof {
                    let a = attr("side".spec_bytes(), encode_utf8((*side).spec_text()));
                    lemma_concat_associative(start, acc, a);
                    acc = acc + a;
                }
                writer.write_attr_u64("entry_price", *entry_price);
                proof {
                    let a = attr("entry_price".spec_bytes(), decimal(*entry_price as nat));
                    lemma_concat_associative(start, acc, a);
                    acc = acc + a;
                }
                writer.write_attr_u64("size", *size);
                proof {
                    let a = attr("size".spec_bytes(), decimal(*size as nat));
                    lemma_concat_associative(start, acc, a);
                    acc = acc + a;
                }
                assert(writer@ == start + self.spec_abci_bytes());
            },
            Event::PositionClosed { owner, market, realized_pnl } => {
                writer.begin_event("position_closed", 3);
                let ghost mut acc = abci_header("position_closed".spec_bytes(), 3);
                proof {
                    lemma_concat_associative(start, frame("position_closed".spec_bytes()), le16(3));
                }
                writer.write_attr_hex("owner", owner.as_slice());
                proof {
                    let a = attr("owner".spec_bytes(), hex((*owner)@));
                    lemma_concat_associative(start, acc, a);
                    acc = acc + a;
                }
                writer.write_attr_u64("market", *market as u64);
                proof {
                    let a = attr("market".spec_bytes(), decimal(*market as nat));
                    lemma_concat_associative(start, acc, a);
                    acc = acc + a;
                }
                writer.write_attr_i64("realized_pnl", *realized_pnl);
                proof {
                    let a = attr("realized_pnl".spec_bytes(), signed_decimal(*realized_pnl as int));
                    lemma_concat_associative(start, acc, a);
                    acc = acc + a;
                }
                assert(writer@ == start + self.spec_abci_bytes());
            },
            Event::BinaryIssuedFromMTM {
                owner,
                cp_market,
                binary_market,
                signed_delta,
                final_size,
                final_entry,
                cash_pnl_realized,
            } => {
                writer.begin_event("binary_issued_from_mtm", 7);
                let ghost mut acc = abci_header("binary_issued_from_mtm".spec_bytes(), 7);
                proof {
                    lemma_concat_associative(start, frame("binary_issued_from_mtm".spec_bytes()), le16(7));
                }
                writer.write_attr_hex("owner", owner.as_slice());
                proof {
                    let a = attr("owner".spec_bytes(), hex((*owner)@));
                    lemma_concat_associative(start, acc, a);
                    acc = acc + a;
                }
                writer.write_attr_u64("cp_market", *cp_market as u64);
                proof {
                    let a = attr("cp_market".spec_bytes(), decimal(*cp_market as nat));
                    lemma_concat_associative(start, acc, a);
                    acc = acc + a;
                }
                writer.write_attr_u64("binary_market", *binary_market as u64);
                proof {
                    let a = attr("binary_market".spec_bytes(), decimal(*binary_market as nat));
                    lemma_concat_associative(start, acc, a);
                    acc = acc + a;
                }
                writer.write_attr_i64("signed_delta", *signed_delta);
                proof {
                    let a = attr("signed_delta".spec_bytes(), signed_decimal(*signed_delta as int));
                    lemma_concat_associative(start, acc, a);
                    acc = acc + a;
                }
                writer.write_attr_u64("final_size", *final_size);
                proof {
                    let a = attr("final_size".spec_bytes(), decimal(*final_size as nat));
                    lemma_concat_associative(start, acc, a);
                    acc = acc + a;
                }
                writer.write_attr_u64("final_entry", *final_entry);
                proof {
                    let a = attr("final_entry".spec_bytes(), decimal(*final_entry as nat));
                    lemma_concat_associative(start, acc, a);
                    acc = acc + a;
                }
                writer.write_attr_i64("cash_pnl_realized", *cash_pnl_realized);
                proof {
                    let a = attr("cash_pnl_realized".spec_bytes(), signed_decimal(*cash_pnl_realized as int));
                    lemma_concat_associative(start, acc, a);
                    acc = acc + a;
                }
                assert(writer@ == start + self.spec_abci_bytes());
            },
            _ => {},
        }
    }

    /// Appends one of the market lifecycle and settlement events.
    #[verifier::rlimit(50)]
    fn encode_market(&self, writer: &mut AbciEventWriter)
        requires
            self is MarketCreated
            || self is MarketConfigUpdated
            || self is AccountFeeOverrideSet
            || self is ImpactMarketCreated
            || self is EventCreated
            || self is ImpactMarketPreResolution
            || self is ImpactMarketResolved
            || self is EventResolved
            || self is ConditionalSettled
            || self is ConditionalVoided
            || self is PredictionSettled,
        ensures
            final(writer)@ == old(writer)@ + self.spec_abci_bytes(),
    {
        let ghost start = writer@;
        match self {
            Event::MarketCreated {
                market,
                im_bps,
                mm_bps,
                taker_fee_bps,
                maker_fee_bps,
                funding_interval_ms,
                max_funding_rate_bps,
                signer,
            } => {
                writer.begin_event("market_created", 8);
                let ghost mut acc = abci_header("market_created".spec_bytes(), 8);
                proof {
                    lemma_concat_associative(start, frame("market_created".spec_bytes()), le16(8));
                }
                writer.write_attr_u64("market", *market as u64);
                proof {
                    let a = attr("market".spec_bytes(), decimal(*market as nat));
                    lemma_concat_associative(start, acc, a);
                    acc = acc + a;
                }
                writer.write_attr_u64("im_bps", *im_bps as u64);
                proof {
                    let a = attr("im_bps".spec_bytes(), decimal(*im_bps as nat));
                    lemma_concat_associative(start, acc, a);
                    acc = acc + a;
                }
                writer.write_attr_u64("mm_bps", *mm_bps as u64);
                proof {
                    let a = attr("mm_bps".spec_bytes(), decimal(*mm_bps as nat));
                    lemma_concat_associative(start, acc, a);
                    acc = acc + a;
                }
                writer.write_attr_u64("taker_fee_bps", *taker_fee_bps as u64);
                proof {
                    let a = attr("taker_fee_bps".spec_bytes(), decimal(*taker_fee_bps as nat));
                    lemma_concat_associative(start, acc, a);
                    acc = acc + a;
                }
                writer.write_attr_u64("maker_fee_bps", *maker_fee_bps as u64);
                proof {
                    let a = attr("maker_fee_bps".spec_bytes(), decimal(*maker_fee_bps as nat));
                    lemma_concat_associative(start, acc, a);
                    acc = acc + a;
                }
                writer.write_attr_u64("funding_interval_ms", *funding_interval_ms);
                proof {
                    let a = attr("funding_interval_ms".spec_bytes(), decimal(*funding_interval_ms as nat));
                    lemma_concat_associative(start, acc, a);
                    acc = acc + a;
                }
                writer.write_attr_u64("max_funding_rate_bps", *max_funding_rate_bps as u64);
                proof {
                    let a = attr("max_funding_rate_bps".spec_bytes(), decimal(*max_funding_rate_bps as nat));
                    lemma_concat_associative(start, acc, a);
                    acc = acc + a;
                }
                write_attr_opt_hex(writer, "signer", signer);
                proof {
                    let a = attr("signer".spec_bytes(), opt_hex((*signer)));
                    lemma_concat_associative(start, acc, a);
                    acc = acc + a;
                }
                assert(writer@ == start + self.spec_abci_bytes());
            },
            Event::MarketConfigUpdated {
                market,
                im_bps,
                mm_bps,
                taker_fee_bps,
                maker_fee_bps,
                max_funding_rate_bps,
                funding_interval_ms,
                max_position_size,
                default_ttl_ms,
                net_delta_margin,
                tick_size,
                lot_size,
                primary_oracle_signer,
                oracle_staleness_ms,
                max_open_interest,
                signer,
            } => {
                writer.begin_event("market_config_updated", 16);
                let ghost mut acc = abci_header("market_config_updated".spec_bytes(), 16);
                proof {
                    lemma_concat_associative(start, frame("market_config_updated".spec_bytes()), le16(16));
                }
                writer.write_attr_u64("market", *market as u64);
                proof {
                    let a = attr("market".spec_bytes(), decimal(*market as nat));
                    lemma_concat_associative(start, acc, a);
                    acc = acc + a;
                }
                writer.write_attr_u64("im_bps", *im_bps as u64);
                proof {
                    let a = attr("im_bps".spec_bytes(), decimal(*im_bps as nat));
                    lemma_concat_associative(start, acc, a);
                    acc = acc + a;
                }
                writer.write_attr_u64("mm_bps", *mm_bps as u64);
                proof {
                    let a = attr("mm_bps".spec_bytes(), decimal(*mm_bps as nat));
                    lemma_concat_associative(start, acc, a);
                    acc = acc + a;
                }
                writer.write_attr_u64("taker_fee_bps", *taker_fee_bps as u64);
                proof {
                    let a = attr("taker_fee_bps".spec_bytes(), decimal(*taker_fee_bps as nat));
                    lemma_concat_associative(start, acc, a);
                    acc = acc + a;
                }
                writer.write_attr_u64("maker_fee_bps", *maker_fee_bps as u64);
                proof {
                    let a = attr("maker_fee_bps".spec_bytes(), decimal(*maker_fee_bps as nat));
                    lemma_concat_associative(start, acc, a);
                    acc = acc + a;
                }
                writer.write_attr_u64("max_funding_rate_bps", *max_funding_rate_bps as u64);
                proof {
                    let a = attr("max_funding_rate_bps".spec_bytes(), decimal(*max_funding_rate_bps as nat));
                    lemma_concat_associative(start, acc, a);
                    acc = acc + a;
                }
                writer.write_attr_u64("funding_interval_ms", *funding_interval_ms);
                proof {
                    let a = attr("funding_interval_ms".spec_bytes(), decimal(*funding_interval_ms as nat));
                    lemma_concat_associative(start, acc, a);
                    acc = acc + a;
                }
                writer.write_attr_u64("max_position_size", *max_position_size);
                proof {
                    let a = attr("max_position_size".spec_bytes(), decimal(*max_position_size as nat));
                    lemma_concat_associative(start, acc, a);
                    acc = acc + a;
                }
                writer.write_attr_u64("default_ttl_ms", *default_ttl_ms);
                proof {
                    let a = attr("default_ttl_ms".spec_bytes(), decimal(*default_ttl_ms as nat));
                    lemma_concat_associative(start, acc, a);
                    acc = acc + a;
                }
                writer.write_attr("net_delta_margin", bool_text(*net_delta_margin));
                proof {
                    let a = attr("net_delta_margin".spec_bytes(), encode_utf8(spec_bool_text(*net_delta_margin)));
                    lemma_concat_associative(start, acc, a);
                    acc = acc + a;
                }
                writer.write_attr_u64("tick_size", *tick_size);
                proof {
                    let a = attr("tick_size".spec_bytes(), decimal(*tick_size as nat));
                    lemma_concat_associative(start, acc, a);
                    acc = acc + a;
                }
                writer.write_attr_u64("lot_size", *lot_size);
                proof {
                    let a = attr("lot_size".spec_bytes(), decimal(*lot_size as nat));
                    lemma_concat_associative(start, acc, a);
                    acc = acc + a;
                }
                writer.write_attr_hex("primary_oracle_signer", primary_oracle_signer.as_slice());
                proof {
                    let a = attr("primary_oracle_signer".spec_bytes(), hex((*primary_oracle_signer)@));
                    lemma_concat_associative(start, acc, a);
                    acc = acc + a;
                }
                writer.write_attr_u64("oracle_staleness_ms", *oracle_staleness_ms);
                proof {
                    let a = attr("oracle_staleness_ms".spec_bytes(), decimal(*oracle_staleness_ms as nat));
                    lemma_concat_associative(start, acc, a);
                    acc = acc + a;
                }
                writer.write_attr_u64("max_open_interest", *max_open_interest);
                proof {
                    let a = attr("max_open_interest".spec_bytes(), decimal(*max_open_interest as nat));
                    lemma_concat_associative(start, acc, a);
                    acc = acc + a;
                }
                write_attr_opt_hex(writer, "signer", signer);
                proof {
                    let a = attr("signer".spec_bytes(), opt_hex((*signer)));
                    lemma_concat_associative(start, acc, a);
                    acc = acc + a;
                }
                assert(writer@ == start + self.spec_abci_bytes());
            },
            Event::AccountFeeOverrideSet { account, taker_fee_bps, maker_fee_bps, signer } => {
                writer.begin_event("account_fee_override_set", 4);
                let ghost mut acc = abci_header("account_fee_override_set".spec_bytes(), 4);
                proof {
                    lemma_concat_associative(start, frame("account_fee_override_set".spec_bytes()), le16(4));
                }
                writer.write_attr_hex("account", account.as_slice());
                proof {
                    let a = attr("account".spec_bytes(), hex((*account)@));
                    lemma_concat_associative(start, acc, a);
                    acc = acc + a;
                }
                writer.write_attr_u64("taker_fee_bps", *taker_fee_bps as u64);
                proof {
                    let a = attr("taker_fee_bps".spec_bytes(), decimal(*taker_fee_bps as nat));
                    lemma_concat_associative(start, acc, a);
                    acc = acc + a;
                }
                writer.write_attr_u64("maker_fee_bps", *maker_fee_bps as u64);
                proof {
                    let a = attr("maker_fee_bps".spec_bytes(), decimal(*maker_fee_bps as nat));
                    lemma_concat_associative(start, acc, a);
                    acc = acc + a;
                }
                write_attr_opt_hex(writer, "signer", signer);
                proof {
                    let a = attr("signer".spec_bytes(), opt_hex((*signer)));
                    lemma_concat_associative(start, acc, a);
                    acc = acc + a;
                }
                assert(writer@ == start + self.spec_abci_bytes());
            },
            Event::ImpactMarketCreated {
                impact_market_id,
                underlying_market,
                cpy_market,
                cpn_market,
                eby_market,
                ebn_market,
                question,
                deadline_ms,
                resolution_window_ms,
                description,
                rules,
            } => {
                writer.begin_event("impact_market_created", 11);
                let ghost mut acc = abci_header("impact_market_created".spec_bytes(), 11);
                proof {
                    lemma_concat_associative(start, frame("impact_market_created".spec_bytes()), le16(11));
                }
                writer.write_attr_u64("impact_market_id", *impact_market_id as u64);
                proof {
                    let a = attr("impact_market_id".spec_bytes(), decimal(*impact_market_id as nat));
                    lemma_concat_associative(start, acc, a);
                    acc = acc + a;
                }
                writer.write_attr_u64("underlying_market", *underlying_market as u64);
                proof {
                    let a = attr("underlying_market".spec_bytes(), decimal(*underlying_market as nat));
                    lemma_concat_associative(start, acc, a);
                    acc = acc + a;
                }
                writer.write_attr_u64("cpy_market", *cpy_market as u64);
                proof {
                    let a = attr("cpy_market".spec_bytes(), decimal(*cpy_market as nat));
                    lemma_concat_associative(start, acc, a);
                    acc = acc + a;
                }
                writer.write_attr_u64("cpn_market", *cpn_market as u64);
                proof {
                    let a = attr("cpn_market".spec_bytes(), decimal(*cpn_market as nat));
                    lemma_concat_associative(start, acc, a);
                    acc = acc + a;
                }
                writer.write_attr_u64("eby_market", *eby_market as u64);
                proof {
                    let a = attr("eby_market".spec_bytes(), decimal(*eby_market as nat));
                    lemma_concat_associative(start, acc, a);
                    acc = acc + a;
                }
                writer.write_attr_u64("ebn_market", *ebn_market as u64);
                proof {
                    let a = attr("ebn_market".spec_bytes(), decimal(*ebn_market as nat));
                    lemma_concat_associative(start, acc, a);
                    acc = acc + a;
                }
                writer.write_attr("question", question.as_str());
                proof {
                    let a = attr("question".spec_bytes(), encode_utf8((*question)@));
                    lemma_concat_associative(start, acc, a);
                    acc = acc + a;
                }
                writer.write_attr_u64("deadline_ms", *deadline_ms);
                proof {
                    let a = attr("deadline_ms".spec_bytes(), decimal(*deadline_ms as nat));
                    lemma_concat_associative(start, acc, a);
                    acc = acc + a;
                }
                writer.write_attr_u64("resolution_window_ms", *resolution_window_ms);
                proof {
                    let a = attr("resolution_window_ms".spec_bytes(), decimal(*resolution_window_ms as nat));
                    lemma_concat_associative(start, acc, a);
                    acc = acc + a;
                }
                writer.write_attr("description", description.as_str());
                proof {
                    let a = attr("description".spec_bytes(), encode_utf8((*description)@));
                    lemma_concat_associative(start, acc, a);
                    acc = acc + a;
                }
                writer.write_attr("rules", rules.as_str());
                proof {
                    let a = attr("rules".spec_bytes(), encode_utf8((*rules)@));
                    lemma_concat_associative(start, acc, a);
                    acc = acc + a;
                }
                assert(writer@ == start + self.spec_abci_bytes());
            },
            Event::EventCreated {
                event_id,
                eby_market,
                ebn_market,
                question,
                settlement_ms,
                resolution_window_ms,
                description,
                rules,
            } => {
                writer.begin_event("event_created", 8);
                let ghost mut acc = abci_header("event_created".spec_bytes(), 8);
                proof {
                    lemma_concat_associative(start, frame("event_created".spec_bytes()), le16(8));
                }
                writer.write_attr_u64("event_id", event_id.0 as u64);
                proof {
                    let a = attr("event_id".spec_bytes(), decimal((*event_id).0 as nat));
                    lemma_concat_associative(start, acc, a);
                    acc = acc + a;
                }
                writer.write_attr_u64("eby_market", *eby_market as u64);
                proof {
                    let a = attr("eby_market".spec_bytes(), decimal(*eby_market as nat));
                    lemma_concat_associative(start, acc, a);
                    acc = acc + a;
                }
                writer.write_attr_u64("ebn_market", *ebn_market as u64);
                proof {
                    let a = attr("ebn_market".spec_bytes(), decimal(*ebn_market as nat));
                    lemma_concat_associative(start, acc, a);
                    acc = acc + a;
                }
                writer.write_attr("question", question.as_str());
                proof {
                    let a = attr("question".spec_bytes(), encode_utf8((*question)@));
                    lemma_concat_associative(start, acc, a);
                    acc = acc + a;
                }
                writer.write_attr_u64("settlement_ms", *settlement_ms);
                proof {
                    let a = attr("settlement_ms".spec_bytes(), decimal(*settlement_ms as nat));
                    lemma_concat_associative(start, acc, a);
                    acc = acc + a;
                }
                writer.write_attr_u64("resolution_window_ms", *resolution_window_ms);
                proof {
                    let a = attr("resolution_window_ms".spec_bytes(), decimal(*resolution_window_ms as nat));
                    lemma_concat_associative(start, acc, a);
                    acc = acc + a;
                }
                writer.write_attr("description", description.as_str());
                proof {
                    let a = attr("description".spec_bytes(), encode_utf8((*description)@));
                    lemma_concat_associative(start, acc, a);
                    acc = acc + a;
                }
                writer.write_attr("rules", rules.as_str());
                proof {
                    let a = attr("rules".spec_bytes(), encode_utf8((*rules)@));
                    lemma_concat_associative(start, acc, a);
                    acc = acc + a;
                }
                assert(writer@ == start + self.spec_abci_bytes());
            },
            Event::ImpactMarketPreResolution { impact_market_id, timestamp_ms } => {
                writer.begin_event("impact_market_pre_resolution", 2);
                let ghost mut acc = abci_header("impact_market_pre_resolution".spec_bytes(), 2);
                proof {
                    lemma_concat_associative(start, frame("impact_market_pre_resolution".spec_bytes()), le16(2));
                }
                writer.write_attr_u64("impact_market_id", *impact_market_id as u64);
                proof {
                    let a = attr("impact_market_id".spec_bytes(), decimal(*impact_market_id as nat));
                    lemma_concat_associative(start, acc, a);
                    acc = acc + a;
                }
                writer.write_attr_u64("timestamp_ms", *timestamp_ms);
                proof {
                    let a = attr("timestamp_ms".spec_bytes(), decimal(*timestamp_ms as nat));
                    lemma_concat_associative(start, acc, a);
                    acc = acc + a;
                }
                assert(writer@ == start + self.spec_abci_bytes());
            },
            Event::ImpactMarketResolved {
                impact_market_id,
                outcome,
                settlement_price,
                timestamp_ms,
                signer,
            } => {
                writer.begin_event("impact_market_resolved", 5);
                let ghost mut acc = abci_header("impact_market_resolved".spec_bytes(), 5);
                proof {
                    lemma_concat_associative(start, frame("impact_market_resolved".spec_bytes()), le16(5));
                }
                writer.write_attr_u64("impact_market_id", *impact_market_id as u64);
                proof {
                    let a = attr("impact_market_id".spec_bytes(), decimal(*impact_market_id as nat));
                    lemma_concat_associative(start, acc, a);
                    acc = acc + a;
                }
                writer.write_attr("outcome", outcome.as_str());
                proof {
                    let a = attr("outcome".spec_bytes(), encode_utf8((*outcome).spec_text()));
                    lemma_concat_associative(start, acc, a);
                    acc = acc + a;
                }
                writer.write_attr_u64("settlement_price", *settlement_price);
                proof {
                    let a = attr("settlement_price".spec_bytes(), decimal(*settlement_price as nat));
                    lemma_concat_associative(start, acc, a);
                    acc = acc + a;
                }
                writer.write_attr_u64("timestamp_ms", *timestamp_ms);
                proof {
                    let a = attr("timestamp_ms".spec_bytes(), decimal(*timestamp_ms as nat));
                    lemma_concat_associative(start, acc, a);
                    acc = acc + a;
                }
                write_attr_opt_hex(writer, "signer", signer);
                proof {
                    let a = attr("signer".spec_bytes(), opt_hex((*signer)));
                    lemma_concat_associative(start, acc, a);
                    acc = acc + a;
                }
                assert(writer@ == start + self.spec_abci_bytes());
            },
            Event::EventResolved { event_id, outcome, timestamp_ms, signer } => {
                writer.begin_event("event_resolved", 4);
                let ghost mut acc = abci_header("event_resolved".spec_bytes(), 4);
                proof {
                    lemma_concat_associative(start, frame("event_resolved".spec_bytes()), le16(4));
                }
                writer.write_attr_u64("event_id", event_id.0 as u64);
                proof {
                    let a = attr("event_id".spec_bytes(), decimal((*event_id).0 as nat));
                    lemma_concat_associative(start, acc, a);
                    acc = acc + a;
                }
                writer.write_attr("outcome", outcome.as_str());
                proof {
                    let a = attr("outcome".spec_bytes(), encode_utf8((*outcome).spec_text()));
                    lemma_concat_associative(start, acc, a);
                    acc = acc + a;
                }
                writer.write_attr_u64("timestamp_ms", *timestamp_ms);
                proof {
                    let a = attr("timestamp_ms".spec_bytes(), decimal(*timestamp_ms as nat));
                    lemma_concat_associative(start, acc, a);
                    acc = acc + a;
                }
                write_attr_opt_hex(writer, "signer", signer);
                proof {
                    let a = attr("signer".spec_bytes(), opt_hex((*signer)));
                    lemma_concat_associative(start, acc, a);
                    acc = acc + a;
                }
                assert(writer@ == start + self.spec_abci_bytes());
            },
            Event::ConditionalSettled {
                event_id,
                market,
                owner,
                side,
                size,
                entry_price,
                settlement_price,
                realized_pnl,
                converted_size,
                fallback_reason,
            } => {
                writer.begin_event("conditional_settled", 10);
                let ghost mut acc = abci_header("conditional_settled".spec_bytes(), 10);
                proof {
                    lemma_concat_associative(start, frame("conditional_settled".spec_bytes()), le16(10));
                }
                writer.write_attr_u64("event_id", event_id.0 as u64);
                proof {
                    let a = attr("event_id".spec_bytes(), decimal((*event_id).0 as nat));
                    lemma_concat_associative(start, acc, a);
                    acc = acc + a;
                }
                writer.write_attr_u64("market", *market as u64);
                proof {
                    let a = attr("market".spec_bytes(), decimal(*market as nat));
                    lemma_concat_associative(start, acc, a);
                    acc = acc + a;
                }
                writer.write_attr_hex("owner", owner.as_slice());
                proof {
                    let a = attr("owner".spec_bytes(), hex((*owner)@));
                    lemma_concat_associative(start, acc, a);
                    acc = acc + a;
                }
                writer.write_attr("side", side.as_str());
                proof {
                    let a = attr("side".spec_bytes(), encode_utf8((*side).spec_text()));
                    lemma_concat_associative(start, acc, a);
                    acc = acc + a;
                }
                writer.write_attr_u64("size", *size);
                proof {
                    let a = attr("size".spec_bytes(), decimal(*size as nat));
                    lemma_concat_associative(start, acc, a);
                    acc = acc + a;
                }
                writer.write_attr_u64("entry_price", *entry_price);
                proof {
                    let a = attr("entry_price".spec_bytes(), decimal(*entry_price as nat));
                    lemma_concat_associative(start, acc, a);
                    acc = acc + a;
                }
                writer.write_attr_u64("settlement_price", *settlement_price);
                proof {
                    let a = attr("settlement_price".spec_bytes(), decimal(*settlement_price as nat));
                    lemma_concat_associative(start, acc, a);
                    acc = acc + a;
                }
                writer.write_attr_i64("realized_pnl", *realized_pnl);
                proof {
                    let a = attr("realized_pnl".spec_bytes(), signed_decimal(*realized_pnl as int));
                    lemma_concat_associative(start, acc, a);
                    acc = acc + a;
                }
                writer.write_attr_u64("converted_size", *converted_size);
                proof {
                    let a = attr("converted_size".spec_bytes(), decimal(*converted_size as nat));
                    lemma_concat_associative(start, acc, a);
                    acc = acc + a;
                }
                write_attr_opt_reason(writer, "fallback_reason", fallback_reason);
                proof {
                    let a = attr("fallback_reason".spec_bytes(), opt_reason_text((*fallback_reason)));
                    lemma_concat_associative(start, acc, a);
                    acc = acc + a;
                }
                assert(writer@ == start + self.spec_abci_bytes());
            },
            Event::ConditionalVoided { impact_market_id, market, owner, side, size } => {
                writer.begin_event("conditional_voided", 5);
                let ghost mut acc = abci_header("conditional_voided".spec_bytes(), 5);
                proof {
                    lemma_concat_associative(start, frame("conditional_voided".spec_bytes()), le16(5));
                }
                writer.write_attr_u64("impact_market_id", *impact_market_id as u64);
                proof {
                    let a = attr("impact_market_id".spec_bytes(), decimal(*impact_market_id as nat));
                    lemma_concat_associative(start, acc, a);
                    acc = acc + a;
                }
                writer.write_attr_u64("market", *market as u64);
                proof {
                    let a = attr("market".spec_bytes(), decimal(*market as nat));
                    lemma_concat_associative(start, acc, a);
                    acc = acc + a;
                }
                writer.write_attr_hex("owner", owner.as_slice());
                proof {
                    let a = attr("owner".spec_bytes(), hex((*owner)@));
                    lemma_concat_associative(start, acc, a);
                    acc = acc + a;
                }
                writer.write_attr("side", side.as_str());
                proof {
                    let a = attr("side".spec_bytes(), encode_utf8((*side).spec_text()));
                    lemma_concat_associative(start, acc, a);
                    acc = acc + a;
                }
                writer.write_attr_u64("size", *size);
                proof {
                    let a = attr("size".spec_bytes(), decimal(*size as nat));
                    lemma_concat_associative(start, acc, a);
                    acc = acc + a;
                }
                assert(writer@ == start + self.spec_abci_bytes());
            },
            Event::PredictionSettled {
                impact_market_id,
                market,
                owner,
                side,
                size,
                payoff_per_share,
                cash_delta,
            } => {
                writer.begin_event("prediction_settled", 7);
                let ghost mut acc = abci_header("prediction_settled".spec_bytes(), 7);
                proof {
                    lemma_concat_associative(start, frame("prediction_settled".spec_bytes()), le16(7));
                }
                writer.write_attr_u64("impact_market_id", *impact_market_id as u64);
                proof {
                    let a = attr("impact_market_id".spec_bytes(), decimal(*impact_market_id as nat));
                    lemma_concat_associative(start, acc, a);
                    acc = acc + a;
                }
                writer.write_attr_u64("market", *market as u64);
                proof {
                    let a = attr("market".spec_bytes(), decimal(*market as nat));
                    lemma_concat_associative(start, acc, a);
                    acc = acc + a;
                }
                writer.write_attr_hex("owner", owner.as_slice());
                proof {
                    let a = attr("owner".spec_bytes(), hex((*owner)@));
                    lemma_concat_associative(start, acc, a);
                    acc = acc + a;
                }
                writer.write_attr("side", side.as_str());
                proof {
                    let a = attr("side".spec_bytes(), encode_utf8((*side).spec_text()));
                    lemma_concat_associative(start, acc, a);
                    acc = acc + a;
                }
                writer.write_attr_u64("size", *size);
                proof {
                    let a = attr("size".spec_bytes(), decimal(*size as nat));
                    lemma_concat_associative(start, acc, a);
                    acc = acc + a;
                }
                writer.write_attr_u64("payoff_per_share", *payoff_per_share);
                proof {
                    let a = attr("payoff_per_share".spec_bytes(), decimal(*payoff_per_share as nat));
                    lemma_concat_associative(start, acc, a);
                    acc = acc + a;
                }
                writer.write_attr_i64("cash_delta", *cash_delta);
                proof {
                    let a = attr("cash_delta".spec_bytes(), signed_decimal(*cash_delta as int));
                    lemma_concat_associative(start, acc, a);
                    acc = acc + a;
                }
                assert(writer@ == start + self.spec_abci_bytes());
            },
            _ => {},
        }
    }

    /// Appends one of the liquidation and bad-debt waterfall events.
    #[verifier::rlimit(50)]
    fn encode_risk(&self, writer: &mut AbciEventWriter)
        requires
            self is AccountLiquidated
            || self is InsuranceFundUpdated
            || self is HlpAbsorbed
            || self is SocializedLossApplied
            || self is PositionAutoDeleveraged,
        ensures
            final(writer)@ == old(writer)@ + self.spec_abci_bytes(),
    {
        let ghost start = writer@;
        match self {
            Event::AccountLiquidated { owner, market, side, size, mark_price, realized_pnl } => {
                writer.begin_event("account_liquidated", 6);
                let ghost mut acc = abci_header("account_liquidated".spec_bytes(), 6);
                proof {
                    lemma_concat_associative(start, frame("account_liquidated".spec_bytes()), le16(6));
                }
                writer.write_attr_hex("owner", owner.as_slice());
                proof {
                    let a = attr("owner".spec_bytes(), hex((*owner)@));
                    lemma_concat_associative(start, acc, a);
                    acc = acc + a;
                }
                writer.write_attr_u64("market", *market as u64);
                proof {
                    let a = attr("market".spec_bytes(), decimal(*market as nat));
                    lemma_concat_associative(start, acc, a);
                    acc = acc + a;
                }
                writer.write_attr("side", side.as_str());
                proof {
                    let a = attr("side".spec_bytes(), encode_utf8((*side).spec_text()));
                    lemma_concat_associative(start, acc, a);
                    acc = acc + a;
                }
                writer.write_attr_u64("size", *size);
                proof {
                    let a = attr("size".spec_bytes(), decimal(*size as nat));
                    lemma_concat_associative(start, acc, a);
                    acc = acc + a;
                }
                writer.write_attr_u64("mark_price", *mark_price);
                proof {
                    let a = attr("mark_price".spec_bytes(), decimal(*mark_price as nat));
                    lemma_concat_associative(start, acc, a);
                    acc = acc + a;
                }
                writer.write_attr_i64("realized_pnl", *realized_pnl);
                proof {
                    let a = attr("realized_pnl".spec_bytes(), signed_decimal(*realized_pnl as int));
                    lemma_concat_associative(start, acc, a);
                    acc = acc + a;
                }
                assert(writer@ == start + self.spec_abci_bytes());
            },
            Event::InsuranceFundUpdated { pool_id, balance, delta } => {
                writer.begin_event("insurance_fund_updated", 3);
                let ghost mut acc = abci_header("insurance_fund_updated".spec_bytes(), 3);
                proof {
                    lemma_concat_associative(start, frame("insurance_fund_updated".spec_bytes()), le16(3));
                }
                writer.write_attr_u64("pool_id", *pool_id as u64);
                proof {
                    let a = attr("pool_id".spec_bytes(), decimal(*pool_id as nat));
                    lemma_concat_associative(start, acc, a);
                    acc = acc + a;
                }
                writer.write_attr_i64("balance", *balance);
                proof {
                    let a = attr("balance".spec_bytes(), signed_decimal(*balance as int));
                    lemma_concat_associative(start, acc, a);
                    acc = acc + a;
                }
                writer.write_attr_i64("delta", *delta);
                proof {
                    let a = attr("delta".spec_bytes(), signed_decimal(*delta as int));
                    lemma_concat_associative(start, acc, a);
                    acc = acc + a;
                }
                assert(writer@ == start + self.spec_abci_bytes());
            },
            Event::HlpAbsorbed { pool_id, amount, hlp_balance_after } => {
                writer.begin_event("hlp_absorbed", 3);
                let ghost mut acc = abci_header("hlp_absorbed".spec_bytes(), 3);
                proof {
                    lemma_concat_associative(start, frame("hlp_absorbed".spec_bytes()), le16(3));
                }
                writer.write_attr_u64("pool_id", *pool_id as u64);
                proof {
                    let a = attr("pool_id".spec_bytes(), decimal(*pool_id as nat));
                    lemma_concat_associative(start, acc, a);
                    acc = acc + a;
                }
                writer.write_attr_u64("amount", *amount);
                proof {
                    let a = attr("amount".spec_bytes(), decimal(*amount as nat));
                    lemma_concat_associative(start, acc, a);
                    acc = acc + a;
                }
                writer.write_attr_i64("hlp_balance_after", *hlp_balance_after);
                proof {
                    let a = attr("hlp_balance_after".spec_bytes(), signed_decimal(*hlp_balance_after as int));
                    lemma_concat_associative(start, acc, a);
                    acc = acc + a;
                }
                assert(writer@ == start + self.spec_abci_bytes());
            },
            Event::SocializedLossApplied { pool_id, total_amount, cap_target, cap_bps, affected_count } => {
                writer.begin_event("socialized_loss_applied", 5);
                let ghost mut acc = abci_header("socialized_loss_applied".spec_bytes(), 5);
                proof {
                    lemma_concat_associative(start, frame("socialized_loss_applied".spec_bytes()), le16(5));
                }
                writer.write_attr_u64("pool_id", *pool_id as u64);
                proof {
                    let a = attr("pool_id".spec_bytes(), decimal(*pool_id as nat));
                    lemma_concat_associative(start, acc, a);
                    acc = acc + a;
                }
                writer.write_attr_u64("total_amount", *total_amount);
                proof {
                    let a = attr("total_amount".spec_bytes(), decimal(*total_amount as nat));
                    lemma_concat_associative(start, acc, a);
                    acc = acc + a;
                }
                writer.write_attr_u64("cap_target", *cap_target);
                proof {
                    let a = attr("cap_target".spec_bytes(), decimal(*cap_target as nat));
                    lemma_concat_associative(start, acc, a);
                    acc = acc + a;
                }
                writer.write_attr_u64("cap_bps", *cap_bps as u64);
                proof {
                    let a = attr("cap_bps".spec_bytes(), decimal(*cap_bps as nat));
                    lemma_concat_associative(start, acc, a);
                    acc = acc + a;
                }
                writer.write_attr_u64("affected_count", *affected_count as u64);
                proof {
                    let a = attr("affected_count".spec_bytes(), decimal(*affected_count as nat));
                    lemma_concat_associative(start, acc, a);
                    acc = acc + a;
                }
                assert(writer@ == start + self.spec_abci_bytes());
            },
            Event::PositionAutoDeleveraged {
                owner,
                market,
                side,
                size,
                close_price,
                close_price_spec,
                realized_pnl,
            } => {
                writer.begin_event("position_auto_deleveraged", 7);
                let ghost mut acc = abci_header("position_auto_deleveraged".spec_bytes(), 7);
                proof {
                    lemma_concat_associative(start, frame("position_auto_deleveraged".spec_bytes()), le16(7));
                }
                writer.write_attr_hex("owner", owner.as_slice());
                proof {
                    let a = attr("owner".spec_bytes(), hex((*owner)@));
                    lemma_concat_associative(start, acc, a);
                    acc = acc + a;
                }
                writer.write_attr_u64("market", *market as u64);
                proof {
                    let a = attr("market".spec_bytes(), decimal(*market as nat));
                    lemma_concat_associative(start, acc, a);
                    acc = acc + a;
                }
                writer.write_attr("side", side.as_str());
                proof {
                    let a = attr("side".spec_bytes(), encode_utf8((*side).spec_text()));
                    lemma_concat_associative(start, acc, a);
                    acc = acc + a;
                }
                writer.write_attr_u64("size", *size);
                proof {
                    let a = attr("size".spec_bytes(), decimal(*size as nat));
                    lemma_concat_associative(start, acc, a);
                    acc = acc + a;
                }
                writer.write_attr_u64("close_price", *close_price);
                proof {
                    let a = attr("close_price".spec_bytes(), decimal(*close_price as nat));
                    lemma_concat_associative(start, acc, a);
                    acc = acc + a;
                }
                writer.write_attr_u64("close_price_spec", *close_price_spec);
                proof {
                    let a = attr("close_price_spec".spec_bytes(), decimal(*close_price_spec as nat));
                    lemma_concat_associative(start, acc, a);
                    acc = acc + a;
                }
                writer.write_attr_i64("realized_pnl", *realized_pnl);
                proof {
                    let a = attr("realized_pnl".spec_bytes(), signed_decimal(*realized_pnl as int));
                    lemma_concat_associative(start, acc, a);
                    acc = acc + a;
                }
                assert(writer@ == start + self.spec_abci_bytes());
            },
            _ => {},
        }
    }

    /// Appends one of the deposit, withdrawal and agent events.
    #[verifier::rlimit(50)]
    fn encode_custody(&self, writer: &mut AbciEventWriter)
        requires
            self is WithdrawRequested
            || self is DepositConfirmed
            || self is DepositFailed
            || self is WithdrawalConfirmed
            || self is WithdrawalFailed
            || self is WithdrawalAuthorized
            || self is AgentApproved
            || self is AgentRevoked,
        ensures
            final(writer)@ == old(writer)@ + self.spec_abci_bytes(),
    {
        let ghost start = writer@;
        match self {
            Event::WithdrawRequested { withdrawal_id, owner, amount, solana_destination } => {
                writer.begin_event("withdraw_requested", 4);
                let ghost mut acc = abci_header("withdraw_requested".spec_bytes(), 4);
                proof {
                    lemma_concat_associative(start, frame("withdraw_requested".spec_bytes()), le16(4));
                }
                writer.write_attr_u64("withdrawal_id", *withdrawal_id);
                proof {
                    let a = attr("withdrawal_id".spec_bytes(), decimal(*withdrawal_id as nat));
                    lemma_concat_associative(start, acc, a);
                    acc = acc + a;
                }
                writer.write_attr_hex("owner", owner.as_slice());
                proof {
                    let a = attr("owner".spec_bytes(), hex((*owner)@));
                    lemma_concat_associative(start, acc, a);
                    acc = acc + a;
                }
                writer.write_attr_u64("amount", *amount);
                proof {
                    let a = attr("amount".spec_bytes(), decimal(*amount as nat));
                    lemma_concat_associative(start, acc, a);
                    acc = acc + a;
                }
                writer.write_attr_hex("solana_destination", solana_destination.as_slice());
                proof {
                    let a = attr("solana_destination".spec_bytes(), hex((*solana_destination)@));
                    lemma_concat_associative(start, acc, a);
                    acc = acc + a;
                }
                assert(writer@ == start + self.spec_abci_bytes());
            },
            Event::DepositConfirmed { owner, amount, new_balance, solana_tx_sig, signer } => {
                writer.begin_event("deposit_confirmed", 5);
                let ghost mut acc = abci_header("deposit_confirmed".spec_bytes(), 5);
                proof {
                    lemma_concat_associative(start, frame("deposit_confirmed".spec_bytes()), le16(5));
                }
                writer.write_attr_hex("owner", owner.as_slice());
                proof {
                    let a = attr("owner".spec_bytes(), hex((*owner)@));
                    lemma_concat_associative(start, acc, a);
                    acc = acc + a;
                }
                writer.write_attr_u64("amount", *amount);
                proof {
                    let a = attr("amount".spec_bytes(), decimal(*amount as nat));
                    lemma_concat_associative(start, acc, a);
                    acc = acc + a;
                }
                writer.write_attr_u64("new_balance", *new_balance);
                proof {
                    let a = attr("new_balance".spec_bytes(), decimal(*new_balance as nat));
                    lemma_concat_associative(start, acc, a);
                    acc = acc + a;
                }
                writer.write_attr_hex("solana_tx_sig", solana_tx_sig.as_slice());
                proof {
                    let a = attr("solana_tx_sig".spec_bytes(), hex((*solana_tx_sig)@));
                    lemma_concat_associative(start, acc, a);
                    acc = acc + a;
                }
                write_attr_opt_hex(writer, "signer", signer);
                proof {
                    let a = attr("signer".spec_bytes(), opt_hex((*signer)));
                    lemma_concat_associative(start, acc, a);
                    acc = acc + a;
                }
                assert(writer@ == start + self.spec_abci_bytes());
            },
            Event::DepositFailed { solana_signature, reason, signer } => {
                writer.begin_event("deposit_failed", 3);
                let ghost mut acc = abci_header("deposit_failed".spec_bytes(), 3);
                proof {
                    lemma_concat_associative(start, frame("deposit_failed".spec_bytes()), le16(3));
                }
                writer.write_attr_hex("solana_signature", solana_signature.as_slice());
                proof {
                    let a = attr("solana_signature".spec_bytes(), hex((*solana_signature)@));
                    lemma_concat_associative(start, acc, a);
                    acc = acc + a;
                }
                writer.write_attr("reason", reason.as_str());
                proof {
                    let a = attr("reason".spec_bytes(), encode_utf8((*reason).spec_text()));
                    lemma_concat_associative(start, acc, a);
                    acc = acc + a;
                }
                write_attr_opt_hex(writer, "signer", signer);
                proof {
                    let a = attr("signer".spec_bytes(), opt_hex((*signer)));
                    lemma_concat_associative(start, acc, a);
                    acc = acc + a;
                }
                assert(writer@ == start + self.spec_abci_bytes());
            },
            Event::WithdrawalConfirmed { withdrawal_id, solana_tx_sig, signer } => {
                writer.begin_event("withdrawal_confirmed", 3);
                let ghost mut acc = abci_header("withdrawal_confirmed".spec_bytes(), 3);
                proof {
                    lemma_concat_associative(start, frame("withdrawal_confirmed".spec_bytes()), le16(3));
                }
                writer.write_attr_u64("withdrawal_id", *withdrawal_id);
                proof {
                    let a = attr("withdrawal_id".spec_bytes(), decimal(*withdrawal_id as nat));
                    lemma_concat_associative(start, acc, a);
                    acc = acc + a;
                }
                writer.write_attr_hex("solana_tx_sig", solana_tx_sig.as_slice());
                proof {
                    let a = attr("solana_tx_sig".spec_bytes(), hex((*solana_tx_sig)@));
                    lemma_concat_associative(start, acc, a);
                    acc = acc + a;
                }
                write_attr_opt_hex(writer, "signer", signer);
                proof {
                    let a = attr("signer".spec_bytes(), opt_hex((*signer)));
                    lemma_concat_associative(start, acc, a);
                    acc = acc + a;
                }
                assert(writer@ == start + self.spec_abci_bytes());
            },
            Event::WithdrawalFailed { withdrawal_id, owner, amount, new_balance, reason, signer } => {
                writer.begin_event("withdrawal_failed", 6);
                let ghost mut acc = abci_header("withdrawal_failed".spec_bytes(), 6);
                proof {
                    lemma_concat_associative(start, frame("withdrawal_failed".spec_bytes()), le16(6));
                }
                writer.write_attr_u64("withdrawal_id", *withdrawal_id);
                proof {
                    let a = attr("withdrawal_id".spec_bytes(), decimal(*withdrawal_id as nat));
                    lemma_concat_associative(start, acc, a);
                    acc = acc + a;
                }
                writer.write_attr_hex("owner", owner.as_slice());
                proof {
                    let a = attr("owner".spec_bytes(), hex((*owner)@));
                    lemma_concat_associative(start, acc, a);
                    acc = acc + a;
                }
                writer.write_attr_u64("amount", *amount);
                proof {
                    let a = attr("amount".spec_bytes(), decimal(*amount as nat));
                    lemma_concat_associative(start, acc, a);
                    acc = acc + a;
                }
                writer.write_attr_u64("new_balance", *new_balance);
                proof {
                    let a = attr("new_balance".spec_bytes(), decimal(*new_balance as nat));
                    lemma_concat_associative(start, acc, a);
                    acc = acc + a;
                }
                writer.write_attr("reason", reason.as_str());
                proof {
                    let a = attr("reason".spec_bytes(), encode_utf8((*reason)@));
                    lemma_concat_associative(start, acc, a);
                    acc = acc + a;
                }
                write_attr_opt_hex(writer, "signer", signer);
                proof {
                    let a = attr("signer".spec_bytes(), opt_hex((*signer)));
                    lemma_concat_associative(start, acc, a);
                    acc = acc + a;
                }
                assert(writer@ == start + self.spec_abci_bytes());
            },
            Event::WithdrawalAuthorized { withdrawal_id, authorization_digest } => {
                writer.begin_event("withdrawal_authorized", 2);
                let ghost mut acc = abci_header("withdrawal_authorized".spec_bytes(), 2);
                proof {
                    lemma_concat_associative(start, frame("withdrawal_authorized".spec_bytes()), le16(2));
                }
                writer.write_attr_u64("withdrawal_id", *withdrawal_id);
                proof {
                    let a = attr("withdrawal_id".spec_bytes(), decimal(*withdrawal_id as nat));
                    lemma_concat_associative(start, acc, a);
                    acc = acc + a;
                }
                writer.write_attr_hex("authorization_digest", authorization_digest.as_slice());
                proof {
                    let a = attr("authorization_digest".spec_bytes(), hex((*authorization_digest)@));
                    lemma_concat_associative(start, acc, a);
                    acc = acc + a;
                }
                assert(writer@ == start + self.spec_abci_bytes());
            },
            Event::AgentApproved { owner, agent, agent_pubkey } => {
                writer.begin_event("agent_approved", 3);
                let ghost mut acc = abci_header("agent_approved".spec_bytes(), 3);
                proof {
                    lemma_concat_associative(start, frame("agent_approved".spec_bytes()), le16(3));
                }
                writer.write_attr_hex("owner", owner.as_slice());
                proof {
                    let a = attr("owner".spec_bytes(), hex((*owner)@));
                    lemma_concat_associative(start, acc, a);
                    acc = acc + a;
                }
                writer.write_attr_hex("agent", agent.as_slice());
                proof {
                    let a = attr("agent".spec_bytes(), hex((*agent)@));
                    lemma_concat_associative(start, acc, a);
                    acc = acc + a;
                }
                writer.write_attr_hex("agent_pubkey", agent_pubkey.as_slice());
                proof {
                    let a = attr("agent_pubkey".spec_bytes(), hex((*agent_pubkey)@));
                    lemma_concat_associative(start, acc, a);
                    acc = acc + a;
                }
                assert(writer@ == start + self.spec_abci_bytes());
            },
            Event::AgentRevoked { owner, agent, agent_pubkey } => {
                writer.begin_event("agent_revoked", 3);
                let ghost mut acc = abci_header("agent_revoked".spec_bytes(), 3);
                proof {
                    lemma_concat_associative(start, frame("agent_revoked".spec_bytes()), le16(3));
                }
                writer.write_attr_hex("owner", owner.as_slice());
                proof {
                    let a = attr("owner".spec_bytes(), hex((*owner)@));
                    lemma_concat_associative(start, acc, a);
                    acc = acc + a;
                }
                writer.write_attr_hex("agent", agent.as_slice());
                proof {
                    let a = attr("agent".spec_bytes(), hex((*agent)@));
                    lemma_concat_associative(start, acc, a);
                    acc = acc + a;
                }
                writer.write_attr_hex("agent_pubkey", agent_pubkey.as_slice());
                proof {
                    let a = attr("agent_pubkey".spec_bytes(), hex((*agent_pubkey)@));
                    lemma_concat_associative(start, acc, a);
                    acc = acc + a;
                }
                assert(writer@ == start + self.spec_abci_bytes());
            },
            _ => {},
        }
    }

    /// Appends one of the funding, margin and leverage events.
    #[verifier::rlimit(50)]
    fn encode_funding(&self, writer: &mut AbciEventWriter)
        requires
            self is FundingApplied
            || self is FundingSettled
            || self is FundingShortfall
            || self is MarginWarning
            || self is MarketOrderProcessed
            || self is UserMarketLeverageSet
            || self is SocializedLossSettled,
        ensures
            final(writer)@ == old(writer)@ + self.spec_abci_bytes(),
    {
        let ghost start = writer@;
        match self {
            Event::FundingApplied { market, funding_rate_bps, cumulative_funding, timestamp_ms } => {
                writer.begin_event("funding_applied", 4);
                let ghost mut acc = abci_header("funding_applied".spec_bytes(), 4);
                proof {
                    lemma_concat_associative(start, frame("funding_applied".spec_bytes()), le16(4));
                }
                writer.write_attr_u64("market", *market as u64);
                proof {
                    let a = attr("market".spec_bytes(), decimal(*market as nat));
                    lemma_concat_associative(start, acc, a);
                    acc = acc + a;
                }
                writer.write_attr_i64("funding_rate_bps", *funding_rate_bps);
                proof {
                    let a = attr("funding_rate_bps".spec_bytes(), signed_decimal(*funding_rate_bps as int));
                    lemma_concat_associative(start, acc, a);
                    acc = acc + a;
                }
                writer.write_attr_i64("cumulative_funding", *cumulative_funding);
                proof {
                    let a = attr("cumulative_funding".spec_bytes(), signed_decimal(*cumulative_funding as int));
                    lemma_concat_associative(start, acc, a);
                    acc = acc + a;
                }
                writer.write_attr_u64("timestamp_ms", *timestamp_ms);
                proof {
                    let a = attr("timestamp_ms".spec_bytes(), decimal(*timestamp_ms as nat));
                    lemma_concat_associative(start, acc, a);
                    acc = acc + a;
                }
                assert(writer@ == start + self.spec_abci_bytes());
            },
            Event::FundingSettled { owner, market, payment } => {
                writer.begin_event("funding_settled", 3);
                let ghost mut acc = abci_header("funding_settled".spec_bytes(), 3);
                proof {
                    lemma_concat_associative(start, frame("funding_settled".spec_bytes()), le16(3));
                }
                writer.write_attr_hex("owner", owner.as_slice());
                proof {
                    let a = attr("owner".spec_bytes(), hex((*owner)@));
                    lemma_concat_associative(start, acc, a);
                    acc = acc + a;
                }
                writer.write_attr_u64("market", *market as u64);
                proof {
                    let a = attr("market".spec_bytes(), decimal(*market as nat));
                    lemma_concat_associative(start, acc, a);
                    acc = acc + a;
                }
                writer.write_attr_i64("payment", *payment);
                proof {
                    let a = attr("payment".spec_bytes(), signed_decimal(*payment as int));
                    lemma_concat_associative(start, acc, a);
                    acc = acc + a;
                }
                assert(writer@ == start + self.spec_abci_bytes());
            },
            Event::FundingShortfall { owner, market, owed, actual, shortfall } => {
                writer.begin_event("funding_shortfall", 5);
                let ghost mut acc = abci_header("funding_shortfall".spec_bytes(), 5);
                proof {
                    lemma_concat_associative(start, frame("funding_shortfall".spec_bytes()), le16(5));
                }
                writer.write_attr_hex("owner", owner.as_slice());
                proof {
                    let a = attr("owner".spec_bytes(), hex((*owner)@));
                    lemma_concat_associative(start, acc, a);
                    acc = acc + a;
                }
                writer.write_attr_u64("market", *market as u64);
                proof {
                    let a = attr("market".spec_bytes(), decimal(*market as nat));
                    lemma_concat_associative(start, acc, a);
                    acc = acc + a;
                }
                writer.write_attr_i64("owed", *owed);
                proof {
                    let a = attr("owed".spec_bytes(), signed_decimal(*owed as int));
                    lemma_concat_associative(start, acc, a);
                    acc = acc + a;
                }
                writer.write_attr_i64("actual", *actual);
                proof {
                    let a = attr("actual".spec_bytes(), signed_decimal(*actual as int));
                    lemma_concat_associative(start, acc, a);
                    acc = acc + a;
                }
                writer.write_attr_u64("shortfall", *shortfall);
                proof {
                    let a = attr("shortfall".spec_bytes(), decimal(*shortfall as nat));
                    lemma_concat_associative(start, acc, a);
                    acc = acc + a;
                }
                assert(writer@ == start + self.spec_abci_bytes());
            },
            Event::MarginWarning { owner, equity, maintenance_margin } => {
                writer.begin_event("margin_warning", 3);
                let ghost mut acc = abci_header("margin_warning".spec_bytes(), 3);
                proof {
                    lemma_concat_associative(start, frame("margin_warning".spec_bytes()), le16(3));
                }
                writer.write_attr_hex("owner", owner.as_slice());
                proof {
                    let a = attr("owner".spec_bytes(), hex((*owner)@));
                    lemma_concat_associative(start, acc, a);
                    acc = acc + a;
                }
                writer.write_attr_i64("equity", *equity);
                proof {
                    let a = attr("equity".spec_bytes(), signed_decimal(*equity as int));
                    lemma_concat_associative(start, acc, a);
                    acc = acc + a;
                }
                writer.write_attr_u64("maintenance_margin", *maintenance_margin);
                proof {
                    let a = attr("maintenance_margin".spec_bytes(), decimal(*maintenance_margin as nat));
                    lemma_concat_associative(start, acc, a);
                    acc = acc + a;
                }
                assert(writer@ == start + self.spec_abci_bytes());
            },
            Event::MarketOrderProcessed {
                order_id,
                market,
                owner,
                side,
                requested_quantity,
                filled_quantity,
                client_order_id,
            } => {
                writer.begin_event("market_order_processed", 7);
                let ghost mut acc = abci_header("market_order_processed".spec_bytes(), 7);
                proof {
                    lemma_concat_associative(start, frame("market_order_processed".spec_bytes()), le16(7));
                }
                writer.write_attr_u64("order_id", *order_id);
                proof {
                    let a = attr("order_id".spec_bytes(), decimal(*order_id as nat));
                    lemma_concat_associative(start, acc, a);
                    acc = acc + a;
                }
                writer.write_attr_u64("market", *market as u64);
                proof {
                    let a = attr("market".spec_bytes(), decimal(*market as nat));
                    lemma_concat_associative(start, acc, a);
                    acc = acc + a;
                }
                writer.write_attr_hex("owner", owner.as_slice());
                proof {
                    let a = attr("owner".spec_bytes(), hex((*owner)@));
                    lemma_concat_associative(start, acc, a);
                    acc = acc + a;
                }
                writer.write_attr("side", side.as_str());
                proof {
                    let a = attr("side".spec_bytes(), encode_utf8((*side).spec_text()));
                    lemma_concat_associative(start, acc, a);
                    acc = acc + a;
                }
                writer.write_attr_u64("requested_quantity", *requested_quantity);
                proof {
                    let a = attr("requested_quantity".spec_bytes(), decimal(*requested_quantity as nat));
                    lemma_concat_associative(start, acc, a);
                    acc = acc + a;
                }
                writer.write_attr_u64("filled_quantity", *filled_quantity);
                proof {
                    let a = attr("filled_quantity".spec_bytes(), decimal(*filled_quantity as nat));
                    lemma_concat_associative(start, acc, a);
                    acc = acc + a;
                }
                writer.write_attr_u64("client_order_id", *client_order_id);
                proof {
                    let a = attr("client_order_id".spec_bytes(), decimal(*client_order_id as nat));
                    lemma_concat_associative(start, acc, a);
                    acc = acc + a;
                }
                assert(writer@ == start + self.spec_abci_bytes());
            },
            Event::UserMarketLeverageSet { owner, market, user_im_bps } => {
                writer.begin_event("user_market_leverage_set", 3);
                let ghost mut acc = abci_header("user_market_leverage_set".spec_bytes(), 3);
                proof {
                    lemma_concat_associative(start, frame("user_market_leverage_set".spec_bytes()), le16(3));
                }
                writer.write_attr_hex("owner", owner.as_slice());
                proof {
                    let a = attr("owner".spec_bytes(), hex((*owner)@));
                    lemma_concat_associative(start, acc, a);
                    acc = acc + a;
                }
                writer.write_attr_u64("market", *market as u64);
                proof {
                    let a = attr("market".spec_bytes(), decimal(*market as nat));
                    lemma_concat_associative(start, acc, a);
                    acc = acc + a;
                }
                writer.write_attr_u64("user_im_bps", *user_im_bps as u64);
                proof {
                    let a = attr("user_im_bps".spec_bytes(), decimal(*user_im_bps as nat));
                    lemma_concat_associative(start, acc, a);
                    acc = acc + a;
                }
                assert(writer@ == start + self.spec_abci_bytes());
            },
            Event::SocializedLossSettled { owner, market, owed, collected } => {
                writer.begin_event("socialized_loss_settled", 4);
                let ghost mut acc = abci_header("socialized_loss_settled".spec_bytes(), 4);
                proof {
                    lemma_concat_associative(start, frame("socialized_loss_settled".spec_bytes()), le16(4));
                }
                writer.write_attr_hex("owner", owner.as_slice());
                proof {
                    let a = attr("owner".spec_bytes(), hex((*owner)@));
                    lemma_concat_associative(start, acc, a);
                    acc = acc + a;
                }
                writer.write_attr_u64("market", *market as u64);
                proof {
                    let a = attr("market".spec_bytes(), decimal(*market as nat));
                    lemma_concat_associative(start, acc, a);
                    acc = acc + a;
                }
                writer.write_attr_u64("owed", *owed);
                proof {
                    let a = attr("owed".spec_bytes(), decimal(*owed as nat));
                    lemma_concat_associative(start, acc, a);
                    acc = acc + a;
                }
                writer.write_attr_u64("collected", *collected);
                proof {
                    let a = attr("collected".spec_bytes(), decimal(*collected as nat));
                    lemma_concat_associative(start, acc, a);
                    acc = acc + a;
                }
                assert(writer@ == start + self.spec_abci_bytes());
            },
            _ => {},
        }
    }

    /// Appends one of the governance and oracle-guard events.
    #[verifier::rlimit(50)]
    fn encode_governance(&self, writer: &mut AbciEventWriter)
        requires
            self is ProposalCreated
            || self is ProposalApproved
            || self is ProposalExecuted
            || self is ProposalFailed
            || self is ProposalRejected
            || self is ProposalExpired
            || self is EmergencyActionExecuted
            || self is AdminSignerRegistryUpdated
            || self is BridgeUnpauseAuthorized
            || self is AuthoritySetUpdated
            || self is OracleGuardsUpdated
            || self is OracleUpdateRejected
            || self is FundingSkipped,
        ensures
            final(writer)@ == old(writer)@ + self.spec_abci_bytes(),
    {
        let ghost start = writer@;
        match self {
            Event::ProposalCreated {
                proposal_id,
                proposer,
                registry_version,
                threshold,
                action_tag,
                content_hash,
                created_ms,
                expiry_ms,
            } => {
                writer.begin_event("proposal_created", 8);
                let ghost mut acc = abci_header("proposal_created".spec_bytes(), 8);
                proof {
                    lemma_concat_associative(start, frame("proposal_created".spec_bytes()), le16(8));
                }
                writer.write_attr_u64("proposal_id", *proposal_id);
                proof {
                    let a = attr("proposal_id".spec_bytes(), decimal(*proposal_id as nat));
                    lemma_concat_associative(start, acc, a);
                    acc = acc + a;
                }
                writer.write_attr_hex("proposer", proposer.as_slice());
                proof {
                    let a = attr("proposer".spec_bytes(), hex((*proposer)@));
                    lemma_concat_associative(start, acc, a);
                    acc = acc + a;
                }
                writer.write_attr_u64("registry_version", *registry_version);
                proof {
                    let a = attr("registry_version".spec_bytes(), decimal(*registry_version as nat));
                    lemma_concat_associative(start, acc, a);
                    acc = acc + a;
                }
                writer.write_attr_u64("threshold", *threshold as u64);
                proof {
                    let a = attr("threshold".spec_bytes(), decimal(*threshold as nat));
                    lemma_concat_associative(start, acc, a);
                    acc = acc + a;
                }
                writer.write_attr_u64("action_tag", *action_tag as u64);
                proof {
                    let a = attr("action_tag".spec_bytes(), decimal(*action_tag as nat));
                    lemma_concat_associative(start, acc, a);
                    acc = acc + a;
                }
                writer.write_attr_hex("content_hash", content_hash.as_slice());
                proof {
                    let a = attr("content_hash".spec_bytes(), hex((*content_hash)@));
                    lemma_concat_associative(start, acc, a);
                    acc = acc + a;
                }
                writer.write_attr_u64("created_ms", *created_ms);
                proof {
                    let a = attr("created_ms".spec_bytes(), decimal(*created_ms as nat));
                    lemma_concat_associative(start, acc, a);
                    acc = acc + a;
                }
                writer.write_attr_u64("expiry_ms", *expiry_ms);
                proof {
                    let a = attr("expiry_ms".spec_bytes(), decimal(*expiry_ms as nat));
                    lemma_concat_associative(start, acc, a);
                    acc = acc + a;
                }
                assert(writer@ == start + self.spec_abci_bytes());
            },
            Event::ProposalApproved { proposal_id, approver, approvals_count, threshold } => {
                writer.begin_event("proposal_approved", 4);
                let ghost mut acc = abci_header("proposal_approved".spec_bytes(), 4);
                proof {
                    lemma_concat_associative(start, frame("proposal_approved".spec_bytes()), le16(4));
                }
                writer.write_attr_u64("proposal_id", *proposal_id);
                proof {
                    let a = attr("proposal_id".spec_bytes(), decimal(*proposal_id as nat));
                    lemma_concat_associative(start, acc, a);
                    acc = acc + a;
                }
                writer.write_attr_hex("approver", approver.as_slice());
                proof {
                    let a = attr("approver".spec_bytes(), hex((*approver)@));
                    lemma_concat_associative(start, acc, a);
                    acc = acc + a;
                }
                writer.write_attr_u64("approvals_count", *approvals_count as u64);
                proof {
                    let a = attr("approvals_count".spec_bytes(), decimal(*approvals_count as nat));
                    lemma_concat_associative(start, acc, a);
                    acc = acc + a;
                }
                writer.write_attr_u64("threshold", *threshold as u64);
                proof {
                    let a = attr("threshold".spec_bytes(), decimal(*threshold as nat));
                    lemma_concat_associative(start, acc, a);
                    acc = acc + a;
                }
                assert(writer@ == start + self.spec_abci_bytes());
            },
            Event::ProposalExecuted { proposal_id } => {
                writer.begin_event("proposal_executed", 1);
                let ghost mut acc = abci_header("proposal_executed".spec_bytes(), 1);
                proof {
                    lemma_concat_associative(start, frame("proposal_executed".spec_bytes()), le16(1));
                }
                writer.write_attr_u64("proposal_id", *proposal_id);
                proof {
                    let a = attr("proposal_id".spec_bytes(), decimal(*proposal_id as nat));
                    lemma_concat_associative(start, acc, a);
                    acc = acc + a;
                }
                assert(writer@ == start + self.spec_abci_bytes());
            },
            Event::ProposalFailed { proposal_id, error_code } => {
                writer.begin_event("proposal_failed", 2);
                let ghost mut acc = abci_header("proposal_failed".spec_bytes(), 2);
                proof {
                    lemma_concat_associative(start, frame("proposal_failed".spec_bytes()), le16(2));
                }
                writer.write_attr_u64("proposal_id", *proposal_id);
                proof {
                    let a = attr("proposal_id".spec_bytes(), decimal(*proposal_id as nat));
                    lemma_concat_associative(start, acc, a);
                    acc = acc + a;
                }
                writer.write_attr_u64("error_code", *error_code as u64);
                proof {
                    let a = attr("error_code".spec_bytes(), decimal(*error_code as nat));
                    lemma_concat_associative(start, acc, a);
                    acc = acc + a;
                }
                assert(writer@ == start + self.spec_abci_bytes());
            },
            Event::ProposalRejected { proposal_id, rejecter, by_proposer, rejections_count } => {
                writer.begin_event("proposal_rejected", 4);
                let ghost mut acc = abci_header("proposal_rejected".spec_bytes(), 4);
                proof {
                    lemma_concat_associative(start, frame("proposal_rejected".spec_bytes()), le16(4));
                }
                writer.write_attr_u64("proposal_id", *proposal_id);
                proof {
                    let a = attr("proposal_id".spec_bytes(), decimal(*proposal_id as nat));
                    lemma_concat_associative(start, acc, a);
                    acc = acc + a;
                }
                writer.write_attr_hex("rejecter", rejecter.as_slice());
                proof {
                    let a = attr("rejecter".spec_bytes(), hex((*rejecter)@));
                    lemma_concat_associative(start, acc, a);
                    acc = acc + a;
                }
                writer.write_attr("by_proposer", bool_text(*by_proposer));
                proof {
                    let a = attr("by_proposer".spec_bytes(), encode_utf8(spec_bool_text(*by_proposer)));
                    lemma_concat_associative(start, acc, a);
                    acc = acc + a;
                }
                writer.write_attr_u64("rejections_count", *rejections_count as u64);
                proof {
                    let a = attr("rejections_count".spec_bytes(), decimal(*rejections_count as nat));
                    lemma_concat_associative(start, acc, a);
                    acc = acc + a;
                }
                assert(writer@ == start + self.spec_abci_bytes());
            },
            Event::ProposalExpired { proposal_id, reason } => {
                writer.begin_event("proposal_expired", 2);
                let ghost mut acc = abci_header("proposal_expired".spec_bytes(), 2);
                proof {
                    lemma_concat_associative(start, frame("proposal_expired".spec_bytes()), le16(2));
                }
                writer.write_attr_u64("proposal_id", *proposal_id);
                proof {
                    let a = attr("proposal_id".spec_bytes(), decimal(*proposal_id as nat));
                    lemma_concat_associative(start, acc, a);
                    acc = acc + a;
                }
                writer.write_attr("reason", reason.as_str());
                proof {
                    let a = attr("reason".spec_bytes(), encode_utf8((*reason).spec_text()));
                    lemma_concat_associative(start, acc, a);
                    acc = acc + a;
                }
                assert(writer@ == start + self.spec_abci_bytes());
            },
            Event::EmergencyActionExecuted { signer, action_tag, market_id } => {
                writer.begin_event("emergency_action_executed", 3);
                let ghost mut acc = abci_header("emergency_action_executed".spec_bytes(), 3);
                proof {
                    lemma_concat_associative(start, frame("emergency_action_executed".spec_bytes()), le16(3));
                }
                writer.write_attr_hex("signer", signer.as_slice());
                proof {
                    let a = attr("signer".spec_bytes(), hex((*signer)@));
                    lemma_concat_associative(start, acc, a);
                    acc = acc + a;
                }
                writer.write_attr_u64("action_tag", *action_tag as u64);
                proof {
                    let a = attr("action_tag".spec_bytes(), decimal(*action_tag as nat));
                    lemma_concat_associative(start, acc, a);
                    acc = acc + a;
                }
                writer.write_attr_u64("market_id", *market_id as u64);
                proof {
                    let a = attr("market_id".spec_bytes(), decimal(*market_id as nat));
                    lemma_concat_associative(start, acc, a);
                    acc = acc + a;
                }
                assert(writer@ == start + self.spec_abci_bytes());
            },
            Event::AdminSignerRegistryUpdated { version, threshold, members } => {
                writer.begin_event("admin_signer_registry_updated", 3);
                let ghost mut acc = abci_header("admin_signer_registry_updated".spec_bytes(), 3);
                proof {
                    lemma_concat_associative(start, frame("admin_signer_registry_updated".spec_bytes()), le16(3));
                }
                writer.write_attr_u64("version", *version);
                proof {
                    let a = attr("version".spec_bytes(), decimal(*version as nat));
                    lemma_concat_associative(start, acc, a);
                    acc = acc + a;
                }
                writer.write_attr_u64("threshold", *threshold as u64);
                proof {
                    let a = attr("threshold".spec_bytes(), decimal(*threshold as nat));
                    lemma_concat_associative(start, acc, a);
                    acc = acc + a;
                }
                writer.write_attr("members", members.as_str());
                proof {
                    let a = attr("members".spec_bytes(), encode_utf8((*members)@));
                    lemma_concat_associative(start, acc, a);
                    acc = acc + a;
                }
                assert(writer@ == start + self.spec_abci_bytes());
            },
            Event::BridgeUnpauseAuthorized { proposal_id } => {
                writer.begin_event("bridge_unpause_authorized", 1);
                let ghost mut acc = abci_header("bridge_unpause_authorized".spec_bytes(), 1);
                proof {
                    lemma_concat_associative(start, frame("bridge_unpause_authorized".spec_bytes()), le16(1));
                }
                writer.write_attr_u64("proposal_id", *proposal_id);
                proof {
                    let a = attr("proposal_id".spec_bytes(), decimal(*proposal_id as nat));
                    lemma_concat_associative(start, acc, a);
                    acc = acc + a;
                }
                assert(writer@ == start + self.spec_abci_bytes());
            },
            Event::AuthoritySetUpdated { domain, added, removed, proposal_id } => {
                writer.begin_event("authority_set_updated", 4);
                let ghost mut acc = abci_header("authority_set_updated".spec_bytes(), 4);
                proof {
                    lemma_concat_associative(start, frame("authority_set_updated".spec_bytes()), le16(4));
                }
                writer.write_attr_u64("domain", *domain as u64);
                proof {
                    let a = attr("domain".spec_bytes(), decimal(*domain as nat));
                    lemma_concat_associative(start, acc, a);
                    acc = acc + a;
                }
                writer.write_attr("added", added.as_str());
                proof {
                    let a = attr("added".spec_bytes(), encode_utf8((*added)@));
                    lemma_concat_associative(start, acc, a);
                    acc = acc + a;
                }
                writer.write_attr("removed", removed.as_str());
                proof {
                    let a = attr("removed".spec_bytes(), encode_utf8((*removed)@));
                    lemma_concat_associative(start, acc, a);
                    acc = acc + a;
                }
                writer.write_attr_u64("proposal_id", *proposal_id);
                proof {
                    let a = attr("proposal_id".spec_bytes(), decimal(*proposal_id as nat));
                    lemma_concat_associative(start, acc, a);
                    acc = acc + a;
                }
                assert(writer@ == start + self.spec_abci_bytes());
            },
            Event::OracleGuardsUpdated {
                market,
                mark_price_max_oracle_age_ms,
                max_oracle_deviation_bps,
                proposal_id,
            } => {
                writer.begin_event("oracle_guards_updated", 4);
                let ghost mut acc = abci_header("oracle_guards_updated".spec_bytes(), 4);
                proof {
                    lemma_concat_associative(start, frame("oracle_guards_updated".spec_bytes()), le16(4));
                }
                writer.write_attr_u64("market", *market as u64);
                proof {
                    let a = attr("market".spec_bytes(), decimal(*market as nat));
                    lemma_concat_associative(start, acc, a);
                    acc = acc + a;
                }
                writer.write_attr_u64("mark_price_max_oracle_age_ms", *mark_price_max_oracle_age_ms);
                proof {
                    let a = attr("mark_price_max_oracle_age_ms".spec_bytes(), decimal(*mark_price_max_oracle_age_ms as nat));
                    lemma_concat_associative(start, acc, a);
                    acc = acc + a;
                }
                writer.write_attr_u64("max_oracle_deviation_bps", *max_oracle_deviation_bps as u64);
                proof {
                    let a = attr("max_oracle_deviation_bps".spec_bytes(), decimal(*max_oracle_deviation_bps as nat));
                    lemma_concat_associative(start, acc, a);
                    acc = acc + a;
                }
                writer.write_attr_u64("proposal_id", *proposal_id);
                proof {
                    let a = attr("proposal_id".spec_bytes(), decimal(*proposal_id as nat));
                    lemma_concat_associative(start, acc, a);
                    acc = acc + a;
                }
                assert(writer@ == start + self.spec_abci_bytes());
            },
            Event::OracleUpdateRejected {
                market,
                submitted_price,
                last_good,
                max_oracle_deviation_bps,
                signer,
                reason,
            } => {
                writer.begin_event("oracle_update_rejected", 6);
                let ghost mut acc = abci_header("oracle_update_rejected".spec_bytes(), 6);
                proof {
                    lemma_concat_associative(start, frame("oracle_update_rejected".spec_bytes()), le16(6));
                }
                writer.write_attr_u64("market", *market as u64);
                proof {
                    let a = attr("market".spec_bytes(), decimal(*market as nat));
                    lemma_concat_associative(start, acc, a);
                    acc = acc + a;
                }
                writer.write_attr_u64("submitted_price", *submitted_price);
                proof {
                    let a = attr("submitted_price".spec_bytes(), decimal(*submitted_price as nat));
                    lemma_concat_associative(start, acc, a);
                    acc = acc + a;
                }
                writer.write_attr_u64("last_good", *last_good);
                proof {
                    let a = attr("last_good".spec_bytes(), decimal(*last_good as nat));
                    lemma_concat_associative(start, acc, a);
                    acc = acc + a;
                }
                writer.write_attr_u64("max_oracle_deviation_bps", *max_oracle_deviation_bps as u64);
                proof {
                    let a = attr("max_oracle_deviation_bps".spec_bytes(), decimal(*max_oracle_deviation_bps as nat));
                    lemma_concat_associative(start, acc, a);
                    acc = acc + a;
                }
                write_attr_opt_hex(writer, "signer", signer);
                proof {
                    let a = attr("signer".spec_bytes(), opt_hex((*signer)));
                    lemma_concat_associative(start, acc, a);
                    acc = acc + a;
                }
                writer.write_attr("reason", reason.as_str());
                proof {
                    let a = attr("reason".spec_bytes(), encode_utf8((*reason).spec_text()));
                    lemma_concat_associative(start, acc, a);
                    acc = acc + a;
                }
                assert(writer@ == start + self.spec_abci_bytes());
            },
            Event::FundingSkipped { market, timestamp_ms, reason } => {
                writer.begin_event("funding_skipped", 3);
                let ghost mut acc = abci_header("funding_skipped".spec_bytes(), 3);
                proof {
                    lemma_concat_associative(start, frame("funding_skipped".spec_bytes()), le16(3));
                }
                writer.write_attr_u64("market", *market as u64);
                proof {
                    let a = attr("market".spec_bytes(), decimal(*market as nat));
                    lemma_concat_associative(start, acc, a);
                    acc = acc + a;
                }
                writer.write_attr_u64("timestamp_ms", *timestamp_ms);
                proof {
                    let a = attr("timestamp_ms".spec_bytes(), decimal(*timestamp_ms as nat));
                    lemma_concat_associative(start, acc, a);
                    acc = acc + a;
                }
                writer.write_attr("reason", reason.as_str());
                proof {
                    let a = attr("reason".spec_bytes(), encode_utf8((*reason).spec_text()));
                    lemma_concat_associative(start, acc, a);
                    acc = acc + a;
                }
                assert(writer@ == start + self.spec_abci_bytes());
            },
            _ => {},
        }
    }

    /// Appends one of the trigger and sub-account events.
    #[verifier::rlimit(50)]
    fn encode_trigger(&self, writer: &mut AbciEventWriter)
        requires
            self is TriggerMarketConfigScheduled
            || self is TriggerMarketConfigActivated
            || self is PositionTriggersSet
            || self is PositionTriggersCancelled
            || self is PositionTriggersInvalidated
            || self is PositionTriggerActivated
            || self is PositionTriggerExecuted
            || self is PositionTriggerDeferred
            || self is TriggerMarketDeferred
            || self is TriggerMarketResumed
            || self is SubAccountCreated
            || self is SubAccountTransferCompleted,
        ensures
            final(writer)@ == old(writer)@ + self.spec_abci_bytes(),
    {
        let ghost start = writer@;
        match self {
            Event::TriggerMarketConfigScheduled {
                market,
                version,
                accepted_height,
                effective_height,
                enabled,
                max_trigger_slippage_bps,
                max_mark_age_ms,
                max_future_publish_skew_ms,
                max_active_brackets,
            } => {
                writer.begin_event("trigger_market_config_scheduled", 9);
                let ghost mut acc = abci_header("trigger_market_config_scheduled".spec_bytes(), 9);
                proof {
                    lemma_concat_associative(start, frame("trigger_market_config_scheduled".spec_bytes()), le16(9));
                }
                writer.write_attr_u64("market", *market as u64);
                proof {
                    let a = attr("market".spec_bytes(), decimal(*market as nat));
                    lemma_concat_associative(start, acc, a);
                    acc = acc + a;
                }
                writer.write_attr_u64("version", *version);
                proof {
                    let a = attr("version".spec_bytes(), decimal(*version as nat));
                    lemma_concat_associative(start, acc, a);
                    acc = acc + a;
                }
                writer.write_attr_u64("accepted_height", *accepted_height);
                proof {
                    let a = attr("accepted_height".spec_bytes(), decimal(*accepted_height as nat));
                    lemma_concat_associative(start, acc, a);
                    acc = acc + a;
                }
                writer.write_attr_u64("effective_height", *effective_height);
                proof {
                    let a = attr("effective_height".spec_bytes(), decimal(*effective_height as nat));
                    lemma_concat_associative(start, acc, a);
                    acc = acc + a;
                }
                writer.write_attr("enabled", bool_text(*enabled));
                proof {
                    let a = attr("enabled".spec_bytes(), encode_utf8(spec_bool_text(*enabled)));
                    lemma_concat_associative(start, acc, a);
                    acc = acc + a;
                }
                writer.write_attr_u64("max_trigger_slippage_bps", *max_trigger_slippage_bps as u64);
                proof {
                    let a = attr("max_trigger_slippage_bps".spec_bytes(), decimal(*max_trigger_slippage_bps as nat));
                    lemma_concat_associative(start, acc, a);
                    acc = acc + a;
                }
                writer.write_attr_u64("max_mark_age_ms", *max_mark_age_ms);
                proof {
                    let a = attr("max_mark_age_ms".spec_bytes(), decimal(*max_mark_age_ms as nat));
                    lemma_concat_associative(start, acc, a);
                    acc = acc + a;
                }
                writer.write_attr_u64("max_future_publish_skew_ms", *max_future_publish_skew_ms);
                proof {
                    let a = attr("max_future_publish_skew_ms".spec_bytes(), decimal(*max_future_publish_skew_ms as nat));
                    lemma_concat_associative(start, acc, a);
                    acc = acc + a;
                }
                writer.write_attr_u64("max_active_brackets", *max_active_brackets);
                proof {
                    let a = attr("max_active_brackets".spec_bytes(), decimal(*max_active_brackets as nat));
                    lemma_concat_associative(start, acc, a);
                    acc = acc + a;
                }
                assert(writer@ == start + self.spec_abci_bytes());
            },
            Event::TriggerMarketConfigActivated {
                market,
                version,
                effective_height,
                enabled,
                max_trigger_slippage_bps,
                max_mark_age_ms,
                max_future_publish_skew_ms,
                max_active_brackets,
            } => {
                writer.begin_event("trigger_market_config_activated", 8);
                let ghost mut acc = abci_header("trigger_market_config_activated".spec_bytes(), 8);
                proof {
                    lemma_concat_associative(start, frame("trigger_market_config_activated".spec_bytes()), le16(8));
                }
                writer.write_attr_u64("market", *market as u64);
                proof {
                    let a = attr("market".spec_bytes(), decimal(*market as nat));
                    lemma_concat_associative(start, acc, a);
                    acc = acc + a;
                }
                writer.write_attr_u64("version", *version);
                proof {
                    let a = attr("version".spec_bytes(), decimal(*version as nat));
                    lemma_concat_associative(start, acc, a);
                    acc = acc + a;
                }
                writer.write_attr_u64("effective_height", *effective_height);
                proof {
                    let a = attr("effective_height".spec_bytes(), decimal(*effective_height as nat));
                    lemma_concat_associative(start, acc, a);
                    acc = acc + a;
                }
                writer.write_attr("enabled", bool_text(*enabled));
                proof {
                    let a = attr("enabled".spec_bytes(), encode_utf8(spec_bool_text(*enabled)));
                    lemma_concat_associative(start, acc, a);
                    acc = acc + a;
                }
                writer.write_attr_u64("max_trigger_slippage_bps", *max_trigger_slippage_bps as u64);
                proof {
                    let a = attr("max_trigger_slippage_bps".spec_bytes(), decimal(*max_trigger_slippage_bps as nat));
                    lemma_concat_associative(start, acc, a);
                    acc = acc + a;
                }
                writer.write_attr_u64("max_mark_age_ms", *max_mark_age_ms);
                proof {
                    let a = attr("max_mark_age_ms".spec_bytes(), decimal(*max_mark_age_ms as nat));
                    lemma_concat_associative(start, acc, a);
                    acc = acc + a;
                }
                writer.write_attr_u64("max_future_publish_skew_ms", *max_future_publish_skew_ms);
                proof {
                    let a = attr("max_future_publish_skew_ms".spec_bytes(), decimal(*max_future_publish_skew_ms as nat));
                    lemma_concat_associative(start, acc, a);
                    acc = acc + a;
                }
                writer.write_attr_u64("max_active_brackets", *max_active_brackets);
                proof {
                    let a = attr("max_active_brackets".spec_bytes(), decimal(*max_active_brackets as nat));
                    lemma_concat_associative(start, acc, a);
                    acc = acc + a;
                }
                assert(writer@ == start + self.spec_abci_bytes());
            },
            Event::PositionTriggersSet {
                owner,
                market,
                position_epoch,
                group_id,
                client_group_id,
                stop_limb_id,
                stop_client_trigger_id,
                take_profit_limb_id,
                take_profit_client_trigger_id,
                accepted_height,
                active_from_height,
                replaced_group_id,
            } => {
                writer.begin_event("position_triggers_set", 12);
                let ghost mut acc = abci_header("position_triggers_set".spec_bytes(), 12);
                proof {
                    lemma_concat_associative(start, frame("position_triggers_set".spec_bytes()), le16(12));
                }
                writer.write_attr_hex("owner", owner.as_slice());
                proof {
                    let a = attr("owner".spec_bytes(), hex((*owner)@));
                    lemma_concat_associative(start, acc, a);
                    acc = acc + a;
                }
                writer.write_attr_u64("market", *market as u64);
                proof {
                    let a = attr("market".spec_bytes(), decimal(*market as nat));
                    lemma_concat_associative(start, acc, a);
                    acc = acc + a;
                }
                writer.write_attr_u64("position_epoch", *position_epoch);
                proof {
                    let a = attr("position_epoch".spec_bytes(), decimal(*position_epoch as nat));
                    lemma_concat_associative(start, acc, a);
                    acc = acc + a;
                }
                writer.write_attr_u64("group_id", *group_id);
                proof {
                    let a = attr("group_id".spec_bytes(), decimal(*group_id as nat));
                    lemma_concat_associative(start, acc, a);
                    acc = acc + a;
                }
                writer.write_attr_u64("client_group_id", *client_group_id);
                proof {
                    let a = attr("client_group_id".spec_bytes(), decimal(*client_group_id as nat));
                    lemma_concat_associative(start, acc, a);
                    acc = acc + a;
                }
                writer.write_attr_u64("stop_limb_id", *stop_limb_id);
                proof {
                    let a = attr("stop_limb_id".spec_bytes(), decimal(*stop_limb_id as nat));
                    lemma_concat_associative(start, acc, a);
                    acc = acc + a;
                }
                writer.write_attr_u64("stop_client_trigger_id", *stop_client_trigger_id);
                proof {
                    let a = attr("stop_client_trigger_id".spec_bytes(), decimal(*stop_client_trigger_id as nat));
                    lemma_concat_associative(start, acc, a);
                    acc = acc + a;
                }
                writer.write_attr_u64("take_profit_limb_id", *take_profit_limb_id);
                proof {
                    let a = attr("take_profit_limb_id".spec_bytes(), decimal(*take_profit_limb_id as nat));
                    lemma_concat_associative(start, acc, a);
                    acc = acc + a;
                }
                writer.write_attr_u64("take_profit_client_trigger_id", *take_profit_client_trigger_id);
                proof {
                    let a = attr("take_profit_client_trigger_id".spec_bytes(), decimal(*take_profit_client_trigger_id as nat));
                    lemma_concat_associative(start, acc, a);
                    acc = acc + a;
                }
                writer.write_attr_u64("accepted_height", *accepted_height);
                proof {
                    let a = attr("accepted_height".spec_bytes(), decimal(*accepted_height as nat));
                    lemma_concat_associative(start, acc, a);
                    acc = acc + a;
                }
                writer.write_attr_u64("active_from_height", *active_from_height);
                proof {
                    let a = attr("active_from_height".spec_bytes(), decimal(*active_from_height as nat));
                    lemma_concat_associative(start, acc, a);
                    acc = acc + a;
                }
                writer.write_attr_u64("replaced_group_id", *replaced_group_id);
                proof {
                    let a = attr("replaced_group_id".spec_bytes(), decimal(*replaced_group_id as nat));
                    lemma_concat_associative(start, acc, a);
                    acc = acc + a;
                }
                assert(writer@ == start + self.spec_abci_bytes());
            },
            Event::PositionTriggersCancelled { owner, market, position_epoch, group_id } => {
                writer.begin_event("position_triggers_cancelled", 4);
                let ghost mut acc = abci_header("position_triggers_cancelled".spec_bytes(), 4);
                proof {
                    lemma_concat_associative(start, frame("position_triggers_cancelled".spec_bytes()), le16(4));
                }
                writer.write_attr_hex("owner", owner.as_slice());
                proof {
                    let a = attr("owner".spec_bytes(), hex((*owner)@));
                    lemma_concat_associative(start, acc, a);
                    acc = acc + a;
                }
                writer.write_attr_u64("market", *market as u64);
                proof {
                    let a = attr("market".spec_bytes(), decimal(*market as nat));
                    lemma_concat_associative(start, acc, a);
                    acc = acc + a;
                }
                writer.write_attr_u64("position_epoch", *position_epoch);
                proof {
                    let a = attr("position_epoch".spec_bytes(), decimal(*position_epoch as nat));
                    lemma_concat_associative(start, acc, a);
                    acc = acc + a;
                }
                writer.write_attr_u64("group_id", *group_id);
                proof {
                    let a = attr("group_id".spec_bytes(), decimal(*group_id as nat));
                    lemma_concat_associative(start, acc, a);
                    acc = acc + a;
                }
                assert(writer@ == start + self.spec_abci_bytes());
            },
            Event::PositionTriggersInvalidated { owner, market, position_epoch, group_id } => {
                writer.begin_event("position_triggers_invalidated", 4);
                let ghost mut acc = abci_header("position_triggers_invalidated".spec_bytes(), 4);
                proof {
                    lemma_concat_associative(start, frame("position_triggers_invalidated".spec_bytes()), le16(4));
                }
                writer.write_attr_hex("owner", owner.as_slice());
                proof {
                    let a = attr("owner".spec_bytes(), hex((*owner)@));
                    lemma_concat_associative(start, acc, a);
                    acc = acc + a;
                }
                writer.write_attr_u64("market", *market as u64);
                proof {
                    let a = attr("market".spec_bytes(), decimal(*market as nat));
                    lemma_concat_associative(start, acc, a);
                    acc = acc + a;
                }
                writer.write_attr_u64("position_epoch", *position_epoch);
                proof {
                    let a = attr("position_epoch".spec_bytes(), decimal(*position_epoch as nat));
                    lemma_concat_associative(start, acc, a);
                    acc = acc + a;
                }
                writer.write_attr_u64("group_id", *group_id);
                proof {
                    let a = attr("group_id".spec_bytes(), decimal(*group_id as nat));
                    lemma_concat_associative(start, acc, a);
                    acc = acc + a;
                }
                assert(writer@ == start + self.spec_abci_bytes());
            },
            Event::PositionTriggerActivated {
                owner,
                market,
                position_epoch,
                group_id,
                limb_id,
                client_group_id,
                client_trigger_id,
                limb_kind,
                trigger_price,
                frozen_mark,
                limit_price,
                requested_quantity,
                execution_order_id,
            } => {
                writer.begin_event("position_trigger_activated", 13);
                let ghost mut acc = abci_header("position_trigger_activated".spec_bytes(), 13);
                proof {
                    lemma_concat_associative(start, frame("position_trigger_activated".spec_bytes()), le16(13));
                }
                writer.write_attr_hex("owner", owner.as_slice());
                proof {
                    let a = attr("owner".spec_bytes(), hex((*owner)@));
                    lemma_concat_associative(start, acc, a);
                    acc = acc + a;
                }
                writer.write_attr_u64("market", *market as u64);
                proof {
                    let a = attr("market".spec_bytes(), decimal(*market as nat));
                    lemma_concat_associative(start, acc, a);
                    acc = acc + a;
                }
                writer.write_attr_u64("position_epoch", *position_epoch);
                proof {
                    let a = attr("position_epoch".spec_bytes(), decimal(*position_epoch as nat));
                    lemma_concat_associative(start, acc, a);
                    acc = acc + a;
                }
                writer.write_attr_u64("group_id", *group_id);
                proof {
                    let a = attr("group_id".spec_bytes(), decimal(*group_id as nat));
                    lemma_concat_associative(start, acc, a);
                    acc = acc + a;
                }
                writer.write_attr_u64("limb_id", *limb_id);
                proof {
                    let a = attr("limb_id".spec_bytes(), decimal(*limb_id as nat));
                    lemma_concat_associative(start, acc, a);
                    acc = acc + a;
                }
                writer.write_attr_u64("client_group_id", *client_group_id);
                proof {
                    let a = attr("client_group_id".spec_bytes(), decimal(*client_group_id as nat));
                    lemma_concat_associative(start, acc, a);
                    acc = acc + a;
                }
                writer.write_attr_u64("client_trigger_id", *client_trigger_id);
                proof {
                    let a = attr("client_trigger_id".spec_bytes(), decimal(*client_trigger_id as nat));
                    lemma_concat_associative(start, acc, a);
                    acc = acc + a;
                }
                writer.write_attr("limb_kind", limb_kind.as_str());
                proof {
                    let a = attr("limb_kind".spec_bytes(), encode_utf8((*limb_kind)@));
                    lemma_concat_associative(start, acc, a);
                    acc = acc + a;
                }
                writer.write_attr_u64("trigger_price", *trigger_price);
                proof {
                    let a = attr("trigger_price".spec_bytes(), decimal(*trigger_price as nat));
                    lemma_concat_associative(start, acc, a);
                    acc = acc + a;
                }
                writer.write_attr_u64("frozen_mark", *frozen_mark);
                proof {
                    let a = attr("frozen_mark".spec_bytes(), decimal(*frozen_mark as nat));
                    lemma_concat_associative(start, acc, a);
                    acc = acc + a;
                }
                writer.write_attr_u64("limit_price", *limit_price);
                proof {
                    let a = attr("limit_price".spec_bytes(), decimal(*limit_price as nat));
                    lemma_concat_associative(start, acc, a);
                    acc = acc + a;
                }
                writer.write_attr_u64("requested_quantity", *requested_quantity);
                proof {
                    let a = attr("requested_quantity".spec_bytes(), decimal(*requested_quantity as nat));
                    lemma_concat_associative(start, acc, a);
                    acc = acc + a;
                }
                writer.write_attr_u64("execution_order_id", *execution_order_id);
                proof {
                    let a = attr("execution_order_id".spec_bytes(), decimal(*execution_order_id as nat));
                    lemma_concat_associative(start, acc, a);
                    acc = acc + a;
                }
                assert(writer@ == start + self.spec_abci_bytes());
            },
            Event::PositionTriggerExecuted {
                owner,
                market,
                position_epoch,
                group_id,
                limb_id,
                client_group_id,
                client_trigger_id,
                limb_kind,
                trigger_price,
                frozen_mark,
                limit_price,
                requested_quantity,
                filled_quantity,
                residual_quantity,
                execution_order_id,
                total_fee,
                result,
                reason,
            } => {
                writer.begin_event("position_trigger_executed", 18);
                let ghost mut acc = abci_header("position_trigger_executed".spec_bytes(), 18);
                proof {
                    lemma_concat_associative(start, frame("position_trigger_executed".spec_bytes()), le16(18));
                }
                writer.write_attr_hex("owner", owner.as_slice());
                proof {
                    let a = attr("owner".spec_bytes(), hex((*owner)@));
                    lemma_concat_associative(start, acc, a);
                    acc = acc + a;
                }
                writer.write_attr_u64("market", *market as u64);
                proof {
                    let a = attr("market".spec_bytes(), decimal(*market as nat));
                    lemma_concat_associative(start, acc, a);
                    acc = acc + a;
                }
                writer.write_attr_u64("position_epoch", *position_epoch);
                proof {
                    let a = attr("position_epoch".spec_bytes(), decimal(*position_epoch as nat));
                    lemma_concat_associative(start, acc, a);
                    acc = acc + a;
                }
                writer.write_attr_u64("group_id", *group_id);
                proof {
                    let a = attr("group_id".spec_bytes(), decimal(*group_id as nat));
                    lemma_concat_associative(start, acc, a);
                    acc = acc + a;
                }
                writer.write_attr_u64("limb_id", *limb_id);
                proof {
                    let a = attr("limb_id".spec_bytes(), decimal(*limb_id as nat));
                    lemma_concat_associative(start, acc, a);
                    acc = acc + a;
                }
                writer.write_attr_u64("client_group_id", *client_group_id);
                proof {
                    let a = attr("client_group_id".spec_bytes(), decimal(*client_group_id as nat));
                    lemma_concat_associative(start, acc, a);
                    acc = acc + a;
                }
                writer.write_attr_u64("client_trigger_id", *client_trigger_id);
                proof {
                    let a = attr("client_trigger_id".spec_bytes(), decimal(*client_trigger_id as nat));
                    lemma_concat_associative(start, acc, a);
                    acc = acc + a;
                }
                writer.write_attr("limb_kind", limb_kind.as_str());
                proof {
                    let a = attr("limb_kind".spec_bytes(), encode_utf8((*limb_kind)@));
                    lemma_concat_associative(start, acc, a);
                    acc = acc + a;
                }
                writer.write_attr_u64("trigger_price", *trigger_price);
                proof {
                    let a = attr("trigger_price".spec_bytes(), decimal(*trigger_price as nat));
                    lemma_concat_associative(start, acc, a);
                    acc = acc + a;
                }
                writer.write_attr_u64("frozen_mark", *frozen_mark);
                proof {
                    let a = attr("frozen_mark".spec_bytes(), decimal(*frozen_mark as nat));
                    lemma_concat_associative(start, acc, a);
                    acc = acc + a;
                }
                writer.write_attr_u64("limit_price", *limit_price);
                proof {
                    let a = attr("limit_price".spec_bytes(), decimal(*limit_price as nat));
                    lemma_concat_associative(start, acc, a);
                    acc = acc + a;
                }
                writer.write_attr_u64("requested_quantity", *requested_quantity);
                proof {
                    let a = attr("requested_quantity".spec_bytes(), decimal(*requested_quantity as nat));
                    lemma_concat_associative(start, acc, a);
                    acc = acc + a;
                }
                writer.write_attr_u64("filled_quantity", *filled_quantity);
                proof {
                    let a = attr("filled_quantity".spec_bytes(), decimal(*filled_quantity as nat));
                    lemma_concat_associative(start, acc, a);
                    acc = acc + a;
                }
                writer.write_attr_u64("residual_quantity", *residual_quantity);
                proof {
                    let a = attr("residual_quantity".spec_bytes(), decimal(*residual_quantity as nat));
                    lemma_concat_associative(start, acc, a);
                    acc = acc + a;
                }
                writer.write_attr_u64("execution_order_id", *execution_order_id);
                proof {
                    let a = attr("execution_order_id".spec_bytes(), decimal(*execution_order_id as nat));
                    lemma_concat_associative(start, acc, a);
                    acc = acc + a;
                }
                writer.write_attr_i64("total_fee", *total_fee);
                proof {
                    let a = attr("total_fee".spec_bytes(), signed_decimal(*total_fee as int));
                    lemma_concat_associative(start, acc, a);
                    acc = acc + a;
                }
                writer.write_attr("result", result.as_str());
                proof {
                    let a = attr("result".spec_bytes(), encode_utf8((*result)@));
                    lemma_concat_associative(start, acc, a);
                    acc = acc + a;
                }
                writer.write_attr("reason", reason.as_str());
                proof {
                    let a = attr("reason".spec_bytes(), encode_utf8((*reason)@));
                    lemma_concat_associative(start, acc, a);
                    acc = acc + a;
                }
                assert(writer@ == start + self.spec_abci_bytes());
            },
            Event::PositionTriggerDeferred {
                owner,
                market,
                position_epoch,
                group_id,
                limb_id,
                client_group_id,
                client_trigger_id,
                limb_kind,
                trigger_price,
                frozen_mark,
                requested_quantity,
                reason,
            } => {
                writer.begin_event("position_trigger_deferred", 12);
                let ghost mut acc = abci_header("position_trigger_deferred".spec_bytes(), 12);
                proof {
                    lemma_concat_associative(start, frame("position_trigger_deferred".spec_bytes()), le16(12));
                }
                writer.write_attr_hex("owner", owner.as_slice());
                proof {
                    let a = attr("owner".spec_bytes(), hex((*owner)@));
                    lemma_concat_associative(start, acc, a);
                    acc = acc + a;
                }
                writer.write_attr_u64("market", *market as u64);
                proof {
                    let a = attr("market".spec_bytes(), decimal(*market as nat));
                    lemma_concat_associative(start, acc, a);
                    acc = acc + a;
                }
                writer.write_attr_u64("position_epoch", *position_epoch);
                proof {
                    let a = attr("position_epoch".spec_bytes(), decimal(*position_epoch as nat));
                    lemma_concat_associative(start, acc, a);
                    acc = acc + a;
                }
                writer.write_attr_u64("group_id", *group_id);
                proof {
                    let a = attr("group_id".spec_bytes(), decimal(*group_id as nat));
                    lemma_concat_associative(start, acc, a);
                    acc = acc + a;
                }
                writer.write_attr_u64("limb_id", *limb_id);
                proof {
                    let a = attr("limb_id".spec_bytes(), decimal(*limb_id as nat));
                    lemma_concat_associative(start, acc, a);
                    acc = acc + a;
                }
                writer.write_attr_u64("client_group_id", *client_group_id);
                proof {
                    let a = attr("client_group_id".spec_bytes(), decimal(*client_group_id as nat));
                    lemma_concat_associative(start, acc, a);
                    acc = acc + a;
                }
                writer.write_attr_u64("client_trigger_id", *client_trigger_id);
                proof {
                    let a = attr("client_trigger_id".spec_bytes(), decimal(*client_trigger_id as nat));
                    lemma_concat_associative(start, acc, a);
                    acc = acc + a;
                }
                writer.write_attr("limb_kind", limb_kind.as_str());
                proof {
                    let a = attr("limb_kind".spec_bytes(), encode_utf8((*limb_kind)@));
                    lemma_concat_associative(start, acc, a);
                    acc = acc + a;
                }
                writer.write_attr_u64("trigger_price", *trigger_price);
                proof {
                    let a = attr("trigger_price".spec_bytes(), decimal(*trigger_price as nat));
                    lemma_concat_associative(start, acc, a);
                    acc = acc + a;
                }
                writer.write_attr_u64("frozen_mark", *frozen_mark);
                proof {
                    let a = attr("frozen_mark".spec_bytes(), decimal(*frozen_mark as nat));
                    lemma_concat_associative(start, acc, a);
                    acc = acc + a;
                }
                writer.write_attr_u64("requested_quantity", *requested_quantity);
                proof {
                    let a = attr("requested_quantity".spec_bytes(), decimal(*requested_quantity as nat));
                    lemma_concat_associative(start, acc, a);
                    acc = acc + a;
                }
                writer.write_attr("reason", reason.as_str());
                proof {
                    let a = attr("reason".spec_bytes(), encode_utf8((*reason)@));
                    lemma_concat_associative(start, acc, a);
                    acc = acc + a;
                }
                assert(writer@ == start + self.spec_abci_bytes());
            },
            Event::TriggerMarketDeferred { market, reason } => {
                writer.begin_event("trigger_market_deferred", 2);
                let ghost mut acc = abci_header("trigger_market_deferred".spec_bytes(), 2);
                proof {
                    lemma_concat_associative(start, frame("trigger_market_deferred".spec_bytes()), le16(2));
                }
                writer.write_attr_u64("market", *market as u64);
                proof {
                    let a = attr("market".spec_bytes(), decimal(*market as nat));
                    lemma_concat_associative(start, acc, a);
                    acc = acc + a;
                }
                writer.write_attr("reason", reason.as_str());
                proof {
                    let a = attr("reason".spec_bytes(), encode_utf8((*reason)@));
                    lemma_concat_associative(start, acc, a);
                    acc = acc + a;
                }
                assert(writer@ == start + self.spec_abci_bytes());
            },
            Event::TriggerMarketResumed { market, previous_reason } => {
                writer.begin_event("trigger_market_resumed", 2);
                let ghost mut acc = abci_header("trigger_market_resumed".spec_bytes(), 2);
                proof {
                    lemma_concat_associative(start, frame("trigger_market_resumed".spec_bytes()), le16(2));
                }
                writer.write_attr_u64("market", *market as u64);
                proof {
                    let a = attr("market".spec_bytes(), decimal(*market as nat));
                    lemma_concat_associative(start, acc, a);
                    acc = acc + a;
                }
                writer.write_attr("previous_reason", previous_reason.as_str());
                proof {
                    let a = attr("previous_reason".spec_bytes(), encode_utf8((*previous_reason)@));
                    lemma_concat_associative(start, acc, a);
                    acc = acc + a;
                }
                assert(writer@ == start + self.spec_abci_bytes());
            },
            Event::SubAccountCreated { owner, sub_account_id, address, name } => {
                writer.begin_event("sub_account_created", 4);
                let ghost mut acc = abci_header("sub_account_created".spec_bytes(), 4);
                proof {
                    lemma_concat_associative(start, frame("sub_account_created".spec_bytes()), le16(4));
                }
                writer.write_attr_hex("owner", owner.as_slice());
                proof {
                    let a = attr("owner".spec_bytes(), hex((*owner)@));
                    lemma_concat_associative(start, acc, a);
                    acc = acc + a;
                }
                writer.write_attr_u64("sub_account_id", *sub_account_id as u64);
                proof {
                    let a = attr("sub_account_id".spec_bytes(), decimal(*sub_account_id as nat));
                    lemma_concat_associative(start, acc, a);
                    acc = acc + a;
                }
                writer.write_attr_hex("address", address.as_slice());
                proof {
                    let a = attr("address".spec_bytes(), hex((*address)@));
                    lemma_concat_associative(start, acc, a);
                    acc = acc + a;
                }
                writer.write_attr_hex("name", name.as_slice());
                proof {
                    let a = attr("name".spec_bytes(), hex((*name)@));
                    lemma_concat_associative(start, acc, a);
                    acc = acc + a;
                }
                assert(writer@ == start + self.spec_abci_bytes());
            },
            Event::SubAccountTransferCompleted { owner, from, to, amount } => {
                writer.begin_event("sub_account_transfer_completed", 4);
                let ghost mut acc = abci_header("sub_account_transfer_completed".spec_bytes(), 4);
                proof {
                    lemma_concat_associative(start, frame("sub_account_transfer_completed".spec_bytes()), le16(4));
                }
                writer.write_attr_hex("owner", owner.as_slice());
                proof {
                    let a = attr("owner".spec_bytes(), hex((*owner)@));
                    lemma_concat_associative(start, acc, a);
                    acc = acc + a;
                }
                writer.write_attr_hex("from", from.as_slice());
                proof {
                    let a = attr("from".spec_bytes(), hex((*from)@));
                    lemma_concat_associative(start, acc, a);
                    acc = acc + a;
                }
                writer.write_attr_hex("to", to.as_slice());
                proof {
                    let a = attr("to".spec_bytes(), hex((*to)@));
                    lemma_concat_associative(start, acc, a);
                    acc = acc + a;
                }
                writer.write_attr_u64("amount", *amount);
                proof {
                    let a = attr("amount".spec_bytes(), decimal(*amount as nat));
                    lemma_concat_associative(start, acc, a);
                    acc = acc + a;
                }
                assert(writer@ == start + self.spec_abci_bytes());
            },
            _ => {},
        }
    }
}

/// The trigger contract covers exactly nine events: trade execution, the
/// setting, cancelling, invalidating, activating, executing and deferring of
/// position triggers, and a trigger market's deferral and resumption. No
/// other event (a trigger-market configuration being scheduled or activated
/// among them) needs chain coordinates.
pub proof fn lemma_trigger_coordinate_events(e: Event)
    ensures
        e.spec_requires_trigger_coordinates() <==> (e is TradeExecuted
            || e is PositionTriggersSet
            || e is PositionTriggersCancelled
            || e is PositionTriggersInvalidated
            || e is PositionTriggerActivated
            || e is PositionTriggerExecuted
            || e is PositionTriggerDeferred
            || e is TriggerMarketDeferred
            || e is TriggerMarketResumed),
        e is PositionTriggerExecuted ==> e.spec_requires_trigger_coordinates(),
        e is TriggerMarketConfigScheduled ==> !e.spec_requires_trigger_coordinates(),
        e is TriggerMarketConfigActivated ==> !e.spec_requires_trigger_coordinates(),
{
}

/// Appending no attributes leaves a header as it is.
proof fn lemma_header_no_attrs(h: Seq<u8>)
    ensures
        h + attrs_bytes(Seq::<AbciAttr>::empty()) == h,
{
    assert(h + attrs_bytes(Seq::<AbciAttr>::empty()) =~= h);
}

/// One more attribute after a header appends exactly its bytes.
proof fn lemma_header_attrs_push(h: Seq<u8>, s: Seq<AbciAttr>, a: AbciAttr)
    ensures
        h + attrs_bytes(s.push(a)) == (h + attrs_bytes(s)) + attr(a.0, a.1),
{
    lemma_attrs_bytes_push(s, a);
    lemma_concat_associative(h, attrs_bytes(s), attr(a.0, a.1));
}

/// Every event is written as its `snake_case` type followed, in declaration
/// order, by one attribute per field whose key is the field's name and whose
/// value is that same field's rendering: unsigned integers in decimal, signed
/// ones with a leading `-`, booleans as `true` / `false`, byte arrays and
/// byte vectors in lower-case hex, strings as-is, enums by their display
/// text, and absent optional values as an empty value. No field's value is
/// ever reported under another field's key.
#[verifier::rlimit(100)]
pub proof fn lemma_event_fields_under_own_keys(e: Event)
    ensures
        e matches Event::OrderPlaced { order_id, market, owner, side, price, quantity, client_order_id, time_in_force, post_only, reduce_only } ==> e.spec_abci_bytes() == event_bytes((
            "order_placed".spec_bytes(),
            Seq::<AbciAttr>::empty()
                .push(("order_id".spec_bytes(), decimal(order_id as nat)))
                .push(("market".spec_bytes(), decimal(market as nat)))
                .push(("owner".spec_bytes(), hex(owner@)))
                .push(("side".spec_bytes(), encode_utf8(side.spec_text())))
                .push(("price".spec_bytes(), decimal(price as nat)))
                .push(("quantity".spec_bytes(), decimal(quantity as nat)))
                .push(("client_order_id".spec_bytes(), decimal(client_order_id as nat)))
                .push(("time_in_force".spec_bytes(), encode_utf8(time_in_force.spec_text())))
                .push(("post_only".spec_bytes(), encode_utf8(spec_bool_text(post_only))))
                .push(("reduce_only".spec_bytes(), encode_utf8(spec_bool_text(reduce_only)))),
        )),
        e matches Event::OrderCancelled { order_id, market, owner, reason, client_order_id, original_quantity, remaining_quantity, filled_quantity } ==> e.spec_abci_bytes() == event_bytes((
            "order_cancelled".spec_bytes(),
            Seq::<AbciAttr>::empty()
                .push(("order_id".spec_bytes(), decimal(order_id as nat)))
                .push(("market".spec_bytes(), decimal(market as nat)))
                .push(("owner".spec_bytes(), hex(owner@)))
                .push(("reason".spec_bytes(), encode_utf8(reason.spec_text())))
                .push(("client_order_id".spec_bytes(), decimal(client_order_id as nat)))
                .push(("original_quantity".spec_bytes(), decimal(original_quantity as nat)))
                .push(("remaining_quantity".spec_bytes(), decimal(remaining_quantity as nat)))
                .push(("filled_quantity".spec_bytes(), decimal(filled_quantity as nat))),
        )),
        e matches Event::OrderAmended { order_id, market, owner, side, old_price, new_price, old_quantity, new_quantity, remaining_quantity, filled_quantity, queue_priority_reset, client_order_id } ==> e.spec_abci_bytes() == event_bytes((
            "order_amended".spec_bytes(),
            Seq::<AbciAttr>::empty()
                .push(("order_id".spec_bytes(), decimal(order_id as nat)))
                .push(("market".spec_bytes(), decimal(market as nat)))
                .push(("owner".spec_bytes(), hex(owner@)))
                .push(("side".spec_bytes(), encode_utf8(side.spec_text())))
                .push(("old_price".spec_bytes(), decimal(old_price as nat)))
                .push(("new_price".spec_bytes(), decimal(new_price as nat)))
                .push(("old_quantity".spec_bytes(), decimal(old_quantity as nat)))
                .push(("new_quantity".spec_bytes(), decimal(new_quantity as nat)))
                .push(("remaining_quantity".spec_bytes(), decimal(remaining_quantity as nat)))
                .push(("filled_quantity".spec_bytes(), decimal(filled_quantity as nat)))
                .push(("queue_priority_reset".spec_bytes(), encode_utf8(spec_bool_text(queue_priority_reset))))
                .push(("client_order_id".spec_bytes(), decimal(client_order_id as nat))),
        )),
        e matches Event::AtomicBasketExecuted { owner, leg_count, max_slippage_bps } ==> e.spec_abci_bytes() == event_bytes((
            "atomic_basket_executed".spec_bytes(),
            Seq::<AbciAttr>::empty()
                .push(("owner".spec_bytes(), hex(owner@)))
                .push(("leg_count".spec_bytes(), decimal(leg_count as nat)))
                .push(("max_slippage_bps".spec_bytes(), decimal(max_slippage_bps as nat))),
        )),
        e matches Event::PriceUpdated { market, price, signer } ==> e.spec_abci_bytes() == event_bytes((
            "price_updated".spec_bytes(),
            Seq::<AbciAttr>::empty()
                .push(("market".spec_bytes(), decimal(market as nat)))
                .push(("price".spec_bytes(), decimal(price as nat)))
                .push(("signer".spec_bytes(), opt_hex(signer))),
        )),
        e matches Event::TradeExecuted { fill_id, market, price, quantity, maker_order_id, maker_client_order_id, maker_owner, maker_side, taker_order_id, taker_owner, taker_client_order_id, taker_fee, maker_fee } ==> e.spec_abci_bytes() == event_bytes((
            "trade_executed".spec_bytes(),
            Seq::<AbciAttr>::empty()
                .push(("fill_id".spec_bytes(), decimal(fill_id as nat)))
                .push(("market".spec_bytes(), decimal(market as nat)))
                .push(("price".spec_bytes(), decimal(price as nat)))
                .push(("quantity".spec_bytes(), decimal(quantity as nat)))
                .push(("maker_order_id".spec_bytes(), decimal(maker_order_id as nat)))
                .push(("maker_client_order_id".spec_bytes(), decimal(maker_client_order_id as nat)))
                .push(("maker_owner".spec_bytes(), hex(maker_owner@)))
                .push(("maker_side".spec_bytes(), encode_utf8(maker_side.spec_text())))
                .push(("taker_order_id".spec_bytes(), decimal(taker_order_id as nat)))
                .push(("taker_owner".spec_bytes(), hex(taker_owner@)))
                .push(("taker_client_order_id".spec_bytes(), decimal(taker_client_order_id as nat)))
                .push(("taker_fee".spec_bytes(), signed_decimal(taker_fee as int)))
                .push(("maker_fee".spec_bytes(), signed_decimal(maker_fee as int))),
        )),
        e matches Event::FeesCollected { market, taker_owner, taker_fee, maker_owner, maker_fee } ==> e.spec_abci_bytes() == event_bytes((
            "fees_collected".spec_bytes(),
            Seq::<AbciAttr>::empty()
                .push(("market".spec_bytes(), decimal(market as nat)))
                .push(("taker_owner".spec_bytes(), hex(taker_owner@)))
                .push(("taker_fee".spec_bytes(), signed_decimal(taker_fee as int)))
                .push(("maker_owner".spec_bytes(), hex(maker_owner@)))
                .push(("maker_fee".spec_bytes(), signed_decimal(maker_fee as int))),
        )),
        e matches Event::Deposited { owner, amount, new_balance, signer } ==> e.spec_abci_bytes() == event_bytes((
            "deposited".spec_bytes(),
            Seq::<AbciAttr>::empty()
                .push(("owner".spec_bytes(), hex(owner@)))
                .push(("amount".spec_bytes(), decimal(amount as nat)))
                .push(("new_balance".spec_bytes(), decimal(new_balance as nat)))
                .push(("signer".spec_bytes(), opt_hex(signer))),
        )),
        e matches Event::Withdrawn { owner, amount, new_balance, signer } ==> e.spec_abci_bytes() == event_bytes((
            "withdrawn".spec_bytes(),
            Seq::<AbciAttr>::empty()
                .push(("owner".spec_bytes(), hex(owner@)))
                .push(("amount".spec_bytes(), decimal(amount as nat)))
                .push(("new_balance".spec_bytes(), decimal(new_balance as nat)))
                .push(("signer".spec_bytes(), opt_hex(signer))),
        )),
        e matches Event::PositionUpdated { owner, market, side, entry_price, size } ==> e.spec_abci_bytes() == event_bytes((
            "position_updated".spec_bytes(),
            Seq::<AbciAttr>::empty()
                .push(("owner".spec_bytes(), hex(owner@)))
                .push(("market".spec_bytes(), decimal(market as nat)))
                .push(("side".spec_bytes(), encode_utf8(side.spec_text())))
                .push(("entry_price".spec_bytes(), decimal(entry_price as nat)))
                .push(("size".spec_bytes(), decimal(size as nat))),
        )),
        e matches Event::PositionClosed { owner, market, realized_pnl } ==> e.spec_abci_bytes() == event_bytes((
            "position_closed".spec_bytes(),
            Seq::<AbciAttr>::empty()
                .push(("owner".spec_bytes(), hex(owner@)))
                .push(("market".spec_bytes(), decimal(market as nat)))
                .push(("realized_pnl".spec_bytes(), signed_decimal(realized_pnl as int))),
        )),
        e matches Event::BinaryIssuedFromMTM { owner, cp_market, binary_market, signed_delta, final_size, final_entry, cash_pnl_realized } ==> e.spec_abci_bytes() == event_bytes((
            "binary_issued_from_mtm".spec_bytes(),
            Seq::<AbciAttr>::empty()
                .push(("owner".spec_bytes(), hex(owner@)))
                .push(("cp_market".spec_bytes(), decimal(cp_market as nat)))
                .push(("binary_market".spec_bytes(), decimal(binary_market as nat)))
                .push(("signed_delta".spec_bytes(), signed_decimal(signed_delta as int)))
                .push(("final_size".spec_bytes(), decimal(final_size as nat)))
                .push(("final_entry".spec_bytes(), decimal(final_entry as nat)))
                .push(("cash_pnl_realized".spec_bytes(), signed_decimal(cash_pnl_realized as int))),
        )),
        e matches Event::MarketCreated { market, im_bps, mm_bps, taker_fee_bps, maker_fee_bps, funding_interval_ms, max_funding_rate_bps, signer } ==> e.spec_abci_bytes() == event_bytes((
            "market_created".spec_bytes(),
            Seq::<AbciAttr>::empty()
                .push(("market".spec_bytes(), decimal(market as nat)))
                .push(("im_bps".spec_bytes(), decimal(im_bps as nat)))
                .push(("mm_bps".spec_bytes(), decimal(mm_bps as nat)))
                .push(("taker_fee_bps".spec_bytes(), decimal(taker_fee_bps as nat)))
                .push(("maker_fee_bps".spec_bytes(), decimal(maker_fee_bps as nat)))
                .push(("funding_interval_ms".spec_bytes(), decimal(funding_interval_ms as nat)))
                .push(("max_funding_rate_bps".spec_bytes(), decimal(max_funding_rate_bps as nat)))
                .push(("signer".spec_bytes(), opt_hex(signer))),
        )),
        e matches Event::MarketConfigUpdated { market, im_bps, mm_bps, taker_fee_bps, maker_fee_bps, max_funding_rate_bps, funding_interval_ms, max_position_size, default_ttl_ms, net_delta_margin, tick_size, lot_size, primary_oracle_signer, oracle_staleness_ms, max_open_interest, signer } ==> e.spec_abci_bytes() == event_bytes((
            "market_config_updated".spec_bytes(),
            Seq::<AbciAttr>::empty()
                .push(("market".spec_bytes(), decimal(market as nat)))
                .push(("im_bps".spec_bytes(), decimal(im_bps as nat)))
                .push(("mm_bps".spec_bytes(), decimal(mm_bps as nat)))
                .push(("taker_fee_bps".spec_bytes(), decimal(taker_fee_bps as nat)))
                .push(("maker_fee_bps".spec_bytes(), decimal(maker_fee_bps as nat)))
                .push(("max_funding_rate_bps".spec_bytes(), decimal(max_funding_rate_bps as nat)))
                .push(("funding_interval_ms".spec_bytes(), decimal(funding_interval_ms as nat)))
                .push(("max_position_size".spec_bytes(), decimal(max_position_size as nat)))
                .push(("default_ttl_ms".spec_bytes(), decimal(default_ttl_ms as nat)))
                .push(("net_delta_margin".spec_bytes(), encode_utf8(spec_bool_text(net_delta_margin))))
                .push(("tick_size".spec_bytes(), decimal(tick_size as nat)))
                .push(("lot_size".spec_bytes(), decimal(lot_size as nat)))
                .push(("primary_oracle_signer".spec_bytes(), hex(primary_oracle_signer@)))
                .push(("oracle_staleness_ms".spec_bytes(), decimal(oracle_staleness_ms as nat)))
                .push(("max_open_interest".spec_bytes(), decimal(max_open_interest as nat)))
                .push(("signer".spec_bytes(), opt_hex(signer))),
        )),
        e matches Event::AccountFeeOverrideSet { account, taker_fee_bps, maker_fee_bps, signer } ==> e.spec_abci_bytes() == event_bytes((
            "account_fee_override_set".spec_bytes(),
            Seq::<AbciAttr>::empty()
                .push(("account".spec_bytes(), hex(account@)))
                .push(("taker_fee_bps".spec_bytes(), decimal(taker_fee_bps as nat)))
                .push(("maker_fee_bps".spec_bytes(), decimal(maker_fee_bps as nat)))
                .push(("signer".spec_bytes(), opt_hex(signer))),
        )),
        e matches Event::ImpactMarketCreated { impact_market_id, underlying_market, cpy_market, cpn_market, eby_market, ebn_market, question, deadline_ms, resolution_window_ms, description, rules } ==> e.spec_abci_bytes() == event_bytes((
            "impact_market_created".spec_bytes(),
            Seq::<AbciAttr>::empty()
                .push(("impact_market_id".spec_bytes(), decimal(impact_market_id as nat)))
                .push(("underlying_market".spec_bytes(), decimal(underlying_market as nat)))
                .push(("cpy_market".spec_bytes(), decimal(cpy_market as nat)))
                .push(("cpn_market".spec_bytes(), decimal(cpn_market as nat)))
                .push(("eby_market".spec_bytes(), decimal(eby_market as nat)))
                .push(("ebn_market".spec_bytes(), decimal(ebn_market as nat)))
                .push(("question".spec_bytes(), encode_utf8(question@)))
                .push(("deadline_ms".spec_bytes(), decimal(deadline_ms as nat)))
                .push(("resolution_window_ms".spec_bytes(), decimal(resolution_window_ms as nat)))
                .push(("description".spec_bytes(), encode_utf8(description@)))
                .push(("rules".spec_bytes(), encode_utf8(rules@))),
        )),
        e matches Event::EventCreated { event_id, eby_market, ebn_market, question, settlement_ms, resolution_window_ms, description, rules } ==> e.spec_abci_bytes() == event_bytes((
            "event_created".spec_bytes(),
            Seq::<AbciAttr>::empty()
                .push(("event_id".spec_bytes(), decimal(event_id.0 as nat)))
                .push(("eby_market".spec_bytes(), decimal(eby_market as nat)))
                .push(("ebn_market".spec_bytes(), decimal(ebn_market as nat)))
                .push(("question".spec_bytes(), encode_utf8(question@)))
                .push(("settlement_ms".spec_bytes(), decimal(settlement_ms as nat)))
                .push(("resolution_window_ms".spec_bytes(), decimal(resolution_window_ms as nat)))
                .push(("description".spec_bytes(), encode_utf8(description@)))
                .push(("rules".spec_bytes(), encode_utf8(rules@))),
        )),
        e matches Event::ImpactMarketPreResolution { impact_market_id, timestamp_ms } ==> e.spec_abci_bytes() == event_bytes((
            "impact_market_pre_resolution".spec_bytes(),
            Seq::<AbciAttr>::empty()
                .push(("impact_market_id".spec_bytes(), decimal(impact_market_id as nat)))
                .push(("timestamp_ms".spec_bytes(), decimal(timestamp_ms as nat))),
        )),
        e matches Event::ImpactMarketResolved { impact_market_id, outcome, settlement_price, timestamp_ms, signer } ==> e.spec_abci_bytes() == event_bytes((
            "impact_market_resolved".spec_bytes(),
            Seq::<AbciAttr>::empty()
                .push(("impact_market_id".spec_bytes(), decimal(impact_market_id as nat)))
                .push(("outcome".spec_bytes(), encode_utf8(outcome.spec_text())))
                .push(("settlement_price".spec_bytes(), decimal(settlement_price as nat)))
                .push(("timestamp_ms".spec_bytes(), decimal(timestamp_ms as nat)))
                .push(("signer".spec_bytes(), opt_hex(signer))),
        )),
        e matches Event::EventResolved { event_id, outcome, timestamp_ms, signer } ==> e.spec_abci_bytes() == event_bytes((
            "event_resolved".spec_bytes(),
            Seq::<AbciAttr>::empty()
                .push(("event_id".spec_bytes(), decimal(event_id.0 as nat)))
                .push(("outcome".spec_bytes(), encode_utf8(outcome.spec_text())))
                .push(("timestamp_ms".spec_bytes(), decimal(timestamp_ms as nat)))
                .push(("signer".spec_bytes(), opt_hex(signer))),
        )),
        e matches Event::ConditionalSettled { event_id, market, owner, side, size, entry_price, settlement_price, realized_pnl, converted_size, fallback_reason } ==> e.spec_abci_bytes() == event_bytes((
            "conditional_settled".spec_bytes(),
            Seq::<AbciAttr>::empty()
                .push(("event_id".spec_bytes(), decimal(event_id.0 as nat)))
                .push(("market".spec_bytes(), decimal(market as nat)))
                .push(("owner".spec_bytes(), hex(owner@)))
                .push(("side".spec_bytes(), encode_utf8(side.spec_text())))
                .push(("size".spec_bytes(), decimal(size as nat)))
                .push(("entry_price".spec_bytes(), decimal(entry_price as nat)))
                .push(("settlement_price".spec_bytes(), decimal(settlement_price as nat)))
                .push(("realized_pnl".spec_bytes(), signed_decimal(realized_pnl as int)))
                .push(("converted_size".spec_bytes(), decimal(converted_size as nat)))
                .push(("fallback_reason".spec_bytes(), opt_reason_text(fallback_reason))),
        )),
        e matches Event::ConditionalVoided { impact_market_id, market, owner, side, size } ==> e.spec_abci_bytes() == event_bytes((
            "conditional_voided".spec_bytes(),
            Seq::<AbciAttr>::empty()
                .push(("impact_market_id".spec_bytes(), decimal(impact_market_id as nat)))
                .push(("market".spec_bytes(), decimal(market as nat)))
                .push(("owner".spec_bytes(), hex(owner@)))
                .push(("side".spec_bytes(), encode_utf8(side.spec_text())))
                .push(("size".spec_bytes(), decimal(size as nat))),
        )),
        e matches Event::PredictionSettled { impact_market_id, market, owner, side, size, payoff_per_share, cash_delta } ==> e.spec_abci_bytes() == event_bytes((
            "prediction_settled".spec_bytes(),
            Seq::<AbciAttr>::empty()
                .push(("impact_market_id".spec_bytes(), decimal(impact_market_id as nat)))
                .push(("market".spec_bytes(), decimal(market as nat)))
                .push(("owner".spec_bytes(), hex(owner@)))
                .push(("side".spec_bytes(), encode_utf8(side.spec_text())))
                .push(("size".spec_bytes(), decimal(size as nat)))
                .push(("payoff_per_share".spec_bytes(), decimal(payoff_per_share as nat)))
                .push(("cash_delta".spec_bytes(), signed_decimal(cash_delta as int))),
        )),
        e matches Event::AccountLiquidated { owner, market, side, size, mark_price, realized_pnl } ==> e.spec_abci_bytes() == event_bytes((
            "account_liquidated".spec_bytes(),
            Seq::<AbciAttr>::empty()
                .push(("owner".spec_bytes(), hex(owner@)))
                .push(("market".spec_bytes(), decimal(market as nat)))
                .push(("side".spec_bytes(), encode_utf8(side.spec_text())))
                .push(("size".spec_bytes(), decimal(size as nat)))
                .push(("mark_price".spec_bytes(), decimal(mark_price as nat)))
                .push(("realized_pnl".spec_bytes(), signed_decimal(realized_pnl as int))),
        )),
        e matches Event::InsuranceFundUpdated { pool_id, balance, delta } ==> e.spec_abci_bytes() == event_bytes((
            "insurance_fund_updated".spec_bytes(),
            Seq::<AbciAttr>::empty()
                .push(("pool_id".spec_bytes(), decimal(pool_id as nat)))
                .push(("balance".spec_bytes(), signed_decimal(balance as int)))
                .push(("delta".spec_bytes(), signed_decimal(delta as int))),
        )),
        e matches Event::HlpAbsorbed { pool_id, amount, hlp_balance_after } ==> e.spec_abci_bytes() == event_bytes((
            "hlp_absorbed".spec_bytes(),
            Seq::<AbciAttr>::empty()
                .push(("pool_id".spec_bytes(), decimal(pool_id as nat)))
                .push(("amount".spec_bytes(), decimal(amount as nat)))
                .push(("hlp_balance_after".spec_bytes(), signed_decimal(hlp_balance_after as int))),
        )),
        e matches Event::SocializedLossApplied { pool_id, total_amount, cap_target, cap_bps, affected_count } ==> e.spec_abci_bytes() == event_bytes((
            "socialized_loss_applied".spec_bytes(),
            Seq::<AbciAttr>::empty()
                .push(("pool_id".spec_bytes(), decimal(pool_id as nat)))
                .push(("total_amount".spec_bytes(), decimal(total_amount as nat)))
                .push(("cap_target".spec_bytes(), decimal(cap_target as nat)))
                .push(("cap_bps".spec_bytes(), decimal(cap_bps as nat)))
                .push(("affected_count".spec_bytes(), decimal(affected_count as nat))),
        )),
        e matches Event::PositionAutoDeleveraged { owner, market, side, size, close_price, close_price_spec, realized_pnl } ==> e.spec_abci_bytes() == event_bytes((
            "position_auto_deleveraged".spec_bytes(),
            Seq::<AbciAttr>::empty()
                .push(("owner".spec_bytes(), hex(owner@)))
                .push(("market".spec_bytes(), decimal(market as nat)))
                .push(("side".spec_bytes(), encode_utf8(side.spec_text())))
                .push(("size".spec_bytes(), decimal(size as nat)))
                .push(("close_price".spec_bytes(), decimal(close_price as nat)))
                .push(("close_price_spec".spec_bytes(), decimal(close_price_spec as nat)))
                .push(("realized_pnl".spec_bytes(), signed_decimal(realized_pnl as int))),
        )),
        e matches Event::WithdrawRequested { withdrawal_id, owner, amount, solana_destination } ==> e.spec_abci_bytes() == event_bytes((
            "withdraw_requested".spec_bytes(),
            Seq::<AbciAttr>::empty()
                .push(("withdrawal_id".spec_bytes(), decimal(withdrawal_id as nat)))
                .push(("owner".spec_bytes(), hex(owner@)))
                .push(("amount".spec_bytes(), decimal(amount as nat)))
                .push(("solana_destination".spec_bytes(), hex(solana_destination@))),
        )),
        e matches Event::DepositConfirmed { owner, amount, new_balance, solana_tx_sig, signer } ==> e.spec_abci_bytes() == event_bytes((
            "deposit_confirmed".spec_bytes(),
            Seq::<AbciAttr>::empty()
                .push(("owner".spec_bytes(), hex(owner@)))
                .push(("amount".spec_bytes(), decimal(amount as nat)))
                .push(("new_balance".spec_bytes(), decimal(new_balance as nat)))
                .push(("solana_tx_sig".spec_bytes(), hex(solana_tx_sig@)))
                .push(("signer".spec_bytes(), opt_hex(signer))),
        )),
        e matches Event::DepositFailed { solana_signature, reason, signer } ==> e.spec_abci_bytes() == event_bytes((
            "deposit_failed".spec_bytes(),
            Seq::<AbciAttr>::empty()
                .push(("solana_signature".spec_bytes(), hex(solana_signature@)))
                .push(("reason".spec_bytes(), encode_utf8(reason.spec_text())))
                .push(("signer".spec_bytes(), opt_hex(signer))),
        )),
        e matches Event::WithdrawalConfirmed { withdrawal_id, solana_tx_sig, signer } ==> e.spec_abci_bytes() == event_bytes((
            "withdrawal_confirmed".spec_bytes(),
            Seq::<AbciAttr>::empty()
                .push(("withdrawal_id".spec_bytes(), decimal(withdrawal_id as nat)))
                .push(("solana_tx_sig".spec_bytes(), hex(solana_tx_sig@)))
                .push(("signer".spec_bytes(), opt_hex(signer))),
        )),
        e matches Event::WithdrawalFailed { withdrawal_id, owner, amount, new_balance, reason, signer } ==> e.spec_abci_bytes() == event_bytes((
            "withdrawal_failed".spec_bytes(),
            Seq::<AbciAttr>::empty()
                .push(("withdrawal_id".spec_bytes(), decimal(withdrawal_id as nat)))
                .push(("owner".spec_bytes(), hex(owner@)))
                .push(("amount".spec_bytes(), decimal(amount as nat)))
                .push(("new_balance".spec_bytes(), decimal(new_balance as nat)))
                .push(("reason".spec_bytes(), encode_utf8(reason@)))
                .push(("signer".spec_bytes(), opt_hex(signer))),
        )),
        e matches Event::WithdrawalAuthorized { withdrawal_id, authorization_digest } ==> e.spec_abci_bytes() == event_bytes((
            "withdrawal_authorized".spec_bytes(),
            Seq::<AbciAttr>::empty()
                .push(("withdrawal_id".spec_bytes(), decimal(withdrawal_id as nat)))
                .push(("authorization_digest".spec_bytes(), hex(authorization_digest@))),
        )),
        e matches Event::AgentApproved { owner, agent, agent_pubkey } ==> e.spec_abci_bytes() == event_bytes((
            "agent_approved".spec_bytes(),
            Seq::<AbciAttr>::empty()
                .push(("owner".spec_bytes(), hex(owner@)))
                .push(("agent".spec_bytes(), hex(agent@)))
                .push(("agent_pubkey".spec_bytes(), hex(agent_pubkey@))),
        )),
        e matches Event::AgentRevoked { owner, agent, agent_pubkey } ==> e.spec_abci_bytes() == event_bytes((
            "agent_revoked".spec_bytes(),
            Seq::<AbciAttr>::empty()
                .push(("owner".spec_bytes(), hex(owner@)))
                .push(("agent".spec_bytes(), hex(agent@)))
                .push(("agent_pubkey".spec_bytes(), hex(agent_pubkey@))),
        )),
        e matches Event::FundingApplied { market, funding_rate_bps, cumulative_funding, timestamp_ms } ==> e.spec_abci_bytes() == event_bytes((
            "funding_applied".spec_bytes(),
            Seq::<AbciAttr>::empty()
                .push(("market".spec_bytes(), decimal(market as nat)))
                .push(("funding_rate_bps".spec_bytes(), signed_decimal(funding_rate_bps as int)))
                .push(("cumulative_funding".spec_bytes(), signed_decimal(cumulative_funding as int)))
                .push(("timestamp_ms".spec_bytes(), decimal(timestamp_ms as nat))),
        )),
        e matches Event::FundingSettled { owner, market, payment } ==> e.spec_abci_bytes() == event_bytes((
            "funding_settled".spec_bytes(),
            Seq::<AbciAttr>::empty()
                .push(("owner".spec_bytes(), hex(owner@)))
                .push(("market".spec_bytes(), decimal(market as nat)))
                .push(("payment".spec_bytes(), signed_decimal(payment as int))),
        )),
        e matches Event::FundingShortfall { owner, market, owed, actual, shortfall } ==> e.spec_abci_bytes() == event_bytes((
            "funding_shortfall".spec_bytes(),
            Seq::<AbciAttr>::empty()
                .push(("owner".spec_bytes(), hex(owner@)))
                .push(("market".spec_bytes(), decimal(market as nat)))
                .push(("owed".spec_bytes(), signed_decimal(owed as int)))
                .push(("actual".spec_bytes(), signed_decimal(actual as int)))
                .push(("shortfall".spec_bytes(), decimal(shortfall as nat))),
        )),
        e matches Event::MarginWarning { owner, equity, maintenance_margin } ==> e.spec_abci_bytes() == event_bytes((
            "margin_warning".spec_bytes(),
            Seq::<AbciAttr>::empty()
                .push(("owner".spec_bytes(), hex(owner@)))
                .push(("equity".spec_bytes(), signed_decimal(equity as int)))
                .push(("maintenance_margin".spec_bytes(), decimal(maintenance_margin as nat))),
        )),
        e matches Event::MarketOrderProcessed { order_id, market, owner, side, requested_quantity, filled_quantity, client_order_id } ==> e.spec_abci_bytes() == event_bytes((
            "market_order_processed".spec_bytes(),
            Seq::<AbciAttr>::empty()
                .push(("order_id".spec_bytes(), decimal(order_id as nat)))
                .push(("market".spec_bytes(), decimal(market as nat)))
                .push(("owner".spec_bytes(), hex(owner@)))
                .push(("side".spec_bytes(), encode_utf8(side.spec_text())))
                .push(("requested_quantity".spec_bytes(), decimal(requested_quantity as nat)))
                .push(("filled_quantity".spec_bytes(), decimal(filled_quantity as nat)))
                .push(("client_order_id".spec_bytes(), decimal(client_order_id as nat))),
        )),
        e matches Event::UserMarketLeverageSet { owner, market, user_im_bps } ==> e.spec_abci_bytes() == event_bytes((
            "user_market_leverage_set".spec_bytes(),
            Seq::<AbciAttr>::empty()
                .push(("owner".spec_bytes(), hex(owner@)))
                .push(("market".spec_bytes(), decimal(market as nat)))
                .push(("user_im_bps".spec_bytes(), decimal(user_im_bps as nat))),
        )),
        e matches Event::SocializedLossSettled { owner, market, owed, collected } ==> e.spec_abci_bytes() == event_bytes((
            "socialized_loss_settled".spec_bytes(),
            Seq::<AbciAttr>::empty()
                .push(("owner".spec_bytes(), hex(owner@)))
                .push(("market".spec_bytes(), decimal(market as nat)))
                .push(("owed".spec_bytes(), decimal(owed as nat)))
                .push(("collected".spec_bytes(), decimal(collected as nat))),
        )),
        e matches Event::ProposalCreated { proposal_id, proposer, registry_version, threshold, action_tag, content_hash, created_ms, expiry_ms } ==> e.spec_abci_bytes() == event_bytes((
            "proposal_created".spec_bytes(),
            Seq::<AbciAttr>::empty()
                .push(("proposal_id".spec_bytes(), decimal(proposal_id as nat)))
                .push(("proposer".spec_bytes(), hex(proposer@)))
                .push(("registry_version".spec_bytes(), decimal(registry_version as nat)))
                .push(("threshold".spec_bytes(), decimal(threshold as nat)))
                .push(("action_tag".spec_bytes(), decimal(action_tag as nat)))
                .push(("content_hash".spec_bytes(), hex(content_hash@)))
                .push(("created_ms".spec_bytes(), decimal(created_ms as nat)))
                .push(("expiry_ms".spec_bytes(), decimal(expiry_ms as nat))),
        )),
        e matches Event::ProposalApproved { proposal_id, approver, approvals_count, threshold } ==> e.spec_abci_bytes() == event_bytes((
            "proposal_approved".spec_bytes(),
            Seq::<AbciAttr>::empty()
                .push(("proposal_id".spec_bytes(), decimal(proposal_id as nat)))
                .push(("approver".spec_bytes(), hex(approver@)))
                .push(("approvals_count".spec_bytes(), decimal(approvals_count as nat)))
                .push(("threshold".spec_bytes(), decimal(threshold as nat))),
        )),
        e matches Event::ProposalExecuted { proposal_id } ==> e.spec_abci_bytes() == event_bytes((
            "proposal_executed".spec_bytes(),
            Seq::<AbciAttr>::empty()
                .push(("proposal_id".spec_bytes(), decimal(proposal_id as nat))),
        )),
        e matches Event::ProposalFailed { proposal_id, error_code } ==> e.spec_abci_bytes() == event_bytes((
            "proposal_failed".spec_bytes(),
            Seq::<AbciAttr>::empty()
                .push(("proposal_id".spec_bytes(), decimal(proposal_id as nat)))
                .push(("error_code".spec_bytes(), decimal(error_code as nat))),
        )),
        e matches Event::ProposalRejected { proposal_id, rejecter, by_proposer, rejections_count } ==> e.spec_abci_bytes() == event_bytes((
            "proposal_rejected".spec_bytes(),
            Seq::<AbciAttr>::empty()
                .push(("proposal_id".spec_bytes(), decimal(proposal_id as nat)))
                .push(("rejecter".spec_bytes(), hex(rejecter@)))
                .push(("by_proposer".spec_bytes(), encode_utf8(spec_bool_text(by_proposer))))
                .push(("rejections_count".spec_bytes(), decimal(rejections_count as nat))),
        )),
        e matches Event::ProposalExpired { proposal_id, reason } ==> e.spec_abci_bytes() == event_bytes((
            "proposal_expired".spec_bytes(),
            Seq::<AbciAttr>::empty()
                .push(("proposal_id".spec_bytes(), decimal(proposal_id as nat)))
                .push(("reason".spec_bytes(), encode_utf8(reason.spec_text()))),
        )),
        e matches Event::EmergencyActionExecuted { signer, action_tag, market_id } ==> e.spec_abci_bytes() == event_bytes((
            "emergency_action_executed".spec_bytes(),
            Seq::<AbciAttr>::empty()
                .push(("signer".spec_bytes(), hex(signer@)))
                .push(("action_tag".spec_bytes(), decimal(action_tag as nat)))
                .push(("market_id".spec_bytes(), decimal(market_id as nat))),
        )),
        e matches Event::AdminSignerRegistryUpdated { version, threshold, members } ==> e.spec_abci_bytes() == event_bytes((
            "admin_signer_registry_updated".spec_bytes(),
            Seq::<AbciAttr>::empty()
                .push(("version".spec_bytes(), decimal(version as nat)))
                .push(("threshold".spec_bytes(), decimal(threshold as nat)))
                .push(("members".spec_bytes(), encode_utf8(members@))),
        )),
        e matches Event::BridgeUnpauseAuthorized { proposal_id } ==> e.spec_abci_bytes() == event_bytes((
            "bridge_unpause_authorized".spec_bytes(),
            Seq::<AbciAttr>::empty()
                .push(("proposal_id".spec_bytes(), decimal(proposal_id as nat))),
        )),
        e matches Event::AuthoritySetUpdated { domain, added, removed, proposal_id } ==> e.spec_abci_bytes() == event_bytes((
            "authority_set_updated".spec_bytes(),
            Seq::<AbciAttr>::empty()
                .push(("domain".spec_bytes(), decimal(domain as nat)))
                .push(("added".spec_bytes(), encode_utf8(added@)))
                .push(("removed".spec_bytes(), encode_utf8(removed@)))
                .push(("proposal_id".spec_bytes(), decimal(proposal_id as nat))),
        )),
        e matches Event::OracleGuardsUpdated { market, mark_price_max_oracle_age_ms, max_oracle_deviation_bps, proposal_id } ==> e.spec_abci_bytes() == event_bytes((
            "oracle_guards_updated".spec_bytes(),
            Seq::<AbciAttr>::empty()
                .push(("market".spec_bytes(), decimal(market as nat)))
                .push(("mark_price_max_oracle_age_ms".spec_bytes(), decimal(mark_price_max_oracle_age_ms as nat)))
                .push(("max_oracle_deviation_bps".spec_bytes(), decimal(max_oracle_deviation_bps as nat)))
                .push(("proposal_id".spec_bytes(), decimal(proposal_id as nat))),
        )),
        e matches Event::OracleUpdateRejected { market, submitted_price, last_good, max_oracle_deviation_bps, signer, reason } ==> e.spec_abci_bytes() == event_bytes((
            "oracle_update_rejected".spec_bytes(),
            Seq::<AbciAttr>::empty()
                .push(("market".spec_bytes(), decimal(market as nat)))
                .push(("submitted_price".spec_bytes(), decimal(submitted_price as nat)))
                .push(("last_good".spec_bytes(), decimal(last_good as nat)))
                .push(("max_oracle_deviation_bps".spec_bytes(), decimal(max_oracle_deviation_bps as nat)))
                .push(("signer".spec_bytes(), opt_hex(signer)))
                .push(("reason".spec_bytes(), encode_utf8(reason.spec_text()))),
        )),
        e matches Event::FundingSkipped { market, timestamp_ms, reason } ==> e.spec_abci_bytes() == event_bytes((
            "funding_skipped".spec_bytes(),
            Seq::<AbciAttr>::empty()
                .push(("market".spec_bytes(), decimal(market as nat)))
                .push(("timestamp_ms".spec_bytes(), decimal(timestamp_ms as nat)))
                .push(("reason".spec_bytes(), encode_utf8(reason.spec_text()))),
        )),
        e matches Event::TriggerMarketConfigScheduled { market, version, accepted_height, effective_height, enabled, max_trigger_slippage_bps, max_mark_age_ms, max_future_publish_skew_ms, max_active_brackets } ==> e.spec_abci_bytes() == event_bytes((
            "trigger_market_config_scheduled".spec_bytes(),
            Seq::<AbciAttr>::empty()
                .push(("market".spec_bytes(), decimal(market as nat)))
                .push(("version".spec_bytes(), decimal(version as nat)))
                .push(("accepted_height".spec_bytes(), decimal(accepted_height as nat)))
                .push(("effective_height".spec_bytes(), decimal(effective_height as nat)))
                .push(("enabled".spec_bytes(), encode_utf8(spec_bool_text(enabled))))
                .push(("max_trigger_slippage_bps".spec_bytes(), decimal(max_trigger_slippage_bps as nat)))
                .push(("max_mark_age_ms".spec_bytes(), decimal(max_mark_age_ms as nat)))
                .push(("max_future_publish_skew_ms".spec_bytes(), decimal(max_future_publish_skew_ms as nat)))
                .push(("max_active_brackets".spec_bytes(), decimal(max_active_brackets as nat))),
        )),
        e matches Event::TriggerMarketConfigActivated { market, version, effective_height, enabled, max_trigger_slippage_bps, max_mark_age_ms, max_future_publish_skew_ms, max_active_brackets } ==> e.spec_abci_bytes() == event_bytes((
            "trigger_market_config_activated".spec_bytes(),
            Seq::<AbciAttr>::empty()
                .push(("market".spec_bytes(), decimal(market as nat)))
                .push(("version".spec_bytes(), decimal(version as nat)))
                .push(("effective_height".spec_bytes(), decimal(effective_height as nat)))
                .push(("enabled".spec_bytes(), encode_utf8(spec_bool_text(enabled))))
                .push(("max_trigger_slippage_bps".spec_bytes(), decimal(max_trigger_slippage_bps as nat)))
                .push(("max_mark_age_ms".spec_bytes(), decimal(max_mark_age_ms as nat)))
                .push(("max_future_publish_skew_ms".spec_bytes(), decimal(max_future_publish_skew_ms as nat)))
                .push(("max_active_brackets".spec_bytes(), decimal(max_active_brackets as nat))),
        )),
        e matches Event::PositionTriggersSet { owner, market, position_epoch, group_id, client_group_id, stop_limb_id, stop_client_trigger_id, take_profit_limb_id, take_profit_client_trigger_id, accepted_height, active_from_height, replaced_group_id } ==> e.spec_abci_bytes() == event_bytes((
            "position_triggers_set".spec_bytes(),
            Seq::<AbciAttr>::empty()
                .push(("owner".spec_bytes(), hex(owner@)))
                .push(("market".spec_bytes(), decimal(market as nat)))
                .push(("position_epoch".spec_bytes(), decimal(position_epoch as nat)))
                .push(("group_id".spec_bytes(), decimal(group_id as nat)))
                .push(("client_group_id".spec_bytes(), decimal(client_group_id as nat)))
                .push(("stop_limb_id".spec_bytes(), decimal(stop_limb_id as nat)))
                .push(("stop_client_trigger_id".spec_bytes(), decimal(stop_client_trigger_id as nat)))
                .push(("take_profit_limb_id".spec_bytes(), decimal(take_profit_limb_id as nat)))
                .push(("take_profit_client_trigger_id".spec_bytes(), decimal(take_profit_client_trigger_id as nat)))
                .push(("accepted_height".spec_bytes(), decimal(accepted_height as nat)))
                .push(("active_from_height".spec_bytes(), decimal(active_from_height as nat)))
                .push(("replaced_group_id".spec_bytes(), decimal(replaced_group_id as nat))),
        )),
        e matches Event::PositionTriggersCancelled { owner, market, position_epoch, group_id } ==> e.spec_abci_bytes() == event_bytes((
            "position_triggers_cancelled".spec_bytes(),
            Seq::<AbciAttr>::empty()
                .push(("owner".spec_bytes(), hex(owner@)))
                .push(("market".spec_bytes(), decimal(market as nat)))
                .push(("position_epoch".spec_bytes(), decimal(position_epoch as nat)))
                .push(("group_id".spec_bytes(), decimal(group_id as nat))),
        )),
        e matches Event::PositionTriggersInvalidated { owner, market, position_epoch, group_id } ==> e.spec_abci_bytes() == event_bytes((
            "position_triggers_invalidated".spec_bytes(),
            Seq::<AbciAttr>::empty()
                .push(("owner".spec_bytes(), hex(owner@)))
                .push(("market".spec_bytes(), decimal(market as nat)))
                .push(("position_epoch".spec_bytes(), decimal(position_epoch as nat)))
                .push(("group_id".spec_bytes(), decimal(group_id as nat))),
        )),
        e matches Event::PositionTriggerActivated { owner, market, position_epoch, group_id, limb_id, client_group_id, client_trigger_id, limb_kind, trigger_price, frozen_mark, limit_price, requested_quantity, execution_order_id } ==> e.spec_abci_bytes() == event_bytes((
            "position_trigger_activated".spec_bytes(),
            Seq::<AbciAttr>::empty()
                .push(("owner".spec_bytes(), hex(owner@)))
                .push(("market".spec_bytes(), decimal(market as nat)))
                .push(("position_epoch".spec_bytes(), decimal(position_epoch as nat)))
                .push(("group_id".spec_bytes(), decimal(group_id as nat)))
                .push(("limb_id".spec_bytes(), decimal(limb_id as nat)))
                .push(("client_group_id".spec_bytes(), decimal(client_group_id as nat)))
                .push(("client_trigger_id".spec_bytes(), decimal(client_trigger_id as nat)))
                .push(("limb_kind".spec_bytes(), encode_utf8(limb_kind@)))
                .push(("trigger_price".spec_bytes(), decimal(trigger_price as nat)))
                .push(("frozen_mark".spec_bytes(), decimal(frozen_mark as nat)))
                .push(("limit_price".spec_bytes(), decimal(limit_price as nat)))
                .push(("requested_quantity".spec_bytes(), decimal(requested_quantity as nat)))
                .push(("execution_order_id".spec_bytes(), decimal(execution_order_id as nat))),
        )),
        e matches Event::PositionTriggerExecuted { owner, market, position_epoch, group_id, limb_id, client_group_id, client_trigger_id, limb_kind, trigger_price, frozen_mark, limit_price, requested_quantity, filled_quantity, residual_quantity, execution_order_id, total_fee, result, reason } ==> e.spec_abci_bytes() == event_bytes((
            "position_trigger_executed".spec_bytes(),
            Seq::<AbciAttr>::empty()
                .push(("owner".spec_bytes(), hex(owner@)))
                .push(("market".spec_bytes(), decimal(market as nat)))
                .push(("position_epoch".spec_bytes(), decimal(position_epoch as nat)))
                .push(("group_id".spec_bytes(), decimal(group_id as nat)))
                .push(("limb_id".spec_bytes(), decimal(limb_id as nat)))
                .push(("client_group_id".spec_bytes(), decimal(client_group_id as nat)))
                .push(("client_trigger_id".spec_bytes(), decimal(client_trigger_id as nat)))
                .push(("limb_kind".spec_bytes(), encode_utf8(limb_kind@)))
                .push(("trigger_price".spec_bytes(), decimal(trigger_price as nat)))
                .push(("frozen_mark".spec_bytes(), decimal(frozen_mark as nat)))
                .push(("limit_price".spec_bytes(), decimal(limit_price as nat)))
                .push(("requested_quantity".spec_bytes(), decimal(requested_quantity as nat)))
                .push(("filled_quantity".spec_bytes(), decimal(filled_quantity as nat)))
                .push(("residual_quantity".spec_bytes(), decimal(residual_quantity as nat)))
                .push(("execution_order_id".spec_bytes(), decimal(execution_order_id as nat)))
                .push(("total_fee".spec_bytes(), signed_decimal(total_fee as int)))
                .push(("result".spec_bytes(), encode_utf8(result@)))
                .push(("reason".spec_bytes(), encode_utf8(reason@))),
        )),
        e matches Event::PositionTriggerDeferred { owner, market, position_epoch, group_id, limb_id, client_group_id, client_trigger_id, limb_kind, trigger_price, frozen_mark, requested_quantity, reason } ==> e.spec_abci_bytes() == event_bytes((
            "position_trigger_deferred".spec_bytes(),
            Seq::<AbciAttr>::empty()
                .push(("owner".spec_bytes(), hex(owner@)))
                .push(("market".spec_bytes(), decimal(market as nat)))
                .push(("position_epoch".spec_bytes(), decimal(position_epoch as nat)))
                .push(("group_id".spec_bytes(), decimal(group_id as nat)))
                .push(("limb_id".spec_bytes(), decimal(limb_id as nat)))
                .push(("client_group_id".spec_bytes(), decimal(client_group_id as nat)))
                .push(("client_trigger_id".spec_bytes(), decimal(client_trigger_id as nat)))
                .push(("limb_kind".spec_bytes(), encode_utf8(limb_kind@)))
                .push(("trigger_price".spec_bytes(), decimal(trigger_price as nat)))
                .push(("frozen_mark".spec_bytes(), decimal(frozen_mark as nat)))
                .push(("requested_quantity".spec_bytes(), decimal(requested_quantity as nat)))
                .push(("reason".spec_bytes(), encode_utf8(reason@))),
        )),
        e matches Event::TriggerMarketDeferred { market, reason } ==> e.spec_abci_bytes() == event_bytes((
            "trigger_market_deferred".spec_bytes(),
            Seq::<AbciAttr>::empty()
                .push(("market".spec_bytes(), decimal(market as nat)))
                .push(("reason".spec_bytes(), encode_utf8(reason@))),
        )),
        e matches Event::TriggerMarketResumed { market, previous_reason } ==> e.spec_abci_bytes() == event_bytes((
            "trigger_market_resumed".spec_bytes(),
            Seq::<AbciAttr>::empty()
                .push(("market".spec_bytes(), decimal(market as nat)))
                .push(("previous_reason".spec_bytes(), encode_utf8(previous_reason@))),
        )),
        e matches Event::SubAccountCreated { owner, sub_account_id, address, name } ==> e.spec_abci_bytes() == event_bytes((
            "sub_account_created".spec_bytes(),
            Seq::<AbciAttr>::empty()
                .push(("owner".spec_bytes(), hex(owner@)))
                .push(("sub_account_id".spec_bytes(), decimal(sub_account_id as nat)))
                .push(("address".spec_bytes(), hex(address@)))
                .push(("name".spec_bytes(), hex(name@))),
        )),
        e matches Event::SubAccountTransferCompleted { owner, from, to, amount } ==> e.spec_abci_bytes() == event_bytes((
            "sub_account_transfer_completed".spec_bytes(),
            Seq::<AbciAttr>::empty()
                .push(("owner".spec_bytes(), hex(owner@)))
                .push(("from".spec_bytes(), hex(from@)))
                .push(("to".spec_bytes(), hex(to@)))
                .push(("amount".spec_bytes(), decimal(amount as nat))),
        )),
{
    match e {
        Event::OrderPlaced { order_id, market, owner, side, price, quantity, client_order_id, time_in_force, post_only, reduce_only } => {
            let h = abci_header("order_placed".spec_bytes(), 10);
            let s = Seq::<AbciAttr>::empty();
            lemma_header_no_attrs(h);
            let a = ("order_id".spec_bytes(), decimal(order_id as nat));
            lemma_header_attrs_push(h, s, a);
            let s = s.push(a);
            let a = ("market".spec_bytes(), decimal(market as nat));
            lemma_header_attrs_push(h, s, a);
            let s = s.push(a);
            let a = ("owner".spec_bytes(), hex(owner@));
            lemma_header_attrs_push(h, s, a);
            let s = s.push(a);
            let a = ("side".spec_bytes(), encode_utf8(side.spec_text()));
            lemma_header_attrs_push(h, s, a);
            let s = s.push(a);
            let a = ("price".spec_bytes(), decimal(price as nat));
            lemma_header_attrs_push(h, s, a);
            let s = s.push(a);
            let a = ("quantity".spec_bytes(), decimal(quantity as nat));
            lemma_header_attrs_push(h, s, a);
            let s = s.push(a);
            let a = ("client_order_id".spec_bytes(), decimal(client_order_id as nat));
            lemma_header_attrs_push(h, s, a);
            let s = s.push(a);
            let a = ("time_in_force".spec_bytes(), encode_utf8(time_in_force.spec_text()));
            lemma_header_attrs_push(h, s, a);
            let s = s.push(a);
            let a = ("post_only".spec_bytes(), encode_utf8(spec_bool_text(post_only)));
            lemma_header_attrs_push(h, s, a);
            let s = s.push(a);
            let a = ("reduce_only".spec_bytes(), encode_utf8(spec_bool_text(reduce_only)));
            lemma_header_attrs_push(h, s, a);
            let s = s.push(a);
        },
        Event::OrderCancelled { order_id, market, owner, reason, client_order_id, original_quantity, remaining_quantity, filled_quantity } => {
            let h = abci_header("order_cancelled".spec_bytes(), 8);
            let s = Seq::<AbciAttr>::empty();
            lemma_header_no_attrs(h);
            let a = ("order_id".spec_bytes(), decimal(order_id as nat));
            lemma_header_attrs_push(h, s, a);
            let s = s.push(a);
            let a = ("market".spec_bytes(), decimal(market as nat));
            lemma_header_attrs_push(h, s, a);
            let s = s.push(a);
            let a = ("owner".spec_bytes(), hex(owner@));
            lemma_header_attrs_push(h, s, a);
            let s = s.push(a);
            let a = ("reason".spec_bytes(), encode_utf8(reason.spec_text()));
            lemma_header_attrs_push(h, s, a);
            let s = s.push(a);
            let a = ("client_order_id".spec_bytes(), decimal(client_order_id as nat));
            lemma_header_attrs_push(h, s, a);
            let s = s.push(a);
            let a = ("original_quantity".spec_bytes(), decimal(original_quantity as nat));
            lemma_header_attrs_push(h, s, a);
            let s = s.push(a);
            let a = ("remaining_quantity".spec_bytes(), decimal(remaining_quantity as nat));
            lemma_header_attrs_push(h, s, a);
            let s = s.push(a);
            let a = ("filled_quantity".spec_bytes(), decimal(filled_quantity as nat));
            lemma_header_attrs_push(h, s, a);
            let s = s.push(a);
        },
        Event::OrderAmended { order_id, market, owner, side, old_price, new_price, old_quantity, new_quantity, remaining_quantity, filled_quantity, queue_priority_reset, client_order_id } => {
            let h = abci_header("order_amended".spec_bytes(), 12);
            let s = Seq::<AbciAttr>::empty();
            lemma_header_no_attrs(h);
            let a = ("order_id".spec_bytes(), decimal(order_id as nat));
            lemma_header_attrs_push(h, s, a);
            let s = s.push(a);
            let a = ("market".spec_bytes(), decimal(market as nat));
            lemma_header_attrs_push(h, s, a);
            let s = s.push(a);
            let a = ("owner".spec_bytes(), hex(owner@));
            lemma_header_attrs_push(h, s, a);
            let s = s.push(a);
            let a = ("side".spec_bytes(), encode_utf8(side.spec_text()));
            lemma_header_attrs_push(h, s, a);
            let s = s.push(a);
            let a = ("old_price".spec_bytes(), decimal(old_price as nat));
            lemma_header_attrs_push(h, s, a);
            let s = s.push(a);
            let a = ("new_price".spec_bytes(), decimal(new_price as nat));
            lemma_header_attrs_push(h, s, a);
            let s = s.push(a);
            let a = ("old_quantity".spec_bytes(), decimal(old_quantity as nat));
            lemma_header_attrs_push(h, s, a);
            let s = s.push(a);
            let a = ("new_quantity".spec_bytes(), decimal(new_quantity as nat));
            lemma_header_attrs_push(h, s, a);
            let s = s.push(a);
            let a = ("remaining_quantity".spec_bytes(), decimal(remaining_quantity as nat));
            lemma_header_attrs_push(h, s, a);
            let s = s.push(a);
            let a = ("filled_quantity".spec_bytes(), decimal(filled_quantity as nat));
            lemma_header_attrs_push(h, s, a);
            let s = s.push(a);
            let a = ("queue_priority_reset".spec_bytes(), encode_utf8(spec_bool_text(queue_priority_reset)));
            lemma_header_attrs_push(h, s, a);
            let s = s.push(a);
            let a = ("client_order_id".spec_bytes(), decimal(client_order_id as nat));
            lemma_header_attrs_push(h, s, a);
            let s = s.push(a);
        },
        Event::AtomicBasketExecuted { owner, leg_count, max_slippage_bps } => {
            let h = abci_header("atomic_basket_executed".spec_bytes(), 3);
            let s = Seq::<AbciAttr>::empty();
            lemma_header_no_attrs(h);
            let a = ("owner".spec_bytes(), hex(owner@));
            lemma_header_attrs_push(h, s, a);
            let s = s.push(a);
            let a = ("leg_count".spec_bytes(), decimal(leg_count as nat));
            lemma_header_attrs_push(h, s, a);
            let s = s.push(a);
            let a = ("max_slippage_bps".spec_bytes(), decimal(max_slippage_bps as nat));
            lemma_header_attrs_push(h, s, a);
            let s = s.push(a);
        },
        Event::PriceUpdated { market, price, signer } => {
            let h = abci_header("price_updated".spec_bytes(), 3);
            let s = Seq::<AbciAttr>::empty();
            lemma_header_no_attrs(h);
            let a = ("market".spec_bytes(), decimal(market as nat));
            lemma_header_attrs_push(h, s, a);
            let s = s.push(a);
            let a = ("price".spec_bytes(), decimal(price as nat));
            lemma_header_attrs_push(h, s, a);
            let s = s.push(a);
            let a = ("signer".spec_bytes(), opt_hex(signer));
            lemma_header_attrs_push(h, s, a);
            let s = s.push(a);
        },
        Event::TradeExecuted { fill_id, market, price, quantity, maker_order_id, maker_client_order_id, maker_owner, maker_side, taker_order_id, taker_owner, taker_client_order_id, taker_fee, maker_fee } => {
            let h = abci_header("trade_executed".spec_bytes(), 13);
            let s = Seq::<AbciAttr>::empty();
            lemma_header_no_attrs(h);
            let a = ("fill_id".spec_bytes(), decimal(fill_id as nat));
            lemma_header_attrs_push(h, s, a);
            let s = s.push(a);
            let a = ("market".spec_bytes(), decimal(market as nat));
            lemma_header_attrs_push(h, s, a);
            let s = s.push(a);
            let a = ("price".spec_bytes(), decimal(price as nat));
            lemma_header_attrs_push(h, s, a);
            let s = s.push(a);
            let a = ("quantity".spec_bytes(), decimal(quantity as nat));
            lemma_header_attrs_push(h, s, a);
            let s = s.push(a);
            let a = ("maker_order_id".spec_bytes(), decimal(maker_order_id as nat));
            lemma_header_attrs_push(h, s, a);
            let s = s.push(a);
            let a = ("maker_client_order_id".spec_bytes(), decimal(maker_client_order_id as nat));
            lemma_header_attrs_push(h, s, a);
            let s = s.push(a);
            let a = ("maker_owner".spec_bytes(), hex(maker_owner@));
            lemma_header_attrs_push(h, s, a);
            let s = s.push(a);
            let a = ("maker_side".spec_bytes(), encode_utf8(maker_side.spec_text()));
            lemma_header_attrs_push(h, s, a);
            let s = s.push(a);
            let a = ("taker_order_id".spec_bytes(), decimal(taker_order_id as nat));
            lemma_header_attrs_push(h, s, a);
            let s = s.push(a);
            let a = ("taker_owner".spec_bytes(), hex(taker_owner@));
            lemma_header_attrs_push(h, s, a);
            let s = s.push(a);
            let a = ("taker_client_order_id".spec_bytes(), decimal(taker_client_order_id as nat));
            lemma_header_attrs_push(h, s, a);
            let s = s.push(a);
            let a = ("taker_fee".spec_bytes(), signed_decimal(taker_fee as int));
            lemma_header_attrs_push(h, s, a);
            let s = s.push(a);
            let a = ("maker_fee".spec_bytes(), signed_decimal(maker_fee as int));
            lemma_header_attrs_push(h, s, a);
            let s = s.push(a);
        },
        Event::FeesCollected { market, taker_owner, taker_fee, maker_owner, maker_fee } => {
            let h = abci_header("fees_collected".spec_bytes(), 5);
            let s = Seq::<AbciAttr>::empty();
            lemma_header_no_attrs(h);
            let a = ("market".spec_bytes(), decimal(market as nat));
            lemma_header_attrs_push(h, s, a);
            let s = s.push(a);
            let a = ("taker_owner".spec_bytes(), hex(taker_owner@));
            lemma_header_attrs_push(h, s, a);
            let s = s.push(a);
            let a = ("taker_fee".spec_bytes(), signed_decimal(taker_fee as int));
            lemma_header_attrs_push(h, s, a);
            let s = s.push(a);
            let a = ("maker_owner".spec_bytes(), hex(maker_owner@));
            lemma_header_attrs_push(h, s, a);
            let s = s.push(a);
            let a = ("maker_fee".spec_bytes(), signed_decimal(maker_fee as int));
            lemma_header_attrs_push(h, s, a);
            let s = s.push(a);
        },
        Event::Deposited { owner, amount, new_balance, signer } => {
            let h = abci_header("deposited".spec_bytes(), 4);
            let s = Seq::<AbciAttr>::empty();
            lemma_header_no_attrs(h);
            let a = ("owner".spec_bytes(), hex(owner@));
            lemma_header_attrs_push(h, s, a);
            let s = s.push(a);
            let a = ("amount".spec_bytes(), decimal(amount as nat));
            lemma_header_attrs_push(h, s, a);
            let s = s.push(a);
            let a = ("new_balance".spec_bytes(), decimal(new_balance as nat));
            lemma_header_attrs_push(h, s, a);
            let s = s.push(a);
            let a = ("signer".spec_bytes(), opt_hex(signer));
            lemma_header_attrs_push(h, s, a);
            let s = s.push(a);
        },
        Event::Withdrawn { owner, amount, new_balance, signer } => {
            let h = abci_header("withdrawn".spec_bytes(), 4);
            let s = Seq::<AbciAttr>::empty();
            lemma_header_no_attrs(h);
            let a = ("owner".spec_bytes(), hex(owner@));
            lemma_header_attrs_push(h, s, a);
            let s = s.push(a);
            let a = ("amount".spec_bytes(), decimal(amount as nat));
            lemma_header_attrs_push(h, s, a);
            let s = s.push(a);
            let a = ("new_balance".spec_bytes(), decimal(new_balance as nat));
            lemma_header_attrs_push(h, s, a);
            let s = s.push(a);
            let a = ("signer".spec_bytes(), opt_hex(signer));
            lemma_header_attrs_push(h, s, a);
            let s = s.push(a);
        },
        Event::PositionUpdated { owner, market, side, entry_price, size } => {
            let h = abci_header("position_updated".spec_bytes(), 5);
            let s = Seq::<AbciAttr>::empty();
            lemma_header_no_attrs(h);
            let a = ("owner".spec_bytes(), hex(owner@));
            lemma_header_attrs_push(h, s, a);
            let s = s.push(a);
            let a = ("market".spec_bytes(), decimal(market as nat));
            lemma_header_attrs_push(h, s, a);
            let s = s.push(a);
            let a = ("side".spec_bytes(), encode_utf8(side.spec_text()));
            lemma_header_attrs_push(h, s, a);
            let s = s.push(a);
            let a = ("entry_price".spec_bytes(), decimal(entry_price as nat));
            lemma_header_attrs_push(h, s, a);
            let s = s.push(a);
            let a = ("size".spec_bytes(), decimal(size as nat));
            lemma_header_attrs_push(h, s, a);
            let s = s.push(a);
        },
        Event::PositionClosed { owner, market, realized_pnl } => {
            let h = abci_header("position_closed".spec_bytes(), 3);
            let s = Seq::<AbciAttr>::empty();
            lemma_header_no_attrs(h);
            let a = ("owner".spec_bytes(), hex(owner@));
            lemma_header_attrs_push(h, s, a);
            let s = s.push(a);
            let a = ("market".spec_bytes(), decimal(market as nat));
            lemma_header_attrs_push(h, s, a);
            let s = s.push(a);
            let a = ("realized_pnl".spec_bytes(), signed_decimal(realized_pnl as int));
            lemma_header_attrs_push(h, s, a);
            let s = s.push(a);
        },
        Event::BinaryIssuedFromMTM { owner, cp_market, binary_market, signed_delta, final_size, final_entry, cash_pnl_realized } => {
            let h = abci_header("binary_issued_from_mtm".spec_bytes(), 7);
            let s = Seq::<AbciAttr>::empty();
            lemma_header_no_attrs(h);
            let a = ("owner".spec_bytes(), hex(owner@));
            lemma_header_attrs_push(h, s, a);
            let s = s.push(a);
            let a = ("cp_market".spec_bytes(), decimal(cp_market as nat));
            lemma_header_attrs_push(h, s, a);
            let s = s.push(a);
            let a = ("binary_market".spec_bytes(), decimal(binary_market as nat));
            lemma_header_attrs_push(h, s, a);
            let s = s.push(a);
            let a = ("signed_delta".spec_bytes(), signed_decimal(signed_delta as int));
            lemma_header_attrs_push(h, s, a);
            let s = s.push(a);
            let a = ("final_size".spec_bytes(), decimal(final_size as nat));
            lemma_header_attrs_push(h, s, a);
            let s = s.push(a);
            let a = ("final_entry".spec_bytes(), decimal(final_entry as nat));
            lemma_header_attrs_push(h, s, a);
            let s = s.push(a);
            let a = ("cash_pnl_realized".spec_bytes(), signed_decimal(cash_pnl_realized as int));
            lemma_header_attrs_push(h, s, a);
            let s = s.push(a);
        },
        Event::MarketCreated { market, im_bps, mm_bps, taker_fee_bps, maker_fee_bps, funding_interval_ms, max_funding_rate_bps, signer } => {
            let h = abci_header("market_created".spec_bytes(), 8);
            let s = Seq::<AbciAttr>::empty();
            lemma_header_no_attrs(h);
            let a = ("market".spec_bytes(), decimal(market as nat));
            lemma_header_attrs_push(h, s, a);
            let s = s.push(a);
            let a = ("im_bps".spec_bytes(), decimal(im_bps as nat));
            lemma_header_attrs_push(h, s, a);
            let s = s.push(a);
            let a = ("mm_bps".spec_bytes(), decimal(mm_bps as nat));
            lemma_header_attrs_push(h, s, a);
            let s = s.push(a);
            let a = ("taker_fee_bps".spec_bytes(), decimal(taker_fee_bps as nat));
            lemma_header_attrs_push(h, s, a);
            let s = s.push(a);
            let a = ("maker_fee_bps".spec_bytes(), decimal(maker_fee_bps as nat));
            lemma_header_attrs_push(h, s, a);
            let s = s.push(a);
            let a = ("funding_interval_ms".spec_bytes(), decimal(funding_interval_ms as nat));
            lemma_header_attrs_push(h, s, a);
            let s = s.push(a);
            let a = ("max_funding_rate_bps".spec_bytes(), decimal(max_funding_rate_bps as nat));
            lemma_header_attrs_push(h, s, a);
            let s = s.push(a);
            let a = ("signer".spec_bytes(), opt_hex(signer));
            lemma_header_attrs_push(h, s, a);
            let s = s.push(a);
        },
        Event::MarketConfigUpdated { market, im_bps, mm_bps, taker_fee_bps, maker_fee_bps, max_funding_rate_bps, funding_interval_ms, max_position_size, default_ttl_ms, net_delta_margin, tick_size, lot_size, primary_oracle_signer, oracle_staleness_ms, max_open_interest, signer } => {
            let h = abci_header("market_config_updated".spec_bytes(), 16);
            let s = Seq::<AbciAttr>::empty();
            lemma_header_no_attrs(h);
            let a = ("market".spec_bytes(), decimal(market as nat));
            lemma_header_attrs_push(h, s, a);
            let s = s.push(a);
            let a = ("im_bps".spec_bytes(), decimal(im_bps as nat));
            lemma_header_attrs_push(h, s, a);
            let s = s.push(a);
            let a = ("mm_bps".spec_bytes(), decimal(mm_bps as nat));
            lemma_header_attrs_push(h, s, a);
            let s = s.push(a);
            let a = ("taker_fee_bps".spec_bytes(), decimal(taker_fee_bps as nat));
            lemma_header_attrs_push(h, s, a);
            let s = s.push(a);
            let a = ("maker_fee_bps".spec_bytes(), decimal(maker_fee_bps as nat));
            lemma_header_attrs_push(h, s, a);
            let s = s.push(a);
            let a = ("max_funding_rate_bps".spec_bytes(), decimal(max_funding_rate_bps as nat));
            lemma_header_attrs_push(h, s, a);
            let s = s.push(a);
            let a = ("funding_interval_ms".spec_bytes(), decimal(funding_interval_ms as nat));
            lemma_header_attrs_push(h, s, a);
            let s = s.push(a);
            let a = ("max_position_size".spec_bytes(), decimal(max_position_size as nat));
            lemma_header_attrs_push(h, s, a);
            let s = s.push(a);
            let a = ("default_ttl_ms".spec_bytes(), decimal(default_ttl_ms as nat));
            lemma_header_attrs_push(h, s, a);
            let s = s.push(a);
            let a = ("net_delta_margin".spec_bytes(), encode_utf8(spec_bool_text(net_delta_margin)));
            lemma_header_attrs_push(h, s, a);
            let s = s.push(a);
            let a = ("tick_size".spec_bytes(), decimal(tick_size as nat));
            lemma_header_attrs_push(h, s, a);
            let s = s.push(a);
            let a = ("lot_size".spec_bytes(), decimal(lot_size as nat));
            lemma_header_attrs_push(h, s, a);
            let s = s.push(a);
            let a = ("primary_oracle_signer".spec_bytes(), hex(primary_oracle_signer@));
            lemma_header_attrs_push(h, s, a);
            let s = s.push(a);
            let a = ("oracle_staleness_ms".spec_bytes(), decimal(oracle_staleness_ms as nat));
            lemma_header_attrs_push(h, s, a);
            let s = s.push(a);
            let a = ("max_open_interest".spec_bytes(), decimal(max_open_interest as nat));
            lemma_header_attrs_push(h, s, a);
            let s = s.push(a);
            let a = ("signer".spec_bytes(), opt_hex(signer));
            lemma_header_attrs_push(h, s, a);
            let s = s.push(a);
        },
        Event::AccountFeeOverrideSet { account, taker_fee_bps, maker_fee_bps, signer } => {
            let h = abci_header("account_fee_override_set".spec_bytes(), 4);
            let s = Seq::<AbciAttr>::empty();
            lemma_header_no_attrs(h);
            let a = ("account".spec_bytes(), hex(account@));
            lemma_header_attrs_push(h, s, a);
            let s = s.push(a);
            let a = ("taker_fee_bps".spec_bytes(), decimal(taker_fee_bps as nat));
            lemma_header_attrs_push(h, s, a);
            let s = s.push(a);
            let a = ("maker_fee_bps".spec_bytes(), decimal(maker_fee_bps as nat));
            lemma_header_attrs_push(h, s, a);
            let s = s.push(a);
            let a = ("signer".spec_bytes(), opt_hex(signer));
            lemma_header_attrs_push(h, s, a);
            let s = s.push(a);
        },
        Event::ImpactMarketCreated { impact_market_id, underlying_market, cpy_market, cpn_market, eby_market, ebn_market, question, deadline_ms, resolution_window_ms, description, rules } => {
            let h = abci_header("impact_market_created".spec_bytes(), 11);
            let s = Seq::<AbciAttr>::empty();
            lemma_header_no_attrs(h);
            let a = ("impact_market_id".spec_bytes(), decimal(impact_market_id as nat));
            lemma_header_attrs_push(h, s, a);
            let s = s.push(a);
            let a = ("underlying_market".spec_bytes(), decimal(underlying_market as nat));
            lemma_header_attrs_push(h, s, a);
            let s = s.push(a);
            let a = ("cpy_market".spec_bytes(), decimal(cpy_market as nat));
            lemma_header_attrs_push(h, s, a);
            let s = s.push(a);
            let a = ("cpn_market".spec_bytes(), decimal(cpn_market as nat));
            lemma_header_attrs_push(h, s, a);
            let s = s.push(a);
            let a = ("eby_market".spec_bytes(), decimal(eby_market as nat));
            lemma_header_attrs_push(h, s, a);
            let s = s.push(a);
            let a = ("ebn_market".spec_bytes(), decimal(ebn_market as nat));
            lemma_header_attrs_push(h, s, a);
            let s = s.push(a);
            let a = ("question".spec_bytes(), encode_utf8(question@));
            lemma_header_attrs_push(h, s, a);
            let s = s.push(a);
            let a = ("deadline_ms".spec_bytes(), decimal(deadline_ms as nat));
            lemma_header_attrs_push(h, s, a);
            let s = s.push(a);
            let a = ("resolution_window_ms".spec_bytes(), decimal(resolution_window_ms as nat));
            lemma_header_attrs_push(h, s, a);
            let s = s.push(a);
            let a = ("description".spec_bytes(), encode_utf8(description@));
            lemma_header_attrs_push(h, s, a);
            let s = s.push(a);
            let a = ("rules".spec_bytes(), encode_utf8(rules@));
            lemma_header_attrs_push(h, s, a);
            let s = s.push(a);
        },
        Event::EventCreated { event_id, eby_market, ebn_market, question, settlement_ms, resolution_window_ms, description, rules } => {
            let h = abci_header("event_created".spec_bytes(), 8);
            let s = Seq::<AbciAttr>::empty();
            lemma_header_no_attrs(h);
            let a = ("event_id".spec_bytes(), decimal(event_id.0 as nat));
            lemma_header_attrs_push(h, s, a);
            let s = s.push(a);
            let a = ("eby_market".spec_bytes(), decimal(eby_market as nat));
            lemma_header_attrs_push(h, s, a);
            let s = s.push(a);
            let a = ("ebn_market".spec_bytes(), decimal(ebn_market as nat));
            lemma_header_attrs_push(h, s, a);
            let s = s.push(a);
            let a = ("question".spec_bytes(), encode_utf8(question@));
            lemma_header_attrs_push(h, s, a);
            let s = s.push(a);
            let a = ("settlement_ms".spec_bytes(), decimal(settlement_ms as nat));
            lemma_header_attrs_push(h, s, a);
            let s = s.push(a);
            let a = ("resolution_window_ms".spec_bytes(), decimal(resolution_window_ms as nat));
            lemma_header_attrs_push(h, s, a);
            let s = s.push(a);
            let a = ("description".spec_bytes(), encode_utf8(description@));
            lemma_header_attrs_push(h, s, a);
            let s = s.push(a);
            let a = ("rules".spec_bytes(), encode_utf8(rules@));
            lemma_header_attrs_push(h, s, a);
            let s = s.push(a);
        },
        Event::ImpactMarketPreResolution { impact_market_id, timestamp_ms } => {
            let h = abci_header("impact_market_pre_resolution".spec_bytes(), 2);
            let s = Seq::<AbciAttr>::empty();
            lemma_header_no_attrs(h);
            let a = ("impact_market_id".spec_bytes(), decimal(impact_market_id as nat));
            lemma_header_attrs_push(h, s, a);
            let s = s.push(a);
            let a = ("timestamp_ms".spec_bytes(), decimal(timestamp_ms as nat));
            lemma_header_attrs_push(h, s, a);
            let s = s.push(a);
        },
        Event::ImpactMarketResolved { impact_market_id, outcome, settlement_price, timestamp_ms, signer } => {
            let h = abci_header("impact_market_resolved".spec_bytes(), 5);
            let s = Seq::<AbciAttr>::empty();
            lemma_header_no_attrs(h);
            let a = ("impact_market_id".spec_bytes(), decimal(impact_market_id as nat));
            lemma_header_attrs_push(h, s, a);
            let s = s.push(a);
            let a = ("outcome".spec_bytes(), encode_utf8(outcome.spec_text()));
            lemma_header_attrs_push(h, s, a);
            let s = s.push(a);
            let a = ("settlement_price".spec_bytes(), decimal(settlement_price as nat));
            lemma_header_attrs_push(h, s, a);
            let s = s.push(a);
            let a = ("timestamp_ms".spec_bytes(), decimal(timestamp_ms as nat));
            lemma_header_attrs_push(h, s, a);
            let s = s.push(a);
            let a = ("signer".spec_bytes(), opt_hex(signer));
            lemma_header_attrs_push(h, s, a);
            let s = s.push(a);
        },
        Event::EventResolved { event_id, outcome, timestamp_ms, signer } => {
            let h = abci_header("event_resolved".spec_bytes(), 4);
            let s = Seq::<AbciAttr>::empty();
            lemma_header_no_attrs(h);
            let a = ("event_id".spec_bytes(), decimal(event_id.0 as nat));
            lemma_header_attrs_push(h, s, a);
            let s = s.push(a);
            let a = ("outcome".spec_bytes(), encode_utf8(outcome.spec_text()));
            lemma_header_attrs_push(h, s, a);
            let s = s.push(a);
            let a = ("timestamp_ms".spec_bytes(), decimal(timestamp_ms as nat));
            lemma_header_attrs_push(h, s, a);
            let s = s.push(a);
            let a = ("signer".spec_bytes(), opt_hex(signer));
            lemma_header_attrs_push(h, s, a);
            let s = s.push(a);
        },
        Event::ConditionalSettled { event_id, market, owner, side, size, entry_price, settlement_price, realized_pnl, converted_size, fallback_reason } => {
            let h = abci_header("conditional_settled".spec_bytes(), 10);
            let s = Seq::<AbciAttr>::empty();
            lemma_header_no_attrs(h);
            let a = ("event_id".spec_bytes(), decimal(event_id.0 as nat));
            lemma_header_attrs_push(h, s, a);
            let s = s.push(a);
            let a = ("market".spec_bytes(), decimal(market as nat));
            lemma_header_attrs_push(h, s, a);
            let s = s.push(a);
            let a = ("owner".spec_bytes(), hex(owner@));
            lemma_header_attrs_push(h, s, a);
            let s = s.push(a);
            let a = ("side".spec_bytes(), encode_utf8(side.spec_text()));
            lemma_header_attrs_push(h, s, a);
            let s = s.push(a);
            let a = ("size".spec_bytes(), decimal(size as nat));
            lemma_header_attrs_push(h, s, a);
            let s = s.push(a);
            let a = ("entry_price".spec_bytes(), decimal(entry_price as nat));
            lemma_header_attrs_push(h, s, a);
            let s = s.push(a);
            let a = ("settlement_price".spec_bytes(), decimal(settlement_price as nat));
            lemma_header_attrs_push(h, s, a);
            let s = s.push(a);
            let a = ("realized_pnl".spec_bytes(), signed_decimal(realized_pnl as int));
            lemma_header_attrs_push(h, s, a);
            let s = s.push(a);
            let a = ("converted_size".spec_bytes(), decimal(converted_size as nat));
            lemma_header_attrs_push(h, s, a);
            let s = s.push(a);
            let a = ("fallback_reason".spec_bytes(), opt_reason_text(fallback_reason));
            lemma_header_attrs_push(h, s, a);
            let s = s.push(a);
        },
        Event::ConditionalVoided { impact_market_id, market, owner, side, size } => {
            let h = abci_header("conditional_voided".spec_bytes(), 5);
            let s = Seq::<AbciAttr>::empty();
            lemma_header_no_attrs(h);
            let a = ("impact_market_id".spec_bytes(), decimal(impact_market_id as nat));
            lemma_header_attrs_push(h, s, a);
            let s = s.push(a);
            let a = ("market".spec_bytes(), decimal(market as nat));
            lemma_header_attrs_push(h, s, a);
            let s = s.push(a);
            let a = ("owner".spec_bytes(), hex(owner@));
            lemma_header_attrs_push(h, s, a);
            let s = s.push(a);
            let a = ("side".spec_bytes(), encode_utf8(side.spec_text()));
            lemma_header_attrs_push(h, s, a);
            let s = s.push(a);
            let a = ("size".spec_bytes(), decimal(size as nat));
            lemma_header_attrs_push(h, s, a);
            let s = s.push(a);
        },
        Event::PredictionSettled { impact_market_id, market, owner, side, size, payoff_per_share, cash_delta } => {
            let h = abci_header("prediction_settled".spec_bytes(), 7);
            let s = Seq::<AbciAttr>::empty();
            lemma_header_no_attrs(h);
            let a = ("impact_market_id".spec_bytes(), decimal(impact_market_id as nat));
            lemma_header_attrs_push(h, s, a);
            let s = s.push(a);
            let a = ("market".spec_bytes(), decimal(market as nat));
            lemma_header_attrs_push(h, s, a);
            let s = s.push(a);
            let a = ("owner".spec_bytes(), hex(owner@));
            lemma_header_attrs_push(h, s, a);
            let s = s.push(a);
            let a = ("side".spec_bytes(), encode_utf8(side.spec_text()));
            lemma_header_attrs_push(h, s, a);
            let s = s.push(a);
            let a = ("size".spec_bytes(), decimal(size as nat));
            lemma_header_attrs_push(h, s, a);
            let s = s.push(a);
            let a = ("payoff_per_share".spec_bytes(), decimal(payoff_per_share as nat));
            lemma_header_attrs_push(h, s, a);
            let s = s.push(a);
            let a = ("cash_delta".spec_bytes(), signed_decimal(cash_delta as int));
            lemma_header_attrs_push(h, s, a);
            let s = s.push(a);
        },
        Event::AccountLiquidated { owner, market, side, size, mark_price, realized_pnl } => {
            let h = abci_header("account_liquidated".spec_bytes(), 6);
            let s = Seq::<AbciAttr>::empty();
            lemma_header_no_attrs(h);
            let a = ("owner".spec_bytes(), hex(owner@));
            lemma_header_attrs_push(h, s, a);
            let s = s.push(a);
            let a = ("market".spec_bytes(), decimal(market as nat));
            lemma_header_attrs_push(h, s, a);
            let s = s.push(a);
            let a = ("side".spec_bytes(), encode_utf8(side.spec_text()));
            lemma_header_attrs_push(h, s, a);
            let s = s.push(a);
            let a = ("size".spec_bytes(), decimal(size as nat));
            lemma_header_attrs_push(h, s, a);
            let s = s.push(a);
            let a = ("mark_price".spec_bytes(), decimal(mark_price as nat));
            lemma_header_attrs_push(h, s, a);
            let s = s.push(a);
            let a = ("realized_pnl".spec_bytes(), signed_decimal(realized_pnl as int));
            lemma_header_attrs_push(h, s, a);
            let s = s.push(a);
        },
        Event::InsuranceFundUpdated { pool_id, balance, delta } => {
            let h = abci_header("insurance_fund_updated".spec_bytes(), 3);
            let s = Seq::<AbciAttr>::empty();
            lemma_header_no_attrs(h);
            let a = ("pool_id".spec_bytes(), decimal(pool_id as nat));
            lemma_header_attrs_push(h, s, a);
            let s = s.push(a);
            let a = ("balance".spec_bytes(), signed_decimal(balance as int));
            lemma_header_attrs_push(h, s, a);
            let s = s.push(a);
            let a = ("delta".spec_bytes(), signed_decimal(delta as int));
            lemma_header_attrs_push(h, s, a);
            let s = s.push(a);
        },
        Event::HlpAbsorbed { pool_id, amount, hlp_balance_after } => {
            let h = abci_header("hlp_absorbed".spec_bytes(), 3);
            let s = Seq::<AbciAttr>::empty();
            lemma_header_no_attrs(h);
            let a = ("pool_id".spec_bytes(), decimal(pool_id as nat));
            lemma_header_attrs_push(h, s, a);
            let s = s.push(a);
            let a = ("amount".spec_bytes(), decimal(amount as nat));
            lemma_header_attrs_push(h, s, a);
            let s = s.push(a);
            let a = ("hlp_balance_after".spec_bytes(), signed_decimal(hlp_balance_after as int));
            lemma_header_attrs_push(h, s, a);
            let s = s.push(a);
        },
        Event::SocializedLossApplied { pool_id, total_amount, cap_target, cap_bps, affected_count } => {
            let h = abci_header("socialized_loss_applied".spec_bytes(), 5);
            let s = Seq::<AbciAttr>::empty();
            lemma_header_no_attrs(h);
            let a = ("pool_id".spec_bytes(), decimal(pool_id as nat));
            lemma_header_attrs_push(h, s, a);
            let s = s.push(a);
            let a = ("total_amount".spec_bytes(), decimal(total_amount as nat));
            lemma_header_attrs_push(h, s, a);
            let s = s.push(a);
            let a = ("cap_target".spec_bytes(), decimal(cap_target as nat));
            lemma_header_attrs_push(h, s, a);
            let s = s.push(a);
            let a = ("cap_bps".spec_bytes(), decimal(cap_bps as nat));
            lemma_header_attrs_push(h, s, a);
            let s = s.push(a);
            let a = ("affected_count".spec_bytes(), decimal(affected_count as nat));
            lemma_header_attrs_push(h, s, a);
            let s = s.push(a);
        },
        Event::PositionAutoDeleveraged { owner, market, side, size, close_price, close_price_spec, realized_pnl } => {
            let h = abci_header("position_auto_deleveraged".spec_bytes(), 7);
            let s = Seq::<AbciAttr>::empty();
            lemma_header_no_attrs(h);
            let a = ("owner".spec_bytes(), hex(owner@));
            lemma_header_attrs_push(h, s, a);
            let s = s.push(a);
            let a = ("market".spec_bytes(), decimal(market as nat));
            lemma_header_attrs_push(h, s, a);
            let s = s.push(a);
            let a = ("side".spec_bytes(), encode_utf8(side.spec_text()));
            lemma_header_attrs_push(h, s, a);
            let s = s.push(a);
            let a = ("size".spec_bytes(), decimal(size as nat));
            lemma_header_attrs_push(h, s, a);
            let s = s.push(a);
            let a = ("close_price".spec_bytes(), decimal(close_price as nat));
            lemma_header_attrs_push(h, s, a);
            let s = s.push(a);
            let a = ("close_price_spec".spec_bytes(), decimal(close_price_spec as nat));
            lemma_header_attrs_push(h, s, a);
            let s = s.push(a);
            let a = ("realized_pnl".spec_bytes(), signed_decimal(realized_pnl as int));
            lemma_header_attrs_push(h, s, a);
            let s = s.push(a);
        },
        Event::WithdrawRequested { withdrawal_id, owner, amount, solana_destination } => {
            let h = abci_header("withdraw_requested".spec_bytes(), 4);
            let s = Seq::<AbciAttr>::empty();
            lemma_header_no_attrs(h);
            let a = ("withdrawal_id".spec_bytes(), decimal(withdrawal_id as nat));
            lemma_header_attrs_push(h, s, a);
            let s = s.push(a);
            let a = ("owner".spec_bytes(), hex(owner@));
            lemma_header_attrs_push(h, s, a);
            let s = s.push(a);
            let a = ("amount".spec_bytes(), decimal(amount as nat));
            lemma_header_attrs_push(h, s, a);
            let s = s.push(a);
            let a = ("solana_destination".spec_bytes(), hex(solana_destination@));
            lemma_header_attrs_push(h, s, a);
            let s = s.push(a);
        },
        Event::DepositConfirmed { owner, amount, new_balance, solana_tx_sig, signer } => {
            let h = abci_header("deposit_confirmed".spec_bytes(), 5);
            let s = Seq::<AbciAttr>::empty();
            lemma_header_no_attrs(h);
            let a = ("owner".spec_bytes(), hex(owner@));
            lemma_header_attrs_push(h, s, a);
            let s = s.push(a);
            let a = ("amount".spec_bytes(), decimal(amount as nat));
            lemma_header_attrs_push(h, s, a);
            let s = s.push(a);
            let a = ("new_balance".spec_bytes(), decimal(new_balance as nat));
            lemma_header_attrs_push(h, s, a);
            let s = s.push(a);
            let a = ("solana_tx_sig".spec_bytes(), hex(solana_tx_sig@));
            lemma_header_attrs_push(h, s, a);
            let s = s.push(a);
            let a = ("signer".spec_bytes(), opt_hex(signer));
            lemma_header_attrs_push(h, s, a);
            let s = s.push(a);
        },
        Event::DepositFailed { solana_signature, reason, signer } => {
            let h = abci_header("deposit_failed".spec_bytes(), 3);
            let s = Seq::<AbciAttr>::empty();
            lemma_header_no_attrs(h);
            let a = ("solana_signature".spec_bytes(), hex(solana_signature@));
            lemma_header_attrs_push(h, s, a);
            let s = s.push(a);
            let a = ("reason".spec_bytes(), encode_utf8(reason.spec_text()));
            lemma_header_attrs_push(h, s, a);
            let s = s.push(a);
            let a = ("signer".spec_bytes(), opt_hex(signer));
            lemma_header_attrs_push(h, s, a);
            let s = s.push(a);
        },
        Event::WithdrawalConfirmed { withdrawal_id, solana_tx_sig, signer } => {
            let h = abci_header("withdrawal_confirmed".spec_bytes(), 3);
            let s = Seq::<AbciAttr>::empty();
            lemma_header_no_attrs(h);
            let a = ("withdrawal_id".spec_bytes(), decimal(withdrawal_id as nat));
            lemma_header_attrs_push(h, s, a);
            let s = s.push(a);
            let a = ("solana_tx_sig".spec_bytes(), hex(solana_tx_sig@));
            lemma_header_attrs_push(h, s, a);
            let s = s.push(a);
            let a = ("signer".spec_bytes(), opt_hex(signer));
            lemma_header_attrs_push(h, s, a);
            let s = s.push(a);
        },
        Event::WithdrawalFailed { withdrawal_id, owner, amount, new_balance, reason, signer } => {
            let h = abci_header("withdrawal_failed".spec_bytes(), 6);
            let s = Seq::<AbciAttr>::empty();
            lemma_header_no_attrs(h);
            let a = ("withdrawal_id".spec_bytes(), decimal(withdrawal_id as nat));
            lemma_header_attrs_push(h, s, a);
            let s = s.push(a);
            let a = ("owner".spec_bytes(), hex(owner@));
            lemma_header_attrs_push(h, s, a);
            let s = s.push(a);
            let a = ("amount".spec_bytes(), decimal(amount as nat));
            lemma_header_attrs_push(h, s, a);
            let s = s.push(a);
            let a = ("new_balance".spec_bytes(), decimal(new_balance as nat));
            lemma_header_attrs_push(h, s, a);
            let s = s.push(a);
            let a = ("reason".spec_bytes(), encode_utf8(reason@));
            lemma_header_attrs_push(h, s, a);
            let s = s.push(a);
            let a = ("signer".spec_bytes(), opt_hex(signer));
            lemma_header_attrs_push(h, s, a);
            let s = s.push(a);
        },
        Event::WithdrawalAuthorized { withdrawal_id, authorization_digest } => {
            let h = abci_header("withdrawal_authorized".spec_bytes(), 2);
            let s = Seq::<AbciAttr>::empty();
            lemma_header_no_attrs(h);
            let a = ("withdrawal_id".spec_bytes(), decimal(withdrawal_id as nat));
            lemma_header_attrs_push(h, s, a);
            let s = s.push(a);
            let a = ("authorization_digest".spec_bytes(), hex(authorization_digest@));
            lemma_header_attrs_push(h, s, a);
            let s = s.push(a);
        },
        Event::AgentApproved { owner, agent, agent_pubkey } => {
            let h = abci_header("agent_approved".spec_bytes(), 3);
            let s = Seq::<AbciAttr>::empty();
            lemma_header_no_attrs(h);
            let a = ("owner".spec_bytes(), hex(owner@));
            lemma_header_attrs_push(h, s, a);
            let s = s.push(a);
            let a = ("agent".spec_bytes(), hex(agent@));
            lemma_header_attrs_push(h, s, a);
            let s = s.push(a);
            let a = ("agent_pubkey".spec_bytes(), hex(agent_pubkey@));
            lemma_header_attrs_push(h, s, a);
            let s = s.push(a);
        },
        Event::AgentRevoked { owner, agent, agent_pubkey } => {
            let h = abci_header("agent_revoked".spec_bytes(), 3);
            let s = Seq::<AbciAttr>::empty();
            lemma_header_no_attrs(h);
            let a = ("owner".spec_bytes(), hex(owner@));
            lemma_header_attrs_push(h, s, a);
            let s = s.push(a);
            let a = ("agent".spec_bytes(), hex(agent@));
            lemma_header_attrs_push(h, s, a);
            let s = s.push(a);
            let a = ("agent_pubkey".spec_bytes(), hex(agent_pubkey@));
            lemma_header_attrs_push(h, s, a);
            let s = s.push(a);
        },
        Event::FundingApplied { market, funding_rate_bps, cumulative_funding, timestamp_ms } => {
            let h = abci_header("funding_applied".spec_bytes(), 4);
            let s = Seq::<AbciAttr>::empty();
            lemma_header_no_attrs(h);
            let a = ("market".spec_bytes(), decimal(market as nat));
            lemma_header_attrs_push(h, s, a);
            let s = s.push(a);
            let a = ("funding_rate_bps".spec_bytes(), signed_decimal(funding_rate_bps as int));
            lemma_header_attrs_push(h, s, a);
            let s = s.push(a);
            let a = ("cumulative_funding".spec_bytes(), signed_decimal(cumulative_funding as int));
            lemma_header_attrs_push(h, s, a);
            let s = s.push(a);
            let a = ("timestamp_ms".spec_bytes(), decimal(timestamp_ms as nat));
            lemma_header_attrs_push(h, s, a);
            let s = s.push(a);
        },
        Event::FundingSettled { owner, market, payment } => {
            let h = abci_header("funding_settled".spec_bytes(), 3);
            let s = Seq::<AbciAttr>::empty();
            lemma_header_no_attrs(h);
            let a = ("owner".spec_bytes(), hex(owner@));
            lemma_header_attrs_push(h, s, a);
            let s = s.push(a);
            let a = ("market".spec_bytes(), decimal(market as nat));
            lemma_header_attrs_push(h, s, a);
            let s = s.push(a);
            let a = ("payment".spec_bytes(), signed_decimal(payment as int));
            lemma_header_attrs_push(h, s, a);
            let s = s.push(a);
        },
        Event::FundingShortfall { owner, market, owed, actual, shortfall } => {
            let h = abci_header("funding_shortfall".spec_bytes(), 5);
            let s = Seq::<AbciAttr>::empty();
            lemma_header_no_attrs(h);
            let a = ("owner".spec_bytes(), hex(owner@));
            lemma_header_attrs_push(h, s, a);
            let s = s.push(a);
            let a = ("market".spec_bytes(), decimal(market as nat));
            lemma_header_attrs_push(h, s, a);
            let s = s.push(a);
            let a = ("owed".spec_bytes(), signed_decimal(owed as int));
            lemma_header_attrs_push(h, s, a);
            let s = s.push(a);
            let a = ("actual".spec_bytes(), signed_decimal(actual as int));
            lemma_header_attrs_push(h, s, a);
            let s = s.push(a);
            let a = ("shortfall".spec_bytes(), decimal(shortfall as nat));
            lemma_header_attrs_push(h, s, a);
            let s = s.push(a);
        },
        Event::MarginWarning { owner, equity, maintenance_margin } => {
            let h = abci_header("margin_warning".spec_bytes(), 3);
            let s = Seq::<AbciAttr>::empty();
            lemma_header_no_attrs(h);
            let a = ("owner".spec_bytes(), hex(owner@));
            lemma_header_attrs_push(h, s, a);
            let s = s.push(a);
            let a = ("equity".spec_bytes(), signed_decimal(equity as int));
            lemma_header_attrs_push(h, s, a);
            let s = s.push(a);
            let a = ("maintenance_margin".spec_bytes(), decimal(maintenance_margin as nat));
            lemma_header_attrs_push(h, s, a);
            let s = s.push(a);
        },
        Event::MarketOrderProcessed { order_id, market, owner, side, requested_quantity, filled_quantity, client_order_id } => {
            let h = abci_header("market_order_processed".spec_bytes(), 7);
            let s = Seq::<AbciAttr>::empty();
            lemma_header_no_attrs(h);
            let a = ("order_id".spec_bytes(), decimal(order_id as nat));
            lemma_header_attrs_push(h, s, a);
            let s = s.push(a);
            let a = ("market".spec_bytes(), decimal(market as nat));
            lemma_header_attrs_push(h, s, a);
            let s = s.push(a);
            let a = ("owner".spec_bytes(), hex(owner@));
            lemma_header_attrs_push(h, s, a);
            let s = s.push(a);
            let a = ("side".spec_bytes(), encode_utf8(side.spec_text()));
            lemma_header_attrs_push(h, s, a);
            let s = s.push(a);
            let a = ("requested_quantity".spec_bytes(), decimal(requested_quantity as nat));
            lemma_header_attrs_push(h, s, a);
            let s = s.push(a);
            let a = ("filled_quantity".spec_bytes(), decimal(filled_quantity as nat));
            lemma_header_attrs_push(h, s, a);
            let s = s.push(a);
            let a = ("client_order_id".spec_bytes(), decimal(client_order_id as nat));
            lemma_header_attrs_push(h, s, a);
            let s = s.push(a);
        },
        Event::UserMarketLeverageSet { owner, market, user_im_bps } => {
            let h = abci_header("user_market_leverage_set".spec_bytes(), 3);
            let s = Seq::<AbciAttr>::empty();
            lemma_header_no_attrs(h);
            let a = ("owner".spec_bytes(), hex(owner@));
            lemma_header_attrs_push(h, s, a);
            let s = s.push(a);
            let a = ("market".spec_bytes(), decimal(market as nat));
            lemma_header_attrs_push(h, s, a);
            let s = s.push(a);
            let a = ("user_im_bps".spec_bytes(), decimal(user_im_bps as nat));
            lemma_header_attrs_push(h, s, a);
            let s = s.push(a);
        },
        Event::SocializedLossSettled { owner, market, owed, collected } => {
            let h = abci_header("socialized_loss_settled".spec_bytes(), 4);
            let s = Seq::<AbciAttr>::empty();
            lemma_header_no_attrs(h);
            let a = ("owner".spec_bytes(), hex(owner@));
            lemma_header_attrs_push(h, s, a);
            let s = s.push(a);
            let a = ("market".spec_bytes(), decimal(market as nat));
            lemma_header_attrs_push(h, s, a);
            let s = s.push(a);
            let a = ("owed".spec_bytes(), decimal(owed as nat));
            lemma_header_attrs_push(h, s, a);
            let s = s.push(a);
            let a = ("collected".spec_bytes(), decimal(collected as nat));
            lemma_header_attrs_push(h, s, a);
            let s = s.push(a);
        },
        Event::ProposalCreated { proposal_id, proposer, registry_version, threshold, action_tag, content_hash, created_ms, expiry_ms } => {
            let h = abci_header("proposal_created".spec_bytes(), 8);
            let s = Seq::<AbciAttr>::empty();
            lemma_header_no_attrs(h);
            let a = ("proposal_id".spec_bytes(), decimal(proposal_id as nat));
            lemma_header_attrs_push(h, s, a);
            let s = s.push(a);
            let a = ("proposer".spec_bytes(), hex(proposer@));
            lemma_header_attrs_push(h, s, a);
            let s = s.push(a);
            let a = ("registry_version".spec_bytes(), decimal(registry_version as nat));
            lemma_header_attrs_push(h, s, a);
            let s = s.push(a);
            let a = ("threshold".spec_bytes(), decimal(threshold as nat));
            lemma_header_attrs_push(h, s, a);
            let s = s.push(a);
            let a = ("action_tag".spec_bytes(), decimal(action_tag as nat));
            lemma_header_attrs_push(h, s, a);
            let s = s.push(a);
            let a = ("content_hash".spec_bytes(), hex(content_hash@));
            lemma_header_attrs_push(h, s, a);
            let s = s.push(a);
            let a = ("created_ms".spec_bytes(), decimal(created_ms as nat));
            lemma_header_attrs_push(h, s, a);
            let s = s.push(a);
            let a = ("expiry_ms".spec_bytes(), decimal(expiry_ms as nat));
            lemma_header_attrs_push(h, s, a);
            let s = s.push(a);
        },
        Event::ProposalApproved { proposal_id, approver, approvals_count, threshold } => {
            let h = abci_header("proposal_approved".spec_bytes(), 4);
            let s = Seq::<AbciAttr>::empty();
            lemma_header_no_attrs(h);
            let a = ("proposal_id".spec_bytes(), decimal(proposal_id as nat));
            lemma_header_attrs_push(h, s, a);
            let s = s.push(a);
            let a = ("approver".spec_bytes(), hex(approver@));
            lemma_header_attrs_push(h, s, a);
            let s = s.push(a);
            let a = ("approvals_count".spec_bytes(), decimal(approvals_count as nat));
            lemma_header_attrs_push(h, s, a);
            let s = s.push(a);
            let a = ("threshold".spec_bytes(), decimal(threshold as nat));
            lemma_header_attrs_push(h, s, a);
            let s = s.push(a);
        },
        Event::ProposalExecuted { proposal_id } => {
            let h = abci_header("proposal_executed".spec_bytes(), 1);
            let s = Seq::<AbciAttr>::empty();
            lemma_header_no_attrs(h);
            let a = ("proposal_id".spec_bytes(), decimal(proposal_id as nat));
            lemma_header_attrs_push(h, s, a);
            let s = s.push(a);
        },
        Event::ProposalFailed { proposal_id, error_code } => {
            let h = abci_header("proposal_failed".spec_bytes(), 2);
            let s = Seq::<AbciAttr>::empty();
            lemma_header_no_attrs(h);
            let a = ("proposal_id".spec_bytes(), decimal(proposal_id as nat));
            lemma_header_attrs_push(h, s, a);
            let s = s.push(a);
            let a = ("error_code".spec_bytes(), decimal(error_code as nat));
            lemma_header_attrs_push(h, s, a);
            let s = s.push(a);
        },
        Event::ProposalRejected { proposal_id, rejecter, by_proposer, rejections_count } => {
            let h = abci_header("proposal_rejected".spec_bytes(), 4);
            let s = Seq::<AbciAttr>::empty();
            lemma_header_no_attrs(h);
            let a = ("proposal_id".spec_bytes(), decimal(proposal_id as nat));
            lemma_header_attrs_push(h, s, a);
            let s = s.push(a);
            let a = ("rejecter".spec_bytes(), hex(rejecter@));
            lemma_header_attrs_push(h, s, a);
            let s = s.push(a);
            let a = ("by_proposer".spec_bytes(), encode_utf8(spec_bool_text(by_proposer)));
            lemma_header_attrs_push(h, s, a);
            let s = s.push(a);
            let a = ("rejections_count".spec_bytes(), decimal(rejections_count as nat));
            lemma_header_attrs_push(h, s, a);
            let s = s.push(a);
        },
        Event::ProposalExpired { proposal_id, reason } => {
            let h = abci_header("proposal_expired".spec_bytes(), 2);
            let s = Seq::<AbciAttr>::empty();
            lemma_header_no_attrs(h);
            let a = ("proposal_id".spec_bytes(), decimal(proposal_id as nat));
            lemma_header_attrs_push(h, s, a);
            let s = s.push(a);
            let a = ("reason".spec_bytes(), encode_utf8(reason.spec_text()));
            lemma_header_attrs_push(h, s, a);
            let s = s.push(a);
        },
        Event::EmergencyActionExecuted { signer, action_tag, market_id } => {
            let h = abci_header("emergency_action_executed".spec_bytes(), 3);
            let s = Seq::<AbciAttr>::empty();
            lemma_header_no_attrs(h);
            let a = ("signer".spec_bytes(), hex(signer@));
            lemma_header_attrs_push(h, s, a);
            let s = s.push(a);
            let a = ("action_tag".spec_bytes(), decimal(action_tag as nat));
            lemma_header_attrs_push(h, s, a);
            let s = s.push(a);
            let a = ("market_id".spec_bytes(), decimal(market_id as nat));
            lemma_header_attrs_push(h, s, a);
            let s = s.push(a);
        },
        Event::AdminSignerRegistryUpdated { version, threshold, members } => {
            let h = abci_header("admin_signer_registry_updated".spec_bytes(), 3);
            let s = Seq::<AbciAttr>::empty();
            lemma_header_no_attrs(h);
            let a = ("version".spec_bytes(), decimal(version as nat));
            lemma_header_attrs_push(h, s, a);
            let s = s.push(a);
            let a = ("threshold".spec_bytes(), decimal(threshold as nat));
            lemma_header_attrs_push(h, s, a);
            let s = s.push(a);
            let a = ("members".spec_bytes(), encode_utf8(members@));
            lemma_header_attrs_push(h, s, a);
            let s = s.push(a);
        },
        Event::BridgeUnpauseAuthorized { proposal_id } => {
            let h = abci_header("bridge_unpause_authorized".spec_bytes(), 1);
            let s = Seq::<AbciAttr>::empty();
            lemma_header_no_attrs(h);
            let a = ("proposal_id".spec_bytes(), decimal(proposal_id as nat));
            lemma_header_attrs_push(h, s, a);
            let s = s.push(a);
        },
        Event::AuthoritySetUpdated { domain, added, removed, proposal_id } => {
            let h = abci_header("authority_set_updated".spec_bytes(), 4);
            let s = Seq::<AbciAttr>::empty();
            lemma_header_no_attrs(h);
            let a = ("domain".spec_bytes(), decimal(domain as nat));
            lemma_header_attrs_push(h, s, a);
            let s = s.push(a);
            let a = ("added".spec_bytes(), encode_utf8(added@));
            lemma_header_attrs_push(h, s, a);
            let s = s.push(a);
            let a = ("removed".spec_bytes(), encode_utf8(removed@));
            lemma_header_attrs_push(h, s, a);
            let s = s.push(a);
            let a = ("proposal_id".spec_bytes(), decimal(proposal_id as nat));
            lemma_header_attrs_push(h, s, a);
            let s = s.push(a);
        },
        Event::OracleGuardsUpdated { market, mark_price_max_oracle_age_ms, max_oracle_deviation_bps, proposal_id } => {
            let h = abci_header("oracle_guards_updated".spec_bytes(), 4);
            let s = Seq::<AbciAttr>::empty();
            lemma_header_no_attrs(h);
            let a = ("market".spec_bytes(), decimal(market as nat));
            lemma_header_attrs_push(h, s, a);
            let s = s.push(a);
            let a = ("mark_price_max_oracle_age_ms".spec_bytes(), decimal(mark_price_max_oracle_age_ms as nat));
            lemma_header_attrs_push(h, s, a);
            let s = s.push(a);
            let a = ("max_oracle_deviation_bps".spec_bytes(), decimal(max_oracle_deviation_bps as nat));
            lemma_header_attrs_push(h, s, a);
            let s = s.push(a);
            let a = ("proposal_id".spec_bytes(), decimal(proposal_id as nat));
            lemma_header_attrs_push(h, s, a);
            let s = s.push(a);
        },
        Event::OracleUpdateRejected { market, submitted_price, last_good, max_oracle_deviation_bps, signer, reason } => {
            let h = abci_header("oracle_update_rejected".spec_bytes(), 6);
            let s = Seq::<AbciAttr>::empty();
            lemma_header_no_attrs(h);
            let a = ("market".spec_bytes(), decimal(market as nat));
            lemma_header_attrs_push(h, s, a);
            let s = s.push(a);
            let a = ("submitted_price".spec_bytes(), decimal(submitted_price as nat));
            lemma_header_attrs_push(h, s, a);
            let s = s.push(a);
            let a = ("last_good".spec_bytes(), decimal(last_good as nat));
            lemma_header_attrs_push(h, s, a);
            let s = s.push(a);
            let a = ("max_oracle_deviation_bps".spec_bytes(), decimal(max_oracle_deviation_bps as nat));
            lemma_header_attrs_push(h, s, a);
            let s = s.push(a);
            let a = ("signer".spec_bytes(), opt_hex(signer));
            lemma_header_attrs_push(h, s, a);
            let s = s.push(a);
            let a = ("reason".spec_bytes(), encode_utf8(reason.spec_text()));
            lemma_header_attrs_push(h, s, a);
            let s = s.push(a);
        },
        Event::FundingSkipped { market, timestamp_ms, reason } => {
            let h = abci_header("funding_skipped".spec_bytes(), 3);
            let s = Seq::<AbciAttr>::empty();
            lemma_header_no_attrs(h);
            let a = ("market".spec_bytes(), decimal(market as nat));
            lemma_header_attrs_push(h, s, a);
            let s = s.push(a);
            let a = ("timestamp_ms".spec_bytes(), decimal(timestamp_ms as nat));
            lemma_header_attrs_push(h, s, a);
            let s = s.push(a);
            let a = ("reason".spec_bytes(), encode_utf8(reason.spec_text()));
            lemma_header_attrs_push(h, s, a);
            let s = s.push(a);
        },
        Event::TriggerMarketConfigScheduled { market, version, accepted_height, effective_height, enabled, max_trigger_slippage_bps, max_mark_age_ms, max_future_publish_skew_ms, max_active_brackets } => {
            let h = abci_header("trigger_market_config_scheduled".spec_bytes(), 9);
            let s = Seq::<AbciAttr>::empty();
            lemma_header_no_attrs(h);
            let a = ("market".spec_bytes(), decimal(market as nat));
            lemma_header_attrs_push(h, s, a);
            let s = s.push(a);
            let a = ("version".spec_bytes(), decimal(version as nat));
            lemma_header_attrs_push(h, s, a);
            let s = s.push(a);
            let a = ("accepted_height".spec_bytes(), decimal(accepted_height as nat));
            lemma_header_attrs_push(h, s, a);
            let s = s.push(a);
            let a = ("effective_height".spec_bytes(), decimal(effective_height as nat));
            lemma_header_attrs_push(h, s, a);
            let s = s.push(a);
            let a = ("enabled".spec_bytes(), encode_utf8(spec_bool_text(enabled)));
            lemma_header_attrs_push(h, s, a);
            let s = s.push(a);
            let a = ("max_trigger_slippage_bps".spec_bytes(), decimal(max_trigger_slippage_bps as nat));
            lemma_header_attrs_push(h, s, a);
            let s = s.push(a);
            let a = ("max_mark_age_ms".spec_bytes(), decimal(max_mark_age_ms as nat));
            lemma_header_attrs_push(h, s, a);
            let s = s.push(a);
            let a = ("max_future_publish_skew_ms".spec_bytes(), decimal(max_future_publish_skew_ms as nat));
            lemma_header_attrs_push(h, s, a);
            let s = s.push(a);
            let a = ("max_active_brackets".spec_bytes(), decimal(max_active_brackets as nat));
            lemma_header_attrs_push(h, s, a);
            let s = s.push(a);
        },
        Event::TriggerMarketConfigActivated { market, version, effective_height, enabled, max_trigger_slippage_bps, max_mark_age_ms, max_future_publish_skew_ms, max_active_brackets } => {
            let h = abci_header("trigger_market_config_activated".spec_bytes(), 8);
            let s = Seq::<AbciAttr>::empty();
            lemma_header_no_attrs(h);
            let a = ("market".spec_bytes(), decimal(market as nat));
            lemma_header_attrs_push(h, s, a);
            let s = s.push(a);
            let a = ("version".spec_bytes(), decimal(version as nat));
            lemma_header_attrs_push(h, s, a);
            let s = s.push(a);
            let a = ("effective_height".spec_bytes(), decimal(effective_height as nat));
            lemma_header_attrs_push(h, s, a);
            let s = s.push(a);
            let a = ("enabled".spec_bytes(), encode_utf8(spec_bool_text(enabled)));
            lemma_header_attrs_push(h, s, a);
            let s = s.push(a);
            let a = ("max_trigger_slippage_bps".spec_bytes(), decimal(max_trigger_slippage_bps as nat));
            lemma_header_attrs_push(h, s, a);
            let s = s.push(a);
            let a = ("max_mark_age_ms".spec_bytes(), decimal(max_mark_age_ms as nat));
            lemma_header_attrs_push(h, s, a);
            let s = s.push(a);
            let a = ("max_future_publish_skew_ms".spec_bytes(), decimal(max_future_publish_skew_ms as nat));
            lemma_header_attrs_push(h, s, a);
            let s = s.push(a);
            let a = ("max_active_brackets".spec_bytes(), decimal(max_active_brackets as nat));
            lemma_header_attrs_push(h, s, a);
            let s = s.push(a);
        },
        Event::PositionTriggersSet { owner, market, position_epoch, group_id, client_group_id, stop_limb_id, stop_client_trigger_id, take_profit_limb_id, take_profit_client_trigger_id, accepted_height, active_from_height, replaced_group_id } => {
            let h = abci_header("position_triggers_set".spec_bytes(), 12);
            let s = Seq::<AbciAttr>::empty();
            lemma_header_no_attrs(h);
            let a = ("owner".spec_bytes(), hex(owner@));
            lemma_header_attrs_push(h, s, a);
            let s = s.push(a);
            let a = ("market".spec_bytes(), decimal(market as nat));
            lemma_header_attrs_push(h, s, a);
            let s = s.push(a);
            let a = ("position_epoch".spec_bytes(), decimal(position_epoch as nat));
            lemma_header_attrs_push(h, s, a);
            let s = s.push(a);
            let a = ("group_id".spec_bytes(), decimal(group_id as nat));
            lemma_header_attrs_push(h, s, a);
            let s = s.push(a);
            let a = ("client_group_id".spec_bytes(), decimal(client_group_id as nat));
            lemma_header_attrs_push(h, s, a);
            let s = s.push(a);
            let a = ("stop_limb_id".spec_bytes(), decimal(stop_limb_id as nat));
            lemma_header_attrs_push(h, s, a);
            let s = s.push(a);
            let a = ("stop_client_trigger_id".spec_bytes(), decimal(stop_client_trigger_id as nat));
            lemma_header_attrs_push(h, s, a);
            let s = s.push(a);
            let a = ("take_profit_limb_id".spec_bytes(), decimal(take_profit_limb_id as nat));
            lemma_header_attrs_push(h, s, a);
            let s = s.push(a);
            let a = ("take_profit_client_trigger_id".spec_bytes(), decimal(take_profit_client_trigger_id as nat));
            lemma_header_attrs_push(h, s, a);
            let s = s.push(a);
            let a = ("accepted_height".spec_bytes(), decimal(accepted_height as nat));
            lemma_header_attrs_push(h, s, a);
            let s = s.push(a);
            let a = ("active_from_height".spec_bytes(), decimal(active_from_height as nat));
            lemma_header_attrs_push(h, s, a);
            let s = s.push(a);
            let a = ("replaced_group_id".spec_bytes(), decimal(replaced_group_id as nat));
            lemma_header_attrs_push(h, s, a);
            let s = s.push(a);
        },
        Event::PositionTriggersCancelled { owner, market, position_epoch, group_id } => {
            let h = abci_header("position_triggers_cancelled".spec_bytes(), 4);
            let s = Seq::<AbciAttr>::empty();
            lemma_header_no_attrs(h);
            let a = ("owner".spec_bytes(), hex(owner@));
            lemma_header_attrs_push(h, s, a);
            let s = s.push(a);
            let a = ("market".spec_bytes(), decimal(market as nat));
            lemma_header_attrs_push(h, s, a);
            let s = s.push(a);
            let a = ("position_epoch".spec_bytes(), decimal(position_epoch as nat));
            lemma_header_attrs_push(h, s, a);
            let s = s.push(a);
            let a = ("group_id".spec_bytes(), decimal(group_id as nat));
            lemma_header_attrs_push(h, s, a);
            let s = s.push(a);
        },
        Event::PositionTriggersInvalidated { owner, market, position_epoch, group_id } => {
            let h = abci_header("position_triggers_invalidated".spec_bytes(), 4);
            let s = Seq::<AbciAttr>::empty();
            lemma_header_no_attrs(h);
            let a = ("owner".spec_bytes(), hex(owner@));
            lemma_header_attrs_push(h, s, a);
            let s = s.push(a);
            let a = ("market".spec_bytes(), decimal(market as nat));
            lemma_header_attrs_push(h, s, a);
            let s = s.push(a);
            let a = ("position_epoch".spec_bytes(), decimal(position_epoch as nat));
            lemma_header_attrs_push(h, s, a);
            let s = s.push(a);
            let a = ("group_id".spec_bytes(), decimal(group_id as nat));
            lemma_header_attrs_push(h, s, a);
            let s = s.push(a);
        },
        Event::PositionTriggerActivated { owner, market, position_epoch, group_id, limb_id, client_group_id, client_trigger_id, limb_kind, trigger_price, frozen_mark, limit_price, requested_quantity, execution_order_id } => {
            let h = abci_header("position_trigger_activated".spec_bytes(), 13);
            let s = Seq::<AbciAttr>::empty();
            lemma_header_no_attrs(h);
            let a = ("owner".spec_bytes(), hex(owner@));
            lemma_header_attrs_push(h, s, a);
            let s = s.push(a);
            let a = ("market".spec_bytes(), decimal(market as nat));
            lemma_header_attrs_push(h, s, a);
            let s = s.push(a);
            let a = ("position_epoch".spec_bytes(), decimal(position_epoch as nat));
            lemma_header_attrs_push(h, s, a);
            let s = s.push(a);
            let a = ("group_id".spec_bytes(), decimal(group_id as nat));
            lemma_header_attrs_push(h, s, a);
            let s = s.push(a);
            let a = ("limb_id".spec_bytes(), decimal(limb_id as nat));
            lemma_header_attrs_push(h, s, a);
            let s = s.push(a);
            let a = ("client_group_id".spec_bytes(), decimal(client_group_id as nat));
            lemma_header_attrs_push(h, s, a);
            let s = s.push(a);
            let a = ("client_trigger_id".spec_bytes(), decimal(client_trigger_id as nat));
            lemma_header_attrs_push(h, s, a);
            let s = s.push(a);
            let a = ("limb_kind".spec_bytes(), encode_utf8(limb_kind@));
            lemma_header_attrs_push(h, s, a);
            let s = s.push(a);
            let a = ("trigger_price".spec_bytes(), decimal(trigger_price as nat));
            lemma_header_attrs_push(h, s, a);
            let s = s.push(a);
            let a = ("frozen_mark".spec_bytes(), decimal(frozen_mark as nat));
            lemma_header_attrs_push(h, s, a);
            let s = s.push(a);
            let a = ("limit_price".spec_bytes(), decimal(limit_price as nat));
            lemma_header_attrs_push(h, s, a);
            let s = s.push(a);
            let a = ("requested_quantity".spec_bytes(), decimal(requested_quantity as nat));
            lemma_header_attrs_push(h, s, a);
            let s = s.push(a);
            let a = ("execution_order_id".spec_bytes(), decimal(execution_order_id as nat));
            lemma_header_attrs_push(h, s, a);
            let s = s.push(a);
        },
        Event::PositionTriggerExecuted { owner, market, position_epoch, group_id, limb_id, client_group_id, client_trigger_id, limb_kind, trigger_price, frozen_mark, limit_price, requested_quantity, filled_quantity, residual_quantity, execution_order_id, total_fee, result, reason } => {
            let h = abci_header("position_trigger_executed".spec_bytes(), 18);
            let s = Seq::<AbciAttr>::empty();
            lemma_header_no_attrs(h);
            let a = ("owner".spec_bytes(), hex(owner@));
            lemma_header_attrs_push(h, s, a);
            let s = s.push(a);
            let a = ("market".spec_bytes(), decimal(market as nat));
            lemma_header_attrs_push(h, s, a);
            let s = s.push(a);
            let a = ("position_epoch".spec_bytes(), decimal(position_epoch as nat));
            lemma_header_attrs_push(h, s, a);
            let s = s.push(a);
            let a = ("group_id".spec_bytes(), decimal(group_id as nat));
            lemma_header_attrs_push(h, s, a);
            let s = s.push(a);
            let a = ("limb_id".spec_bytes(), decimal(limb_id as nat));
            lemma_header_attrs_push(h, s, a);
            let s = s.push(a);
            let a = ("client_group_id".spec_bytes(), decimal(client_group_id as nat));
            lemma_header_attrs_push(h, s, a);
            let s = s.push(a);
            let a = ("client_trigger_id".spec_bytes(), decimal(client_trigger_id as nat));
            lemma_header_attrs_push(h, s, a);
            let s = s.push(a);
            let a = ("limb_kind".spec_bytes(), encode_utf8(limb_kind@));
            lemma_header_attrs_push(h, s, a);
            let s = s.push(a);
            let a = ("trigger_price".spec_bytes(), decimal(trigger_price as nat));
            lemma_header_attrs_push(h, s, a);
            let s = s.push(a);
            let a = ("frozen_mark".spec_bytes(), decimal(frozen_mark as nat));
            lemma_header_attrs_push(h, s, a);
            let s = s.push(a);
            let a = ("limit_price".spec_bytes(), decimal(limit_price as nat));
            lemma_header_attrs_push(h, s, a);
            let s = s.push(a);
            let a = ("requested_quantity".spec_bytes(), decimal(requested_quantity as nat));
            lemma_header_attrs_push(h, s, a);
            let s = s.push(a);
            let a = ("filled_quantity".spec_bytes(), decimal(filled_quantity as nat));
            lemma_header_attrs_push(h, s, a);
            let s = s.push(a);
            let a = ("residual_quantity".spec_bytes(), decimal(residual_quantity as nat));
            lemma_header_attrs_push(h, s, a);
            let s = s.push(a);
            let a = ("execution_order_id".spec_bytes(), decimal(execution_order_id as nat));
            lemma_header_attrs_push(h, s, a);
            let s = s.push(a);
            let a = ("total_fee".spec_bytes(), signed_decimal(total_fee as int));
            lemma_header_attrs_push(h, s, a);
            let s = s.push(a);
            let a = ("result".spec_bytes(), encode_utf8(result@));
            lemma_header_attrs_push(h, s, a);
            let s = s.push(a);
            let a = ("reason".spec_bytes(), encode_utf8(reason@));
            lemma_header_attrs_push(h, s, a);
            let s = s.push(a);
        },
        Event::PositionTriggerDeferred { owner, market, position_epoch, group_id, limb_id, client_group_id, client_trigger_id, limb_kind, trigger_price, frozen_mark, requested_quantity, reason } => {
            let h = abci_header("position_trigger_deferred".spec_bytes(), 12);
            let s = Seq::<AbciAttr>::empty();
            lemma_header_no_attrs(h);
            let a = ("owner".spec_bytes(), hex(owner@));
            lemma_header_attrs_push(h, s, a);
            let s = s.push(a);
            let a = ("market".spec_bytes(), decimal(market as nat));
            lemma_header_attrs_push(h, s, a);
            let s = s.push(a);
            let a = ("position_epoch".spec_bytes(), decimal(position_epoch as nat));
            lemma_header_attrs_push(h, s, a);
            let s = s.push(a);
            let a = ("group_id".spec_bytes(), decimal(group_id as nat));
            lemma_header_attrs_push(h, s, a);
            let s = s.push(a);
            let a = ("limb_id".spec_bytes(), decimal(limb_id as nat));
            lemma_header_attrs_push(h, s, a);
            let s = s.push(a);
            let a = ("client_group_id".spec_bytes(), decimal(client_group_id as nat));
            lemma_header_attrs_push(h, s, a);
            let s = s.push(a);
            let a = ("client_trigger_id".spec_bytes(), decimal(client_trigger_id as nat));
            lemma_header_attrs_push(h, s, a);
            let s = s.push(a);
            let a = ("limb_kind".spec_bytes(), encode_utf8(limb_kind@));
            lemma_header_attrs_push(h, s, a);
            let s = s.push(a);
            let a = ("trigger_price".spec_bytes(), decimal(trigger_price as nat));
            lemma_header_attrs_push(h, s, a);
            let s = s.push(a);
            let a = ("frozen_mark".spec_bytes(), decimal(frozen_mark as nat));
            lemma_header_attrs_push(h, s, a);
            let s = s.push(a);
            let a = ("requested_quantity".spec_bytes(), decimal(requested_quantity as nat));
            lemma_header_attrs_push(h, s, a);
            let s = s.push(a);
            let a = ("reason".spec_bytes(), encode_utf8(reason@));
            lemma_header_attrs_push(h, s, a);
            let s = s.push(a);
        },
        Event::TriggerMarketDeferred { market, reason } => {
            let h = abci_header("trigger_market_deferred".spec_bytes(), 2);
            let s = Seq::<AbciAttr>::empty();
            lemma_header_no_attrs(h);
            let a = ("market".spec_bytes(), decimal(market as nat));
            lemma_header_attrs_push(h, s, a);
            let s = s.push(a);
            let a = ("reason".spec_bytes(), encode_utf8(reason@));
            lemma_header_attrs_push(h, s, a);
            let s = s.push(a);
        },
        Event::TriggerMarketResumed { market, previous_reason } => {
            let h = abci_header("trigger_market_resumed".spec_bytes(), 2);
            let s = Seq::<AbciAttr>::empty();
            lemma_header_no_attrs(h);
            let a = ("market".spec_bytes(), decimal(market as nat));
            lemma_header_attrs_push(h, s, a);
            let s = s.push(a);
            let a = ("previous_reason".spec_bytes(), encode_utf8(previous_reason@));
            lemma_header_attrs_push(h, s, a);
            let s = s.push(a);
        },
        Event::SubAccountCreated { owner, sub_account_id, address, name } => {
            let h = abci_header("sub_account_created".spec_bytes(), 4);
            let s = Seq::<AbciAttr>::empty();
            lemma_header_no_attrs(h);
            let a = ("owner".spec_bytes(), hex(owner@));
            lemma_header_attrs_push(h, s, a);
            let s = s.push(a);
            let a = ("sub_account_id".spec_bytes(), decimal(sub_account_id as nat));
            lemma_header_attrs_push(h, s, a);
            let s = s.push(a);
            let a = ("address".spec_bytes(), hex(address@));
            lemma_header_attrs_push(h, s, a);
            let s = s.push(a);
            let a = ("name".spec_bytes(), hex(name@));
            lemma_header_attrs_push(h, s, a);
            let s = s.push(a);
        },
        Event::SubAccountTransferCompleted { owner, from, to, amount } => {
            let h = abci_header("sub_account_transfer_completed".spec_bytes(), 4);
            let s = Seq::<AbciAttr>::empty();
            lemma_header_no_attrs(h);
            let a = ("owner".spec_bytes(), hex(owner@));
            lemma_header_attrs_push(h, s, a);
            let s = s.push(a);
            let a = ("from".spec_bytes(), hex(from@));
            lemma_header_attrs_push(h, s, a);
            let s = s.push(a);
            let a = ("to".spec_bytes(), hex(to@));
            lemma_header_attrs_push(h, s, a);
            let s = s.push(a);
            let a = ("amount".spec_bytes(), decimal(amount as nat));
            lemma_header_attrs_push(h, s, a);
            let s = s.push(a);
        },
    }
}


} // verus!
