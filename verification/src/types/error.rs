//! The `ExecError` code table: every way a transaction can be rejected, its
//! stable numeric code, its documented meaning and its message.
use vstd::prelude::*;
use vstd::seq_lib::lemma_concat_associative;
use vstd::string::StringSliceAdditionalSpecFns;
use vstd::utf8::{encode_utf8, valid_utf8};

use crate::render::decimal;
use crate::text::{new_text, push_str, push_u64_text, utf8_string};
use crate::types::{
    ImpactMarketId, MarketId, OrderId, ProposalId, ProposalStatus, RegistryVersion,
    BINARY_PRICE_MAX,
};

verus! {

/// Transaction execution error. Each variant maps to a stable non-zero ABCI
/// result code via [`ExecError::code()`] (see the `impl` block below). Codes
/// are unique except for the deliberate code-21 nonce-error family. The
/// historical code-50 collision between [`ExecError::SlippageExceeded`] and
/// [`ExecError::OpenInterestLimitExceeded`] was removed before live OI-cap
/// activation: basket slippage keeps its original code 50 and OI-cap rejection
/// uses code 51.
#[derive(Debug)]
pub enum ExecError {
    DecodeError(String),
    OrderNotFound(OrderId),
    NotOwner(OrderId),
    UnauthorizedOracle,
    Overflow,
    InvalidPrice,
    InvalidQuantity,
    InvalidSide,
    UnknownMarket(MarketId),
    InsufficientBalance,
    /// Post-trade equity would fall below initial margin requirement.
    InsufficientMargin,
    /// Store read/write returned unexpected data; indicates a bug or data corruption.
    StateCorruption(String),
    /// An admin action was submitted before the signer registry was initialized.
    AdminGovernanceInactive,
    /// The declared admin signer is unauthorized or differs from the envelope signer.
    NotAdminSigner,
    /// No proposal record exists under the given id.
    ProposalNotFound(ProposalId),
    /// The proposal exists but is already terminal.
    ProposalNotPending {
        id: ProposalId,
        status: ProposalStatus,
    },
    /// The proposal's TTL has passed (stored `Expired`, or `Pending`
    /// past `expiry_ms` — the lazy-expiry equivalent).
    ProposalExpired(ProposalId),
    /// The signer already approved this proposal (includes the
    /// proposer's implicit approval #1).
    DuplicateApproval,
    /// The signer already rejected this proposal.
    DuplicateRejection,
    /// The submitted or stored registry version differs from the
    /// current registry version.
    ProposalRegistryVersionMismatch {
        expected: RegistryVersion,
        got: RegistryVersion,
    },
    /// The approval's full immutable context does not byte-match the
    /// stored proposal. Deliberately field-free: no oracle for which
    /// byte differed.
    ProposalContentMismatch,
    /// The inner admin or emergency action is structurally invalid or
    /// its arm is not admitted (unknown/disallowed arm, non-zero inner
    /// signer, bounds).
    InvalidAdminAction(String),
    /// Canonical inner action bytes exceed `MAX_ADMIN_ACTION_BYTES`.
    AdminActionTooLarge {
        max: u32,
        got: u32,
    },
    /// `MAX_PENDING_PROPOSALS` simultaneously pending proposals already
    /// exist.
    TooManyPendingProposals,
    /// A governance id counter is exhausted; ids never wrap.
    ProposalIdExhausted,
    /// The signer's opposite vote already exists on this proposal;
    /// votes are immutable and disjoint.
    ConflictingVote,
    /// A caller-supplied market id exceeds the `i32::MAX` identity
    /// bound every signed-32-bit downstream consumer relies on.
    MarketIdOutOfRange {
        max: u32,
        got: u64,
    },
    /// The signer exceeded the per-signer emergency rate bound within
    /// the rolling window.
    EmergencyRateLimited {
        max: u32,
        window_ms: u64,
    },
    /// The chain-wide emergency rate bound was reached within the
    /// rolling window.
    EmergencyGlobalRateLimited {
        max: u32,
        window_ms: u64,
    },
    /// The emergency arm was retired: historical executions replay
    /// unchanged, current-height submissions fail closed.
    EmergencyActionRetired,
    /// A registry-gated admin action was submitted directly while the
    /// signer registry exists: for those actions the legacy path is
    /// closed and the proposal path is the only way — even for an
    /// authorized relayer. Raised by `CreateMarket` whenever a registry
    /// exists, and by `CreateImpactMarket` only once its lineage's
    /// admin-actions-v2 height has also passed. Other relayer-gated
    /// actions do not consult the registry and never raise this.
    AdminActionRequiresProposal,
    /// A proposed or applied signer roster violates the registry
    /// invariants (threshold bounds, sorted duplicate-free members,
    /// roster size, version headroom). Fails before any mutation.
    InvalidAdminRegistry(String),
    /// W28-20: a receipt-gated withdrawal action was submitted while no
    /// operator receipt registry exists on this chain — the operator
    /// custody phase is inactive and the path fails closed.
    BridgeReceiptRegistryInactive,
    /// W28-20: the operator quorum proof failed `bridge-core` verification
    /// (bad structure, below *m* distinct members, or an invalid
    /// signature). Wraps the `bridge_core::VerifyError` cause as text.
    BridgeReceiptInvalid(String),
    /// W28-20: the signed receipt does not bind to this withdrawal or
    /// deployment (id/owner/amount/destination/epoch/terminal-state
    /// mismatch). Names the field that diverged.
    BridgeReceiptMismatch(String),
    /// The net withdrawal `amount` is below the effective minimum (the
    /// configured `min_withdrawal`, floored at the flat fee), so the payout
    /// would be worth less than it costs to settle. Dust-griefing gate.
    WithdrawalBelowMinimum {
        amount: u64,
        min: u64,
    },
    /// W28-20 (DEC-48): a retired legacy relayer terminal
    /// (`ConfirmWithdrawal` / `FailWithdrawal`) was submitted at or above the
    /// receipt cutover. Rejected as a normal failed action (bytes absorbed,
    /// nonce burned). The reverse case — an operator-receipt terminal below
    /// the cutover — is NOT this error: it is skipped byte-identically to the
    /// pre-upgrade binary's decode failure (`DecodeError`, code 1), because
    /// any observable difference from that binary would fork a mixed fleet.
    WithdrawalTerminalGated(String),
    /// Catch-all for unexpected runtime failures (code 255).
    InternalError(String),
    UnauthorizedRelayer,
    WithdrawalNotFound(u64),
    WithdrawalAlreadyProcessed(u64),
    /// Solana tx signature has already been used (idempotency guard).
    DuplicateDeposit,
    InvalidSignature,
    SignatureRequired,
    /// Tx signer is neither the account owner nor an approved agent.
    AgentNotAuthorized,
    /// Agent wallets may trade but are forbidden from withdrawing funds.
    AgentCannotWithdraw,
    NonceTooOld {
        min_accepted: u64,
        got: u64,
    },
    NonceTooFarFuture {
        max_accepted: u64,
        got: u64,
    },
    NonceReplay {
        nonce: u64,
    },
    NonceBelowOldest {
        oldest: u64,
        got: u64,
    },
    MarketAlreadyExists(MarketId),
    InvalidMarketConfig(String),
    ImpactMarketAlreadyExists(ImpactMarketId),
    ImpactMarketNotFound(ImpactMarketId),
    /// Attempted to place an order on a conditional/binary book whose parent
    /// impact market is already resolved or voided.
    MarketClosedForTrading(MarketId),
    /// Binary-book order outside the [0, BINARY_PRICE_MAX] range.
    BinaryPriceOutOfRange,
    /// ResolveImpactMarket called with an invalid outcome for the current state.
    InvalidResolution(String),
    /// A fill would push the taker's absolute net position past
    /// `MarketConfig.max_position_size`. Engine-level cap enforced at
    /// placement time so a single whale can't accumulate unbounded
    /// exposure past protocol limits, regardless of margin.
    PositionLimitExceeded {
        market: MarketId,
        limit: u64,
        would_be: u64,
    },
    /// Fill would violate the configured market open-interest cap. At schema
    /// v9+, an already-over-cap market may preserve or reduce its pre-fill OI,
    /// but may not increase it.
    OpenInterestLimitExceeded {
        market: MarketId,
        limit: u64,
        would_be: u64,
    },
    /// Rejected `OracleUpdate` whose `publish_time_ms` is not strictly
    /// greater than the last accepted update for this market. Replay
    /// protection per audit B3 (2026-04-23).
    OracleTimestampNotMonotonic {
        market: MarketId,
        stored: u64,
        submitted: u64,
    },
    /// Account would touch more impact markets than the scenario margin
    /// engine can enumerate (`MAX_IMPACT_MARKETS_PER_ACCOUNT`). Returned
    /// instead of `InsufficientMargin` so clients can distinguish
    /// "basket exceeds enumeration cap" from "collateral shortfall."
    /// Audit 2026-04-25 P3.
    TooManyActiveImpactMarkets {
        current: u32,
        max: u32,
    },
    /// Net-delta margin grouping found legs of the same group with
    /// disagreeing settle prices — upstream data corruption (different
    /// markets in the same `underlying_market_id` group should resolve
    /// to identical settles per scenario). Distinct from `Overflow`,
    /// which the same path used to return as a placeholder. Audit
    /// 2026-04-25 P2 #10.
    SettlementPriceMismatch {
        market: MarketId,
        expected: u64,
        got: u64,
    },
    /// Rejected `OracleUpdate` for an impact-family market (CPY/CPN/EBY/EBN).
    /// Per the no-oracle MTM redesign (2026-04-26), these markets mark
    /// off the book directly and have no oracle layer. The only oracle
    /// reading happens at resolution, against the underlying perp.
    /// Returned defensively so a misbehaving feeder or replayed update
    /// can't corrupt the impact market's state.
    ///
    /// Variant defined in Phase A but not yet wired in `handle_oracle_update`
    /// (see comment there): the engine-side reject lands in Phase D
    /// alongside the `get_mark_price` book-mid fallback and the rewrite
    /// of impact-market test setup helpers, so the rollout is atomic.
    OracleNotApplicable {
        market: MarketId,
    },
    /// `PlaceOrder` with `post_only=true` would have crossed the book on
    /// placement. Rejected without taking, so makers can guarantee
    /// maker-side fills.
    PostOnlyWouldCross,
    /// `PlaceOrder` or `MarketOrder` with `reduce_only=true` was same-side
    /// as the existing position (would increase exposure) or no position
    /// existed at all. Reduce-only orders are required to actually reduce
    /// or close a position.
    ReduceOnlyWouldIncrease,
    /// A test/admin action (`RunLiquidationSweep`, `RunFundingTick`,
    /// `ForceLiquidate`) was rejected because the engine isn't configured
    /// to accept them in this deployment, or the position the action
    /// referenced doesn't exist.
    TestActionRejected(String),
    /// `SetAccountFeeOverride` rejected because a fee value is outside
    /// the legal `[0, 10_000]` basis-point range. BE-46.
    FeeBpsOutOfRange {
        bps: u32,
    },
    /// `SetAccountFeeOverride` rejected because `cmd.seq` is not
    /// strictly greater than the seq stored on this account — i.e. it
    /// is a replay or an out-of-order tx. BE-46.2 replay guard
    /// (Ramon's 2026-05-03 review on #39). The seq advances on the
    /// no-op path too, so even an identical-payload replay against a
    /// stale seq is rejected here.
    FeeOverrideStaleSeq {
        cmd_seq: u64,
        stored_seq: u64,
    },
    /// `PlaceOrder` price is not an exact multiple of the market's
    /// `tick_size`. BE-48: makes the orderbook coarser at high precision
    /// to keep MMs from quoting through fractional ticks.
    TickSizeViolation {
        market: MarketId,
        tick_size: u64,
        price: u64,
    },
    /// `PlaceOrder` quantity is not an exact multiple of the market's
    /// `lot_size`. BE-48 sibling of `TickSizeViolation`.
    LotSizeViolation {
        market: MarketId,
        lot_size: u64,
        quantity: u64,
    },
    /// `OracleUpdate` from a fallback (non-primary) signer was rejected
    /// because the market's last oracle update — by any signer — is still
    /// within the staleness window. Caller must wait until
    /// `block_time - last_publish_ms >= oracle_staleness_ms`. BE-50.
    OracleStaleNotElapsed {
        market: MarketId,
        last_publish_ms: u64,
        block_time_ms: u64,
        staleness_ms: u64,
    },
    /// `get_mark_price` rejected because the oracle for `market` is
    /// older than `MarketConfig::mark_price_max_oracle_age_ms`. Order
    /// placement, margin checks, and liquidation refuse to use a
    /// stale oracle so a node with a stuck feeder can't silently
    /// misprice the book. BE-33, 2026-05-03.
    StaleOracle {
        market: MarketId,
        publish_time_ms: u64,
        block_time_ms: u64,
        max_staleness_ms: u64,
    },
    /// Stored `publish_time_ms` of the most recent oracle update.
    /// Block time at which the read was attempted.
    /// Configured staleness cap from `MarketConfig`.
    /// A mark-dependent read on `market` was refused because the oracle-guard
    /// gate (`repo::UPGRADE_HEIGHT_ORACLE_GUARDS`) is active and the market's
    /// `mark_price_max_oracle_age_ms` is still the unset zero. Zero no longer
    /// means "disabled": the default fails closed until the admin quorum sets
    /// a real value through `AdminAction::SetOracleGuards`.
    OracleGuardUnset {
        market: MarketId,
    },
    /// `SetUserMarketLeverage` rejected because the user attempted to
    /// pick an IM ratio LOWER than the market's risk floor. The
    /// engine only allows users to deleverage (more margin, less
    /// leverage), never the other direction. BE-16, 2026-05-03.
    UserLeverageBelowMarketIm {
        market: MarketId,
        user_im_bps: u32,
        market_im_bps: u32,
    },
    /// Cancel-by-client-order-id could not find an active resting order for
    /// this owner/id pair. The order may never have rested, may have already
    /// filled, or may already have been cancelled.
    ClientOrderIdNotFound {
        client_order_id: u64,
    },
    /// A new resting order attempted to reuse an active owner/client_order_id
    /// pair. Client order IDs are how external MMs reconcile cancels, so the
    /// engine keeps the active namespace one-to-one instead of letting a later
    /// order shadow the earlier index entry.
    DuplicateClientOrderId {
        client_order_id: u64,
    },
    /// Client order ID zero is reserved as the "absent" sentinel in ABCI
    /// events. External clients must use a positive 64-bit value.
    InvalidClientOrderId {
        client_order_id: u64,
    },
    /// `PlaceOrder` with `time_in_force=Fok` could not fully fill against
    /// currently visible crossing liquidity at the submitted limit price.
    FillOrKillWouldNotFill {
        requested: u64,
        available: u64,
    },
    /// `CancelReplaceOrder` must identify exactly one active order, either by
    /// engine order id or by owner-scoped client order id.
    InvalidCancelReplaceTarget,
    /// `AmendOrder.new_quantity` is a total quantity below the order's already
    /// filled maker quantity. The engine rejects instead of creating a
    /// negative or zero resting remainder.
    AmendBelowFilled {
        order_id: OrderId,
        filled_quantity: u64,
        requested_quantity: u64,
    },
    /// An `AtomicBasketOrder` with a non-zero `max_slippage_bps` filled with
    /// aggregate adverse slippage exceeding that budget. Slippage is measured
    /// per leg (each fill price against that market's mark price) and the
    /// decision is taken on the notional-weighted aggregate across all legs —
    /// per-leg worst-case is separately bounded by each leg's FOK limit price.
    /// `max_slippage_bps == 0` disables the check (opt-in enforcement).
    SlippageExceeded {
        aggregate_bps: u32,
        max_slippage_bps: u32,
    },
    /// Registry lookup miss: no sub-account exists for the given master/id.
    SubAccountNotFound,
    /// Duplicate create: a sub-account with this master/id already exists.
    SubAccountAlreadyExists,
    /// Transfer from == to (no-op rejected).
    SubAccountTransferSameAccount,
    /// Neither side of a transfer is the master owner; both are derived children.
    SubAccountTransferBothChildren,
    /// Source balance is below the transfer amount.
    SubAccountTransferInsufficientBalance,
    /// Create rejected: `sub_account_id` is zero, which is not a valid id.
    SubAccountIdZero,
}

impl ExecError {
    /// The stable numeric code of each variant. Codes 401, 413, 429 and 500
    /// are reserved by the gateway for transport-level failures; 255 is the
    /// catch-all internal error.
    pub open spec fn spec_code(&self) -> u32 {
        match self {
            ExecError::DecodeError(_) => 1,
            ExecError::OrderNotFound(_) => 2,
            ExecError::NotOwner(_) => 3,
            ExecError::UnauthorizedOracle => 4,
            ExecError::Overflow => 5,
            ExecError::InvalidPrice => 6,
            ExecError::InvalidQuantity => 7,
            ExecError::InvalidSide => 8,
            ExecError::UnknownMarket(_) => 9,
            ExecError::InsufficientBalance => 11,
            ExecError::InsufficientMargin => 12,
            ExecError::StateCorruption(_) => 10,
            ExecError::AdminGovernanceInactive => 52,
            ExecError::NotAdminSigner => 53,
            ExecError::ProposalNotFound(_) => 54,
            ExecError::ProposalNotPending { .. } => 55,
            ExecError::ProposalExpired(_) => 56,
            ExecError::DuplicateApproval => 57,
            ExecError::DuplicateRejection => 58,
            ExecError::ProposalRegistryVersionMismatch { .. } => 59,
            ExecError::ProposalContentMismatch => 60,
            ExecError::InvalidAdminAction(_) => 61,
            ExecError::AdminActionTooLarge { .. } => 62,
            ExecError::TooManyPendingProposals => 63,
            ExecError::ProposalIdExhausted => 64,
            ExecError::ConflictingVote => 65,
            ExecError::MarketIdOutOfRange { .. } => 66,
            ExecError::EmergencyRateLimited { .. } => 67,
            ExecError::EmergencyGlobalRateLimited { .. } => 68,
            ExecError::EmergencyActionRetired => 69,
            ExecError::AdminActionRequiresProposal => 70,
            ExecError::InvalidAdminRegistry(_) => 71,
            ExecError::BridgeReceiptRegistryInactive => 72,
            ExecError::BridgeReceiptInvalid(_) => 73,
            ExecError::BridgeReceiptMismatch(_) => 74,
            ExecError::WithdrawalBelowMinimum { .. } => 75,
            ExecError::WithdrawalTerminalGated(_) => 76,
            ExecError::InternalError(_) => 255,
            ExecError::UnauthorizedRelayer => 13,
            ExecError::WithdrawalNotFound(_) => 14,
            ExecError::WithdrawalAlreadyProcessed(_) => 15,
            ExecError::DuplicateDeposit => 16,
            ExecError::InvalidSignature => 17,
            ExecError::SignatureRequired => 18,
            ExecError::AgentNotAuthorized => 19,
            ExecError::AgentCannotWithdraw => 20,
            ExecError::NonceTooOld { .. } => 21,
            ExecError::NonceTooFarFuture { .. } => 21,
            ExecError::NonceReplay { .. } => 21,
            ExecError::NonceBelowOldest { .. } => 21,
            ExecError::MarketAlreadyExists(_) => 22,
            ExecError::InvalidMarketConfig(_) => 23,
            ExecError::ImpactMarketAlreadyExists(_) => 24,
            ExecError::ImpactMarketNotFound(_) => 25,
            ExecError::MarketClosedForTrading(_) => 26,
            ExecError::BinaryPriceOutOfRange => 27,
            ExecError::InvalidResolution(_) => 28,
            ExecError::PositionLimitExceeded { .. } => 29,
            ExecError::OpenInterestLimitExceeded { .. } => 51,
            ExecError::OracleTimestampNotMonotonic { .. } => 30,
            ExecError::TooManyActiveImpactMarkets { .. } => 31,
            ExecError::SettlementPriceMismatch { .. } => 32,
            ExecError::OracleNotApplicable { .. } => 33,
            ExecError::PostOnlyWouldCross => 34,
            ExecError::ReduceOnlyWouldIncrease => 35,
            ExecError::TestActionRejected(_) => 36,
            ExecError::FeeBpsOutOfRange { .. } => 42,
            ExecError::FeeOverrideStaleSeq { .. } => 43,
            ExecError::TickSizeViolation { .. } => 39,
            ExecError::LotSizeViolation { .. } => 40,
            ExecError::OracleStaleNotElapsed { .. } => 41,
            ExecError::StaleOracle { .. } => 37,
            ExecError::OracleGuardUnset { .. } => 82,
            ExecError::UserLeverageBelowMarketIm { .. } => 38,
            ExecError::ClientOrderIdNotFound { .. } => 44,
            ExecError::DuplicateClientOrderId { .. } => 45,
            ExecError::InvalidClientOrderId { .. } => 46,
            ExecError::FillOrKillWouldNotFill { .. } => 47,
            ExecError::InvalidCancelReplaceTarget => 48,
            ExecError::AmendBelowFilled { .. } => 49,
            ExecError::SlippageExceeded { .. } => 50,
            ExecError::SubAccountNotFound => 83,
            ExecError::SubAccountAlreadyExists => 84,
            ExecError::SubAccountTransferSameAccount => 85,
            ExecError::SubAccountTransferBothChildren => 86,
            ExecError::SubAccountTransferInsufficientBalance => 87,
            ExecError::SubAccountIdZero => 88,
        }
    }

    /// The stable numeric code of the error.
    pub fn code(&self) -> (r: u32)
        ensures
            r == self.spec_code(),
    {
        match self {
            ExecError::DecodeError(_) => 1,
            ExecError::OrderNotFound(_) => 2,
            ExecError::NotOwner(_) => 3,
            ExecError::UnauthorizedOracle => 4,
            ExecError::Overflow => 5,
            ExecError::InvalidPrice => 6,
            ExecError::InvalidQuantity => 7,
            ExecError::InvalidSide => 8,
            ExecError::UnknownMarket(_) => 9,
            ExecError::InsufficientBalance => 11,
            ExecError::InsufficientMargin => 12,
            ExecError::StateCorruption(_) => 10,
            ExecError::AdminGovernanceInactive => 52,
            ExecError::NotAdminSigner => 53,
            ExecError::ProposalNotFound(_) => 54,
            ExecError::ProposalNotPending { .. } => 55,
            ExecError::ProposalExpired(_) => 56,
            ExecError::DuplicateApproval => 57,
            ExecError::DuplicateRejection => 58,
            ExecError::ProposalRegistryVersionMismatch { .. } => 59,
            ExecError::ProposalContentMismatch => 60,
            ExecError::InvalidAdminAction(_) => 61,
            ExecError::AdminActionTooLarge { .. } => 62,
            ExecError::TooManyPendingProposals => 63,
            ExecError::ProposalIdExhausted => 64,
            ExecError::ConflictingVote => 65,
            ExecError::MarketIdOutOfRange { .. } => 66,
            ExecError::EmergencyRateLimited { .. } => 67,
            ExecError::EmergencyGlobalRateLimited { .. } => 68,
            ExecError::EmergencyActionRetired => 69,
            ExecError::AdminActionRequiresProposal => 70,
            ExecError::InvalidAdminRegistry(_) => 71,
            ExecError::BridgeReceiptRegistryInactive => 72,
            ExecError::BridgeReceiptInvalid(_) => 73,
            ExecError::BridgeReceiptMismatch(_) => 74,
            ExecError::WithdrawalBelowMinimum { .. } => 75,
            ExecError::WithdrawalTerminalGated(_) => 76,
            ExecError::InternalError(_) => 255,
            ExecError::UnauthorizedRelayer => 13,
            ExecError::WithdrawalNotFound(_) => 14,
            ExecError::WithdrawalAlreadyProcessed(_) => 15,
            ExecError::DuplicateDeposit => 16,
            ExecError::InvalidSignature => 17,
            ExecError::SignatureRequired => 18,
            ExecError::AgentNotAuthorized => 19,
            ExecError::AgentCannotWithdraw => 20,
            ExecError::NonceTooOld { .. } => 21,
            ExecError::NonceTooFarFuture { .. } => 21,
            ExecError::NonceReplay { .. } => 21,
            ExecError::NonceBelowOldest { .. } => 21,
            ExecError::MarketAlreadyExists(_) => 22,
            ExecError::InvalidMarketConfig(_) => 23,
            ExecError::ImpactMarketAlreadyExists(_) => 24,
            ExecError::ImpactMarketNotFound(_) => 25,
            ExecError::MarketClosedForTrading(_) => 26,
            ExecError::BinaryPriceOutOfRange => 27,
            ExecError::InvalidResolution(_) => 28,
            ExecError::PositionLimitExceeded { .. } => 29,
            ExecError::OpenInterestLimitExceeded { .. } => 51,
            ExecError::OracleTimestampNotMonotonic { .. } => 30,
            ExecError::TooManyActiveImpactMarkets { .. } => 31,
            ExecError::SettlementPriceMismatch { .. } => 32,
            ExecError::OracleNotApplicable { .. } => 33,
            ExecError::PostOnlyWouldCross => 34,
            ExecError::ReduceOnlyWouldIncrease => 35,
            ExecError::TestActionRejected(_) => 36,
            ExecError::FeeBpsOutOfRange { .. } => 42,
            ExecError::FeeOverrideStaleSeq { .. } => 43,
            ExecError::TickSizeViolation { .. } => 39,
            ExecError::LotSizeViolation { .. } => 40,
            ExecError::OracleStaleNotElapsed { .. } => 41,
            ExecError::StaleOracle { .. } => 37,
            ExecError::OracleGuardUnset { .. } => 82,
            ExecError::UserLeverageBelowMarketIm { .. } => 38,
            ExecError::ClientOrderIdNotFound { .. } => 44,
            ExecError::DuplicateClientOrderId { .. } => 45,
            ExecError::InvalidClientOrderId { .. } => 46,
            ExecError::FillOrKillWouldNotFill { .. } => 47,
            ExecError::InvalidCancelReplaceTarget => 48,
            ExecError::AmendBelowFilled { .. } => 49,
            ExecError::SlippageExceeded { .. } => 50,
            ExecError::SubAccountNotFound => 83,
            ExecError::SubAccountAlreadyExists => 84,
            ExecError::SubAccountTransferSameAccount => 85,
            ExecError::SubAccountTransferBothChildren => 86,
            ExecError::SubAccountTransferInsufficientBalance => 87,
            ExecError::SubAccountIdZero => 88,
        }
    }

    /// The documented one-line meaning of each variant (the integration
    /// contract: downstream tooling may key off these strings).
    pub open spec fn spec_meaning(&self) -> Seq<char> {
        match self {
            ExecError::DecodeError(_) => {
                "Tx envelope or payload could not be decoded as MessagePack at the expected version. \
                 Indicates a malformed wire frame or a client/server version mismatch."@
            },
            ExecError::OrderNotFound(_) => {
                "Order ID does not exist on the requested market, or has already been filled or cancelled."@
            },
            ExecError::NotOwner(_) => {
                "Tx signer is not the owner of the referenced order; only the owner (or an approved agent) \
                 may cancel or amend it."@
            },
            ExecError::UnauthorizedOracle => {
                "Oracle update was signed by a key that is not registered as an oracle signer for the market."@
            },
            ExecError::Overflow => {
                "An arithmetic operation (price * quantity, fee accrual, position size) overflowed a u64. \
                 Almost always indicates a malformed input rather than legitimate volume."@
            },
            ExecError::InvalidPrice => {
                "Price is zero, exceeds the per-market max, or violates tick-size quantization."@
            },
            ExecError::InvalidQuantity => {
                "Quantity is zero, exceeds the per-market max, or violates lot-size quantization."@
            },
            ExecError::InvalidSide => {
                "Side byte is neither Buy (0) nor Sell (1)."@
            },
            ExecError::UnknownMarket(_) => {
                "Market ID is not registered. Either the market does not exist or it has been removed."@
            },
            ExecError::InsufficientBalance => {
                "Account's USDC balance cannot cover the requested debit (deposit, withdrawal, or fee)."@
            },
            ExecError::InsufficientMargin => {
                "Post-trade equity would fall below the initial-margin requirement for the resulting \
                 portfolio. Reduce order size, add collateral, or close offsetting positions."@
            },
            ExecError::StateCorruption(_) => {
                "Engine read state in an unexpected shape (e.g. missing required key, malformed value). \
                 Indicates a bug or data corruption — file an issue with the surrounding context."@
            },
            ExecError::AdminGovernanceInactive => {
                "Admin governance action (propose/approve/reject/emergency) was submitted while no \
                 admin signer registry exists on this chain; multisig administration is inactive and \
                 every governance path fails closed."@
            },
            ExecError::NotAdminSigner => {
                "Tx signer does not match the action's declared proposer/approver/rejecter/signer \
                 field, or is not a member of the current admin signer registry."@
            },
            ExecError::ProposalNotFound(_) => {
                "No admin proposal exists under the given id. Either it was never created or \
                 terminal-retention pruning removed it; query /v1/proposals for the live set."@
            },
            ExecError::ProposalNotPending { .. } => {
                "The admin proposal is already terminal (executed, failed, rejected, or expired); \
                 votes are only accepted while it is pending."@
            },
            ExecError::ProposalExpired(_) => {
                "The admin proposal passed its TTL. Approvals are never durable credentials — \
                 re-propose and collect fresh signatures."@
            },
            ExecError::DuplicateApproval => {
                "This signer already approved the proposal (the proposer's own approval is \
                 recorded at creation). Each member votes at most once."@
            },
            ExecError::DuplicateRejection => {
                "This signer already rejected the proposal. Each member votes at most once."@
            },
            ExecError::ProposalRegistryVersionMismatch { .. } => {
                "The submitted registry version does not match the current signer registry. A \
                 rotation happened since the payload was built — re-read the registry and re-sign."@
            },
            ExecError::ProposalContentMismatch => {
                "The approval's immutable context does not exactly match the stored proposal \
                 (field-by-field plus canonical action bytes plus recomputed content hash). \
                 Rebuild the approval from the proposals query; never sign a summary."@
            },
            ExecError::InvalidAdminAction(_) => {
                "The inner admin or emergency action failed validation: unknown or not-admitted \
                 arm, non-zero inner signer on a governance-authorized action, or an out-of-bounds \
                 field."@
            },
            ExecError::AdminActionTooLarge { .. } => {
                "The canonical inner action encoding exceeds MAX_ADMIN_ACTION_BYTES; the proposal \
                 is rejected before any state is written."@
            },
            ExecError::TooManyPendingProposals => {
                "MAX_PENDING_PROPOSALS admin proposals are already pending. Approve, reject, or \
                 let one expire before proposing again."@
            },
            ExecError::ProposalIdExhausted => {
                "A governance id counter reached its maximum; ids never wrap. This is effectively \
                 unreachable and indicates a defect if observed."@
            },
            ExecError::ConflictingVote => {
                "This signer already cast the opposite vote on the proposal. Votes are immutable: \
                 approvals and rejections are disjoint and cannot be switched."@
            },
            ExecError::MarketIdOutOfRange { .. } => {
                "Market id exceeds the signed-32-bit identity bound (i32::MAX) that downstream \
                 columns, parsers, and APIs rely on. Pick a smaller id."@
            },
            ExecError::EmergencyRateLimited { .. } => {
                "This signer exceeded the per-signer emergency action bound within the rolling \
                 window; the action was not executed."@
            },
            ExecError::EmergencyGlobalRateLimited { .. } => {
                "The chain-wide emergency action bound was reached within the rolling window; the \
                 action was not executed."@
            },
            ExecError::EmergencyActionRetired => {
                "This emergency arm was retired at a protocol boundary. Historical executions \
                 replay unchanged; new submissions of the arm fail closed."@
            },
            ExecError::AdminActionRequiresProposal => {
                "The admin signer registry exists, so this registry-gated admin action is \
                 proposal-only: its direct path is closed even for an authorized relayer. \
                 Submit it as a governance proposal instead."@
            },
            ExecError::InvalidAdminRegistry(_) => {
                "The proposed signer roster violates the registry invariants: threshold in \
                 [2, members], canonically sorted duplicate-free members, roster within \
                 MAX_ADMIN_SIGNERS, version headroom. Nothing was mutated."@
            },
            ExecError::BridgeReceiptRegistryInactive => {
                "A receipt-gated withdrawal action (ConfirmWithdrawalReceipt / \
                 FailWithdrawalReceipt) was submitted while no operator receipt registry \
                 exists on this chain; the operator custody phase is inactive and the path \
                 fails closed."@
            },
            ExecError::BridgeReceiptInvalid(_) => {
                "The operator quorum proof failed bridge-core verification: malformed proof \
                 structure, fewer than m distinct operator members, or an invalid ed25519 \
                 signature over the receipt bytes."@
            },
            ExecError::BridgeReceiptMismatch(_) => {
                "The signed bridge receipt does not bind to this withdrawal or deployment \
                 (deployment id, withdrawal id, owner, amount, destination, authority epoch, \
                 quorum kind, or terminal state diverged)."@
            },
            ExecError::WithdrawalBelowMinimum { .. } => {
                "Net withdrawal amount is below the configured minimum (set above the flat protocol \
                 fee), so the payout would be worth less than it costs to settle."@
            },
            ExecError::WithdrawalTerminalGated(_) => {
                "A retired legacy relayer withdrawal terminal (ConfirmWithdrawal / FailWithdrawal) \
                 was submitted at or after the bridge receipt cutover. (An operator-receipt \
                 terminal submitted before the cutover instead fails as a decode error, code 1, \
                 byte-identically to the pre-upgrade binary.)"@
            },
            ExecError::InternalError(_) => {
                "Catch-all for unexpected runtime failures (panics caught by the FFI boundary, etc.). \
                 Treat as a server bug."@
            },
            ExecError::UnauthorizedRelayer => {
                "Tx is a relayer-only action (oracle update, funding tick, deposit confirmation, etc.) \
                 but the signer is not registered as an authorized relayer."@
            },
            ExecError::WithdrawalNotFound(_) => {
                "Withdrawal ID does not exist or has already been claimed/refunded."@
            },
            ExecError::WithdrawalAlreadyProcessed(_) => {
                "Withdrawal was already settled (claim or refund); duplicate finalize call rejected."@
            },
            ExecError::DuplicateDeposit => {
                "On-chain deposit signature has already been credited; idempotency guard rejected the replay."@
            },
            ExecError::InvalidSignature => {
                "Ed25519 verification of the V2 envelope failed. Signature, pubkey, or signed bytes are wrong."@
            },
            ExecError::SignatureRequired => {
                "A signed (V2) transaction envelope is required. Unsigned (V1) envelopes are not accepted."@
            },
            ExecError::AgentNotAuthorized => {
                "Tx signer is neither the account owner nor on the owner's approved-agent list."@
            },
            ExecError::AgentCannotWithdraw => {
                "Agent wallets may place/cancel/market orders but are forbidden from initiating withdrawals."@
            },
            ExecError::NonceTooOld { .. } => {
                "Timestamp nonce failed replay-window validation. Use a unique millisecond Unix timestamp within \
                 [block_time-2d, block_time+1d]; included failures burn their nonce."@
            },
            ExecError::NonceTooFarFuture { .. } => {
                "Timestamp nonce failed replay-window validation. Use a unique millisecond Unix timestamp within \
                 [block_time-2d, block_time+1d]; included failures burn their nonce."@
            },
            ExecError::NonceReplay { .. } => {
                "Timestamp nonce failed replay-window validation. Use a unique millisecond Unix timestamp within \
                 [block_time-2d, block_time+1d]; included failures burn their nonce."@
            },
            ExecError::NonceBelowOldest { .. } => {
                "Timestamp nonce failed replay-window validation. Use a unique millisecond Unix timestamp within \
                 [block_time-2d, block_time+1d]; included failures burn their nonce."@
            },
            ExecError::MarketAlreadyExists(_) => {
                "Attempted CreateMarket for a market ID already in the registry."@
            },
            ExecError::InvalidMarketConfig(_) => {
                "MarketConfig fields fail validation (e.g. fee bps out of range, lot/tick zero, IM/MM ratio \
                 inverted)."@
            },
            ExecError::ImpactMarketAlreadyExists(_) => {
                "Attempted CreateImpactMarket for an impact market ID already in the registry."@
            },
            ExecError::ImpactMarketNotFound(_) => {
                "Impact market ID does not exist; cannot resolve, cash-out, or query."@
            },
            ExecError::MarketClosedForTrading(_) => {
                "Order placement attempted on a conditional/binary book whose parent impact market is \
                 already resolved or voided."@
            },
            ExecError::BinaryPriceOutOfRange => {
                "Binary-book order price is outside the [0, BINARY_PRICE_MAX] range."@
            },
            ExecError::InvalidResolution(_) => {
                "ResolveImpactMarket called with an outcome incompatible with the current state (already resolved, \
                 outcome not in the configured set, etc.)."@
            },
            ExecError::PositionLimitExceeded { .. } => {
                "Fill would push absolute net position past MarketConfig.max_position_size. Engine cap \
                 enforced at placement time independent of margin."@
            },
            ExecError::OpenInterestLimitExceeded { .. } => {
                "Fill would violate MarketConfig.max_open_interest. At schema v9+, an already-over-cap market \
                 may preserve or reduce its pre-fill aggregate OI but may not increase it; enforcement occurs \
                 before either side's position is mutated."@
            },
            ExecError::OracleTimestampNotMonotonic { .. } => {
                "OracleUpdate publish_time_ms is not strictly greater than the last accepted update for \
                 this market — replay protection per audit B3 (2026-04-23)."@
            },
            ExecError::TooManyActiveImpactMarkets { .. } => {
                "Account would touch more impact markets than the scenario margin engine can enumerate \
                 (MAX_IMPACT_MARKETS_PER_ACCOUNT). Close a leg before opening another."@
            },
            ExecError::SettlementPriceMismatch { .. } => {
                "Net-delta margin grouping found legs with disagreeing settle prices (data corruption \
                 across same `underlying_market_id`)."@
            },
            ExecError::OracleNotApplicable { .. } => {
                "OracleUpdate targets an impact-family market (CPY/CPN/EBY/EBN), which marks off the book \
                 and has no oracle layer."@
            },
            ExecError::PostOnlyWouldCross => {
                "PlaceOrder with post_only=true would have crossed the book. Rejected so makers retain \
                 maker-side fills."@
            },
            ExecError::ReduceOnlyWouldIncrease => {
                "PlaceOrder/MarketOrder with reduce_only=true was same-side as the existing position (would \
                 increase exposure) or no position existed."@
            },
            ExecError::TestActionRejected(_) => {
                "Test/admin action (RunLiquidationSweep, RunFundingTick, ForceLiquidate) rejected because \
                 the engine isn't configured to accept them, or the position the action referenced does \
                 not exist."@
            },
            ExecError::FeeBpsOutOfRange { .. } => {
                "Per-account fee override has a fee outside the legal basis-point range."@
            },
            ExecError::FeeOverrideStaleSeq { .. } => {
                "Per-account fee override sequence is stale or out of order."@
            },
            ExecError::TickSizeViolation { .. } => {
                "Order price is not an exact multiple of the market tick size."@
            },
            ExecError::LotSizeViolation { .. } => {
                "Order quantity is not an exact multiple of the market lot size."@
            },
            ExecError::OracleStaleNotElapsed { .. } => {
                "Fallback oracle signer published before the market staleness window elapsed."@
            },
            ExecError::StaleOracle { .. } => {
                "Oracle price is stale for this market; refresh the oracle before placing orders, reading margin, or liquidating."@
            },
            ExecError::OracleGuardUnset { .. } => {
                "The oracle-guard gate is active and this market has no mark-price max oracle age set; every mark-dependent action is refused until governance sets one."@
            },
            ExecError::UserLeverageBelowMarketIm { .. } => {
                "User-selected initial margin is below the market risk floor; only deleveraging above the market floor is allowed."@
            },
            ExecError::ClientOrderIdNotFound { .. } => {
                "No active resting order exists for the requested client order id."@
            },
            ExecError::DuplicateClientOrderId { .. } => {
                "An active resting order already uses the requested client order id."@
            },
            ExecError::InvalidClientOrderId { .. } => {
                "Client order id zero is reserved and cannot be submitted."@
            },
            ExecError::FillOrKillWouldNotFill { .. } => {
                "Fill-or-kill order cannot be fully filled immediately at the submitted limit price."@
            },
            ExecError::InvalidCancelReplaceTarget => {
                "Cancel-replace must specify exactly one active order target: either orderId or clientOrderId."@
            },
            ExecError::AmendBelowFilled { .. } => {
                "AmendOrder new quantity is below the quantity already filled while the order rested."@
            },
            ExecError::SlippageExceeded { .. } => {
                "Atomic basket aggregate slippage exceeded the requested maxSlippageBps budget."@
            },
            ExecError::SubAccountNotFound => {
                "No sub-account exists in the registry for the given master address and sub-account id."@
            },
            ExecError::SubAccountAlreadyExists => {
                "A sub-account with this master address and sub-account id already exists in the registry."@
            },
            ExecError::SubAccountTransferSameAccount => {
                "Transfer from and to addresses are identical; no-op transfers are rejected."@
            },
            ExecError::SubAccountTransferBothChildren => {
                "Neither side of a transfer is the master owner address; at least one side must be the master."@
            },
            ExecError::SubAccountTransferInsufficientBalance => {
                "Source account has insufficient balance to complete the transfer."@
            },
            ExecError::SubAccountIdZero => {
                "Sub-account id must be non-zero; id 0 is not a valid sub-account id."@
            },
        }
    }

    /// Stable, one-line human-readable meaning per variant. Wording rules:
    /// present-tense, action-oriented, names the cause not the symptom.
    pub fn meaning(&self) -> (r: &'static str)
        ensures
            r@ == self.spec_meaning(),
    {
        match self {
            ExecError::DecodeError(_) => {
                "Tx envelope or payload could not be decoded as MessagePack at the expected version. \
                 Indicates a malformed wire frame or a client/server version mismatch."
            },
            ExecError::OrderNotFound(_) => {
                "Order ID does not exist on the requested market, or has already been filled or cancelled."
            },
            ExecError::NotOwner(_) => {
                "Tx signer is not the owner of the referenced order; only the owner (or an approved agent) \
                 may cancel or amend it."
            },
            ExecError::UnauthorizedOracle => {
                "Oracle update was signed by a key that is not registered as an oracle signer for the market."
            },
            ExecError::Overflow => {
                "An arithmetic operation (price * quantity, fee accrual, position size) overflowed a u64. \
                 Almost always indicates a malformed input rather than legitimate volume."
            },
            ExecError::InvalidPrice => {
                "Price is zero, exceeds the per-market max, or violates tick-size quantization."
            },
            ExecError::InvalidQuantity => {
                "Quantity is zero, exceeds the per-market max, or violates lot-size quantization."
            },
            ExecError::InvalidSide => {
                "Side byte is neither Buy (0) nor Sell (1)."
            },
            ExecError::UnknownMarket(_) => {
                "Market ID is not registered. Either the market does not exist or it has been removed."
            },
            ExecError::InsufficientBalance => {
                "Account's USDC balance cannot cover the requested debit (deposit, withdrawal, or fee)."
            },
            ExecError::InsufficientMargin => {
                "Post-trade equity would fall below the initial-margin requirement for the resulting \
                 portfolio. Reduce order size, add collateral, or close offsetting positions."
            },
            ExecError::StateCorruption(_) => {
                "Engine read state in an unexpected shape (e.g. missing required key, malformed value). \
                 Indicates a bug or data corruption — file an issue with the surrounding context."
            },
            ExecError::AdminGovernanceInactive => {
                "Admin governance action (propose/approve/reject/emergency) was submitted while no \
                 admin signer registry exists on this chain; multisig administration is inactive and \
                 every governance path fails closed."
            },
            ExecError::NotAdminSigner => {
                "Tx signer does not match the action's declared proposer/approver/rejecter/signer \
                 field, or is not a member of the current admin signer registry."
            },
            ExecError::ProposalNotFound(_) => {
                "No admin proposal exists under the given id. Either it was never created or \
                 terminal-retention pruning removed it; query /v1/proposals for the live set."
            },
            ExecError::ProposalNotPending { .. } => {
                "The admin proposal is already terminal (executed, failed, rejected, or expired); \
                 votes are only accepted while it is pending."
            },
            ExecError::ProposalExpired(_) => {
                "The admin proposal passed its TTL. Approvals are never durable credentials — \
                 re-propose and collect fresh signatures."
            },
            ExecError::DuplicateApproval => {
                "This signer already approved the proposal (the proposer's own approval is \
                 recorded at creation). Each member votes at most once."
            },
            ExecError::DuplicateRejection => {
                "This signer already rejected the proposal. Each member votes at most once."
            },
            ExecError::ProposalRegistryVersionMismatch { .. } => {
                "The submitted registry version does not match the current signer registry. A \
                 rotation happened since the payload was built — re-read the registry and re-sign."
            },
            ExecError::ProposalContentMismatch => {
                "The approval's immutable context does not exactly match the stored proposal \
                 (field-by-field plus canonical action bytes plus recomputed content hash). \
                 Rebuild the approval from the proposals query; never sign a summary."
            },
            ExecError::InvalidAdminAction(_) => {
                "The inner admin or emergency action failed validation: unknown or not-admitted \
                 arm, non-zero inner signer on a governance-authorized action, or an out-of-bounds \
                 field."
            },
            ExecError::AdminActionTooLarge { .. } => {
                "The canonical inner action encoding exceeds MAX_ADMIN_ACTION_BYTES; the proposal \
                 is rejected before any state is written."
            },
            ExecError::TooManyPendingProposals => {
                "MAX_PENDING_PROPOSALS admin proposals are already pending. Approve, reject, or \
                 let one expire before proposing again."
            },
            ExecError::ProposalIdExhausted => {
                "A governance id counter reached its maximum; ids never wrap. This is effectively \
                 unreachable and indicates a defect if observed."
            },
            ExecError::ConflictingVote => {
                "This signer already cast the opposite vote on the proposal. Votes are immutable: \
                 approvals and rejections are disjoint and cannot be switched."
            },
            ExecError::MarketIdOutOfRange { .. } => {
                "Market id exceeds the signed-32-bit identity bound (i32::MAX) that downstream \
                 columns, parsers, and APIs rely on. Pick a smaller id."
            },
            ExecError::EmergencyRateLimited { .. } => {
                "This signer exceeded the per-signer emergency action bound within the rolling \
                 window; the action was not executed."
            },
            ExecError::EmergencyGlobalRateLimited { .. } => {
                "The chain-wide emergency action bound was reached within the rolling window; the \
                 action was not executed."
            },
            ExecError::EmergencyActionRetired => {
                "This emergency arm was retired at a protocol boundary. Historical executions \
                 replay unchanged; new submissions of the arm fail closed."
            },
            ExecError::AdminActionRequiresProposal => {
                "The admin signer registry exists, so this registry-gated admin action is \
                 proposal-only: its direct path is closed even for an authorized relayer. \
                 Submit it as a governance proposal instead."
            },
            ExecError::InvalidAdminRegistry(_) => {
                "The proposed signer roster violates the registry invariants: threshold in \
                 [2, members], canonically sorted duplicate-free members, roster within \
                 MAX_ADMIN_SIGNERS, version headroom. Nothing was mutated."
            },
            ExecError::BridgeReceiptRegistryInactive => {
                "A receipt-gated withdrawal action (ConfirmWithdrawalReceipt / \
                 FailWithdrawalReceipt) was submitted while no operator receipt registry \
                 exists on this chain; the operator custody phase is inactive and the path \
                 fails closed."
            },
            ExecError::BridgeReceiptInvalid(_) => {
                "The operator quorum proof failed bridge-core verification: malformed proof \
                 structure, fewer than m distinct operator members, or an invalid ed25519 \
                 signature over the receipt bytes."
            },
            ExecError::BridgeReceiptMismatch(_) => {
                "The signed bridge receipt does not bind to this withdrawal or deployment \
                 (deployment id, withdrawal id, owner, amount, destination, authority epoch, \
                 quorum kind, or terminal state diverged)."
            },
            ExecError::WithdrawalBelowMinimum { .. } => {
                "Net withdrawal amount is below the configured minimum (set above the flat protocol \
                 fee), so the payout would be worth less than it costs to settle."
            },
            ExecError::WithdrawalTerminalGated(_) => {
                "A retired legacy relayer withdrawal terminal (ConfirmWithdrawal / FailWithdrawal) \
                 was submitted at or after the bridge receipt cutover. (An operator-receipt \
                 terminal submitted before the cutover instead fails as a decode error, code 1, \
                 byte-identically to the pre-upgrade binary.)"
            },
            ExecError::InternalError(_) => {
                "Catch-all for unexpected runtime failures (panics caught by the FFI boundary, etc.). \
                 Treat as a server bug."
            },
            ExecError::UnauthorizedRelayer => {
                "Tx is a relayer-only action (oracle update, funding tick, deposit confirmation, etc.) \
                 but the signer is not registered as an authorized relayer."
            },
            ExecError::WithdrawalNotFound(_) => {
                "Withdrawal ID does not exist or has already been claimed/refunded."
            },
            ExecError::WithdrawalAlreadyProcessed(_) => {
                "Withdrawal was already settled (claim or refund); duplicate finalize call rejected."
            },
            ExecError::DuplicateDeposit => {
                "On-chain deposit signature has already been credited; idempotency guard rejected the replay."
            },
            ExecError::InvalidSignature => {
                "Ed25519 verification of the V2 envelope failed. Signature, pubkey, or signed bytes are wrong."
            },
            ExecError::SignatureRequired => {
                "A signed (V2) transaction envelope is required. Unsigned (V1) envelopes are not accepted."
            },
            ExecError::AgentNotAuthorized => {
                "Tx signer is neither the account owner nor on the owner's approved-agent list."
            },
            ExecError::AgentCannotWithdraw => {
                "Agent wallets may place/cancel/market orders but are forbidden from initiating withdrawals."
            },
            ExecError::NonceTooOld { .. } => {
                "Timestamp nonce failed replay-window validation. Use a unique millisecond Unix timestamp within \
                 [block_time-2d, block_time+1d]; included failures burn their nonce."
            },
            ExecError::NonceTooFarFuture { .. } => {
                "Timestamp nonce failed replay-window validation. Use a unique millisecond Unix timestamp within \
                 [block_time-2d, block_time+1d]; included failures burn their nonce."
            },
            ExecError::NonceReplay { .. } => {
                "Timestamp nonce failed replay-window validation. Use a unique millisecond Unix timestamp within \
                 [block_time-2d, block_time+1d]; included failures burn their nonce."
            },
            ExecError::NonceBelowOldest { .. } => {
                "Timestamp nonce failed replay-window validation. Use a unique millisecond Unix timestamp within \
                 [block_time-2d, block_time+1d]; included failures burn their nonce."
            },
            ExecError::MarketAlreadyExists(_) => {
                "Attempted CreateMarket for a market ID already in the registry."
            },
            ExecError::InvalidMarketConfig(_) => {
                "MarketConfig fields fail validation (e.g. fee bps out of range, lot/tick zero, IM/MM ratio \
                 inverted)."
            },
            ExecError::ImpactMarketAlreadyExists(_) => {
                "Attempted CreateImpactMarket for an impact market ID already in the registry."
            },
            ExecError::ImpactMarketNotFound(_) => {
                "Impact market ID does not exist; cannot resolve, cash-out, or query."
            },
            ExecError::MarketClosedForTrading(_) => {
                "Order placement attempted on a conditional/binary book whose parent impact market is \
                 already resolved or voided."
            },
            ExecError::BinaryPriceOutOfRange => {
                "Binary-book order price is outside the [0, BINARY_PRICE_MAX] range."
            },
            ExecError::InvalidResolution(_) => {
                "ResolveImpactMarket called with an outcome incompatible with the current state (already resolved, \
                 outcome not in the configured set, etc.)."
            },
            ExecError::PositionLimitExceeded { .. } => {
                "Fill would push absolute net position past MarketConfig.max_position_size. Engine cap \
                 enforced at placement time independent of margin."
            },
            ExecError::OpenInterestLimitExceeded { .. } => {
                "Fill would violate MarketConfig.max_open_interest. At schema v9+, an already-over-cap market \
                 may preserve or reduce its pre-fill aggregate OI but may not increase it; enforcement occurs \
                 before either side's position is mutated."
            },
            ExecError::OracleTimestampNotMonotonic { .. } => {
                "OracleUpdate publish_time_ms is not strictly greater than the last accepted update for \
                 this market — replay protection per audit B3 (2026-04-23)."
            },
            ExecError::TooManyActiveImpactMarkets { .. } => {
                "Account would touch more impact markets than the scenario margin engine can enumerate \
                 (MAX_IMPACT_MARKETS_PER_ACCOUNT). Close a leg before opening another."
            },
            ExecError::SettlementPriceMismatch { .. } => {
                "Net-delta margin grouping found legs with disagreeing settle prices (data corruption \
                 across same `underlying_market_id`)."
            },
            ExecError::OracleNotApplicable { .. } => {
                "OracleUpdate targets an impact-family market (CPY/CPN/EBY/EBN), which marks off the book \
                 and has no oracle layer."
            },
            ExecError::PostOnlyWouldCross => {
                "PlaceOrder with post_only=true would have crossed the book. Rejected so makers retain \
                 maker-side fills."
            },
            ExecError::ReduceOnlyWouldIncrease => {
                "PlaceOrder/MarketOrder with reduce_only=true was same-side as the existing position (would \
                 increase exposure) or no position existed."
            },
            ExecError::TestActionRejected(_) => {
                "Test/admin action (RunLiquidationSweep, RunFundingTick, ForceLiquidate) rejected because \
                 the engine isn't configured to accept them, or the position the action referenced does \
                 not exist."
            },
            ExecError::FeeBpsOutOfRange { .. } => {
                "Per-account fee override has a fee outside the legal basis-point range."
            },
            ExecError::FeeOverrideStaleSeq { .. } => {
                "Per-account fee override sequence is stale or out of order."
            },
            ExecError::TickSizeViolation { .. } => {
                "Order price is not an exact multiple of the market tick size."
            },
            ExecError::LotSizeViolation { .. } => {
                "Order quantity is not an exact multiple of the market lot size."
            },
            ExecError::OracleStaleNotElapsed { .. } => {
                "Fallback oracle signer published before the market staleness window elapsed."
            },
            ExecError::StaleOracle { .. } => {
                "Oracle price is stale for this market; refresh the oracle before placing orders, reading margin, or liquidating."
            },
            ExecError::OracleGuardUnset { .. } => {
                "The oracle-guard gate is active and this market has no mark-price max oracle age set; every mark-dependent action is refused until governance sets one."
            },
            ExecError::UserLeverageBelowMarketIm { .. } => {
                "User-selected initial margin is below the market risk floor; only deleveraging above the market floor is allowed."
            },
            ExecError::ClientOrderIdNotFound { .. } => {
                "No active resting order exists for the requested client order id."
            },
            ExecError::DuplicateClientOrderId { .. } => {
                "An active resting order already uses the requested client order id."
            },
            ExecError::InvalidClientOrderId { .. } => {
                "Client order id zero is reserved and cannot be submitted."
            },
            ExecError::FillOrKillWouldNotFill { .. } => {
                "Fill-or-kill order cannot be fully filled immediately at the submitted limit price."
            },
            ExecError::InvalidCancelReplaceTarget => {
                "Cancel-replace must specify exactly one active order target: either orderId or clientOrderId."
            },
            ExecError::AmendBelowFilled { .. } => {
                "AmendOrder new quantity is below the quantity already filled while the order rested."
            },
            ExecError::SlippageExceeded { .. } => {
                "Atomic basket aggregate slippage exceeded the requested maxSlippageBps budget."
            },
            ExecError::SubAccountNotFound => {
                "No sub-account exists in the registry for the given master address and sub-account id."
            },
            ExecError::SubAccountAlreadyExists => {
                "A sub-account with this master address and sub-account id already exists in the registry."
            },
            ExecError::SubAccountTransferSameAccount => {
                "Transfer from and to addresses are identical; no-op transfers are rejected."
            },
            ExecError::SubAccountTransferBothChildren => {
                "Neither side of a transfer is the master owner address; at least one side must be the master."
            },
            ExecError::SubAccountTransferInsufficientBalance => {
                "Source account has insufficient balance to complete the transfer."
            },
            ExecError::SubAccountIdZero => {
                "Sub-account id must be non-zero; id 0 is not a valid sub-account id."
            },
        }
    }

    pub open spec fn spec_is_settlement_retryable(&self) -> bool {
        ||| self is InvalidResolution
        ||| self is StaleOracle
        ||| self is OracleGuardUnset
        ||| self is UnknownMarket
    }

    /// This market cannot settle in this block, but can in the next.
    pub fn is_settlement_retryable(&self) -> (r: bool)
        ensures
            r == self.spec_is_settlement_retryable(),
            r <==> (self is InvalidResolution || self is StaleOracle || self is OracleGuardUnset
                || self is UnknownMarket),
    {
        matches!(
            self,
            ExecError::InvalidResolution(_) | ExecError::StaleOracle { .. }
                | ExecError::OracleGuardUnset { .. } | ExecError::UnknownMarket(_)
        )
    }

    /// The UTF-8 bytes of the error's message.
    pub open spec fn spec_message(&self) -> Seq<u8> {
        match self {
            ExecError::DecodeError(msg) => "decode error: ".spec_bytes()
                + encode_utf8((*msg)@),
            ExecError::OrderNotFound(id) => "order not found: ".spec_bytes()
                + decimal((*id) as nat),
            ExecError::NotOwner(id) => "not owner of order: ".spec_bytes()
                + decimal((*id) as nat),
            ExecError::UnauthorizedOracle => "unauthorized oracle signer".spec_bytes(),
            ExecError::Overflow => "arithmetic overflow".spec_bytes(),
            ExecError::InvalidPrice => "invalid price".spec_bytes(),
            ExecError::InvalidQuantity => "invalid quantity".spec_bytes(),
            ExecError::InvalidSide => "invalid side".spec_bytes(),
            ExecError::UnknownMarket(id) => "unknown market: ".spec_bytes()
                + decimal((*id) as nat),
            ExecError::InsufficientBalance => "insufficient balance".spec_bytes(),
            ExecError::InsufficientMargin => "insufficient margin".spec_bytes(),
            ExecError::StateCorruption(msg) => "state corruption: ".spec_bytes()
                + encode_utf8((*msg)@),
            ExecError::AdminGovernanceInactive => "admin governance inactive: no signer registry exists".spec_bytes(),
            ExecError::NotAdminSigner => "not an authorized admin signer".spec_bytes(),
            ExecError::ProposalNotFound(id) => "proposal not found: ".spec_bytes()
                + decimal((*id).0 as nat),
            ExecError::ProposalNotPending { id, status } => "proposal ".spec_bytes()
                + decimal((*id).0 as nat)
                + " is not pending: ".spec_bytes()
                + encode_utf8((*status).spec_label()),
            ExecError::ProposalExpired(id) => "proposal expired: ".spec_bytes()
                + decimal((*id).0 as nat),
            ExecError::DuplicateApproval => "signer already approved this proposal".spec_bytes(),
            ExecError::DuplicateRejection => "signer already rejected this proposal".spec_bytes(),
            ExecError::ProposalRegistryVersionMismatch { expected, got } => "registry version mismatch: expected ".spec_bytes()
                + decimal((*expected).0 as nat)
                + ", got ".spec_bytes()
                + decimal((*got).0 as nat),
            ExecError::ProposalContentMismatch => "approval context does not match the stored proposal".spec_bytes(),
            ExecError::InvalidAdminAction(reason) => "invalid admin action: ".spec_bytes()
                + encode_utf8((*reason)@),
            ExecError::AdminActionTooLarge { max, got } => "admin action too large: ".spec_bytes()
                + decimal((*got) as nat)
                + " bytes exceeds max ".spec_bytes()
                + decimal((*max) as nat),
            ExecError::TooManyPendingProposals => "too many pending proposals".spec_bytes(),
            ExecError::ProposalIdExhausted => "governance id counter exhausted".spec_bytes(),
            ExecError::ConflictingVote => "opposite vote already recorded; votes are immutable".spec_bytes(),
            ExecError::MarketIdOutOfRange { max, got } => "market id out of range: ".spec_bytes()
                + decimal((*got) as nat)
                + " exceeds max ".spec_bytes()
                + decimal((*max) as nat),
            ExecError::EmergencyRateLimited { max, window_ms } => "emergency rate limited: max ".spec_bytes()
                + decimal((*max) as nat)
                + " per signer per ".spec_bytes()
                + decimal((*window_ms) as nat)
                + " ms".spec_bytes(),
            ExecError::EmergencyGlobalRateLimited { max, window_ms } => "emergency rate limited: max ".spec_bytes()
                + decimal((*max) as nat)
                + " chain-wide per ".spec_bytes()
                + decimal((*window_ms) as nat)
                + " ms".spec_bytes(),
            ExecError::EmergencyActionRetired => "emergency arm retired".spec_bytes(),
            ExecError::AdminActionRequiresProposal => "admin action requires a governance proposal".spec_bytes(),
            ExecError::InvalidAdminRegistry(reason) => "invalid admin registry: ".spec_bytes()
                + encode_utf8((*reason)@),
            ExecError::BridgeReceiptRegistryInactive => "bridge receipt registry inactive: operator custody phase not configured".spec_bytes(),
            ExecError::BridgeReceiptInvalid(msg) => "bridge receipt invalid: ".spec_bytes()
                + encode_utf8((*msg)@),
            ExecError::BridgeReceiptMismatch(msg) => "bridge receipt mismatch: ".spec_bytes()
                + encode_utf8((*msg)@),
            ExecError::WithdrawalBelowMinimum { amount, min } => "withdrawal amount ".spec_bytes()
                + decimal((*amount) as nat)
                + " below minimum ".spec_bytes()
                + decimal((*min) as nat),
            ExecError::WithdrawalTerminalGated(msg) => "withdrawal terminal gated by receipt cutover: ".spec_bytes()
                + encode_utf8((*msg)@),
            ExecError::InternalError(msg) => "internal error: ".spec_bytes()
                + encode_utf8((*msg)@),
            ExecError::UnauthorizedRelayer => "unauthorized relayer signer".spec_bytes(),
            ExecError::WithdrawalNotFound(id) => "withdrawal not found: ".spec_bytes()
                + decimal((*id) as nat),
            ExecError::WithdrawalAlreadyProcessed(id) => "withdrawal already processed: ".spec_bytes()
                + decimal((*id) as nat),
            ExecError::DuplicateDeposit => "duplicate deposit signature".spec_bytes(),
            ExecError::InvalidSignature => "invalid Ed25519 signature".spec_bytes(),
            ExecError::SignatureRequired => "signed transaction required".spec_bytes(),
            ExecError::AgentNotAuthorized => "signer is not owner or authorized agent".spec_bytes(),
            ExecError::AgentCannotWithdraw => "agent wallets cannot perform withdrawals".spec_bytes(),
            ExecError::NonceTooOld { min_accepted, got } => "nonce too old: minimum accepted ".spec_bytes()
                + decimal((*min_accepted) as nat)
                + ", got ".spec_bytes()
                + decimal((*got) as nat),
            ExecError::NonceTooFarFuture { max_accepted, got } => "nonce too far in future: maximum accepted ".spec_bytes()
                + decimal((*max_accepted) as nat)
                + ", got ".spec_bytes()
                + decimal((*got) as nat),
            ExecError::NonceReplay { nonce } => "nonce replay: ".spec_bytes()
                + decimal((*nonce) as nat),
            ExecError::NonceBelowOldest { oldest, got } => "nonce below retained oldest: oldest ".spec_bytes()
                + decimal((*oldest) as nat)
                + ", got ".spec_bytes()
                + decimal((*got) as nat),
            ExecError::MarketAlreadyExists(id) => "market already exists: ".spec_bytes()
                + decimal((*id) as nat),
            ExecError::InvalidMarketConfig(msg) => "invalid market config: ".spec_bytes()
                + encode_utf8((*msg)@),
            ExecError::ImpactMarketAlreadyExists(id) => "impact market already exists: ".spec_bytes()
                + decimal((*id) as nat),
            ExecError::ImpactMarketNotFound(id) => "impact market not found: ".spec_bytes()
                + decimal((*id) as nat),
            ExecError::MarketClosedForTrading(id) => "market closed for trading: ".spec_bytes()
                + decimal((*id) as nat),
            ExecError::BinaryPriceOutOfRange => "prediction-binary price must be in [0, ".spec_bytes()
                + decimal(BINARY_PRICE_MAX as nat)
                + "]".spec_bytes(),
            ExecError::InvalidResolution(msg) => "invalid resolution: ".spec_bytes()
                + encode_utf8((*msg)@),
            ExecError::PositionLimitExceeded { market, limit, would_be } => "position limit exceeded on market ".spec_bytes()
                + decimal((*market) as nat)
                + ": would be ".spec_bytes()
                + decimal((*would_be) as nat)
                + ", cap ".spec_bytes()
                + decimal((*limit) as nat),
            ExecError::OpenInterestLimitExceeded { market, limit, would_be } => "open interest limit exceeded on market ".spec_bytes()
                + decimal((*market) as nat)
                + ": would be ".spec_bytes()
                + decimal((*would_be) as nat)
                + ", cap ".spec_bytes()
                + decimal((*limit) as nat),
            ExecError::OracleTimestampNotMonotonic { market, stored, submitted } => "oracle publish_time_ms not strictly monotonic on market ".spec_bytes()
                + decimal((*market) as nat)
                + ": stored ".spec_bytes()
                + decimal((*stored) as nat)
                + ", submitted ".spec_bytes()
                + decimal((*submitted) as nat)
                + " (submitted must be > stored)".spec_bytes(),
            ExecError::TooManyActiveImpactMarkets { current, max } => "too many active impact markets in basket: current ".spec_bytes()
                + decimal((*current) as nat)
                + ", cap ".spec_bytes()
                + decimal((*max) as nat),
            ExecError::SettlementPriceMismatch { market, expected, got } => "settle price disagreement on market ".spec_bytes()
                + decimal((*market) as nat)
                + ": expected ".spec_bytes()
                + decimal((*expected) as nat)
                + " (group key), got ".spec_bytes()
                + decimal((*got) as nat),
            ExecError::OracleNotApplicable { market } => "oracle update rejected for market ".spec_bytes()
                + decimal((*market) as nat)
                + ": impact-family markets mark off the book directly and have no oracle layer (post 2026-04-26 redesign)".spec_bytes(),
            ExecError::PostOnlyWouldCross => "post-only order would cross the book on placement; rejected".spec_bytes(),
            ExecError::ReduceOnlyWouldIncrease => "reduce-only order rejected: would increase exposure (same-side as position) or no position to reduce".spec_bytes(),
            ExecError::TestActionRejected(msg) => "test action rejected: ".spec_bytes()
                + encode_utf8((*msg)@),
            ExecError::FeeBpsOutOfRange { bps } => "fee out of range: ".spec_bytes()
                + decimal((*bps) as nat)
                + " bps (must be in [0, 10_000])".spec_bytes(),
            ExecError::FeeOverrideStaleSeq { cmd_seq, stored_seq } => "stale SetAccountFeeOverride seq: cmd seq ".spec_bytes()
                + decimal((*cmd_seq) as nat)
                + " <= stored seq ".spec_bytes()
                + decimal((*stored_seq) as nat)
                + " (replay or out-of-order tx)".spec_bytes(),
            ExecError::TickSizeViolation { market, tick_size, price } => "tick size violation on market ".spec_bytes()
                + decimal((*market) as nat)
                + ": price ".spec_bytes()
                + decimal((*price) as nat)
                + " not a multiple of tick_size ".spec_bytes()
                + decimal((*tick_size) as nat),
            ExecError::LotSizeViolation { market, lot_size, quantity } => "lot size violation on market ".spec_bytes()
                + decimal((*market) as nat)
                + ": quantity ".spec_bytes()
                + decimal((*quantity) as nat)
                + " not a multiple of lot_size ".spec_bytes()
                + decimal((*lot_size) as nat),
            ExecError::OracleStaleNotElapsed {
                market,
                last_publish_ms,
                block_time_ms,
                staleness_ms,
            } => "oracle update from fallback signer rejected on market ".spec_bytes()
                + decimal((*market) as nat)
                + ": primary's last_publish_ms ".spec_bytes()
                + decimal((*last_publish_ms) as nat)
                + " is too recent (block_time ".spec_bytes()
                + decimal((*block_time_ms) as nat)
                + " - last_publish < staleness_ms ".spec_bytes()
                + decimal((*staleness_ms) as nat)
                + ")".spec_bytes(),
            ExecError::StaleOracle {
                market,
                publish_time_ms,
                block_time_ms,
                max_staleness_ms,
            } => "oracle stale on market ".spec_bytes()
                + decimal((*market) as nat)
                + ": last publish_time ".spec_bytes()
                + decimal((*publish_time_ms) as nat)
                + "ms, block time ".spec_bytes()
                + decimal((*block_time_ms) as nat)
                + "ms (age ".spec_bytes()
                + decimal((*block_time_ms).saturating_sub((*publish_time_ms)) as nat)
                + "ms > cap ".spec_bytes()
                + decimal((*max_staleness_ms) as nat)
                + "ms)".spec_bytes(),
            ExecError::OracleGuardUnset { market } => "oracle guard unset on market ".spec_bytes()
                + decimal((*market) as nat)
                + ": mark_price_max_oracle_age_ms is 0 while the oracle-guard gate is active; mark-dependent actions are refused until governance sets it".spec_bytes(),
            ExecError::UserLeverageBelowMarketIm {
                market,
                user_im_bps,
                market_im_bps,
            } => "user_im_bps ".spec_bytes()
                + decimal((*user_im_bps) as nat)
                + " below market ".spec_bytes()
                + decimal((*market) as nat)
                + "'s im_bps ".spec_bytes()
                + decimal((*market_im_bps) as nat)
                + "; only deleveraging (user_im >= market_im) is allowed".spec_bytes(),
            ExecError::ClientOrderIdNotFound { client_order_id } => "client order id not found: ".spec_bytes()
                + decimal((*client_order_id) as nat),
            ExecError::DuplicateClientOrderId { client_order_id } => "duplicate active client order id: ".spec_bytes()
                + decimal((*client_order_id) as nat),
            ExecError::InvalidClientOrderId { client_order_id } => "invalid client order id: ".spec_bytes()
                + decimal((*client_order_id) as nat),
            ExecError::FillOrKillWouldNotFill { requested, available } => "fill-or-kill would not fully fill: requested ".spec_bytes()
                + decimal((*requested) as nat)
                + ", available ".spec_bytes()
                + decimal((*available) as nat),
            ExecError::InvalidCancelReplaceTarget => "cancel-replace requires exactly one cancel target".spec_bytes(),
            ExecError::AmendBelowFilled {
                order_id,
                filled_quantity,
                requested_quantity,
            } => "amend quantity below filled for order ".spec_bytes()
                + decimal((*order_id) as nat)
                + ": requested total ".spec_bytes()
                + decimal((*requested_quantity) as nat)
                + ", filled ".spec_bytes()
                + decimal((*filled_quantity) as nat),
            ExecError::SlippageExceeded { aggregate_bps, max_slippage_bps } => "atomic basket aggregate slippage ".spec_bytes()
                + decimal((*aggregate_bps) as nat)
                + " bps exceeds budget ".spec_bytes()
                + decimal((*max_slippage_bps) as nat)
                + " bps".spec_bytes(),
            ExecError::SubAccountNotFound => "sub-account not found in registry".spec_bytes(),
            ExecError::SubAccountAlreadyExists => "sub-account already exists in registry".spec_bytes(),
            ExecError::SubAccountTransferSameAccount => "transfer from and to are the same address".spec_bytes(),
            ExecError::SubAccountTransferBothChildren => "transfer requires at least one side to be the master owner".spec_bytes(),
            ExecError::SubAccountTransferInsufficientBalance => "insufficient balance for sub-account transfer".spec_bytes(),
            ExecError::SubAccountIdZero => "sub-account id must be non-zero".spec_bytes(),
        }
    }

    /// The error's message, e.g. `order not found: 7`.
    pub fn to_string(&self) -> (r: String)
        ensures
            encode_utf8(r@) == self.spec_message(),
    {
        let out = self.message_bytes();
        utf8_string(out)
    }

    #[verifier::rlimit(100)]
    fn message_bytes(&self) -> (r: Vec<u8>)
        ensures
            r@ == self.spec_message(),
            valid_utf8(r@),
    {
        let mut out = new_text();
        match self {
            ExecError::DecodeError(msg) => {
                push_str(&mut out, "decode error: ");
                push_str(&mut out, msg.as_str());
            },
            ExecError::OrderNotFound(id) => {
                push_str(&mut out, "order not found: ");
                push_u64_text(&mut out, *id);
            },
            ExecError::NotOwner(id) => {
                push_str(&mut out, "not owner of order: ");
                push_u64_text(&mut out, *id);
            },
            ExecError::UnauthorizedOracle => {
                push_str(&mut out, "unauthorized oracle signer");
            },
            ExecError::Overflow => {
                push_str(&mut out, "arithmetic overflow");
            },
            ExecError::InvalidPrice => {
                push_str(&mut out, "invalid price");
            },
            ExecError::InvalidQuantity => {
                push_str(&mut out, "invalid quantity");
            },
            ExecError::InvalidSide => {
                push_str(&mut out, "invalid side");
            },
            ExecError::UnknownMarket(id) => {
                push_str(&mut out, "unknown market: ");
                push_u64_text(&mut out, *id as u64);
            },
            ExecError::InsufficientBalance => {
                push_str(&mut out, "insufficient balance");
            },
            ExecError::InsufficientMargin => {
                push_str(&mut out, "insufficient margin");
            },
            ExecError::StateCorruption(msg) => {
                push_str(&mut out, "state corruption: ");
                push_str(&mut out, msg.as_str());
            },
            ExecError::AdminGovernanceInactive => {
                push_str(&mut out, "admin governance inactive: no signer registry exists");
            },
            ExecError::NotAdminSigner => {
                push_str(&mut out, "not an authorized admin signer");
            },
            ExecError::ProposalNotFound(id) => {
                push_str(&mut out, "proposal not found: ");
                push_u64_text(&mut out, id.0);
            },
            ExecError::ProposalNotPending { id, status } => {
                push_str(&mut out, "proposal ");
                push_u64_text(&mut out, id.0);
                push_str(&mut out, " is not pending: ");
                push_str(&mut out, status.label());
            },
            ExecError::ProposalExpired(id) => {
                push_str(&mut out, "proposal expired: ");
                push_u64_text(&mut out, id.0);
            },
            ExecError::DuplicateApproval => {
                push_str(&mut out, "signer already approved this proposal");
            },
            ExecError::DuplicateRejection => {
                push_str(&mut out, "signer already rejected this proposal");
            },
            ExecError::ProposalRegistryVersionMismatch { expected, got } => {
                push_str(&mut out, "registry version mismatch: expected ");
                push_u64_text(&mut out, expected.0);
                push_str(&mut out, ", got ");
                push_u64_text(&mut out, got.0);
            },
            ExecError::ProposalContentMismatch => {
                push_str(&mut out, "approval context does not match the stored proposal");
            },
            ExecError::InvalidAdminAction(reason) => {
                push_str(&mut out, "invalid admin action: ");
                push_str(&mut out, reason.as_str());
            },
            ExecError::AdminActionTooLarge { max, got } => {
                push_str(&mut out, "admin action too large: ");
                push_u64_text(&mut out, *got as u64);
                push_str(&mut out, " bytes exceeds max ");
                push_u64_text(&mut out, *max as u64);
            },
            ExecError::TooManyPendingProposals => {
                push_str(&mut out, "too many pending proposals");
            },
            ExecError::ProposalIdExhausted => {
                push_str(&mut out, "governance id counter exhausted");
            },
            ExecError::ConflictingVote => {
                push_str(&mut out, "opposite vote already recorded; votes are immutable");
            },
            ExecError::MarketIdOutOfRange { max, got } => {
                push_str(&mut out, "market id out of range: ");
                push_u64_text(&mut out, *got);
                push_str(&mut out, " exceeds max ");
                push_u64_text(&mut out, *max as u64);
            },
            ExecError::EmergencyRateLimited { max, window_ms } => {
                push_str(&mut out, "emergency rate limited: max ");
                push_u64_text(&mut out, *max as u64);
                push_str(&mut out, " per signer per ");
                push_u64_text(&mut out, *window_ms);
                push_str(&mut out, " ms");
            },
            ExecError::EmergencyGlobalRateLimited { max, window_ms } => {
                push_str(&mut out, "emergency rate limited: max ");
                push_u64_text(&mut out, *max as u64);
                push_str(&mut out, " chain-wide per ");
                push_u64_text(&mut out, *window_ms);
                push_str(&mut out, " ms");
            },
            ExecError::EmergencyActionRetired => {
                push_str(&mut out, "emergency arm retired");
            },
            ExecError::AdminActionRequiresProposal => {
                push_str(&mut out, "admin action requires a governance proposal");
            },
            ExecError::InvalidAdminRegistry(reason) => {
                push_str(&mut out, "invalid admin registry: ");
                push_str(&mut out, reason.as_str());
            },
            ExecError::BridgeReceiptRegistryInactive => {
                push_str(&mut out, "bridge receipt registry inactive: operator custody phase not configured");
            },
            ExecError::BridgeReceiptInvalid(msg) => {
                push_str(&mut out, "bridge receipt invalid: ");
                push_str(&mut out, msg.as_str());
            },
            ExecError::BridgeReceiptMismatch(msg) => {
                push_str(&mut out, "bridge receipt mismatch: ");
                push_str(&mut out, msg.as_str());
            },
            ExecError::WithdrawalBelowMinimum { amount, min } => {
                push_str(&mut out, "withdrawal amount ");
                push_u64_text(&mut out, *amount);
                push_str(&mut out, " below minimum ");
                push_u64_text(&mut out, *min);
            },
            ExecError::WithdrawalTerminalGated(msg) => {
                push_str(&mut out, "withdrawal terminal gated by receipt cutover: ");
                push_str(&mut out, msg.as_str());
            },
            ExecError::InternalError(msg) => {
                push_str(&mut out, "internal error: ");
                push_str(&mut out, msg.as_str());
            },
            ExecError::UnauthorizedRelayer => {
                push_str(&mut out, "unauthorized relayer signer");
            },
            ExecError::WithdrawalNotFound(id) => {
                push_str(&mut out, "withdrawal not found: ");
                push_u64_text(&mut out, *id);
            },
            ExecError::WithdrawalAlreadyProcessed(id) => {
                push_str(&mut out, "withdrawal already processed: ");
                push_u64_text(&mut out, *id);
            },
            ExecError::DuplicateDeposit => {
                push_str(&mut out, "duplicate deposit signature");
            },
            ExecError::InvalidSignature => {
                push_str(&mut out, "invalid Ed25519 signature");
            },
            ExecError::SignatureRequired => {
                push_str(&mut out, "signed transaction required");
            },
            ExecError::AgentNotAuthorized => {
                push_str(&mut out, "signer is not owner or authorized agent");
            },
            ExecError::AgentCannotWithdraw => {
                push_str(&mut out, "agent wallets cannot perform withdrawals");
            },
            ExecError::NonceTooOld { min_accepted, got } => {
                push_str(&mut out, "nonce too old: minimum accepted ");
                push_u64_text(&mut out, *min_accepted);
                push_str(&mut out, ", got ");
                push_u64_text(&mut out, *got);
            },
            ExecError::NonceTooFarFuture { max_accepted, got } => {
                push_str(&mut out, "nonce too far in future: maximum accepted ");
                push_u64_text(&mut out, *max_accepted);
                push_str(&mut out, ", got ");
                push_u64_text(&mut out, *got);
            },
            ExecError::NonceReplay { nonce } => {
                push_str(&mut out, "nonce replay: ");
                push_u64_text(&mut out, *nonce);
            },
            ExecError::NonceBelowOldest { oldest, got } => {
                push_str(&mut out, "nonce below retained oldest: oldest ");
                push_u64_text(&mut out, *oldest);
                push_str(&mut out, ", got ");
                push_u64_text(&mut out, *got);
            },
            ExecError::MarketAlreadyExists(id) => {
                push_str(&mut out, "market already exists: ");
                push_u64_text(&mut out, *id as u64);
            },
            ExecError::InvalidMarketConfig(msg) => {
                push_str(&mut out, "invalid market config: ");
                push_str(&mut out, msg.as_str());
            },
            ExecError::ImpactMarketAlreadyExists(id) => {
                push_str(&mut out, "impact market already exists: ");
                push_u64_text(&mut out, *id as u64);
            },
            ExecError::ImpactMarketNotFound(id) => {
                push_str(&mut out, "impact market not found: ");
                push_u64_text(&mut out, *id as u64);
            },
            ExecError::MarketClosedForTrading(id) => {
                push_str(&mut out, "market closed for trading: ");
                push_u64_text(&mut out, *id as u64);
            },
            ExecError::BinaryPriceOutOfRange => {
                push_str(&mut out, "prediction-binary price must be in [0, ");
                push_u64_text(&mut out, BINARY_PRICE_MAX);
                push_str(&mut out, "]");
            },
            ExecError::InvalidResolution(msg) => {
                push_str(&mut out, "invalid resolution: ");
                push_str(&mut out, msg.as_str());
            },
            ExecError::PositionLimitExceeded { market, limit, would_be } => {
                push_str(&mut out, "position limit exceeded on market ");
                push_u64_text(&mut out, *market as u64);
                push_str(&mut out, ": would be ");
                push_u64_text(&mut out, *would_be);
                push_str(&mut out, ", cap ");
                push_u64_text(&mut out, *limit);
            },
            ExecError::OpenInterestLimitExceeded { market, limit, would_be } => {
                push_str(&mut out, "open interest limit exceeded on market ");
                push_u64_text(&mut out, *market as u64);
                push_str(&mut out, ": would be ");
                push_u64_text(&mut out, *would_be);
                push_str(&mut out, ", cap ");
                push_u64_text(&mut out, *limit);
            },
            ExecError::OracleTimestampNotMonotonic { market, stored, submitted } => {
                push_str(&mut out, "oracle publish_time_ms not strictly monotonic on market ");
                push_u64_text(&mut out, *market as u64);
                push_str(&mut out, ": stored ");
                push_u64_text(&mut out, *stored);
                push_str(&mut out, ", submitted ");
                push_u64_text(&mut out, *submitted);
                push_str(&mut out, " (submitted must be > stored)");
            },
            ExecError::TooManyActiveImpactMarkets { current, max } => {
                push_str(&mut out, "too many active impact markets in basket: current ");
                push_u64_text(&mut out, *current as u64);
                push_str(&mut out, ", cap ");
                push_u64_text(&mut out, *max as u64);
            },
            ExecError::SettlementPriceMismatch { market, expected, got } => {
                push_str(&mut out, "settle price disagreement on market ");
                push_u64_text(&mut out, *market as u64);
                push_str(&mut out, ": expected ");
                push_u64_text(&mut out, *expected);
                push_str(&mut out, " (group key), got ");
                push_u64_text(&mut out, *got);
            },
            ExecError::OracleNotApplicable { market } => {
                push_str(&mut out, "oracle update rejected for market ");
                push_u64_text(&mut out, *market as u64);
                push_str(&mut out, ": impact-family markets mark off the book directly and have no oracle layer (post 2026-04-26 redesign)");
            },
            ExecError::PostOnlyWouldCross => {
                push_str(&mut out, "post-only order would cross the book on placement; rejected");
            },
            ExecError::ReduceOnlyWouldIncrease => {
                push_str(&mut out, "reduce-only order rejected: would increase exposure (same-side as position) or no position to reduce");
            },
            ExecError::TestActionRejected(msg) => {
                push_str(&mut out, "test action rejected: ");
                push_str(&mut out, msg.as_str());
            },
            ExecError::FeeBpsOutOfRange { bps } => {
                push_str(&mut out, "fee out of range: ");
                push_u64_text(&mut out, *bps as u64);
                push_str(&mut out, " bps (must be in [0, 10_000])");
            },
            ExecError::FeeOverrideStaleSeq { cmd_seq, stored_seq } => {
                push_str(&mut out, "stale SetAccountFeeOverride seq: cmd seq ");
                push_u64_text(&mut out, *cmd_seq);
                push_str(&mut out, " <= stored seq ");
                push_u64_text(&mut out, *stored_seq);
                push_str(&mut out, " (replay or out-of-order tx)");
            },
            ExecError::TickSizeViolation { market, tick_size, price } => {
                push_str(&mut out, "tick size violation on market ");
                push_u64_text(&mut out, *market as u64);
                push_str(&mut out, ": price ");
                push_u64_text(&mut out, *price);
                push_str(&mut out, " not a multiple of tick_size ");
                push_u64_text(&mut out, *tick_size);
            },
            ExecError::LotSizeViolation { market, lot_size, quantity } => {
                push_str(&mut out, "lot size violation on market ");
                push_u64_text(&mut out, *market as u64);
                push_str(&mut out, ": quantity ");
                push_u64_text(&mut out, *quantity);
                push_str(&mut out, " not a multiple of lot_size ");
                push_u64_text(&mut out, *lot_size);
            },
            ExecError::OracleStaleNotElapsed {
                market,
                last_publish_ms,
                block_time_ms,
                staleness_ms,
            } => {
                push_str(&mut out, "oracle update from fallback signer rejected on market ");
                push_u64_text(&mut out, *market as u64);
                push_str(&mut out, ": primary's last_publish_ms ");
                push_u64_text(&mut out, *last_publish_ms);
                push_str(&mut out, " is too recent (block_time ");
                push_u64_text(&mut out, *block_time_ms);
                push_str(&mut out, " - last_publish < staleness_ms ");
                push_u64_text(&mut out, *staleness_ms);
                push_str(&mut out, ")");
            },
            ExecError::StaleOracle {
                market,
                publish_time_ms,
                block_time_ms,
                max_staleness_ms,
            } => {
                push_str(&mut out, "oracle stale on market ");
                push_u64_text(&mut out, *market as u64);
                push_str(&mut out, ": last publish_time ");
                push_u64_text(&mut out, *publish_time_ms);
                push_str(&mut out, "ms, block time ");
                push_u64_text(&mut out, *block_time_ms);
                push_str(&mut out, "ms (age ");
                push_u64_text(&mut out, block_time_ms.saturating_sub(*publish_time_ms));
                push_str(&mut out, "ms > cap ");
                push_u64_text(&mut out, *max_staleness_ms);
                push_str(&mut out, "ms)");
            },
            ExecError::OracleGuardUnset { market } => {
                push_str(&mut out, "oracle guard unset on market ");
                push_u64_text(&mut out, *market as u64);
                push_str(&mut out, ": mark_price_max_oracle_age_ms is 0 while the oracle-guard gate is active; mark-dependent actions are refused until governance sets it");
            },
            ExecError::UserLeverageBelowMarketIm {
                market,
                user_im_bps,
                market_im_bps,
            } => {
                push_str(&mut out, "user_im_bps ");
                push_u64_text(&mut out, *user_im_bps as u64);
                push_str(&mut out, " below market ");
                push_u64_text(&mut out, *market as u64);
                push_str(&mut out, "'s im_bps ");
                push_u64_text(&mut out, *market_im_bps as u64);
                push_str(&mut out, "; only deleveraging (user_im >= market_im) is allowed");
            },
            ExecError::ClientOrderIdNotFound { client_order_id } => {
                push_str(&mut out, "client order id not found: ");
                push_u64_text(&mut out, *client_order_id);
            },
            ExecError::DuplicateClientOrderId { client_order_id } => {
                push_str(&mut out, "duplicate active client order id: ");
                push_u64_text(&mut out, *client_order_id);
            },
            ExecError::InvalidClientOrderId { client_order_id } => {
                push_str(&mut out, "invalid client order id: ");
                push_u64_text(&mut out, *client_order_id);
            },
            ExecError::FillOrKillWouldNotFill { requested, available } => {
                push_str(&mut out, "fill-or-kill would not fully fill: requested ");
                push_u64_text(&mut out, *requested);
                push_str(&mut out, ", available ");
                push_u64_text(&mut out, *available);
            },
            ExecError::InvalidCancelReplaceTarget => {
                push_str(&mut out, "cancel-replace requires exactly one cancel target");
            },
            ExecError::AmendBelowFilled {
                order_id,
                filled_quantity,
                requested_quantity,
            } => {
                push_str(&mut out, "amend quantity below filled for order ");
                push_u64_text(&mut out, *order_id);
                push_str(&mut out, ": requested total ");
                push_u64_text(&mut out, *requested_quantity);
                push_str(&mut out, ", filled ");
                push_u64_text(&mut out, *filled_quantity);
            },
            ExecError::SlippageExceeded { aggregate_bps, max_slippage_bps } => {
                push_str(&mut out, "atomic basket aggregate slippage ");
                push_u64_text(&mut out, *aggregate_bps as u64);
                push_str(&mut out, " bps exceeds budget ");
                push_u64_text(&mut out, *max_slippage_bps as u64);
                push_str(&mut out, " bps");
            },
            ExecError::SubAccountNotFound => {
                push_str(&mut out, "sub-account not found in registry");
            },
            ExecError::SubAccountAlreadyExists => {
                push_str(&mut out, "sub-account already exists in registry");
            },
            ExecError::SubAccountTransferSameAccount => {
                push_str(&mut out, "transfer from and to are the same address");
            },
            ExecError::SubAccountTransferBothChildren => {
                push_str(&mut out, "transfer requires at least one side to be the master owner");
            },
            ExecError::SubAccountTransferInsufficientBalance => {
                push_str(&mut out, "insufficient balance for sub-account transfer");
            },
            ExecError::SubAccountIdZero => {
                push_str(&mut out, "sub-account id must be non-zero");
            },
        }
        out
    }
}

/// Codes are stable identifiers: every code is in `1..=88` or is the
/// catch-all 255, none falls in the gateway's transport range
/// (401, 413, 429, 500), and the only variants that share a code are the
/// four timestamp-nonce rejections (code 21).
pub proof fn lemma_code_table(e: ExecError, other: ExecError)
    ensures
        (1 <= e.spec_code() <= 88) || e.spec_code() == 255,
        e.spec_code() != 401 && e.spec_code() != 413 && e.spec_code() != 429 && e.spec_code()
            != 500,
        e.spec_code() == other.spec_code() ==> e.spec_code() == 21 || same_kind(e, other),
        e.spec_code() == 21 <==> (e is NonceTooOld || e is NonceTooFarFuture || e is NonceReplay
            || e is NonceBelowOldest),
{
}

/// Two errors are of the same variant.
pub open spec fn same_kind(a: ExecError, b: ExecError) -> bool {
    match (a, b) {
        (ExecError::DecodeError(_), ExecError::DecodeError(_)) => true,
        (ExecError::OrderNotFound(_), ExecError::OrderNotFound(_)) => true,
        (ExecError::NotOwner(_), ExecError::NotOwner(_)) => true,
        (ExecError::UnauthorizedOracle, ExecError::UnauthorizedOracle) => true,
        (ExecError::Overflow, ExecError::Overflow) => true,
        (ExecError::InvalidPrice, ExecError::InvalidPrice) => true,
        (ExecError::InvalidQuantity, ExecError::InvalidQuantity) => true,
        (ExecError::InvalidSide, ExecError::InvalidSide) => true,
        (ExecError::UnknownMarket(_), ExecError::UnknownMarket(_)) => true,
        (ExecError::InsufficientBalance, ExecError::InsufficientBalance) => true,
        (ExecError::InsufficientMargin, ExecError::InsufficientMargin) => true,
        (ExecError::StateCorruption(_), ExecError::StateCorruption(_)) => true,
        (ExecError::AdminGovernanceInactive, ExecError::AdminGovernanceInactive) => true,
        (ExecError::NotAdminSigner, ExecError::NotAdminSigner) => true,
        (ExecError::ProposalNotFound(_), ExecError::ProposalNotFound(_)) => true,
        (ExecError::ProposalNotPending { .. }, ExecError::ProposalNotPending { .. }) => true,
        (ExecError::ProposalExpired(_), ExecError::ProposalExpired(_)) => true,
        (ExecError::DuplicateApproval, ExecError::DuplicateApproval) => true,
        (ExecError::DuplicateRejection, ExecError::DuplicateRejection) => true,
        (ExecError::ProposalRegistryVersionMismatch { .. }, ExecError::ProposalRegistryVersionMismatch { .. }) => true,
        (ExecError::ProposalContentMismatch, ExecError::ProposalContentMismatch) => true,
        (ExecError::InvalidAdminAction(_), ExecError::InvalidAdminAction(_)) => true,
        (ExecError::AdminActionTooLarge { .. }, ExecError::AdminActionTooLarge { .. }) => true,
        (ExecError::TooManyPendingProposals, ExecError::TooManyPendingProposals) => true,
        (ExecError::ProposalIdExhausted, ExecError::ProposalIdExhausted) => true,
        (ExecError::ConflictingVote, ExecError::ConflictingVote) => true,
        (ExecError::MarketIdOutOfRange { .. }, ExecError::MarketIdOutOfRange { .. }) => true,
        (ExecError::EmergencyRateLimited { .. }, ExecError::EmergencyRateLimited { .. }) => true,
        (ExecError::EmergencyGlobalRateLimited { .. }, ExecError::EmergencyGlobalRateLimited { .. }) => true,
        (ExecError::EmergencyActionRetired, ExecError::EmergencyActionRetired) => true,
        (ExecError::AdminActionRequiresProposal, ExecError::AdminActionRequiresProposal) => true,
        (ExecError::InvalidAdminRegistry(_), ExecError::InvalidAdminRegistry(_)) => true,
        (ExecError::BridgeReceiptRegistryInactive, ExecError::BridgeReceiptRegistryInactive) => true,
        (ExecError::BridgeReceiptInvalid(_), ExecError::BridgeReceiptInvalid(_)) => true,
        (ExecError::BridgeReceiptMismatch(_), ExecError::BridgeReceiptMismatch(_)) => true,
        (ExecError::WithdrawalBelowMinimum { .. }, ExecError::WithdrawalBelowMinimum { .. }) => true,
        (ExecError::WithdrawalTerminalGated(_), ExecError::WithdrawalTerminalGated(_)) => true,
        (ExecError::InternalError(_), ExecError::InternalError(_)) => true,
        (ExecError::UnauthorizedRelayer, ExecError::UnauthorizedRelayer) => true,
        (ExecError::WithdrawalNotFound(_), ExecError::WithdrawalNotFound(_)) => true,
        (ExecError::WithdrawalAlreadyProcessed(_), ExecError::WithdrawalAlreadyProcessed(_)) => true,
        (ExecError::DuplicateDeposit, ExecError::DuplicateDeposit) => true,
        (ExecError::InvalidSignature, ExecError::InvalidSignature) => true,
        (ExecError::SignatureRequired, ExecError::SignatureRequired) => true,
        (ExecError::AgentNotAuthorized, ExecError::AgentNotAuthorized) => true,
        (ExecError::AgentCannotWithdraw, ExecError::AgentCannotWithdraw) => true,
        (ExecError::NonceTooOld { .. }, ExecError::NonceTooOld { .. }) => true,
        (ExecError::NonceTooFarFuture { .. }, ExecError::NonceTooFarFuture { .. }) => true,
        (ExecError::NonceReplay { .. }, ExecError::NonceReplay { .. }) => true,
        (ExecError::NonceBelowOldest { .. }, ExecError::NonceBelowOldest { .. }) => true,
        (ExecError::MarketAlreadyExists(_), ExecError::MarketAlreadyExists(_)) => true,
        (ExecError::InvalidMarketConfig(_), ExecError::InvalidMarketConfig(_)) => true,
        (ExecError::ImpactMarketAlreadyExists(_), ExecError::ImpactMarketAlreadyExists(_)) => true,
        (ExecError::ImpactMarketNotFound(_), ExecError::ImpactMarketNotFound(_)) => true,
        (ExecError::MarketClosedForTrading(_), ExecError::MarketClosedForTrading(_)) => true,
        (ExecError::BinaryPriceOutOfRange, ExecError::BinaryPriceOutOfRange) => true,
        (ExecError::InvalidResolution(_), ExecError::InvalidResolution(_)) => true,
        (ExecError::PositionLimitExceeded { .. }, ExecError::PositionLimitExceeded { .. }) => true,
        (ExecError::OpenInterestLimitExceeded { .. }, ExecError::OpenInterestLimitExceeded { .. }) => true,
        (ExecError::OracleTimestampNotMonotonic { .. }, ExecError::OracleTimestampNotMonotonic { .. }) => true,
        (ExecError::TooManyActiveImpactMarkets { .. }, ExecError::TooManyActiveImpactMarkets { .. }) => true,
        (ExecError::SettlementPriceMismatch { .. }, ExecError::SettlementPriceMismatch { .. }) => true,
        (ExecError::OracleNotApplicable { .. }, ExecError::OracleNotApplicable { .. }) => true,
        (ExecError::PostOnlyWouldCross, ExecError::PostOnlyWouldCross) => true,
        (ExecError::ReduceOnlyWouldIncrease, ExecError::ReduceOnlyWouldIncrease) => true,
        (ExecError::TestActionRejected(_), ExecError::TestActionRejected(_)) => true,
        (ExecError::FeeBpsOutOfRange { .. }, ExecError::FeeBpsOutOfRange { .. }) => true,
        (ExecError::FeeOverrideStaleSeq { .. }, ExecError::FeeOverrideStaleSeq { .. }) => true,
        (ExecError::TickSizeViolation { .. }, ExecError::TickSizeViolation { .. }) => true,
        (ExecError::LotSizeViolation { .. }, ExecError::LotSizeViolation { .. }) => true,
        (ExecError::OracleStaleNotElapsed { .. }, ExecError::OracleStaleNotElapsed { .. }) => true,
        (ExecError::StaleOracle { .. }, ExecError::StaleOracle { .. }) => true,
        (ExecError::OracleGuardUnset { .. }, ExecError::OracleGuardUnset { .. }) => true,
        (ExecError::UserLeverageBelowMarketIm { .. }, ExecError::UserLeverageBelowMarketIm { .. }) => true,
        (ExecError::ClientOrderIdNotFound { .. }, ExecError::ClientOrderIdNotFound { .. }) => true,
        (ExecError::DuplicateClientOrderId { .. }, ExecError::DuplicateClientOrderId { .. }) => true,
        (ExecError::InvalidClientOrderId { .. }, ExecError::InvalidClientOrderId { .. }) => true,
        (ExecError::FillOrKillWouldNotFill { .. }, ExecError::FillOrKillWouldNotFill { .. }) => true,
        (ExecError::InvalidCancelReplaceTarget, ExecError::InvalidCancelReplaceTarget) => true,
        (ExecError::AmendBelowFilled { .. }, ExecError::AmendBelowFilled { .. }) => true,
        (ExecError::SlippageExceeded { .. }, ExecError::SlippageExceeded { .. }) => true,
        (ExecError::SubAccountNotFound, ExecError::SubAccountNotFound) => true,
        (ExecError::SubAccountAlreadyExists, ExecError::SubAccountAlreadyExists) => true,
        (ExecError::SubAccountTransferSameAccount, ExecError::SubAccountTransferSameAccount) => true,
        (ExecError::SubAccountTransferBothChildren, ExecError::SubAccountTransferBothChildren) => true,
        (ExecError::SubAccountTransferInsufficientBalance, ExecError::SubAccountTransferInsufficientBalance) => true,
        (ExecError::SubAccountIdZero, ExecError::SubAccountIdZero) => true,
        _ => false,
    }
}

/// Reads the code back off a documented meaning: every meaning in the table
/// is told apart from every other by its length and a few of its characters.
pub open spec fn code_of_meaning(s: Seq<char>) -> u32 {
    if s.len() == 42 {
        8
    } else if s.len() == 57 {
        46
    } else if s.len() == 59 {
        43
    } else if s.len() == 61 {
        39
    } else if s.len() == 63 {
        if s[0] == 'A' {
            22
        } else {
            40
        }
    } else if s.len() == 65 {
        if s[0] == 'N' {
            44
        } else {
            87
        }
    } else if s.len() == 66 {
        14
    } else if s.len() == 67 {
        if s[0] == 'A' {
            45
        } else {
            27
        }
    } else if s.len() == 68 {
        if s[0] == 'I' {
            25
        } else {
            88
        }
    } else if s.len() == 71 {
        42
    } else if s.len() == 74 {
        58
    } else if s.len() == 75 {
        85
    } else if s.len() == 76 {
        41
    } else if s.len() == 77 {
        24
    } else if s.len() == 78 {
        if s[0] == 'A' {
            50
        } else if s[0] == 'P' {
            6
        } else {
            19
        }
    } else if s.len() == 80 {
        7
    } else if s.len() == 83 {
        if s[0] == 'F' {
            47
        } else {
            15
        }
    } else if s.len() == 84 {
        49
    } else if s.len() == 85 {
        9
    } else if s.len() == 86 {
        if s[0] == 'A' {
            11
        } else {
            83
        }
    } else if s.len() == 89 {
        if s[0] == 'A' {
            if s[3] == 'i' {
                18
            } else {
                84
            }
        } else {
            2
        }
    } else if s.len() == 91 {
        20
    } else if s.len() == 92 {
        if s[1] == 'n' {
            16
        } else {
            4
        }
    } else if s.len() == 93 {
        if s[0] == 'C' {
            48
        } else if s[0] == 'E' {
            17
        } else {
            86
        }
    } else if s.len() == 101 {
        23
    } else if s.len() == 103 {
        34
    } else if s.len() == 105 {
        68
    } else if s.len() == 107 {
        255
    } else if s.len() == 112 {
        if s[2] == 'a' {
            37
        } else {
            26
        }
    } else if s.len() == 113 {
        if s[0] == 'O' {
            33
        } else if s[0] == 'T' {
            3
        } else {
            38
        }
    } else if s.len() == 114 {
        67
    } else if s.len() == 117 {
        if s[0] == 'M' {
            63
        } else {
            56
        }
    } else if s.len() == 121 {
        if s[0] == 'N' {
            32
        } else {
            62
        }
    } else if s.len() == 125 {
        55
    } else if s.len() == 128 {
        if s[0] == 'A' {
            64
        } else {
            57
        }
    } else if s.len() == 132 {
        66
    } else if s.len() == 133 {
        35
    } else if s.len() == 134 {
        69
    } else if s.len() == 135 {
        29
    } else if s.len() == 139 {
        28
    } else if s.len() == 142 {
        65
    } else if s.len() == 144 {
        if s[3] == 'i' {
            13
        } else {
            53
        }
    } else if s.len() == 145 {
        30
    } else if s.len() == 147 {
        75
    } else if s.len() == 151 {
        82
    } else if s.len() == 152 {
        54
    } else if s.len() == 153 {
        1
    } else if s.len() == 155 {
        31
    } else if s.len() == 158 {
        59
    } else if s.len() == 160 {
        12
    } else if s.len() == 161 {
        5
    } else if s.len() == 163 {
        21
    } else if s.len() == 167 {
        if s[0] == 'E' {
            10
        } else {
            61
        }
    } else if s.len() == 181 {
        73
    } else if s.len() == 186 {
        36
    } else if s.len() == 189 {
        70
    } else if s.len() == 190 {
        74
    } else if s.len() == 201 {
        52
    } else if s.len() == 202 {
        71
    } else if s.len() == 219 {
        60
    } else if s.len() == 221 {
        72
    } else if s.len() == 227 {
        51
    } else {
        76
    }
}

/// The meaning of an error determines its code.
pub proof fn lemma_meaning_determines_code(e: ExecError)
    ensures
        code_of_meaning(e.spec_meaning()) == e.spec_code(),
{
    match e {
        ExecError::DecodeError(_) => {
            reveal_strlit("Tx envelope or payload could not be decoded as MessagePack at the expected version. \
                 Indicates a malformed wire frame or a client/server version mismatch.");
        },
        ExecError::OrderNotFound(_) => {
            reveal_strlit("Order ID does not exist on the requested market, or has already been filled or cancelled.");
        },
        ExecError::NotOwner(_) => {
            reveal_strlit("Tx signer is not the owner of the referenced order; only the owner (or an approved agent) \
                 may cancel or amend it.");
        },
        ExecError::UnauthorizedOracle => {
            reveal_strlit("Oracle update was signed by a key that is not registered as an oracle signer for the market.");
        },
        ExecError::Overflow => {
            reveal_strlit("An arithmetic operation (price * quantity, fee accrual, position size) overflowed a u64. \
                 Almost always indicates a malformed input rather than legitimate volume.");
        },
        ExecError::InvalidPrice => {
            reveal_strlit("Price is zero, exceeds the per-market max, or violates tick-size quantization.");
        },
        ExecError::InvalidQuantity => {
            reveal_strlit("Quantity is zero, exceeds the per-market max, or violates lot-size quantization.");
        },
        ExecError::InvalidSide => {
            reveal_strlit("Side byte is neither Buy (0) nor Sell (1).");
        },
        ExecError::UnknownMarket(_) => {
            reveal_strlit("Market ID is not registered. Either the market does not exist or it has been removed.");
        },
        ExecError::InsufficientBalance => {
            reveal_strlit("Account's USDC balance cannot cover the requested debit (deposit, withdrawal, or fee).");
        },
        ExecError::InsufficientMargin => {
            reveal_strlit("Post-trade equity would fall below the initial-margin requirement for the resulting \
                 portfolio. Reduce order size, add collateral, or close offsetting positions.");
        },
        ExecError::StateCorruption(_) => {
            reveal_strlit("Engine read state in an unexpected shape (e.g. missing required key, malformed value). \
                 Indicates a bug or data corruption — file an issue with the surrounding context.");
        },
        ExecError::AdminGovernanceInactive => {
            reveal_strlit("Admin governance action (propose/approve/reject/emergency) was submitted while no \
                 admin signer registry exists on this chain; multisig administration is inactive and \
                 every governance path fails closed.");
        },
        ExecError::NotAdminSigner => {
            reveal_strlit("Tx signer does not match the action's declared proposer/approver/rejecter/signer \
                 field, or is not a member of the current admin signer registry.");
        },
        ExecError::ProposalNotFound(_) => {
            reveal_strlit("No admin proposal exists under the given id. Either it was never created or \
                 terminal-retention pruning removed it; query /v1/proposals for the live set.");
        },
        ExecError::ProposalNotPending { .. } => {
            reveal_strlit("The admin proposal is already terminal (executed, failed, rejected, or expired); \
                 votes are only accepted while it is pending.");
        },
        ExecError::ProposalExpired(_) => {
            reveal_strlit("The admin proposal passed its TTL. Approvals are never durable credentials — \
                 re-propose and collect fresh signatures.");
        },
        ExecError::DuplicateApproval => {
            reveal_strlit("This signer already approved the proposal (the proposer's own approval is \
                 recorded at creation). Each member votes at most once.");
        },
        ExecError::DuplicateRejection => {
            reveal_strlit("This signer already rejected the proposal. Each member votes at most once.");
        },
        ExecError::ProposalRegistryVersionMismatch { .. } => {
            reveal_strlit("The submitted registry version does not match the current signer registry. A \
                 rotation happened since the payload was built — re-read the registry and re-sign.");
        },
        ExecError::ProposalContentMismatch => {
            reveal_strlit("The approval's immutable context does not exactly match the stored proposal \
                 (field-by-field plus canonical action bytes plus recomputed content hash). \
                 Rebuild the approval from the proposals query; never sign a summary.");
        },
        ExecError::InvalidAdminAction(_) => {
            reveal_strlit("The inner admin or emergency action failed validation: unknown or not-admitted \
                 arm, non-zero inner signer on a governance-authorized action, or an out-of-bounds \
                 field.");
        },
        ExecError::AdminActionTooLarge { .. } => {
            reveal_strlit("The canonical inner action encoding exceeds MAX_ADMIN_ACTION_BYTES; the proposal \
                 is rejected before any state is written.");
        },
        ExecError::TooManyPendingProposals => {
            reveal_strlit("MAX_PENDING_PROPOSALS admin proposals are already pending. Approve, reject, or \
                 let one expire before proposing again.");
        },
        ExecError::ProposalIdExhausted => {
            reveal_strlit("A governance id counter reached its maximum; ids never wrap. This is effectively \
                 unreachable and indicates a defect if observed.");
        },
        ExecError::ConflictingVote => {
            reveal_strlit("This signer already cast the opposite vote on the proposal. Votes are immutable: \
                 approvals and rejections are disjoint and cannot be switched.");
        },
        ExecError::MarketIdOutOfRange { .. } => {
            reveal_strlit("Market id exceeds the signed-32-bit identity bound (i32::MAX) that downstream \
                 columns, parsers, and APIs rely on. Pick a smaller id.");
        },
        ExecError::EmergencyRateLimited { .. } => {
            reveal_strlit("This signer exceeded the per-signer emergency action bound within the rolling \
                 window; the action was not executed.");
        },
        ExecError::EmergencyGlobalRateLimited { .. } => {
            reveal_strlit("The chain-wide emergency action bound was reached within the rolling window; the \
                 action was not executed.");
        },
        ExecError::EmergencyActionRetired => {
            reveal_strlit("This emergency arm was retired at a protocol boundary. Historical executions \
                 replay unchanged; new submissions of the arm fail closed.");
        },
        ExecError::AdminActionRequiresProposal => {
            reveal_strlit("The admin signer registry exists, so this registry-gated admin action is \
                 proposal-only: its direct path is closed even for an authorized relayer. \
                 Submit it as a governance proposal instead.");
        },
        ExecError::InvalidAdminRegistry(_) => {
            reveal_strlit("The proposed signer roster violates the registry invariants: threshold in \
                 [2, members], canonically sorted duplicate-free members, roster within \
                 MAX_ADMIN_SIGNERS, version headroom. Nothing was mutated.");
        },
        ExecError::BridgeReceiptRegistryInactive => {
            reveal_strlit("A receipt-gated withdrawal action (ConfirmWithdrawalReceipt / \
                 FailWithdrawalReceipt) was submitted while no operator receipt registry \
                 exists on this chain; the operator custody phase is inactive and the path \
                 fails closed.");
        },
        ExecError::BridgeReceiptInvalid(_) => {
            reveal_strlit("The operator quorum proof failed bridge-core verification: malformed proof \
                 structure, fewer than m distinct operator members, or an invalid ed25519 \
                 signature over the receipt bytes.");
        },
        ExecError::BridgeReceiptMismatch(_) => {
            reveal_strlit("The signed bridge receipt does not bind to this withdrawal or deployment \
                 (deployment id, withdrawal id, owner, amount, destination, authority epoch, \
                 quorum kind, or terminal state diverged).");
        },
        ExecError::WithdrawalBelowMinimum { .. } => {
            reveal_strlit("Net withdrawal amount is below the configured minimum (set above the flat protocol \
                 fee), so the payout would be worth less than it costs to settle.");
        },
        ExecError::WithdrawalTerminalGated(_) => {
            reveal_strlit("A retired legacy relayer withdrawal terminal (ConfirmWithdrawal / FailWithdrawal) \
                 was submitted at or after the bridge receipt cutover. (An operator-receipt \
                 terminal submitted before the cutover instead fails as a decode error, code 1, \
                 byte-identically to the pre-upgrade binary.)");
        },
        ExecError::InternalError(_) => {
            reveal_strlit("Catch-all for unexpected runtime failures (panics caught by the FFI boundary, etc.). \
                 Treat as a server bug.");
        },
        ExecError::UnauthorizedRelayer => {
            reveal_strlit("Tx is a relayer-only action (oracle update, funding tick, deposit confirmation, etc.) \
                 but the signer is not registered as an authorized relayer.");
        },
        ExecError::WithdrawalNotFound(_) => {
            reveal_strlit("Withdrawal ID does not exist or has already been claimed/refunded.");
        },
        ExecError::WithdrawalAlreadyProcessed(_) => {
            reveal_strlit("Withdrawal was already settled (claim or refund); duplicate finalize call rejected.");
        },
        ExecError::DuplicateDeposit => {
            reveal_strlit("On-chain deposit signature has already been credited; idempotency guard rejected the replay.");
        },
        ExecError::InvalidSignature => {
            reveal_strlit("Ed25519 verification of the V2 envelope failed. Signature, pubkey, or signed bytes are wrong.");
        },
        ExecError::SignatureRequired => {
            reveal_strlit("A signed (V2) transaction envelope is required. Unsigned (V1) envelopes are not accepted.");
        },
        ExecError::AgentNotAuthorized => {
            reveal_strlit("Tx signer is neither the account owner nor on the owner's approved-agent list.");
        },
        ExecError::AgentCannotWithdraw => {
            reveal_strlit("Agent wallets may place/cancel/market orders but are forbidden from initiating withdrawals.");
        },
        ExecError::NonceTooOld { .. } => {
            reveal_strlit("Timestamp nonce failed replay-window validation. Use a unique millisecond Unix timestamp within \
                 [block_time-2d, block_time+1d]; included failures burn their nonce.");
        },
        ExecError::NonceTooFarFuture { .. } => {
            reveal_strlit("Timestamp nonce failed replay-window validation. Use a unique millisecond Unix timestamp within \
                 [block_time-2d, block_time+1d]; included failures burn their nonce.");
        },
        ExecError::NonceReplay { .. } => {
            reveal_strlit("Timestamp nonce failed replay-window validation. Use a unique millisecond Unix timestamp within \
                 [block_time-2d, block_time+1d]; included failures burn their nonce.");
        },
        ExecError::NonceBelowOldest { .. } => {
            reveal_strlit("Timestamp nonce failed replay-window validation. Use a unique millisecond Unix timestamp within \
                 [block_time-2d, block_time+1d]; included failures burn their nonce.");
        },
        ExecError::MarketAlreadyExists(_) => {
            reveal_strlit("Attempted CreateMarket for a market ID already in the registry.");
        },
        ExecError::InvalidMarketConfig(_) => {
            reveal_strlit("MarketConfig fields fail validation (e.g. fee bps out of range, lot/tick zero, IM/MM ratio \
                 inverted).");
        },
        ExecError::ImpactMarketAlreadyExists(_) => {
            reveal_strlit("Attempted CreateImpactMarket for an impact market ID already in the registry.");
        },
        ExecError::ImpactMarketNotFound(_) => {
            reveal_strlit("Impact market ID does not exist; cannot resolve, cash-out, or query.");
        },
        ExecError::MarketClosedForTrading(_) => {
            reveal_strlit("Order placement attempted on a conditional/binary book whose parent impact market is \
                 already resolved or voided.");
        },
        ExecError::BinaryPriceOutOfRange => {
            reveal_strlit("Binary-book order price is outside the [0, BINARY_PRICE_MAX] range.");
        },
        ExecError::InvalidResolution(_) => {
            reveal_strlit("ResolveImpactMarket called with an outcome incompatible with the current state (already resolved, \
                 outcome not in the configured set, etc.).");
        },
        ExecError::PositionLimitExceeded { .. } => {
            reveal_strlit("Fill would push absolute net position past MarketConfig.max_position_size. Engine cap \
                 enforced at placement time independent of margin.");
        },
        ExecError::OpenInterestLimitExceeded { .. } => {
            reveal_strlit("Fill would violate MarketConfig.max_open_interest. At schema v9+, an already-over-cap market \
                 may preserve or reduce its pre-fill aggregate OI but may not increase it; enforcement occurs \
                 before either side's position is mutated.");
        },
        ExecError::OracleTimestampNotMonotonic { .. } => {
            reveal_strlit("OracleUpdate publish_time_ms is not strictly greater than the last accepted update for \
                 this market — replay protection per audit B3 (2026-04-23).");
        },
        ExecError::TooManyActiveImpactMarkets { .. } => {
            reveal_strlit("Account would touch more impact markets than the scenario margin engine can enumerate \
                 (MAX_IMPACT_MARKETS_PER_ACCOUNT). Close a leg before opening another.");
        },
        ExecError::SettlementPriceMismatch { .. } => {
            reveal_strlit("Net-delta margin grouping found legs with disagreeing settle prices (data corruption \
                 across same `underlying_market_id`).");
        },
        ExecError::OracleNotApplicable { .. } => {
            reveal_strlit("OracleUpdate targets an impact-family market (CPY/CPN/EBY/EBN), which marks off the book \
                 and has no oracle layer.");
        },
        ExecError::PostOnlyWouldCross => {
            reveal_strlit("PlaceOrder with post_only=true would have crossed the book. Rejected so makers retain \
                 maker-side fills.");
        },
        ExecError::ReduceOnlyWouldIncrease => {
            reveal_strlit("PlaceOrder/MarketOrder with reduce_only=true was same-side as the existing position (would \
                 increase exposure) or no position existed.");
        },
        ExecError::TestActionRejected(_) => {
            reveal_strlit("Test/admin action (RunLiquidationSweep, RunFundingTick, ForceLiquidate) rejected because \
                 the engine isn't configured to accept them, or the position the action referenced does \
                 not exist.");
        },
        ExecError::FeeBpsOutOfRange { .. } => {
            reveal_strlit("Per-account fee override has a fee outside the legal basis-point range.");
        },
        ExecError::FeeOverrideStaleSeq { .. } => {
            reveal_strlit("Per-account fee override sequence is stale or out of order.");
        },
        ExecError::TickSizeViolation { .. } => {
            reveal_strlit("Order price is not an exact multiple of the market tick size.");
        },
        ExecError::LotSizeViolation { .. } => {
            reveal_strlit("Order quantity is not an exact multiple of the market lot size.");
        },
        ExecError::OracleStaleNotElapsed { .. } => {
            reveal_strlit("Fallback oracle signer published before the market staleness window elapsed.");
        },
        ExecError::StaleOracle { .. } => {
            reveal_strlit("Oracle price is stale for this market; refresh the oracle before placing orders, reading margin, or liquidating.");
        },
        ExecError::OracleGuardUnset { .. } => {
            reveal_strlit("The oracle-guard gate is active and this market has no mark-price max oracle age set; every mark-dependent action is refused until governance sets one.");
        },
        ExecError::UserLeverageBelowMarketIm { .. } => {
            reveal_strlit("User-selected initial margin is below the market risk floor; only deleveraging above the market floor is allowed.");
        },
        ExecError::ClientOrderIdNotFound { .. } => {
            reveal_strlit("No active resting order exists for the requested client order id.");
        },
        ExecError::DuplicateClientOrderId { .. } => {
            reveal_strlit("An active resting order already uses the requested client order id.");
        },
        ExecError::InvalidClientOrderId { .. } => {
            reveal_strlit("Client order id zero is reserved and cannot be submitted.");
        },
        ExecError::FillOrKillWouldNotFill { .. } => {
            reveal_strlit("Fill-or-kill order cannot be fully filled immediately at the submitted limit price.");
        },
        ExecError::InvalidCancelReplaceTarget => {
            reveal_strlit("Cancel-replace must specify exactly one active order target: either orderId or clientOrderId.");
        },
        ExecError::AmendBelowFilled { .. } => {
            reveal_strlit("AmendOrder new quantity is below the quantity already filled while the order rested.");
        },
        ExecError::SlippageExceeded { .. } => {
            reveal_strlit("Atomic basket aggregate slippage exceeded the requested maxSlippageBps budget.");
        },
        ExecError::SubAccountNotFound => {
            reveal_strlit("No sub-account exists in the registry for the given master address and sub-account id.");
        },
        ExecError::SubAccountAlreadyExists => {
            reveal_strlit("A sub-account with this master address and sub-account id already exists in the registry.");
        },
        ExecError::SubAccountTransferSameAccount => {
            reveal_strlit("Transfer from and to addresses are identical; no-op transfers are rejected.");
        },
        ExecError::SubAccountTransferBothChildren => {
            reveal_strlit("Neither side of a transfer is the master owner address; at least one side must be the master.");
        },
        ExecError::SubAccountTransferInsufficientBalance => {
            reveal_strlit("Source account has insufficient balance to complete the transfer.");
        },
        ExecError::SubAccountIdZero => {
            reveal_strlit("Sub-account id must be non-zero; id 0 is not a valid sub-account id.");
        },
    }
}

/// Two errors share a documented meaning exactly when they share a code: the
/// meaning depends only on the variant, the four timestamp-nonce rejections
/// (code 21) share one meaning, and every other variant has its own.
pub proof fn lemma_meaning_matches_code(e1: ExecError, e2: ExecError)
    ensures
        (e1.spec_meaning() == e2.spec_meaning()) <==> (e1.spec_code() == e2.spec_code()),
{
    lemma_meaning_determines_code(e1);
    lemma_meaning_determines_code(e2);
    lemma_code_table(e1, e2);
}

/// Settlement may be retried next block for exactly the four transient
/// settlement failures: an unknown market (code 9), an invalid resolution
/// (28), a stale oracle (37) and unset oracle guards (82). Every other
/// error, such as an insufficient balance, is final.
pub proof fn lemma_settlement_retryable_codes(e: ExecError)
    ensures
        e.spec_is_settlement_retryable() <==> (e is InvalidResolution || e is StaleOracle
            || e is OracleGuardUnset || e is UnknownMarket),
        e.spec_is_settlement_retryable() <==> (e.spec_code() == 9 || e.spec_code() == 28
            || e.spec_code() == 37 || e.spec_code() == 82),
        e is InsufficientBalance ==> !e.spec_is_settlement_retryable(),
{
}

} // verus!
