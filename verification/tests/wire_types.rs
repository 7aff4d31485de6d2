use proof_wire::triggers::{
    SetTriggerMarketConfig, TriggerBracketLimit, TriggerConfigVersion, TriggerFutureSkewMs,
    TriggerMarkMaxAgeMs,
};
use proof_wire::types::{
    AdminAction, AdminActionType, AuthorityDomain, Branch, CancelUpgrade, CreateMarket, DepositLocator,
    EmergencyAction, EmergencyActionType, EmergencyId, EventId, EventOracleSource, ExpiryReason,
    FailDepositReason, FundingSkipReason, LevelAggregate, MarketKind, OpenInterest,
    OracleRejectReason, Outcome, PriceComparison, ProposalId, ProposalStatus, ScheduleUpgrade,
    SignerAddress, Side, TimeInForce, TriggerSlippageBps, CancelReason,
};

#[test]
fn price_comparison_applies_strictly_or_with_equality() {
    assert!(PriceComparison::GreaterThan.apply(11, 10));
    assert!(!PriceComparison::GreaterThan.apply(10, 10));
    assert!(PriceComparison::GreaterThanOrEqual.apply(10, 10));
    assert!(PriceComparison::LessThan.apply(9, 10));
    assert!(!PriceComparison::LessThan.apply(10, 10));
    assert!(PriceComparison::LessThanOrEqual.apply(10, 10));
    assert!(!PriceComparison::LessThanOrEqual.apply(11, 10));
}

#[test]
fn price_comparison_complements() {
    for (p, s) in [(0u64, 0u64), (5, 7), (7, 5), (u64::MAX, 0)] {
        assert_ne!(
            PriceComparison::GreaterThan.apply(p, s),
            PriceComparison::LessThanOrEqual.apply(p, s)
        );
        assert_ne!(
            PriceComparison::LessThan.apply(p, s),
            PriceComparison::GreaterThanOrEqual.apply(p, s)
        );
    }
}

#[test]
fn price_comparison_phrases_and_labels() {
    assert_eq!(PriceComparison::GreaterThan.phrase(), "strictly greater than");
    assert_eq!(PriceComparison::LessThan.phrase(), "strictly less than");
    assert_eq!(PriceComparison::GreaterThanOrEqual.phrase(), "greater than or equal to");
    assert_eq!(PriceComparison::LessThanOrEqual.phrase(), "less than or equal to");
    assert_eq!(PriceComparison::GreaterThan.to_string(), "gt");
    assert_eq!(PriceComparison::LessThan.to_string(), "lt");
    assert_eq!(PriceComparison::GreaterThanOrEqual.to_string(), "gte");
    assert_eq!(PriceComparison::LessThanOrEqual.to_string(), "lte");
}

#[test]
fn display_texts() {
    assert_eq!(EventId(42).to_string(), "42");
    assert_eq!(Branch::Yes.to_string(), "yes");
    assert_eq!(Branch::No.to_string(), "no");
    assert_eq!(Outcome::Yes.to_string(), "yes");
    assert_eq!(Outcome::No.to_string(), "no");
    assert_eq!(Outcome::Void.to_string(), "void");
    assert_eq!(Side::Buy.to_string(), "buy");
    assert_eq!(Side::Sell.to_string(), "sell");
    assert_eq!(TimeInForce::Gtc.to_string(), "gtc");
    assert_eq!(TimeInForce::Ioc.to_string(), "ioc");
    assert_eq!(TimeInForce::Fok.to_string(), "fok");
    assert_eq!(FundingSkipReason::OracleStale.to_string(), "oracle_stale");
    assert_eq!(FundingSkipReason::OracleGuardUnset.to_string(), "oracle_guard_unset");
    assert_eq!(OracleRejectReason::DeviationExceeded.to_string(), "deviation_exceeded");
    assert_eq!(OracleRejectReason::DeviationBandUnset.to_string(), "deviation_band_unset");
    assert_eq!(ExpiryReason::Ttl.to_string(), "ttl");
    assert_eq!(ExpiryReason::RegistryChanged.to_string(), "registry_changed");
    assert_eq!(FailDepositReason::MalformedTx.to_string(), "malformed_tx");
    assert_eq!(FailDepositReason::UnsupportedToken.to_string(), "unsupported_token");
    assert_eq!(FailDepositReason::BelowMinimum.to_string(), "below_minimum");
    assert_eq!(FailDepositReason::Other.to_string(), "other");
    assert_eq!(CancelReason::UserRequested.to_string(), "user_requested");
    assert_eq!(CancelReason::Expired.to_string(), "expired");
    assert_eq!(CancelReason::AdminForce.to_string(), "admin_force");
    assert_eq!(CancelReason::Liquidation.to_string(), "liquidation");
}

#[test]
fn oracle_source_display() {
    let a = EventOracleSource::UnderlyingPriceVsStrike {
        strike_price: 65_000_000_000,
        comparison: PriceComparison::GreaterThan,
    };
    assert_eq!(a.to_string(), "underlying_price_vs_strike:65000000000:gt");
    let b = EventOracleSource::MarketOracle {
        market: 2,
        strike_price: 9,
        comparison: PriceComparison::LessThanOrEqual,
    };
    assert_eq!(b.to_string(), "market_oracle:2:9:lte");
    assert_eq!(EventOracleSource::RelayerAttested.to_string(), "relayer_attested");
}

#[test]
fn market_kind_accessors() {
    let perp = MarketKind::Perp;
    assert_eq!(perp.impact_market_id(), None);
    assert_eq!(perp.event_id(), None);
    assert_eq!(perp.branch(), None);
    assert!(!perp.is_conditional_perp());
    assert!(!perp.is_prediction_binary());

    let cp = MarketKind::ConditionalPerp { impact_market_id: 7, branch: Branch::No };
    assert_eq!(cp.impact_market_id(), Some(7));
    assert_eq!(cp.event_id(), None);
    assert_eq!(cp.branch(), Some(Branch::No));
    assert!(cp.is_conditional_perp());
    assert!(!cp.is_prediction_binary());

    let bin = MarketKind::PredictionBinary { event_id: EventId(9), branch: Branch::Yes };
    assert_eq!(bin.impact_market_id(), Some(9));
    assert_eq!(bin.event_id(), Some(EventId(9)));
    assert_eq!(bin.branch(), Some(Branch::Yes));
    assert!(!bin.is_conditional_perp());
    assert!(bin.is_prediction_binary());
    assert_eq!(MarketKind::default(), MarketKind::Perp);
}

#[test]
fn proposal_keys_are_big_endian() {
    let id = ProposalId(0x0102_0304_0506_0708);
    assert_eq!(id.to_key_bytes(), [1, 2, 3, 4, 5, 6, 7, 8]);
    assert_eq!(ProposalId::from_key_bytes([1, 2, 3, 4, 5, 6, 7, 8]), id);
    assert_eq!(ProposalId(0).to_key_bytes(), [0; 8]);
    assert_eq!(ProposalId(u64::MAX).to_key_bytes(), [0xff; 8]);
}

#[test]
fn key_bytes_round_trip_and_sort_like_ids() {
    let ids = [0u64, 1, 255, 256, 65_535, 1 << 40, u64::MAX - 1, u64::MAX];
    for a in ids {
        assert_eq!(ProposalId::from_key_bytes(ProposalId(a).to_key_bytes()), ProposalId(a));
        assert_eq!(EmergencyId::from_key_bytes(EmergencyId(a).to_key_bytes()), EmergencyId(a));
        for b in ids {
            assert_eq!(
                a < b,
                ProposalId(a).to_key_bytes() < ProposalId(b).to_key_bytes(),
                "{a} vs {b}"
            );
        }
    }
}

#[test]
fn proposal_status_tags_and_labels() {
    let by = SignerAddress([3; 20]);
    let cases = [
        (ProposalStatus::Pending, 0, "pending"),
        (ProposalStatus::Executed, 1, "executed"),
        (ProposalStatus::Failed { code: 61 }, 2, "failed"),
        (ProposalStatus::Rejected { by }, 3, "rejected"),
        (ProposalStatus::Expired { reason: ExpiryReason::Ttl }, 4, "expired"),
    ];
    for (status, tag, label) in cases {
        assert_eq!(status.status_tag(), tag);
        assert_eq!(status.label(), label);
    }
}

#[test]
fn admin_action_tags_follow_the_ledger() {
    assert_eq!(AdminAction::CreateMarket(CreateMarket::default()).action_tag(), 1);
    assert_eq!(AdminAction::Batch(vec![]).action_tag(), 4);
    assert_eq!(AdminAction::Batch(vec![]).action_type(), AdminActionType::Batch);
    assert_eq!(AdminAction::UnpauseBridge.action_tag(), 6);
    assert_eq!(AdminAction::UnpauseBridge.action_type(), AdminActionType::UnpauseBridge);
    let schedule = ScheduleUpgrade {
        target_height: 10,
        protocol_version: 2,
        successor_sha256: [0; 32],
    };
    assert_eq!(AdminAction::ScheduleUpgrade(schedule).action_tag(), 14);
    assert_eq!(
        AdminAction::CancelUpgrade(CancelUpgrade { target_height: 10 }).action_tag(),
        15
    );
    let trigger = SetTriggerMarketConfig {
        market: 1,
        expected_current_version: Some(TriggerConfigVersion(3)),
        enabled: true,
        max_trigger_slippage_bps: TriggerSlippageBps(50),
        max_mark_age_ms: TriggerMarkMaxAgeMs(1000),
        max_future_publish_skew_ms: TriggerFutureSkewMs(100),
        max_active_brackets: TriggerBracketLimit(4),
    };
    assert_eq!(AdminAction::SetTriggerMarketConfig(trigger).action_tag(), 5);
}

#[test]
fn emergency_action_tags_and_markets() {
    let pause = EmergencyAction::PauseMarket { market_id: 5 };
    let halt = EmergencyAction::HaltTrading {};
    let reduce = EmergencyAction::SetReduceOnly { market_id: 6 };
    assert_eq!(pause.action_tag(), 1);
    assert_eq!(halt.action_tag(), 2);
    assert_eq!(reduce.action_tag(), 3);
    assert_eq!(pause.action_type(), EmergencyActionType::PauseMarket);
    assert_eq!(halt.action_type(), EmergencyActionType::HaltTrading);
    assert_eq!(reduce.action_type(), EmergencyActionType::SetReduceOnly);
    assert_eq!(pause.market_id(), Some(5));
    assert_eq!(halt.market_id(), None);
    assert_eq!(reduce.market_id(), Some(6));
}

#[test]
fn level_aggregate_transitions() {
    let empty = LevelAggregate::default();
    assert!(empty.is_vacant());
    assert!(!empty.is_inconsistent());
    let one = empty.added(100).unwrap();
    assert_eq!(one, LevelAggregate { total_quantity: 100, order_count: 1 });
    assert!(!one.is_vacant());
    let partly = one.reduced(40).unwrap();
    assert_eq!(partly, LevelAggregate { total_quantity: 60, order_count: 1 });
    assert_eq!(partly.reduced(61), None);
    assert_eq!(partly.removed(60), Some(LevelAggregate { total_quantity: 0, order_count: 0 }));
    assert_eq!(partly.removed(61), None);
    assert_eq!(empty.removed(0), None);
    assert_eq!(empty.reduced(0), None);
    let orphan = LevelAggregate { total_quantity: 5, order_count: 0 };
    assert!(orphan.is_inconsistent());
    assert!(!orphan.is_vacant());
}

#[test]
fn level_aggregate_overflow_is_refused() {
    let full = LevelAggregate { total_quantity: u64::MAX, order_count: 1 };
    assert_eq!(full.added(1), None);
    let crowded = LevelAggregate { total_quantity: 0, order_count: u32::MAX };
    assert_eq!(crowded.added(0), None);
}

#[test]
fn removing_an_order_undoes_adding_it() {
    for (q, c, add) in [(0u64, 0u32, 0u64), (10, 2, 5), (u64::MAX - 5, 7, 5)] {
        let level = LevelAggregate { total_quantity: q, order_count: c };
        let grown = level.added(add).unwrap();
        assert_eq!(grown.removed(add), Some(level));
    }
}

#[test]
fn open_interest_magnitude_is_the_larger_side() {
    assert_eq!(OpenInterest { long: 5, short: 3 }.magnitude(), 5);
    assert_eq!(OpenInterest { long: 2, short: 9 }.magnitude(), 9);
    assert_eq!(OpenInterest { long: 4, short: 4 }.magnitude(), 4);
    assert_eq!(OpenInterest::default().magnitude(), 0);
}

#[test]
fn create_market_defaults() {
    let c = CreateMarket::default();
    assert_eq!(c.market, 0);
    assert_eq!(c.im_bps, 3334);
    assert_eq!(c.mm_bps, 1667);
    assert_eq!(c.taker_fee_bps, 5);
    assert_eq!(c.maker_fee_bps, 2);
    assert_eq!(c.signer, [0u8; 20]);
    assert_eq!(c.funding_interval_ms, 60_000);
    assert_eq!(c.max_funding_rate_bps, 3000);
    assert_eq!(c.pool_id, 0);
    assert_eq!(c.sz_decimals, 0);
    assert_eq!(c.ticker, "");
    assert_eq!(c.max_open_interest, 0);
}

#[test]
fn deposit_locator_suffix() {
    let legacy = DepositLocator { top_index: 0, inner_index: None };
    assert_eq!(legacy.id_suffix(), [0, 0, 0xff, 0xff]);
    let nested = DepositLocator { top_index: 0x0102, inner_index: Some(3) };
    assert_eq!(nested.id_suffix(), [1, 2, 0, 3]);
    let top = DepositLocator { top_index: 7, inner_index: Some(0) };
    assert_eq!(top.id_suffix(), [0, 7, 0, 0]);
}

#[test]
fn legacy_locator_is_top_zero_without_inner_index() {
    let legacy = DepositLocator::legacy();
    assert_eq!(legacy, DepositLocator { top_index: 0, inner_index: None });
    assert_eq!(legacy.id_suffix(), [0, 0, 0xff, 0xff]);
}

#[test]
fn deposit_locator_suffix_collides_only_at_the_sentinel() {
    let none = DepositLocator { top_index: 1, inner_index: None };
    let sentinel = DepositLocator { top_index: 1, inner_index: Some(u16::MAX) };
    assert_eq!(none.id_suffix(), sentinel.id_suffix());
    let other = DepositLocator { top_index: 1, inner_index: Some(u16::MAX - 1) };
    assert_ne!(none.id_suffix(), other.id_suffix());
}

#[test]
fn discriminant_tags_follow_the_wire_values() {
    assert_eq!(Branch::Yes.tag(), 1);
    assert_eq!(Branch::No.tag(), 2);
    assert_eq!(Outcome::Yes.tag(), 1);
    assert_eq!(Outcome::No.tag(), 2);
    assert_eq!(Outcome::Void.tag(), 3);
    assert_eq!(Side::Buy.tag(), 1);
    assert_eq!(Side::Sell.tag(), 2);
    assert_eq!(TimeInForce::Gtc.tag(), 0);
    assert_eq!(TimeInForce::Ioc.tag(), 1);
    assert_eq!(TimeInForce::Fok.tag(), 2);
    assert_eq!(AuthorityDomain::Oracle.tag(), 1);
    assert_eq!(AuthorityDomain::Custody.tag(), 4);
    assert_eq!(AuthorityDomain::ScheduledOps.tag(), 6);
    assert_eq!(AdminActionType::CreateMarket.tag(), 1);
    assert_eq!(AdminActionType::ReservedRt01B.tag(), 10);
    assert_eq!(AdminActionType::CancelUpgrade.tag(), 15);
    assert_eq!(EmergencyActionType::PauseMarket.tag(), 1);
    assert_eq!(EmergencyActionType::SetReduceOnly.tag(), 3);
    assert_eq!(
        AdminAction::UnpauseBridge.action_type().tag(),
        AdminAction::UnpauseBridge.action_tag()
    );
}
