use proof_wire::types::{
    ExecError, ExpiryReason, ProposalId, ProposalStatus, RegistryVersion, BINARY_PRICE_MAX,
};

#[test]
fn codes_follow_the_table() {
    assert_eq!(ExecError::DecodeError(String::new()).code(), 1);
    assert_eq!(ExecError::OrderNotFound(1).code(), 2);
    assert_eq!(ExecError::UnknownMarket(1).code(), 9);
    assert_eq!(ExecError::StateCorruption(String::new()).code(), 10);
    assert_eq!(ExecError::InsufficientBalance.code(), 11);
    assert_eq!(ExecError::NonceTooOld { min_accepted: 1, got: 0 }.code(), 21);
    assert_eq!(ExecError::NonceReplay { nonce: 1 }.code(), 21);
    assert_eq!(ExecError::SlippageExceeded { aggregate_bps: 1, max_slippage_bps: 0 }.code(), 50);
    assert_eq!(
        ExecError::OpenInterestLimitExceeded { market: 1, limit: 1, would_be: 2 }.code(),
        51
    );
    assert_eq!(ExecError::OracleGuardUnset { market: 1 }.code(), 82);
    assert_eq!(ExecError::SubAccountIdZero.code(), 88);
    assert_eq!(ExecError::InternalError(String::new()).code(), 255);
}

#[test]
fn codes_avoid_the_gateway_range() {
    let samples = [
        ExecError::InternalError("x".to_string()),
        ExecError::SubAccountIdZero,
        ExecError::WithdrawalTerminalGated(String::new()),
        ExecError::InvalidSide,
    ];
    for e in samples {
        assert!(![401, 413, 429, 500].contains(&e.code()));
    }
}

#[test]
fn messages_interpolate_fields() {
    assert_eq!(ExecError::OrderNotFound(7).to_string(), "order not found: 7");
    assert_eq!(ExecError::DecodeError("bad".to_string()).to_string(), "decode error: bad");
    assert_eq!(ExecError::ProposalNotFound(ProposalId(3)).to_string(), "proposal not found: 3");
    assert_eq!(
        ExecError::ProposalNotPending {
            id: ProposalId(4),
            status: ProposalStatus::Expired { reason: ExpiryReason::Ttl },
        }
        .to_string(),
        "proposal 4 is not pending: expired"
    );
    assert_eq!(
        ExecError::ProposalRegistryVersionMismatch {
            expected: RegistryVersion(2),
            got: RegistryVersion(1),
        }
        .to_string(),
        "registry version mismatch: expected 2, got 1"
    );
    assert_eq!(
        ExecError::AdminActionTooLarge { max: 2048, got: 4096 }.to_string(),
        "admin action too large: 4096 bytes exceeds max 2048"
    );
    assert_eq!(
        ExecError::BinaryPriceOutOfRange.to_string(),
        format!("prediction-binary price must be in [0, {}]", BINARY_PRICE_MAX)
    );
    assert_eq!(ExecError::Overflow.to_string(), "arithmetic overflow");
}

#[test]
fn stale_oracle_age_saturates() {
    let fresh_looking = ExecError::StaleOracle {
        market: 1,
        publish_time_ms: 100,
        block_time_ms: 50,
        max_staleness_ms: 10,
    };
    assert_eq!(
        fresh_looking.to_string(),
        "oracle stale on market 1: last publish_time 100ms, block time 50ms (age 0ms > cap 10ms)"
    );
    let stale = ExecError::StaleOracle {
        market: 2,
        publish_time_ms: 50,
        block_time_ms: 100,
        max_staleness_ms: 10,
    };
    assert_eq!(
        stale.to_string(),
        "oracle stale on market 2: last publish_time 50ms, block time 100ms (age 50ms > cap 10ms)"
    );
}

#[test]
fn continued_format_strings_join_without_the_line_break() {
    assert_eq!(
        ExecError::OracleTimestampNotMonotonic { market: 1, stored: 5, submitted: 5 }.to_string(),
        "oracle publish_time_ms not strictly monotonic on market 1: stored 5, submitted 5 (submitted must be > stored)"
    );
}

#[test]
fn meanings_are_the_documented_strings() {
    assert_eq!(
        ExecError::InvalidSide.meaning(),
        "Side byte is neither Buy (0) nor Sell (1)."
    );
    assert_eq!(
        ExecError::DecodeError(String::new()).meaning(),
        "Tx envelope or payload could not be decoded as MessagePack at the expected version. \
         Indicates a malformed wire frame or a client/server version mismatch."
    );
    assert_eq!(
        ExecError::NonceReplay { nonce: 1 }.meaning(),
        ExecError::NonceBelowOldest { oldest: 1, got: 0 }.meaning()
    );
}

#[test]
fn settlement_retryable_errors() {
    assert!(ExecError::InvalidResolution(String::new()).is_settlement_retryable());
    assert!(ExecError::UnknownMarket(1).is_settlement_retryable());
    assert!(ExecError::OracleGuardUnset { market: 1 }.is_settlement_retryable());
    assert!(ExecError::StaleOracle {
        market: 1,
        publish_time_ms: 0,
        block_time_ms: 0,
        max_staleness_ms: 0
    }
    .is_settlement_retryable());
    assert!(!ExecError::Overflow.is_settlement_retryable());
    assert!(!ExecError::InsufficientMargin.is_settlement_retryable());
}

#[test]
fn meanings_are_shared_exactly_when_codes_are() {
    let errors = vec![
        ExecError::NonceTooOld { min_accepted: 1, got: 0 },
        ExecError::NonceTooFarFuture { max_accepted: 1, got: 2 },
        ExecError::NonceReplay { nonce: 1 },
        ExecError::NonceBelowOldest { oldest: 1, got: 0 },
        ExecError::OrderNotFound(1),
        ExecError::OrderNotFound(2),
        ExecError::NotOwner(1),
        ExecError::SlippageExceeded { aggregate_bps: 1, max_slippage_bps: 0 },
        ExecError::OpenInterestLimitExceeded { market: 1, limit: 1, would_be: 2 },
        ExecError::InternalError(String::new()),
        ExecError::SubAccountIdZero,
    ];
    for a in &errors {
        for b in &errors {
            assert_eq!(a.meaning() == b.meaning(), a.code() == b.code(), "{a:?} vs {b:?}");
        }
    }
}
