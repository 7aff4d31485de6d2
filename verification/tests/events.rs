use proof_wire::abci_event::AbciEventWriter;
use proof_wire::types::{
    CancelReason, Event, EventId, ExpiryReason, FailDepositReason, Outcome, Side, TimeInForce,
};

fn render(event: &Event) -> Vec<u8> {
    let mut writer = AbciEventWriter::new();
    event.encode_abci(&mut writer);
    writer.into_vec()
}

#[test]
fn order_placed_renders_every_field_in_order() {
    let owner = [0x0a; 20];
    let event = Event::OrderPlaced {
        order_id: 9,
        market: 1,
        owner,
        side: Side::Sell,
        price: 100,
        quantity: 3,
        client_order_id: 0,
        time_in_force: TimeInForce::Gtc,
        post_only: true,
        reduce_only: false,
    };
    let mut w = AbciEventWriter::new();
    w.begin_event("order_placed", 10);
    w.write_attr_u64("order_id", 9);
    w.write_attr_u64("market", 1);
    w.write_attr_hex("owner", &owner);
    w.write_attr("side", "sell");
    w.write_attr_u64("price", 100);
    w.write_attr_u64("quantity", 3);
    w.write_attr_u64("client_order_id", 0);
    w.write_attr("time_in_force", "gtc");
    w.write_attr("post_only", "true");
    w.write_attr("reduce_only", "false");
    assert_eq!(render(&event), w.into_vec());
}

#[test]
fn absent_signer_is_an_empty_attribute() {
    let event = Event::PriceUpdated { market: 1, price: 5, signer: None };
    let mut w = AbciEventWriter::new();
    w.begin_event("price_updated", 3);
    w.write_attr_u64("market", 1);
    w.write_attr_u64("price", 5);
    w.write_attr("signer", "");
    assert_eq!(render(&event), w.into_vec());
}

#[test]
fn present_signer_is_hex() {
    let signer = [0xfe; 20];
    let event = Event::Deposited { owner: [1; 20], amount: 7, new_balance: 8, signer: Some(signer) };
    let mut w = AbciEventWriter::new();
    w.begin_event("deposited", 4);
    w.write_attr_hex("owner", &[1; 20]);
    w.write_attr_u64("amount", 7);
    w.write_attr_u64("new_balance", 8);
    w.write_attr_hex("signer", &signer);
    assert_eq!(render(&event), w.into_vec());
}

#[test]
fn signed_values_render_with_a_minus_sign() {
    let event = Event::InsuranceFundUpdated { pool_id: 2, balance: -5, delta: i64::MIN };
    let mut w = AbciEventWriter::new();
    w.begin_event("insurance_fund_updated", 3);
    w.write_attr_u64("pool_id", 2);
    w.write_attr("balance", "-5");
    w.write_attr("delta", "-9223372036854775808");
    assert_eq!(render(&event), w.into_vec());
}

#[test]
fn strings_bytes_and_enums_render_as_text() {
    let event = Event::DepositFailed {
        solana_signature: vec![0xde, 0xad],
        reason: FailDepositReason::BelowMinimum,
        signer: None,
    };
    let mut w = AbciEventWriter::new();
    w.begin_event("deposit_failed", 3);
    w.write_attr("solana_signature", "dead");
    w.write_attr("reason", "below_minimum");
    w.write_attr("signer", "");
    assert_eq!(render(&event), w.into_vec());

    let event = Event::EventCreated {
        event_id: EventId(4),
        eby_market: 10,
        ebn_market: 11,
        question: "Will it rain?".to_string(),
        settlement_ms: 1,
        resolution_window_ms: 2,
        description: String::new(),
        rules: "r".to_string(),
    };
    let mut w = AbciEventWriter::new();
    w.begin_event("event_created", 8);
    w.write_attr_u64("event_id", 4);
    w.write_attr_u64("eby_market", 10);
    w.write_attr_u64("ebn_market", 11);
    w.write_attr("question", "Will it rain?");
    w.write_attr_u64("settlement_ms", 1);
    w.write_attr_u64("resolution_window_ms", 2);
    w.write_attr("description", "");
    w.write_attr("rules", "r");
    assert_eq!(render(&event), w.into_vec());
}

#[test]
fn event_types_are_snake_case_variant_names() {
    let event = Event::BinaryIssuedFromMTM {
        owner: [0; 20],
        cp_market: 1,
        binary_market: 2,
        signed_delta: -1,
        final_size: 0,
        final_entry: 0,
        cash_pnl_realized: 0,
    };
    let bytes = render(&event);
    let name = b"binary_issued_from_mtm";
    assert_eq!(bytes[0] as usize, name.len());
    assert_eq!(&bytes[2..2 + name.len()], name);
    assert_eq!(&bytes[2 + name.len()..4 + name.len()], &[7, 0]);

    let resolved = Event::EventResolved {
        event_id: EventId(1),
        outcome: Outcome::Void,
        timestamp_ms: 3,
        signer: None,
    };
    let mut w = AbciEventWriter::new();
    w.begin_event("event_resolved", 4);
    w.write_attr_u64("event_id", 1);
    w.write_attr("outcome", "void");
    w.write_attr_u64("timestamp_ms", 3);
    w.write_attr("signer", "");
    assert_eq!(render(&resolved), w.into_vec());
}

#[test]
fn cancellation_and_expiry_reasons_render_as_text() {
    let event = Event::OrderCancelled {
        order_id: 1,
        market: 2,
        owner: [0; 20],
        reason: CancelReason::AdminForce,
        client_order_id: 0,
        original_quantity: 5,
        remaining_quantity: 4,
        filled_quantity: 1,
    };
    let mut w = AbciEventWriter::new();
    w.begin_event("order_cancelled", 8);
    w.write_attr_u64("order_id", 1);
    w.write_attr_u64("market", 2);
    w.write_attr_hex("owner", &[0; 20]);
    w.write_attr("reason", "admin_force");
    w.write_attr_u64("client_order_id", 0);
    w.write_attr_u64("original_quantity", 5);
    w.write_attr_u64("remaining_quantity", 4);
    w.write_attr_u64("filled_quantity", 1);
    assert_eq!(render(&event), w.into_vec());

    let expired = Event::ProposalExpired { proposal_id: 3, reason: ExpiryReason::RegistryChanged };
    let mut w = AbciEventWriter::new();
    w.begin_event("proposal_expired", 2);
    w.write_attr_u64("proposal_id", 3);
    w.write_attr("reason", "registry_changed");
    assert_eq!(render(&expired), w.into_vec());
}

#[test]
fn events_append_after_earlier_output() {
    let mut w = AbciEventWriter::new();
    w.write_tx_header(2);
    Event::ProposalExecuted { proposal_id: 1 }.encode_abci(&mut w);
    Event::BridgeUnpauseAuthorized { proposal_id: 1 }.encode_abci(&mut w);
    let mut expected = AbciEventWriter::new();
    expected.write_tx_header(2);
    expected.begin_event("proposal_executed", 1);
    expected.write_attr_u64("proposal_id", 1);
    expected.begin_event("bridge_unpause_authorized", 1);
    expected.write_attr_u64("proposal_id", 1);
    assert_eq!(w.into_vec(), expected.into_vec());
}

#[test]
fn trigger_events_require_coordinates() {
    let trade = Event::TradeExecuted {
        fill_id: 1,
        market: 1,
        price: 1,
        quantity: 1,
        maker_order_id: 1,
        maker_client_order_id: 0,
        maker_owner: [0; 20],
        maker_side: Side::Buy,
        taker_order_id: 2,
        taker_owner: [1; 20],
        taker_client_order_id: 0,
        taker_fee: 1,
        maker_fee: -1,
    };
    assert!(trade.requires_trigger_coordinates());
    let deferred = Event::TriggerMarketDeferred { market: 1, reason: "stale".to_string() };
    assert!(deferred.requires_trigger_coordinates());
    let resumed = Event::TriggerMarketResumed { market: 1, previous_reason: String::new() };
    assert!(resumed.requires_trigger_coordinates());
    let placed = Event::PriceUpdated { market: 1, price: 1, signer: None };
    assert!(!placed.requires_trigger_coordinates());
    assert!(!Event::ProposalExecuted { proposal_id: 1 }.requires_trigger_coordinates());
}
