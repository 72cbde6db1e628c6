//! Tests for the streaming client's decision core: subscription recording,
//! the connect plan, and the aggregation of connection task outcomes.

use ig_client::{
    ConnTaskResult, DeliveryMode, StreamError, StreamerCore, StreamingAccountDataField,
    StreamingMarketField, StreamingPriceField, connect_outcome,
};

fn sample_core() -> StreamerCore {
    StreamerCore::new("Z4B11C".to_string(), None)
}

#[test]
fn fresh_core_starts_no_connection_class() {
    let c = sample_core();
    let p = c.connect_plan();
    assert!(!p.start_market);
    assert!(!p.start_price);
}

#[test]
fn market_subscribe_marks_market_class() {
    let mut c = sample_core();
    let epics = vec!["A".to_string()];
    let fields = vec![StreamingMarketField::Bid];
    let d = c.market_subscribe(&epics, &fields);
    assert_eq!(d.items, vec!["MARKET:A".to_string()]);
    assert_eq!(d.mode, DeliveryMode::Merge);
    let p = c.connect_plan();
    assert!(p.start_market);
    assert!(!p.start_price);
}

#[test]
fn trade_and_account_subscribe_share_the_market_class() {
    let mut c = sample_core();
    let d = c.trade_subscribe();
    assert_eq!(d.items, vec!["TRADE:Z4B11C".to_string()]);
    assert_eq!(d.mode, DeliveryMode::Distinct);

    let d = c.account_subscribe(&vec![StreamingAccountDataField::Pnl]);
    assert_eq!(d.items, vec!["ACCOUNT:Z4B11C".to_string()]);

    let p = c.connect_plan();
    assert!(p.start_market);
    assert!(!p.start_price);
}

#[test]
fn price_subscribe_marks_price_class_only() {
    let mut c = sample_core();
    let d = c.price_subscribe(&vec!["E".to_string()], &vec![StreamingPriceField::BidPrice1]);
    assert_eq!(d.items, vec!["PRICE:Z4B11C:E".to_string()]);
    assert_eq!(d.data_adapter, Some("Pricing".to_string()));
    let p = c.connect_plan();
    assert!(!p.start_market);
    assert!(p.start_price);
}

#[test]
fn price_subscribe_uses_configured_override() {
    let mut c = StreamerCore::new("ACC".to_string(), Some("AltPricing".to_string()));
    let d = c.price_subscribe(&vec!["E".to_string()], &vec![StreamingPriceField::Timestamp]);
    assert_eq!(d.data_adapter, Some("AltPricing".to_string()));
}

#[test]
fn graceful_shutdown_with_one_idle_class() {
    // A client with zero subscribers on the price class never starts it, and
    // the connect reports success once the started class finishes.
    let mut c = sample_core();
    c.market_subscribe(&vec!["A".to_string()], &vec![StreamingMarketField::Bid]);
    let p = c.connect_plan();
    assert!(p.start_market);
    assert!(!p.start_price);

    let results = vec![ConnTaskResult::Completed];
    assert!(connect_outcome(&results).is_ok());
}

#[test]
fn connect_outcome_with_no_started_class_is_success() {
    assert!(connect_outcome(&Vec::new()).is_ok());
}

#[test]
fn connect_outcome_reports_any_failure() {
    let results = vec![
        ConnTaskResult::Completed,
        ConnTaskResult::Failed("maximum connection attempts (3) exceeded".to_string()),
    ];
    match connect_outcome(&results) {
        Err(StreamError::WebSocketError(m)) => {
            assert_eq!(m, "one or more streaming connections failed");
        }
        _ => panic!("a failed task must fail the aggregate outcome"),
    }
}

#[test]
fn connect_outcome_reports_a_panicked_task() {
    let results = vec![
        ConnTaskResult::Panicked("task panicked".to_string()),
        ConnTaskResult::Completed,
    ];
    assert!(connect_outcome(&results).is_err());
}
