//! Tests for the subscription builders and the bridge that turns a
//! descriptor into a configured push-protocol subscription.

use ig_client::{
    DeliveryMode, StreamingAccountDataField, StreamingMarketField, StreamingPriceField,
    build_account_subscription, build_market_subscription, build_price_subscription,
    build_trade_subscription, configure_subscription,
};

#[test]
fn market_descriptor_namespaces_items_and_renders_fields() {
    let epics = vec!["A".to_string(), "B".to_string()];
    let fields = vec![StreamingMarketField::Bid, StreamingMarketField::Offer];
    let d = build_market_subscription(&epics, &fields);
    assert_eq!(d.mode, DeliveryMode::Merge);
    assert!(d.snapshot);
    assert_eq!(d.data_adapter, None);
    assert_eq!(d.items, vec!["MARKET:A".to_string(), "MARKET:B".to_string()]);
    assert_eq!(d.fields, vec!["BID".to_string(), "OFFER".to_string()]);
}

#[test]
fn trade_descriptor_is_distinct_with_fixed_fields() {
    let d = build_trade_subscription("Z4B11C");
    assert_eq!(d.mode, DeliveryMode::Distinct);
    assert!(d.snapshot);
    assert_eq!(d.data_adapter, None);
    assert_eq!(d.items, vec!["TRADE:Z4B11C".to_string()]);
    assert_eq!(
        d.fields,
        vec!["CONFIRMS".to_string(), "OPU".to_string(), "WOU".to_string()]
    );
}

#[test]
fn account_descriptor_scopes_item_to_account() {
    let fields = vec![StreamingAccountDataField::Pnl, StreamingAccountDataField::Equity];
    let d = build_account_subscription("Z4B11C", &fields);
    assert_eq!(d.mode, DeliveryMode::Merge);
    assert!(d.snapshot);
    assert_eq!(d.data_adapter, None);
    assert_eq!(d.items, vec!["ACCOUNT:Z4B11C".to_string()]);
    assert_eq!(d.fields, vec!["PNL".to_string(), "EQUITY".to_string()]);
}

#[test]
fn price_descriptor_uses_default_adapter_when_unset() {
    let epics = vec!["IX.D.DAX.DAILY.IP".to_string()];
    let fields = vec![StreamingPriceField::BidPrice1, StreamingPriceField::AskPrice1];
    let d = build_price_subscription("Z4B11C", &epics, &fields, None);
    assert_eq!(d.mode, DeliveryMode::Merge);
    assert!(d.snapshot);
    assert_eq!(d.data_adapter, Some("Pricing".to_string()));
    assert_eq!(d.items, vec!["PRICE:Z4B11C:IX.D.DAX.DAILY.IP".to_string()]);
    assert_eq!(d.fields, vec!["BIDPRICE1".to_string(), "ASKPRICE1".to_string()]);
}

#[test]
fn price_descriptor_honours_adapter_override() {
    let epics = vec!["A".to_string()];
    let fields = vec![StreamingPriceField::Timestamp];
    let d = build_price_subscription("ACC", &epics, &fields, Some("CustomPricing".to_string()));
    assert_eq!(d.data_adapter, Some("CustomPricing".to_string()));
    assert_eq!(d.items, vec!["PRICE:ACC:A".to_string()]);
}

#[test]
fn configured_subscription_carries_the_descriptor() {
    let epics = vec!["A".to_string(), "B".to_string()];
    let fields = vec![StreamingMarketField::Bid, StreamingMarketField::Offer];
    let d = build_market_subscription(&epics, &fields);
    let s = match configure_subscription(&d) {
        Ok(s) => s,
        Err(e) => panic!("configuration failed: {}", e.message()),
    };
    assert_eq!(
        s.get_items(),
        Some(&vec!["MARKET:A".to_string(), "MARKET:B".to_string()])
    );
    assert_eq!(
        s.get_fields(),
        Some(&vec!["BID".to_string(), "OFFER".to_string()])
    );
    assert_eq!(s.get_data_adapter(), None);
    assert_eq!(
        *s.get_mode(),
        lightstreamer_rs::subscription::SubscriptionMode::Merge
    );
    match s.get_requested_snapshot() {
        Some(lightstreamer_rs::subscription::Snapshot::Yes) => {}
        other => panic!("expected a full snapshot request, got {:?}", other),
    }
}

#[test]
fn configured_price_subscription_sets_the_adapter() {
    let epics = vec!["E1".to_string()];
    let fields = vec![StreamingPriceField::BidPrice1];
    let d = build_price_subscription("ACC", &epics, &fields, None);
    let s = configure_subscription(&d).unwrap_or_else(|e| panic!("{}", e.message()));
    assert_eq!(s.get_data_adapter(), Some(&"Pricing".to_string()));
    assert_eq!(s.get_items(), Some(&vec!["PRICE:ACC:E1".to_string()]));
    assert_eq!(
        *s.get_mode(),
        lightstreamer_rs::subscription::SubscriptionMode::Merge
    );
}
