//! Tests for streaming field enums, focusing on their wire-level renderings.

use ig_client::{
    StreamingAccountDataField, StreamingMarketField, StreamingPriceField,
    get_streaming_account_data_fields, get_streaming_market_fields, get_streaming_price_fields,
};
use std::collections::HashSet;

#[test]
fn test_streaming_market_field_debug_format() {
    let mid_open = StreamingMarketField::MidOpen;
    let high = StreamingMarketField::High;
    let low = StreamingMarketField::Low;
    let change = StreamingMarketField::Change;
    let change_pct = StreamingMarketField::ChangePct;
    let update_time = StreamingMarketField::UpdateTime;
    let market_delay = StreamingMarketField::MarketDelay;
    let market_state = StreamingMarketField::MarketState;
    let bid = StreamingMarketField::Bid;
    let offer = StreamingMarketField::Offer;

    // The wire rendering shows SCREAMING_SNAKE_CASE without quotes
    assert_eq!(mid_open.wire_name(), "MID_OPEN");
    assert_eq!(high.wire_name(), "HIGH");
    assert_eq!(low.wire_name(), "LOW");
    assert_eq!(change.wire_name(), "CHANGE");
    assert_eq!(change_pct.wire_name(), "CHANGE_PCT");
    assert_eq!(update_time.wire_name(), "UPDATE_TIME");
    assert_eq!(market_delay.wire_name(), "MARKET_DELAY");
    assert_eq!(market_state.wire_name(), "MARKET_STATE");
    assert_eq!(bid.wire_name(), "BID");
    assert_eq!(offer.wire_name(), "OFFER");
}

#[test]
fn test_streaming_market_field_display_format() {
    let mid_open = StreamingMarketField::MidOpen;
    let high = StreamingMarketField::High;
    let low = StreamingMarketField::Low;
    let change = StreamingMarketField::Change;
    let change_pct = StreamingMarketField::ChangePct;
    let update_time = StreamingMarketField::UpdateTime;
    let market_delay = StreamingMarketField::MarketDelay;
    let market_state = StreamingMarketField::MarketState;
    let bid = StreamingMarketField::Bid;
    let offer = StreamingMarketField::Offer;

    // The displayed form equals the wire rendering
    assert_eq!(format!("{}", mid_open.wire_name()), "MID_OPEN");
    assert_eq!(format!("{}", high.wire_name()), "HIGH");
    assert_eq!(format!("{}", low.wire_name()), "LOW");
    assert_eq!(format!("{}", change.wire_name()), "CHANGE");
    assert_eq!(format!("{}", change_pct.wire_name()), "CHANGE_PCT");
    assert_eq!(format!("{}", update_time.wire_name()), "UPDATE_TIME");
    assert_eq!(format!("{}", market_delay.wire_name()), "MARKET_DELAY");
    assert_eq!(format!("{}", market_state.wire_name()), "MARKET_STATE");
    assert_eq!(format!("{}", bid.wire_name()), "BID");
    assert_eq!(format!("{}", offer.wire_name()), "OFFER");
}

#[test]
fn test_streaming_market_field_debug_display_consistency() {
    // The per-field rendering and the list rendering agree for all variants
    let all_variants = vec![
        StreamingMarketField::MidOpen,
        StreamingMarketField::High,
        StreamingMarketField::Low,
        StreamingMarketField::Change,
        StreamingMarketField::ChangePct,
        StreamingMarketField::UpdateTime,
        StreamingMarketField::MarketDelay,
        StreamingMarketField::MarketState,
        StreamingMarketField::Bid,
        StreamingMarketField::Offer,
    ];

    for variant in all_variants {
        let single = variant.wire_name();
        let listed = get_streaming_market_fields(&vec![variant]);
        assert_eq!(
            vec![single.clone()],
            listed,
            "both renderings should produce the same output for {:?}",
            variant
        );
    }
}


#[test]
fn test_streaming_account_data_field_debug_format() {
    let pnl = StreamingAccountDataField::Pnl;
    let deposit = StreamingAccountDataField::Deposit;
    let available_cash = StreamingAccountDataField::AvailableCash;
    let pnl_lr = StreamingAccountDataField::PnlLr;
    let pnl_nlr = StreamingAccountDataField::PnlNlr;
    let funds = StreamingAccountDataField::Funds;
    let margin = StreamingAccountDataField::Margin;
    let margin_lr = StreamingAccountDataField::MarginLr;
    let margin_nlr = StreamingAccountDataField::MarginNlr;
    let available_to_deal = StreamingAccountDataField::AvailableToDeal;
    let equity = StreamingAccountDataField::Equity;
    let equity_used = StreamingAccountDataField::EquityUsed;

    assert_eq!(pnl.wire_name(), "PNL");
    assert_eq!(deposit.wire_name(), "DEPOSIT");
    assert_eq!(available_cash.wire_name(), "AVAILABLE_CASH");
    assert_eq!(pnl_lr.wire_name(), "PNL_LR");
    assert_eq!(pnl_nlr.wire_name(), "PNL_NLR");
    assert_eq!(funds.wire_name(), "FUNDS");
    assert_eq!(margin.wire_name(), "MARGIN");
    assert_eq!(margin_lr.wire_name(), "MARGIN_LR");
    assert_eq!(margin_nlr.wire_name(), "MARGIN_NLR");
    assert_eq!(available_to_deal.wire_name(), "AVAILABLE_TO_DEAL");
    assert_eq!(equity.wire_name(), "EQUITY");
    assert_eq!(equity_used.wire_name(), "EQUITY_USED");
}

#[test]
fn test_streaming_account_data_field_display_format() {
    let pnl = StreamingAccountDataField::Pnl;
    let deposit = StreamingAccountDataField::Deposit;
    let available_cash = StreamingAccountDataField::AvailableCash;
    let pnl_lr = StreamingAccountDataField::PnlLr;
    let pnl_nlr = StreamingAccountDataField::PnlNlr;
    let funds = StreamingAccountDataField::Funds;
    let margin = StreamingAccountDataField::Margin;
    let margin_lr = StreamingAccountDataField::MarginLr;
    let margin_nlr = StreamingAccountDataField::MarginNlr;
    let available_to_deal = StreamingAccountDataField::AvailableToDeal;
    let equity = StreamingAccountDataField::Equity;
    let equity_used = StreamingAccountDataField::EquityUsed;

    assert_eq!(format!("{}", pnl.wire_name()), "PNL");
    assert_eq!(format!("{}", deposit.wire_name()), "DEPOSIT");
    assert_eq!(format!("{}", available_cash.wire_name()), "AVAILABLE_CASH");
    assert_eq!(format!("{}", pnl_lr.wire_name()), "PNL_LR");
    assert_eq!(format!("{}", pnl_nlr.wire_name()), "PNL_NLR");
    assert_eq!(format!("{}", funds.wire_name()), "FUNDS");
    assert_eq!(format!("{}", margin.wire_name()), "MARGIN");
    assert_eq!(format!("{}", margin_lr.wire_name()), "MARGIN_LR");
    assert_eq!(format!("{}", margin_nlr.wire_name()), "MARGIN_NLR");
    assert_eq!(format!("{}", available_to_deal.wire_name()), "AVAILABLE_TO_DEAL");
    assert_eq!(format!("{}", equity.wire_name()), "EQUITY");
    assert_eq!(format!("{}", equity_used.wire_name()), "EQUITY_USED");
}

#[test]
fn test_streaming_account_data_field_debug_display_consistency() {
    let test_fields = vec![
        StreamingAccountDataField::Pnl,
        StreamingAccountDataField::Deposit,
        StreamingAccountDataField::AvailableCash,
        StreamingAccountDataField::PnlLr,
        StreamingAccountDataField::PnlNlr,
        StreamingAccountDataField::Funds,
        StreamingAccountDataField::Margin,
        StreamingAccountDataField::MarginLr,
        StreamingAccountDataField::MarginNlr,
        StreamingAccountDataField::AvailableToDeal,
        StreamingAccountDataField::Equity,
        StreamingAccountDataField::EquityUsed,
    ];

    for field in test_fields {
        let single = field.wire_name();
        let listed = get_streaming_account_data_fields(&vec![field]);
        assert_eq!(
            vec![single.clone()],
            listed,
            "both renderings should be consistent for {:?}",
            field
        );
    }
}

#[test]
fn test_streaming_account_data_field_default() {
    // The default variant is Pnl
    let default_field = StreamingAccountDataField::default();
    assert_eq!(default_field, StreamingAccountDataField::Pnl);
    assert_eq!(default_field.wire_name(), "PNL");
    assert_eq!(format!("{}", default_field.wire_name()), "PNL");
}

#[test]
fn test_streaming_account_data_field_serialization_format() {
    let test_cases = vec![
        (StreamingAccountDataField::Pnl, "PNL"),
        (StreamingAccountDataField::Deposit, "DEPOSIT"),
        (StreamingAccountDataField::AvailableCash, "AVAILABLE_CASH"),
        (StreamingAccountDataField::PnlLr, "PNL_LR"),
        (StreamingAccountDataField::PnlNlr, "PNL_NLR"),
        (StreamingAccountDataField::Funds, "FUNDS"),
        (StreamingAccountDataField::Margin, "MARGIN"),
        (StreamingAccountDataField::MarginLr, "MARGIN_LR"),
        (StreamingAccountDataField::MarginNlr, "MARGIN_NLR"),
        (StreamingAccountDataField::AvailableToDeal, "AVAILABLE_TO_DEAL"),
        (StreamingAccountDataField::Equity, "EQUITY"),
        (StreamingAccountDataField::EquityUsed, "EQUITY_USED"),
    ];

    for (field, expected_serialized) in test_cases {
        // The serialized form is the quoted wire rendering
        let serialized = format!("\"{}\"", field.wire_name());
        assert_eq!(serialized, format!("\"{}\"", expected_serialized));

        // The wire rendering matches the serialized string without quotes
        assert_eq!(field.wire_name(), expected_serialized);
    }
}

#[test]
fn test_streaming_account_data_field_clone_and_equality() {
    let original = StreamingAccountDataField::Pnl;
    let cloned = original.clone();

    assert_eq!(original, cloned);
    assert_eq!(original.wire_name(), cloned.wire_name());
}


#[test]
fn test_streaming_price_field_debug_format() {
    let mid_open = StreamingPriceField::MidOpen;
    let high = StreamingPriceField::High;
    let low = StreamingPriceField::Low;
    let bid_quote_id = StreamingPriceField::BidQuoteId;
    let ask_quote_id = StreamingPriceField::AskQuoteId;
    let bid_price1 = StreamingPriceField::BidPrice1;
    let ask_price5 = StreamingPriceField::AskPrice5;
    let timestamp = StreamingPriceField::Timestamp;
    let dlg_flag = StreamingPriceField::DlgFlag;

    // UPPERCASE without underscores, except MID_OPEN and DLG_FLAG
    assert_eq!(mid_open.wire_name(), "MID_OPEN");
    assert_eq!(high.wire_name(), "HIGH");
    assert_eq!(low.wire_name(), "LOW");
    assert_eq!(bid_quote_id.wire_name(), "BIDQUOTEID");
    assert_eq!(ask_quote_id.wire_name(), "ASKQUOTEID");
    assert_eq!(bid_price1.wire_name(), "BIDPRICE1");
    assert_eq!(ask_price5.wire_name(), "ASKPRICE5");
    assert_eq!(timestamp.wire_name(), "TIMESTAMP");
    assert_eq!(dlg_flag.wire_name(), "DLG_FLAG");
}

#[test]
fn test_streaming_price_field_display_format() {
    let mid_open = StreamingPriceField::MidOpen;
    let high = StreamingPriceField::High;
    let low = StreamingPriceField::Low;
    let bid_quote_id = StreamingPriceField::BidQuoteId;
    let ask_quote_id = StreamingPriceField::AskQuoteId;
    let bid_price1 = StreamingPriceField::BidPrice1;
    let ask_price5 = StreamingPriceField::AskPrice5;
    let timestamp = StreamingPriceField::Timestamp;
    let dlg_flag = StreamingPriceField::DlgFlag;

    assert_eq!(format!("{}", mid_open.wire_name()), "MID_OPEN");
    assert_eq!(format!("{}", high.wire_name()), "HIGH");
    assert_eq!(format!("{}", low.wire_name()), "LOW");
    assert_eq!(format!("{}", bid_quote_id.wire_name()), "BIDQUOTEID");
    assert_eq!(format!("{}", ask_quote_id.wire_name()), "ASKQUOTEID");
    assert_eq!(format!("{}", bid_price1.wire_name()), "BIDPRICE1");
    assert_eq!(format!("{}", ask_price5.wire_name()), "ASKPRICE5");
    assert_eq!(format!("{}", timestamp.wire_name()), "TIMESTAMP");
    assert_eq!(format!("{}", dlg_flag.wire_name()), "DLG_FLAG");
}

#[test]
fn test_streaming_price_field_debug_display_consistency() {
    let test_fields = vec![
        StreamingPriceField::MidOpen,
        StreamingPriceField::High,
        StreamingPriceField::Low,
        StreamingPriceField::BidQuoteId,
        StreamingPriceField::AskQuoteId,
        StreamingPriceField::BidPrice1,
        StreamingPriceField::AskPrice5,
        StreamingPriceField::Currency0,
        StreamingPriceField::C1BidSize1,
        StreamingPriceField::C5AskSize5,
        StreamingPriceField::Timestamp,
        StreamingPriceField::DlgFlag,
    ];

    for field in test_fields {
        let single = field.wire_name();
        let listed = get_streaming_price_fields(&vec![field]);
        assert_eq!(
            vec![single.clone()],
            listed,
            "both renderings should be consistent for {:?}",
            field
        );
    }
}

#[test]
fn test_streaming_price_field_default() {
    // The default variant is AskPrice5
    let default_field = StreamingPriceField::default();
    assert_eq!(default_field, StreamingPriceField::AskPrice5);
    assert_eq!(default_field.wire_name(), "ASKPRICE5");
    assert_eq!(format!("{}", default_field.wire_name()), "ASKPRICE5");
}

#[test]
fn test_streaming_price_field_serialization_format() {
    let test_cases = vec![
        (StreamingPriceField::MidOpen, "MID_OPEN"),
        (StreamingPriceField::High, "HIGH"),
        (StreamingPriceField::Low, "LOW"),
        (StreamingPriceField::BidQuoteId, "BIDQUOTEID"),
        (StreamingPriceField::AskQuoteId, "ASKQUOTEID"),
        (StreamingPriceField::BidPrice1, "BIDPRICE1"),
        (StreamingPriceField::AskPrice5, "ASKPRICE5"),
        (StreamingPriceField::Currency0, "CURRENCY0"),
        (StreamingPriceField::C1BidSize1, "C1BIDSIZE1"),
        (StreamingPriceField::C5AskSize5, "C5ASKSIZE5"),
        (StreamingPriceField::Timestamp, "TIMESTAMP"),
        (StreamingPriceField::DlgFlag, "DLG_FLAG"),
    ];

    for (field, expected_serialized) in test_cases {
        let serialized = format!("\"{}\"", field.wire_name());
        assert_eq!(serialized, format!("\"{}\"", expected_serialized));

        assert_eq!(field.wire_name(), expected_serialized);
    }
}

#[test]
fn test_streaming_price_field_clone_and_equality() {
    let original = StreamingPriceField::MidOpen;
    let cloned = original.clone();

    assert_eq!(original, cloned);
    assert_eq!(original.wire_name(), cloned.wire_name());
}

#[test]
fn test_streaming_price_field_in_hashset() {
    let mut set = HashSet::new();
    set.insert(StreamingPriceField::MidOpen);
    set.insert(StreamingPriceField::High);
    set.insert(StreamingPriceField::MidOpen); // Duplicate should not increase size

    assert_eq!(set.len(), 2);
    assert!(set.contains(&StreamingPriceField::MidOpen));
    assert!(set.contains(&StreamingPriceField::High));
    assert!(!set.contains(&StreamingPriceField::Low));
}

#[test]
fn test_streaming_account_data_field_in_hashset() {
    let mut set = HashSet::new();
    set.insert(StreamingAccountDataField::Pnl);
    set.insert(StreamingAccountDataField::Deposit);
    set.insert(StreamingAccountDataField::Pnl); // Duplicate should not increase size

    assert_eq!(set.len(), 2);
    assert!(set.contains(&StreamingAccountDataField::Pnl));
    assert!(set.contains(&StreamingAccountDataField::Deposit));
    assert!(!set.contains(&StreamingAccountDataField::AvailableCash));
}

#[test]
fn test_streaming_market_field_default() {
    // The default variant is Offer
    let default_field = StreamingMarketField::default();
    assert_eq!(default_field, StreamingMarketField::Offer);
    assert_eq!(default_field.wire_name(), "OFFER");
    assert_eq!(format!("{}", default_field.wire_name()), "OFFER");
}

#[test]
fn test_streaming_market_field_serialization_format() {
    let fields = vec![
        (StreamingMarketField::MidOpen, "MID_OPEN"),
        (StreamingMarketField::High, "HIGH"),
        (StreamingMarketField::Low, "LOW"),
        (StreamingMarketField::Change, "CHANGE"),
        (StreamingMarketField::ChangePct, "CHANGE_PCT"),
        (StreamingMarketField::UpdateTime, "UPDATE_TIME"),
        (StreamingMarketField::MarketDelay, "MARKET_DELAY"),
        (StreamingMarketField::MarketState, "MARKET_STATE"),
        (StreamingMarketField::Bid, "BID"),
        (StreamingMarketField::Offer, "OFFER"),
    ];

    for (field, expected_serialized) in fields {
        let serialized = format!("\"{}\"", field.wire_name());
        assert_eq!(serialized, format!("\"{}\"", expected_serialized));

        assert_eq!(field.wire_name(), expected_serialized);
    }
}

#[test]
fn test_streaming_market_field_in_hashset() {
    let mut fields = HashSet::new();
    fields.insert(StreamingMarketField::Bid);
    fields.insert(StreamingMarketField::Offer);
    fields.insert(StreamingMarketField::High);
    fields.insert(StreamingMarketField::Low);

    assert_eq!(fields.len(), 4);
    assert!(fields.contains(&StreamingMarketField::Bid));
    assert!(fields.contains(&StreamingMarketField::Offer));
    assert!(fields.contains(&StreamingMarketField::High));
    assert!(fields.contains(&StreamingMarketField::Low));
    assert!(!fields.contains(&StreamingMarketField::MidOpen));

    // Each field in the set renders to a nonempty wire name
    for field in &fields {
        let name = field.wire_name();
        assert!(!name.is_empty());
    }
}

#[test]
fn test_streaming_market_field_clone_and_equality() {
    let original = StreamingMarketField::MarketState;
    let cloned = original.clone();

    assert_eq!(original, cloned);
    assert_eq!(original.wire_name(), cloned.wire_name());

    // Inequality
    let different = StreamingMarketField::Bid;
    assert_ne!(original, different);
    assert_ne!(original.wire_name(), different.wire_name());
}
