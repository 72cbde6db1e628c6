//! Tests for the field codec: numeric decoding, enum decoding, string
//! pass-through, whole-record decoding, and the decode dispatcher.

use ig_client::{
    AccountData, DealingFlag, DecodeError, MarketUpdate, PriceData, RawUpdate, RecordKind,
    TradeData, TypedRecord, check_numeric, decode, parse_dealing_flag,
};

fn entry(key: &str, value: &str) -> (String, Option<String>) {
    (key.to_string(), Some(value.to_string()))
}

fn null_entry(key: &str) -> (String, Option<String>) {
    (key.to_string(), None)
}

#[test]
fn numeric_well_formed_decodes_to_exact_value() {
    let entries = vec![entry("BID", "100.5"), entry("OFFER", "101.25")];
    let fields = MarketUpdate::create_market_fields(&entries).unwrap();
    assert_eq!(fields.bid.as_deref(), Some("100.5"));
    assert_eq!(fields.offer.as_deref(), Some("101.25"));
    // The kept token parses to exactly the number the wire carried
    assert_eq!(fields.bid.unwrap().parse::<f64>().unwrap(), 100.5);
    assert_eq!(fields.offer.unwrap().parse::<f64>().unwrap(), 101.25);
}

#[test]
fn numeric_empty_or_missing_decodes_to_no_value() {
    // empty string, null value, and absent key all decode to no value
    let entries = vec![entry("BID", ""), null_entry("OFFER")];
    let fields = MarketUpdate::create_market_fields(&entries).unwrap();
    assert_eq!(fields.bid, None);
    assert_eq!(fields.offer, None);
    assert_eq!(fields.high, None);
}

#[test]
fn numeric_malformed_yields_decode_error() {
    let entries = vec![entry("BID", "not-a-number")];
    match MarketUpdate::create_market_fields(&entries) {
        Err(DecodeError::InvalidNumber { field, value }) => {
            assert_eq!(field, "BID");
            assert_eq!(value, "not-a-number");
        }
        other => panic!("expected an invalid-number error, got {:?}", other.is_ok()),
    }
}

#[test]
fn numeric_grammar_matches_float_parsing() {
    let accepted = [
        "0", "1", "42", "-1", "+1", "100.5", "-3.25", ".5", "+.5", "1.", "1e10", "1E-3",
        "-2.5e+7", "0.0",
    ];
    for s in accepted {
        assert!(check_numeric(s), "{s} should be numeric");
        assert!(s.parse::<f64>().is_ok(), "{s} should parse as a float");
    }
    let rejected = ["", ".", "-", "+", "e1", "1e", "1e+", "--1", "1.2.3", "abc", "1 ", " 1", "1,5"];
    for s in rejected {
        assert!(!check_numeric(s), "{s} should not be numeric");
    }
}

#[test]
fn dealing_flag_documented_tokens_decode() {
    assert_eq!(parse_dealing_flag("CLOSED"), Some(DealingFlag::Closed));
    assert_eq!(parse_dealing_flag("CALL"), Some(DealingFlag::Call));
    assert_eq!(parse_dealing_flag("DEAL"), Some(DealingFlag::Deal));
    assert_eq!(parse_dealing_flag("EDIT"), Some(DealingFlag::Edit));
    assert_eq!(parse_dealing_flag("CLOSINGONLY"), Some(DealingFlag::ClosingOnly));
    assert_eq!(parse_dealing_flag("DEALNOEDIT"), Some(DealingFlag::DealNoEdit));
    assert_eq!(parse_dealing_flag("AUCTION"), Some(DealingFlag::Auction));
    assert_eq!(parse_dealing_flag("AUCTIONNOEDIT"), Some(DealingFlag::AuctionNoEdit));
    assert_eq!(parse_dealing_flag("SUSPEND"), Some(DealingFlag::Suspend));
}

#[test]
fn dealing_flag_unknown_token_is_error_never_default() {
    assert_eq!(parse_dealing_flag("OPEN"), None);
    assert_eq!(parse_dealing_flag(""), None);
    assert_eq!(parse_dealing_flag("closed"), None);

    let entries = vec![entry("DLG_FLAG", "HALTED")];
    match PriceData::create_price_fields(&entries) {
        Err(DecodeError::UnknownEnumValue { field, value }) => {
            assert_eq!(field, "DLG_FLAG");
            assert_eq!(value, "HALTED");
        }
        other => panic!("expected an unknown-enum error, got {:?}", other.is_ok()),
    }
}

#[test]
fn price_fields_decode_ladder_and_flag() {
    let entries = vec![
        entry("BIDPRICE1", "99.5"),
        entry("ASKPRICE1", "100.5"),
        entry("BIDSIZE1", "1000"),
        entry("CURRENCY0", ""),
        entry("DLG_FLAG", "DEAL"),
        entry("TIMESTAMP", "1700000000000"),
    ];
    let fields = PriceData::create_price_fields(&entries).unwrap();
    assert_eq!(fields.bid_price1.as_deref(), Some("99.5"));
    assert_eq!(fields.ask_price1.as_deref(), Some("100.5"));
    assert_eq!(fields.bid_size1.as_deref(), Some("1000"));
    // String fields keep the empty string; only numeric fields coerce it away
    assert_eq!(fields.currency0.as_deref(), Some(""));
    assert_eq!(fields.dealing_flag, Some(DealingFlag::Deal));
    assert_eq!(fields.timestamp.as_deref(), Some("1700000000000"));
    assert_eq!(fields.bid_price2, None);
}

#[test]
fn account_fields_decode() {
    let entries = vec![
        entry("PNL", "-12.5"),
        entry("MARGIN", "250"),
        entry("EQUITY", ""),
    ];
    let fields = AccountData::create_account_fields(&entries).unwrap();
    assert_eq!(fields.pnl.as_deref(), Some("-12.5"));
    assert_eq!(fields.margin.as_deref(), Some("250"));
    assert_eq!(fields.equity, None);
    assert_eq!(fields.funds, None);
}

#[test]
fn trade_fields_pass_through_verbatim() {
    let entries = vec![entry("CONFIRMS", "{\"dealStatus\":\"ACCEPTED\"}"), entry("OPU", "")];
    let fields = TradeData::create_trade_fields(&entries).unwrap();
    assert_eq!(fields.confirms.as_deref(), Some("{\"dealStatus\":\"ACCEPTED\"}"));
    assert_eq!(fields.opu.as_deref(), Some(""));
    assert_eq!(fields.wou, None);
}

#[test]
fn from_item_update_decodes_both_field_sets() {
    let update = RawUpdate {
        item_name: Some("MARKET:A".to_string()),
        item_pos: 1,
        fields: vec![entry("BID", "100.5"), entry("OFFER", "")],
        changed_fields: vec![("BID".to_string(), "100.5".to_string())],
        is_snapshot: true,
    };
    let rec = MarketUpdate::from_item_update(&update).unwrap();
    assert_eq!(rec.item_name, "MARKET:A");
    assert_eq!(rec.item_pos, 1);
    assert!(rec.is_snapshot);
    assert_eq!(rec.fields.bid.as_deref(), Some("100.5"));
    assert_eq!(rec.fields.offer, None);
    assert_eq!(rec.changed_fields.bid.as_deref(), Some("100.5"));
    assert_eq!(rec.changed_fields.offer, None);
}

#[test]
fn from_item_update_without_name_uses_empty_string() {
    let update = RawUpdate {
        item_name: None,
        item_pos: 2,
        fields: vec![],
        changed_fields: vec![],
        is_snapshot: false,
    };
    let rec = PriceData::from_item_update(&update).unwrap();
    assert_eq!(rec.item_name, "");
    assert_eq!(rec.item_pos, 2);
    assert!(!rec.is_snapshot);
}

#[test]
fn from_item_update_rejects_malformed_changed_field() {
    let update = RawUpdate {
        item_name: Some("ACCOUNT:X".to_string()),
        item_pos: 1,
        fields: vec![entry("PNL", "1.5")],
        changed_fields: vec![("PNL".to_string(), "oops".to_string())],
        is_snapshot: false,
    };
    match AccountData::from_item_update(&update) {
        Err(DecodeError::InvalidNumber { field, value }) => {
            assert_eq!(field, "PNL");
            assert_eq!(value, "oops");
        }
        other => panic!("expected an invalid-number error, got {:?}", other.is_ok()),
    }
}

#[test]
fn decode_dispatches_by_kind() {
    let entries = vec![entry("BID", "1.5")];
    match decode(&entries, RecordKind::Market).unwrap() {
        TypedRecord::Market(f) => assert_eq!(f.bid.as_deref(), Some("1.5")),
        other => panic!("expected a market record, got {:?}", other),
    }
    match decode(&entries, RecordKind::Trade).unwrap() {
        TypedRecord::Trade(f) => assert_eq!(f.confirms, None),
        other => panic!("expected a trade record, got {:?}", other),
    }
    let bad = vec![entry("PNL", "x")];
    assert!(decode(&bad, RecordKind::Account).is_err());
    // The same malformed field is no error for a domain that does not read it
    assert!(decode(&bad, RecordKind::Trade).is_ok());
}

#[test]
fn decode_error_messages_name_the_field() {
    let entries = vec![entry("HIGH", "?")];
    let err = MarketUpdate::create_market_fields(&entries).unwrap_err();
    assert_eq!(err.message(), "invalid numeric value in field HIGH");
    let entries = vec![entry("DLG_FLAG", "?")];
    let err = PriceData::create_price_fields(&entries).unwrap_err();
    assert_eq!(err.message(), "unknown enum value in field DLG_FLAG");
}

#[test]
fn market_subscribe_scenario_decodes_bid_and_offer() {
    // A market descriptor over the item keys A and B with the bid and offer
    // fields, and a raw update carrying a bid of 100.5 and an empty offer.
    let epics = vec!["A".to_string(), "B".to_string()];
    let fields = vec![
        ig_client::StreamingMarketField::Bid,
        ig_client::StreamingMarketField::Offer,
    ];
    let d = ig_client::build_market_subscription(&epics, &fields);
    assert_eq!(d.items, vec!["MARKET:A".to_string(), "MARKET:B".to_string()]);
    assert_eq!(d.fields, vec!["BID".to_string(), "OFFER".to_string()]);

    let update = RawUpdate {
        item_name: Some("MARKET:A".to_string()),
        item_pos: 1,
        fields: vec![entry("BID", "100.5"), entry("OFFER", "")],
        changed_fields: vec![],
        is_snapshot: true,
    };
    let rec = MarketUpdate::from_item_update(&update).unwrap();
    assert_eq!(rec.fields.bid.map(|b| b.parse::<f64>().unwrap()), Some(100.5));
    assert_eq!(rec.fields.offer, None);
}

#[test]
fn first_entry_wins_on_duplicate_keys() {
    let entries = vec![entry("BID", "1.5"), entry("BID", "2.5")];
    let fields = MarketUpdate::create_market_fields(&entries).unwrap();
    assert_eq!(fields.bid.as_deref(), Some("1.5"));
}
