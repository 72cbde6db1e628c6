//! Tests for the response models: option-marker checks, symbol extraction,
//! database entries, and the collection getters.

use ig_client::{
    AccountTransaction, DBEntryResponse, HistoricalPricesResponse, MarketData, MarketDetails,
    MarketNavigationNode, MarketNavigationResponse, MarketSearchResponse,
    MultipleMarketDetailsResponse, collect_db_entries, epic_symbol, merge_navigation_level,
};

fn market(epic: &str, name: &str) -> MarketData {
    MarketData {
        epic: epic.to_string(),
        instrument_name: name.to_string(),
        instrument_type: "SHARES".to_string(),
        expiry: "-".to_string(),
    }
}

#[test]
fn db_entries_skip_markets_without_an_epic() {
    let markets = vec![market("A.B.C", "first"), market("", "second"), market("X.Y.Z", "third")];
    let entries = collect_db_entries(&markets);
    assert_eq!(entries.len(), 2);
    assert_eq!(entries[0].epic, "A.B.C");
    assert_eq!(entries[0].symbol, "C");
    assert_eq!(entries[0].name, "first");
    assert_eq!(entries[1].epic, "X.Y.Z");
    assert_eq!(entries[1].symbol, "Z");
    assert_eq!(entries[1].name, "third");
}

fn transaction(name: &str) -> AccountTransaction {
    AccountTransaction {
        date: "2025/10/30".to_string(),
        date_utc: "2025-10-30T17:13:53".to_string(),
        open_date_utc: "2025-10-30T16:13:53".to_string(),
        instrument_name: name.to_string(),
        period: "DFB".to_string(),
        profit_and_loss: "USD2.32".to_string(),
        transaction_type: "TRADE".to_string(),
        reference: "RZ0RQ1K8V1S1JN2".to_string(),
        open_level: "155.14".to_string(),
        close_level: "152.82".to_string(),
        size: "1".to_string(),
        currency: "USD".to_string(),
        cash_transaction: false,
    }
}

#[test]
fn navigation_level_merges_markets_and_nodes_in_order() {
    let responses = vec![
        MarketNavigationResponse {
            nodes: vec![MarketNavigationNode { id: "1".to_string(), name: "indices".to_string() }],
            markets: vec![market("A.B.C", "first")],
        },
        MarketNavigationResponse { nodes: vec![], markets: vec![] },
        MarketNavigationResponse {
            nodes: vec![
                MarketNavigationNode { id: "2".to_string(), name: "shares".to_string() },
                MarketNavigationNode { id: "3".to_string(), name: "forex".to_string() },
            ],
            markets: vec![market("X.Y.Z", "second"), market("P.Q.R", "third")],
        },
    ];
    let (markets, nodes) = merge_navigation_level(&responses);
    assert_eq!(markets.len(), 3);
    assert_eq!(markets[0].epic, "A.B.C");
    assert_eq!(markets[1].epic, "X.Y.Z");
    assert_eq!(markets[2].epic, "P.Q.R");
    assert_eq!(nodes.len(), 3);
    assert_eq!(nodes[0].id, "1");
    assert_eq!(nodes[1].id, "2");
    assert_eq!(nodes[2].id, "3");
}

#[test]
fn transaction_call_and_put_markers() {
    let call = transaction("US 500 6910 CALL ($1)");
    assert!(call.is_call());
    assert!(!call.is_put());

    let put = transaction("US 500 6910 PUT ($1)");
    assert!(!put.is_call());
    assert!(put.is_put());

    let neither = transaction("Germany 40");
    assert!(!neither.is_call());
    assert!(!neither.is_put());
}

#[test]
fn epic_symbol_is_the_third_segment() {
    assert_eq!(epic_symbol("OP.D.OTCSPX3.6910P.IP"), "OTCSPX3");
    assert_eq!(epic_symbol("IX.D.DAX.DAILY.IP"), "DAX");
    assert_eq!(epic_symbol("A.B.C"), "C");
    assert_eq!(epic_symbol("A.B.C."), "C");
}

#[test]
fn epic_symbol_of_short_epics_is_empty() {
    assert_eq!(epic_symbol(""), "");
    assert_eq!(epic_symbol("ABC"), "");
    assert_eq!(epic_symbol("A.B"), "");
    assert_eq!(epic_symbol("A."), "");
    assert_eq!(epic_symbol(".."), "");
}

#[test]
fn db_entry_is_derived_from_the_market() {
    let market = MarketData {
        epic: "OP.D.OTCSPX3.6910P.IP".to_string(),
        instrument_name: "US 500 6910 PUT ($1)".to_string(),
        instrument_type: "UNKNOWN".to_string(),
        expiry: "DEC-25".to_string(),
    };
    let entry = DBEntryResponse::from_market(&market);
    assert_eq!(entry.symbol, "OTCSPX3");
    assert_eq!(entry.epic, "OP.D.OTCSPX3.6910P.IP");
    assert_eq!(entry.name, "US 500 6910 PUT ($1)");
    assert_eq!(entry.instrument_type, "UNKNOWN");
    assert_eq!(entry.exchange, "IG");
    assert_eq!(entry.expiry, "DEC-25");
}

#[test]
fn db_entry_timestamps_advance_with_the_clock() {
    let market = MarketData {
        epic: "A.B.C".to_string(),
        instrument_name: "C".to_string(),
        instrument_type: "SHARES".to_string(),
        expiry: "-".to_string(),
    };
    let entry = DBEntryResponse::from_market(&market);
    // A wall-clock stamp taken now is well after the start of 2020
    assert!(entry.last_update > 1_577_836_800_000);
}

#[test]
fn market_search_response_getters() {
    let markets = vec![
        MarketData {
            epic: "A.B.C".to_string(),
            instrument_name: "C".to_string(),
            instrument_type: "SHARES".to_string(),
            expiry: "-".to_string(),
        },
    ];
    let r = MarketSearchResponse { markets };
    assert_eq!(r.len(), 1);
    assert!(!r.is_empty());
    assert_eq!(r.markets()[0].epic, "A.B.C");

    let empty = MarketSearchResponse { markets: Vec::new() };
    assert_eq!(empty.len(), 0);
    assert!(empty.is_empty());
}

#[test]
fn multiple_market_details_response_getters() {
    let r = MultipleMarketDetailsResponse::default();
    assert_eq!(r.len(), 0);
    assert!(r.is_empty());

    let r = MultipleMarketDetailsResponse {
        market_details: vec![MarketDetails {
            epic: "A.B.C".to_string(),
            instrument_name: "C".to_string(),
            expiry: "-".to_string(),
        }],
    };
    assert_eq!(r.len(), 1);
    assert!(!r.is_empty());
    assert_eq!(r.market_details()[0].epic, "A.B.C");
}

#[test]
fn historical_prices_response_getters() {
    let r = HistoricalPricesResponse { prices: Vec::new(), instrument_type: "SHARES".to_string() };
    assert_eq!(r.len(), 0);
    assert!(r.is_empty());
    assert_eq!(r.prices().len(), 0);
}
