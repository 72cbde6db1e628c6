//! The typed record for detailed price-ladder updates: bid/ask levels,
//! sizes, per-currency sizes, and the market's dealing status, decoded from a
//! raw wire update.

use vstd::prelude::*;

use crate::raw::{
    DecodeError, FieldEntry, FieldMap, RawUpdate, changed_as_entries, changed_view,
    decode_num_field, entries_view, field_num_ok, field_num_value, get_str_field, item_name_view,
    opt_view, raw_lookup,
};
use crate::text::str_eq;

verus! {

/// Market dealing status flags indicating trading availability.
#[derive(Clone, Copy, Debug, PartialEq, Eq, Structural)]
pub enum DealingFlag {
    /// Market is closed for trading
    Closed,
    /// Market is in call phase
    Call,
    /// Market is open for dealing
    Deal,
    /// Market is open for editing orders
    Edit,
    /// Market is open for closing positions only
    ClosingOnly,
    /// Market is open for dealing but not editing
    DealNoEdit,
    /// Market is in auction phase
    Auction,
    /// Market is in auction phase without editing
    AuctionNoEdit,
    /// Market trading is suspended
    Suspend,
}

impl Default for DealingFlag {
    /// The default dealing status is a closed market.
    fn default() -> (r: Self)
        ensures
            r == DealingFlag::Closed,
    {
        DealingFlag::Closed
    }
}

/// The dealing flag a wire token stands for, if it is a documented one.
pub open spec fn dealing_flag_of(t: Seq<char>) -> Option<DealingFlag> {
    if t == "CLOSED"@ {
        Some(DealingFlag::Closed)
    } else if t == "CALL"@ {
        Some(DealingFlag::Call)
    } else if t == "DEAL"@ {
        Some(DealingFlag::Deal)
    } else if t == "EDIT"@ {
        Some(DealingFlag::Edit)
    } else if t == "CLOSINGONLY"@ {
        Some(DealingFlag::ClosingOnly)
    } else if t == "DEALNOEDIT"@ {
        Some(DealingFlag::DealNoEdit)
    } else if t == "AUCTION"@ {
        Some(DealingFlag::Auction)
    } else if t == "AUCTIONNOEDIT"@ {
        Some(DealingFlag::AuctionNoEdit)
    } else if t == "SUSPEND"@ {
        Some(DealingFlag::Suspend)
    } else {
        None
    }
}

/// Parses a dealing-flag wire token; an undocumented token gives no flag.
pub fn parse_dealing_flag(v: &str) -> (r: Option<DealingFlag>)
    ensures
        r == dealing_flag_of(v@),
{
    if str_eq(v, "CLOSED") {
        Some(DealingFlag::Closed)
    } else if str_eq(v, "CALL") {
        Some(DealingFlag::Call)
    } else if str_eq(v, "DEAL") {
        Some(DealingFlag::Deal)
    } else if str_eq(v, "EDIT") {
        Some(DealingFlag::Edit)
    } else if str_eq(v, "CLOSINGONLY") {
        Some(DealingFlag::ClosingOnly)
    } else if str_eq(v, "DEALNOEDIT") {
        Some(DealingFlag::DealNoEdit)
    } else if str_eq(v, "AUCTION") {
        Some(DealingFlag::Auction)
    } else if str_eq(v, "AUCTIONNOEDIT") {
        Some(DealingFlag::AuctionNoEdit)
    } else if str_eq(v, "SUSPEND") {
        Some(DealingFlag::Suspend)
    } else {
        None
    }
}

/// Whether the dealing-flag field of `m` is decodable: absent, or one of the
/// documented tokens. The empty string is not a documented token.
pub open spec fn field_flag_ok(m: FieldMap) -> bool {
    match raw_lookup(m, "DLG_FLAG"@) {
        None => true,
        Some(t) => dealing_flag_of(t) is Some,
    }
}

/// The decoded value of the dealing-flag field of `m`.
pub open spec fn field_flag_value(m: FieldMap) -> Option<DealingFlag> {
    match raw_lookup(m, "DLG_FLAG"@) {
        None => None,
        Some(t) => dealing_flag_of(t),
    }
}

/// Decodes the dealing-flag field: no value when absent, the matching flag
/// for a documented token, and a decode error for any other token.
pub fn decode_flag_field(entries: &Vec<FieldEntry>) -> (r: Result<Option<DealingFlag>, DecodeError>)
    ensures
        match r {
            Ok(v) => field_flag_ok(entries_view(entries@)) && v == field_flag_value(
                entries_view(entries@),
            ),
            Err(e) => !field_flag_ok(entries_view(entries@)) && match e {
                DecodeError::UnknownEnumValue { field, value } => field@ == "DLG_FLAG"@
                    && raw_lookup(entries_view(entries@), "DLG_FLAG"@) == Some(value@),
                _ => false,
            },
        },
{
    match get_str_field(entries, "DLG_FLAG") {
        None => Ok(None),
        Some(v) => match parse_dealing_flag(v.as_str()) {
            Some(f) => Ok(Some(f)),
            None => Err(
                DecodeError::UnknownEnumValue { field: "DLG_FLAG".to_owned(), value: v },
            ),
        },
    }
}

/// Price field data: bid and ask ladders, sizes, currencies, and the dealing
/// status. Every numeric field holds the verbatim well-formed wire token, or
/// no value where the wire carried none.
#[derive(Clone, Debug)]
pub struct PriceFields {
    /// The opening price at the middle of the bid-ask spread
    pub mid_open: Option<String>,
    /// The highest price reached during the trading session
    pub high: Option<String>,
    /// The lowest price reached during the trading session
    pub low: Option<String>,
    /// Unique identifier for the bid quote
    pub bid_quote_id: Option<String>,
    /// Unique identifier for the ask quote
    pub ask_quote_id: Option<String>,
    /// First level bid price in the order book
    pub bid_price1: Option<String>,
    /// Second level bid price in the order book
    pub bid_price2: Option<String>,
    /// Third level bid price in the order book
    pub bid_price3: Option<String>,
    /// Fourth level bid price in the order book
    pub bid_price4: Option<String>,
    /// Fifth level bid price in the order book
    pub bid_price5: Option<String>,
    /// First level ask price in the order book
    pub ask_price1: Option<String>,
    /// Second level ask price in the order book
    pub ask_price2: Option<String>,
    /// Third level ask price in the order book
    pub ask_price3: Option<String>,
    /// Fourth level ask price in the order book
    pub ask_price4: Option<String>,
    /// Fifth level ask price in the order book
    pub ask_price5: Option<String>,
    /// Volume available at the first level bid price
    pub bid_size1: Option<String>,
    /// Volume available at the second level bid price
    pub bid_size2: Option<String>,
    /// Volume available at the third level bid price
    pub bid_size3: Option<String>,
    /// Volume available at the fourth level bid price
    pub bid_size4: Option<String>,
    /// Volume available at the fifth level bid price
    pub bid_size5: Option<String>,
    /// Volume available at the first level ask price
    pub ask_size1: Option<String>,
    /// Volume available at the second level ask price
    pub ask_size2: Option<String>,
    /// Volume available at the third level ask price
    pub ask_size3: Option<String>,
    /// Volume available at the fourth level ask price
    pub ask_size4: Option<String>,
    /// Volume available at the fifth level ask price
    pub ask_size5: Option<String>,
    /// Base currency code for the trading pair
    pub currency0: Option<String>,
    /// First alternative currency code
    pub currency1: Option<String>,
    /// Second alternative currency code
    pub currency2: Option<String>,
    /// Third alternative currency code
    pub currency3: Option<String>,
    /// Fourth alternative currency code
    pub currency4: Option<String>,
    /// Fifth alternative currency code
    pub currency5: Option<String>,
    /// Bid size for currency 1 at level 1
    pub c1_bid_size_1: Option<String>,
    /// Bid size for currency 1 at level 2
    pub c1_bid_size_2: Option<String>,
    /// Bid size for currency 1 at level 3
    pub c1_bid_size_3: Option<String>,
    /// Bid size for currency 1 at level 4
    pub c1_bid_size_4: Option<String>,
    /// Bid size for currency 1 at level 5
    pub c1_bid_size_5: Option<String>,
    /// Bid size for currency 2 at level 1
    pub c2_bid_size_1: Option<String>,
    /// Bid size for currency 2 at level 2
    pub c2_bid_size_2: Option<String>,
    /// Bid size for currency 2 at level 3
    pub c2_bid_size_3: Option<String>,
    /// Bid size for currency 2 at level 4
    pub c2_bid_size_4: Option<String>,
    /// Bid size for currency 2 at level 5
    pub c2_bid_size_5: Option<String>,
    /// Bid size for currency 3 at level 1
    pub c3_bid_size_1: Option<String>,
    /// Bid size for currency 3 at level 2
    pub c3_bid_size_2: Option<String>,
    /// Bid size for currency 3 at level 3
    pub c3_bid_size_3: Option<String>,
    /// Bid size for currency 3 at level 4
    pub c3_bid_size_4: Option<String>,
    /// Bid size for currency 3 at level 5
    pub c3_bid_size_5: Option<String>,
    /// Bid size for currency 4 at level 1
    pub c4_bid_size_1: Option<String>,
    /// Bid size for currency 4 at level 2
    pub c4_bid_size_2: Option<String>,
    /// Bid size for currency 4 at level 3
    pub c4_bid_size_3: Option<String>,
    /// Bid size for currency 4 at level 4
    pub c4_bid_size_4: Option<String>,
    /// Bid size for currency 4 at level 5
    pub c4_bid_size_5: Option<String>,
    /// Bid size for currency 5 at level 1
    pub c5_bid_size_1: Option<String>,
    /// Bid size for currency 5 at level 2
    pub c5_bid_size_2: Option<String>,
    /// Bid size for currency 5 at level 3
    pub c5_bid_size_3: Option<String>,
    /// Bid size for currency 5 at level 4
    pub c5_bid_size_4: Option<String>,
    /// Bid size for currency 5 at level 5
    pub c5_bid_size_5: Option<String>,
    /// Ask size for currency 1 at level 1
    pub c1_ask_size_1: Option<String>,
    /// Ask size for currency 1 at level 2
    pub c1_ask_size_2: Option<String>,
    /// Ask size for currency 1 at level 3
    pub c1_ask_size_3: Option<String>,
    /// Ask size for currency 1 at level 4
    pub c1_ask_size_4: Option<String>,
    /// Ask size for currency 1 at level 5
    pub c1_ask_size_5: Option<String>,
    /// Ask size for currency 2 at level 1
    pub c2_ask_size_1: Option<String>,
    /// Ask size for currency 2 at level 2
    pub c2_ask_size_2: Option<String>,
    /// Ask size for currency 2 at level 3
    pub c2_ask_size_3: Option<String>,
    /// Ask size for currency 2 at level 4
    pub c2_ask_size_4: Option<String>,
    /// Ask size for currency 2 at level 5
    pub c2_ask_size_5: Option<String>,
    /// Ask size for currency 3 at level 1
    pub c3_ask_size_1: Option<String>,
    /// Ask size for currency 3 at level 2
    pub c3_ask_size_2: Option<String>,
    /// Ask size for currency 3 at level 3
    pub c3_ask_size_3: Option<String>,
    /// Ask size for currency 3 at level 4
    pub c3_ask_size_4: Option<String>,
    /// Ask size for currency 3 at level 5
    pub c3_ask_size_5: Option<String>,
    /// Ask size for currency 4 at level 1
    pub c4_ask_size_1: Option<String>,
    /// Ask size for currency 4 at level 2
    pub c4_ask_size_2: Option<String>,
    /// Ask size for currency 4 at level 3
    pub c4_ask_size_3: Option<String>,
    /// Ask size for currency 4 at level 4
    pub c4_ask_size_4: Option<String>,
    /// Ask size for currency 4 at level 5
    pub c4_ask_size_5: Option<String>,
    /// Ask size for currency 5 at level 1
    pub c5_ask_size_1: Option<String>,
    /// Ask size for currency 5 at level 2
    pub c5_ask_size_2: Option<String>,
    /// Ask size for currency 5 at level 3
    pub c5_ask_size_3: Option<String>,
    /// Ask size for currency 5 at level 4
    pub c5_ask_size_4: Option<String>,
    /// Ask size for currency 5 at level 5
    pub c5_ask_size_5: Option<String>,
    /// The timestamp of the price update in UTC milliseconds since epoch
    pub timestamp: Option<String>,
    /// Dealing status flag indicating trading availability of the market
    pub dealing_flag: Option<DealingFlag>,
}

/// Every field of `m` that the price record reads is decodable.
pub open spec fn price_fields_ok(m: FieldMap) -> bool {
    &&& field_num_ok(m, "MID_OPEN"@)
    &&& field_num_ok(m, "HIGH"@)
    &&& field_num_ok(m, "LOW"@)
    &&& field_num_ok(m, "BIDPRICE1"@)
    &&& field_num_ok(m, "BIDPRICE2"@)
    &&& field_num_ok(m, "BIDPRICE3"@)
    &&& field_num_ok(m, "BIDPRICE4"@)
    &&& field_num_ok(m, "BIDPRICE5"@)
    &&& field_num_ok(m, "ASKPRICE1"@)
    &&& field_num_ok(m, "ASKPRICE2"@)
    &&& field_num_ok(m, "ASKPRICE3"@)
    &&& field_num_ok(m, "ASKPRICE4"@)
    &&& field_num_ok(m, "ASKPRICE5"@)
    &&& field_num_ok(m, "BIDSIZE1"@)
    &&& field_num_ok(m, "BIDSIZE2"@)
    &&& field_num_ok(m, "BIDSIZE3"@)
    &&& field_num_ok(m, "BIDSIZE4"@)
    &&& field_num_ok(m, "BIDSIZE5"@)
    &&& field_num_ok(m, "ASKSIZE1"@)
    &&& field_num_ok(m, "ASKSIZE2"@)
    &&& field_num_ok(m, "ASKSIZE3"@)
    &&& field_num_ok(m, "ASKSIZE4"@)
    &&& field_num_ok(m, "ASKSIZE5"@)
    &&& field_num_ok(m, "C1BIDSIZE1"@)
    &&& field_num_ok(m, "C1BIDSIZE2"@)
    &&& field_num_ok(m, "C1BIDSIZE3"@)
    &&& field_num_ok(m, "C1BIDSIZE4"@)
    &&& field_num_ok(m, "C1BIDSIZE5"@)
    &&& field_num_ok(m, "C2BIDSIZE1"@)
    &&& field_num_ok(m, "C2BIDSIZE2"@)
    &&& field_num_ok(m, "C2BIDSIZE3"@)
    &&& field_num_ok(m, "C2BIDSIZE4"@)
    &&& field_num_ok(m, "C2BIDSIZE5"@)
    &&& field_num_ok(m, "C3BIDSIZE1"@)
    &&& field_num_ok(m, "C3BIDSIZE2"@)
    &&& field_num_ok(m, "C3BIDSIZE3"@)
    &&& field_num_ok(m, "C3BIDSIZE4"@)
    &&& field_num_ok(m, "C3BIDSIZE5"@)
    &&& field_num_ok(m, "C4BIDSIZE1"@)
    &&& field_num_ok(m, "C4BIDSIZE2"@)
    &&& field_num_ok(m, "C4BIDSIZE3"@)
    &&& field_num_ok(m, "C4BIDSIZE4"@)
    &&& field_num_ok(m, "C4BIDSIZE5"@)
    &&& field_num_ok(m, "C5BIDSIZE1"@)
    &&& field_num_ok(m, "C5BIDSIZE2"@)
    &&& field_num_ok(m, "C5BIDSIZE3"@)
    &&& field_num_ok(m, "C5BIDSIZE4"@)
    &&& field_num_ok(m, "C5BIDSIZE5"@)
    &&& field_num_ok(m, "C1ASKSIZE1"@)
    &&& field_num_ok(m, "C1ASKSIZE2"@)
    &&& field_num_ok(m, "C1ASKSIZE3"@)
    &&& field_num_ok(m, "C1ASKSIZE4"@)
    &&& field_num_ok(m, "C1ASKSIZE5"@)
    &&& field_num_ok(m, "C2ASKSIZE1"@)
    &&& field_num_ok(m, "C2ASKSIZE2"@)
    &&& field_num_ok(m, "C2ASKSIZE3"@)
    &&& field_num_ok(m, "C2ASKSIZE4"@)
    &&& field_num_ok(m, "C2ASKSIZE5"@)
    &&& field_num_ok(m, "C3ASKSIZE1"@)
    &&& field_num_ok(m, "C3ASKSIZE2"@)
    &&& field_num_ok(m, "C3ASKSIZE3"@)
    &&& field_num_ok(m, "C3ASKSIZE4"@)
    &&& field_num_ok(m, "C3ASKSIZE5"@)
    &&& field_num_ok(m, "C4ASKSIZE1"@)
    &&& field_num_ok(m, "C4ASKSIZE2"@)
    &&& field_num_ok(m, "C4ASKSIZE3"@)
    &&& field_num_ok(m, "C4ASKSIZE4"@)
    &&& field_num_ok(m, "C4ASKSIZE5"@)
    &&& field_num_ok(m, "C5ASKSIZE1"@)
    &&& field_num_ok(m, "C5ASKSIZE2"@)
    &&& field_num_ok(m, "C5ASKSIZE3"@)
    &&& field_num_ok(m, "C5ASKSIZE4"@)
    &&& field_num_ok(m, "C5ASKSIZE5"@)
    &&& field_num_ok(m, "TIMESTAMP"@)
    &&& field_flag_ok(m)
}

/// `pf` holds exactly the decoded values of the fields of `m`.
pub open spec fn price_fields_decoded(m: FieldMap, pf: PriceFields) -> bool {
    &&& opt_view(pf.mid_open) == field_num_value(m, "MID_OPEN"@)
    &&& opt_view(pf.high) == field_num_value(m, "HIGH"@)
    &&& opt_view(pf.low) == field_num_value(m, "LOW"@)
    &&& opt_view(pf.bid_quote_id) == raw_lookup(m, "BIDQUOTEID"@)
    &&& opt_view(pf.ask_quote_id) == raw_lookup(m, "ASKQUOTEID"@)
    &&& opt_view(pf.bid_price1) == field_num_value(m, "BIDPRICE1"@)
    &&& opt_view(pf.bid_price2) == field_num_value(m, "BIDPRICE2"@)
    &&& opt_view(pf.bid_price3) == field_num_value(m, "BIDPRICE3"@)
    &&& opt_view(pf.bid_price4) == field_num_value(m, "BIDPRICE4"@)
    &&& opt_view(pf.bid_price5) == field_num_value(m, "BIDPRICE5"@)
    &&& opt_view(pf.ask_price1) == field_num_value(m, "ASKPRICE1"@)
    &&& opt_view(pf.ask_price2) == field_num_value(m, "ASKPRICE2"@)
    &&& opt_view(pf.ask_price3) == field_num_value(m, "ASKPRICE3"@)
    &&& opt_view(pf.ask_price4) == field_num_value(m, "ASKPRICE4"@)
    &&& opt_view(pf.ask_price5) == field_num_value(m, "ASKPRICE5"@)
    &&& opt_view(pf.bid_size1) == field_num_value(m, "BIDSIZE1"@)
    &&& opt_view(pf.bid_size2) == field_num_value(m, "BIDSIZE2"@)
    &&& opt_view(pf.bid_size3) == field_num_value(m, "BIDSIZE3"@)
    &&& opt_view(pf.bid_size4) == field_num_value(m, "BIDSIZE4"@)
    &&& opt_view(pf.bid_size5) == field_num_value(m, "BIDSIZE5"@)
    &&& opt_view(pf.ask_size1) == field_num_value(m, "ASKSIZE1"@)
    &&& opt_view(pf.ask_size2) == field_num_value(m, "ASKSIZE2"@)
    &&& opt_view(pf.ask_size3) == field_num_value(m, "ASKSIZE3"@)
    &&& opt_view(pf.ask_size4) == field_num_value(m, "ASKSIZE4"@)
    &&& opt_view(pf.ask_size5) == field_num_value(m, "ASKSIZE5"@)
    &&& opt_view(pf.currency0) == raw_lookup(m, "CURRENCY0"@)
    &&& opt_view(pf.currency1) == raw_lookup(m, "CURRENCY1"@)
    &&& opt_view(pf.currency2) == raw_lookup(m, "CURRENCY2"@)
    &&& opt_view(pf.currency3) == raw_lookup(m, "CURRENCY3"@)
    &&& opt_view(pf.currency4) == raw_lookup(m, "CURRENCY4"@)
    &&& opt_view(pf.currency5) == raw_lookup(m, "CURRENCY5"@)
    &&& opt_view(pf.c1_bid_size_1) == field_num_value(m, "C1BIDSIZE1"@)
    &&& opt_view(pf.c1_bid_size_2) == field_num_value(m, "C1BIDSIZE2"@)
    &&& opt_view(pf.c1_bid_size_3) == field_num_value(m, "C1BIDSIZE3"@)
    &&& opt_view(pf.c1_bid_size_4) == field_num_value(m, "C1BIDSIZE4"@)
    &&& opt_view(pf.c1_bid_size_5) == field_num_value(m, "C1BIDSIZE5"@)
    &&& opt_view(pf.c2_bid_size_1) == field_num_value(m, "C2BIDSIZE1"@)
    &&& opt_view(pf.c2_bid_size_2) == field_num_value(m, "C2BIDSIZE2"@)
    &&& opt_view(pf.c2_bid_size_3) == field_num_value(m, "C2BIDSIZE3"@)
    &&& opt_view(pf.c2_bid_size_4) == field_num_value(m, "C2BIDSIZE4"@)
    &&& opt_view(pf.c2_bid_size_5) == field_num_value(m, "C2BIDSIZE5"@)
    &&& opt_view(pf.c3_bid_size_1) == field_num_value(m, "C3BIDSIZE1"@)
    &&& opt_view(pf.c3_bid_size_2) == field_num_value(m, "C3BIDSIZE2"@)
    &&& opt_view(pf.c3_bid_size_3) == field_num_value(m, "C3BIDSIZE3"@)
    &&& opt_view(pf.c3_bid_size_4) == field_num_value(m, "C3BIDSIZE4"@)
    &&& opt_view(pf.c3_bid_size_5) == field_num_value(m, "C3BIDSIZE5"@)
    &&& opt_view(pf.c4_bid_size_1) == field_num_value(m, "C4BIDSIZE1"@)
    &&& opt_view(pf.c4_bid_size_2) == field_num_value(m, "C4BIDSIZE2"@)
    &&& opt_view(pf.c4_bid_size_3) == field_num_value(m, "C4BIDSIZE3"@)
    &&& opt_view(pf.c4_bid_size_4) == field_num_value(m, "C4BIDSIZE4"@)
    &&& opt_view(pf.c4_bid_size_5) == field_num_value(m, "C4BIDSIZE5"@)
    &&& opt_view(pf.c5_bid_size_1) == field_num_value(m, "C5BIDSIZE1"@)
    &&& opt_view(pf.c5_bid_size_2) == field_num_value(m, "C5BIDSIZE2"@)
    &&& opt_view(pf.c5_bid_size_3) == field_num_value(m, "C5BIDSIZE3"@)
    &&& opt_view(pf.c5_bid_size_4) == field_num_value(m, "C5BIDSIZE4"@)
    &&& opt_view(pf.c5_bid_size_5) == field_num_value(m, "C5BIDSIZE5"@)
    &&& opt_view(pf.c1_ask_size_1) == field_num_value(m, "C1ASKSIZE1"@)
    &&& opt_view(pf.c1_ask_size_2) == field_num_value(m, "C1ASKSIZE2"@)
    &&& opt_view(pf.c1_ask_size_3) == field_num_value(m, "C1ASKSIZE3"@)
    &&& opt_view(pf.c1_ask_size_4) == field_num_value(m, "C1ASKSIZE4"@)
    &&& opt_view(pf.c1_ask_size_5) == field_num_value(m, "C1ASKSIZE5"@)
    &&& opt_view(pf.c2_ask_size_1) == field_num_value(m, "C2ASKSIZE1"@)
    &&& opt_view(pf.c2_ask_size_2) == field_num_value(m, "C2ASKSIZE2"@)
    &&& opt_view(pf.c2_ask_size_3) == field_num_value(m, "C2ASKSIZE3"@)
    &&& opt_view(pf.c2_ask_size_4) == field_num_value(m, "C2ASKSIZE4"@)
    &&& opt_view(pf.c2_ask_size_5) == field_num_value(m, "C2ASKSIZE5"@)
    &&& opt_view(pf.c3_ask_size_1) == field_num_value(m, "C3ASKSIZE1"@)
    &&& opt_view(pf.c3_ask_size_2) == field_num_value(m, "C3ASKSIZE2"@)
    &&& opt_view(pf.c3_ask_size_3) == field_num_value(m, "C3ASKSIZE3"@)
    &&& opt_view(pf.c3_ask_size_4) == field_num_value(m, "C3ASKSIZE4"@)
    &&& opt_view(pf.c3_ask_size_5) == field_num_value(m, "C3ASKSIZE5"@)
    &&& opt_view(pf.c4_ask_size_1) == field_num_value(m, "C4ASKSIZE1"@)
    &&& opt_view(pf.c4_ask_size_2) == field_num_value(m, "C4ASKSIZE2"@)
    &&& opt_view(pf.c4_ask_size_3) == field_num_value(m, "C4ASKSIZE3"@)
    &&& opt_view(pf.c4_ask_size_4) == field_num_value(m, "C4ASKSIZE4"@)
    &&& opt_view(pf.c4_ask_size_5) == field_num_value(m, "C4ASKSIZE5"@)
    &&& opt_view(pf.c5_ask_size_1) == field_num_value(m, "C5ASKSIZE1"@)
    &&& opt_view(pf.c5_ask_size_2) == field_num_value(m, "C5ASKSIZE2"@)
    &&& opt_view(pf.c5_ask_size_3) == field_num_value(m, "C5ASKSIZE3"@)
    &&& opt_view(pf.c5_ask_size_4) == field_num_value(m, "C5ASKSIZE4"@)
    &&& opt_view(pf.c5_ask_size_5) == field_num_value(m, "C5ASKSIZE5"@)
    &&& opt_view(pf.timestamp) == field_num_value(m, "TIMESTAMP"@)
    &&& pf.dealing_flag == field_flag_value(m)
}

/// `e` reports a field of `m` that is not decodable, with the value it held.
pub open spec fn price_decode_err(m: FieldMap, e: DecodeError) -> bool {
    match e {
        DecodeError::InvalidNumber { field, value } => !field_num_ok(m, field@) && raw_lookup(
            m,
            field@,
        ) == Some(value@),
        DecodeError::UnknownEnumValue { field, value } => field@ == "DLG_FLAG"@ && !field_flag_ok(m)
            && raw_lookup(m, field@) == Some(value@),
    }
}

/// Structure for price data received from a raw streaming update: the item's
/// identity, the decoded current state of all fields, and the decoded subset
/// of fields this update changed.
#[derive(Clone, Debug)]
pub struct PriceData {
    /// Name of the item (usually the market identifier)
    pub item_name: String,
    /// Position of the item in the subscription
    pub item_pos: usize,
    /// All price fields for this market
    pub fields: PriceFields,
    /// Fields that have changed in this update
    pub changed_fields: PriceFields,
    /// Whether this is a snapshot or an update
    pub is_snapshot: bool,
}

impl PriceData {
    /// Decodes a price field record from a field list. Fails exactly when
    /// some numeric field holds a malformed token or the dealing flag holds
    /// an undocumented one, and then reports that field.
    pub fn create_price_fields(entries: &Vec<FieldEntry>) -> (r: Result<PriceFields, DecodeError>)
        ensures
            match r {
                Ok(pf) => price_fields_ok(entries_view(entries@)) && price_fields_decoded(
                    entries_view(entries@),
                    pf,
                ),
                Err(e) => !price_fields_ok(entries_view(entries@)) && price_decode_err(
                    entries_view(entries@),
                    e,
                ),
            },
    {
        let mid_open = match decode_num_field(entries, "MID_OPEN") {
            Ok(v) => v,
            Err(e) => return Err(e),
        };
        let high = match decode_num_field(entries, "HIGH") {
            Ok(v) => v,
            Err(e) => return Err(e),
        };
        let low = match decode_num_field(entries, "LOW") {
            Ok(v) => v,
            Err(e) => return Err(e),
        };
        let bid_quote_id = get_str_field(entries, "BIDQUOTEID");
        let ask_quote_id = get_str_field(entries, "ASKQUOTEID");
        let bid_price1 = match decode_num_field(entries, "BIDPRICE1") {
            Ok(v) => v,
            Err(e) => return Err(e),
        };
        let bid_price2 = match decode_num_field(entries, "BIDPRICE2") {
            Ok(v) => v,
            Err(e) => return Err(e),
        };
        let bid_price3 = match decode_num_field(entries, "BIDPRICE3") {
            Ok(v) => v,
            Err(e) => return Err(e),
        };
        let bid_price4 = match decode_num_field(entries, "BIDPRICE4") {
            Ok(v) => v,
            Err(e) => return Err(e),
        };
        let bid_price5 = match decode_num_field(entries, "BIDPRICE5") {
            Ok(v) => v,
            Err(e) => return Err(e),
        };
        let ask_price1 = match decode_num_field(entries, "ASKPRICE1") {
            Ok(v) => v,
            Err(e) => return Err(e),
        };
        let ask_price2 = match decode_num_field(entries, "ASKPRICE2") {
            Ok(v) => v,
            Err(e) => return Err(e),
        };
        let ask_price3 = match decode_num_field(entries, "ASKPRICE3") {
            Ok(v) => v,
            Err(e) => return Err(e),
        };
        let ask_price4 = match decode_num_field(entries, "ASKPRICE4") {
            Ok(v) => v,
            Err(e) => return Err(e),
        };
        let ask_price5 = match decode_num_field(entries, "ASKPRICE5") {
            Ok(v) => v,
            Err(e) => return Err(e),
        };
        let bid_size1 = match decode_num_field(entries, "BIDSIZE1") {
            Ok(v) => v,
            Err(e) => return Err(e),
        };
        let bid_size2 = match decode_num_field(entries, "BIDSIZE2") {
            Ok(v) => v,
            Err(e) => return Err(e),
        };
        let bid_size3 = match decode_num_field(entries, "BIDSIZE3") {
            Ok(v) => v,
            Err(e) => return Err(e),
        };
        let bid_size4 = match decode_num_field(entries, "BIDSIZE4") {
            Ok(v) => v,
            Err(e) => return Err(e),
        };
        let bid_size5 = match decode_num_field(entries, "BIDSIZE5") {
            Ok(v) => v,
            Err(e) => return Err(e),
        };
        let ask_size1 = match decode_num_field(entries, "ASKSIZE1") {
            Ok(v) => v,
            Err(e) => return Err(e),
        };
        let ask_size2 = match decode_num_field(entries, "ASKSIZE2") {
            Ok(v) => v,
            Err(e) => return Err(e),
        };
        let ask_size3 = match decode_num_field(entries, "ASKSIZE3") {
            Ok(v) => v,
            Err(e) => return Err(e),
        };
        let ask_size4 = match decode_num_field(entries, "ASKSIZE4") {
            Ok(v) => v,
            Err(e) => return Err(e),
        };
        let ask_size5 = match decode_num_field(entries, "ASKSIZE5") {
            Ok(v) => v,
            Err(e) => return Err(e),
        };
        let currency0 = get_str_field(entries, "CURRENCY0");
        let currency1 = get_str_field(entries, "CURRENCY1");
        let currency2 = get_str_field(entries, "CURRENCY2");
        let currency3 = get_str_field(entries, "CURRENCY3");
        let currency4 = get_str_field(entries, "CURRENCY4");
        let currency5 = get_str_field(entries, "CURRENCY5");
        let c1_bid_size_1 = match decode_num_field(entries, "C1BIDSIZE1") {
            Ok(v) => v,
            Err(e) => return Err(e),
        };
        let c1_bid_size_2 = match decode_num_field(entries, "C1BIDSIZE2") {
            Ok(v) => v,
            Err(e) => return Err(e),
        };
        let c1_bid_size_3 = match decode_num_field(entries, "C1BIDSIZE3") {
            Ok(v) => v,
            Err(e) => return Err(e),
        };
        let c1_bid_size_4 = match decode_num_field(entries, "C1BIDSIZE4") {
            Ok(v) => v,
            Err(e) => return Err(e),
        };
        let c1_bid_size_5 = match decode_num_field(entries, "C1BIDSIZE5") {
            Ok(v) => v,
            Err(e) => return Err(e),
        };
        let c2_bid_size_1 = match decode_num_field(entries, "C2BIDSIZE1") {
            Ok(v) => v,
            Err(e) => return Err(e),
        };
        let c2_bid_size_2 = match decode_num_field(entries, "C2BIDSIZE2") {
            Ok(v) => v,
            Err(e) => return Err(e),
        };
        let c2_bid_size_3 = match decode_num_field(entries, "C2BIDSIZE3") {
            Ok(v) => v,
            Err(e) => return Err(e),
        };
        let c2_bid_size_4 = match decode_num_field(entries, "C2BIDSIZE4") {
            Ok(v) => v,
            Err(e) => return Err(e),
        };
        let c2_bid_size_5 = match decode_num_field(entries, "C2BIDSIZE5") {
            Ok(v) => v,
            Err(e) => return Err(e),
        };
        let c3_bid_size_1 = match decode_num_field(entries, "C3BIDSIZE1") {
            Ok(v) => v,
            Err(e) => return Err(e),
        };
        let c3_bid_size_2 = match decode_num_field(entries, "C3BIDSIZE2") {
            Ok(v) => v,
            Err(e) => return Err(e),
        };
        let c3_bid_size_3 = match decode_num_field(entries, "C3BIDSIZE3") {
            Ok(v) => v,
            Err(e) => return Err(e),
        };
        let c3_bid_size_4 = match decode_num_field(entries, "C3BIDSIZE4") {
            Ok(v) => v,
            Err(e) => return Err(e),
        };
        let c3_bid_size_5 = match decode_num_field(entries, "C3BIDSIZE5") {
            Ok(v) => v,
            Err(e) => return Err(e),
        };
        let c4_bid_size_1 = match decode_num_field(entries, "C4BIDSIZE1") {
            Ok(v) => v,
            Err(e) => return Err(e),
        };
        let c4_bid_size_2 = match decode_num_field(entries, "C4BIDSIZE2") {
            Ok(v) => v,
            Err(e) => return Err(e),
        };
        let c4_bid_size_3 = match decode_num_field(entries, "C4BIDSIZE3") {
            Ok(v) => v,
            Err(e) => return Err(e),
        };
        let c4_bid_size_4 = match decode_num_field(entries, "C4BIDSIZE4") {
            Ok(v) => v,
            Err(e) => return Err(e),
        };
        let c4_bid_size_5 = match decode_num_field(entries, "C4BIDSIZE5") {
            Ok(v) => v,
            Err(e) => return Err(e),
        };
        let c5_bid_size_1 = match decode_num_field(entries, "C5BIDSIZE1") {
            Ok(v) => v,
            Err(e) => return Err(e),
        };
        let c5_bid_size_2 = match decode_num_field(entries, "C5BIDSIZE2") {
            Ok(v) => v,
            Err(e) => return Err(e),
        };
        let c5_bid_size_3 = match decode_num_field(entries, "C5BIDSIZE3") {
            Ok(v) => v,
            Err(e) => return Err(e),
        };
        let c5_bid_size_4 = match decode_num_field(entries, "C5BIDSIZE4") {
            Ok(v) => v,
            Err(e) => return Err(e),
        };
        let c5_bid_size_5 = match decode_num_field(entries, "C5BIDSIZE5") {
            Ok(v) => v,
            Err(e) => return Err(e),
        };
        let c1_ask_size_1 = match decode_num_field(entries, "C1ASKSIZE1") {
            Ok(v) => v,
            Err(e) => return Err(e),
        };
        let c1_ask_size_2 = match decode_num_field(entries, "C1ASKSIZE2") {
            Ok(v) => v,
            Err(e) => return Err(e),
        };
        let c1_ask_size_3 = match decode_num_field(entries, "C1ASKSIZE3") {
            Ok(v) => v,
            Err(e) => return Err(e),
        };
        let c1_ask_size_4 = match decode_num_field(entries, "C1ASKSIZE4") {
            Ok(v) => v,
            Err(e) => return Err(e),
        };
        let c1_ask_size_5 = match decode_num_field(entries, "C1ASKSIZE5") {
            Ok(v) => v,
            Err(e) => return Err(e),
        };
        let c2_ask_size_1 = match decode_num_field(entries, "C2ASKSIZE1") {
            Ok(v) => v,
            Err(e) => return Err(e),
        };
        let c2_ask_size_2 = match decode_num_field(entries, "C2ASKSIZE2") {
            Ok(v) => v,
            Err(e) => return Err(e),
        };
        let c2_ask_size_3 = match decode_num_field(entries, "C2ASKSIZE3") {
            Ok(v) => v,
            Err(e) => return Err(e),
        };
        let c2_ask_size_4 = match decode_num_field(entries, "C2ASKSIZE4") {
            Ok(v) => v,
            Err(e) => return Err(e),
        };
        let c2_ask_size_5 = match decode_num_field(entries, "C2ASKSIZE5") {
            Ok(v) => v,
            Err(e) => return Err(e),
        };
        let c3_ask_size_1 = match decode_num_field(entries, "C3ASKSIZE1") {
            Ok(v) => v,
            Err(e) => return Err(e),
        };
        let c3_ask_size_2 = match decode_num_field(entries, "C3ASKSIZE2") {
            Ok(v) => v,
            Err(e) => return Err(e),
        };
        let c3_ask_size_3 = match decode_num_field(entries, "C3ASKSIZE3") {
            Ok(v) => v,
            Err(e) => return Err(e),
        };
        let c3_ask_size_4 = match decode_num_field(entries, "C3ASKSIZE4") {
            Ok(v) => v,
            Err(e) => return Err(e),
        };
        let c3_ask_size_5 = match decode_num_field(entries, "C3ASKSIZE5") {
            Ok(v) => v,
            Err(e) => return Err(e),
        };
        let c4_ask_size_1 = match decode_num_field(entries, "C4ASKSIZE1") {
            Ok(v) => v,
            Err(e) => return Err(e),
        };
        let c4_ask_size_2 = match decode_num_field(entries, "C4ASKSIZE2") {
            Ok(v) => v,
            Err(e) => return Err(e),
        };
        let c4_ask_size_3 = match decode_num_field(entries, "C4ASKSIZE3") {
            Ok(v) => v,
            Err(e) => return Err(e),
        };
        let c4_ask_size_4 = match decode_num_field(entries, "C4ASKSIZE4") {
            Ok(v) => v,
            Err(e) => return Err(e),
        };
        let c4_ask_size_5 = match decode_num_field(entries, "C4ASKSIZE5") {
            Ok(v) => v,
            Err(e) => return Err(e),
        };
        let c5_ask_size_1 = match decode_num_field(entries, "C5ASKSIZE1") {
            Ok(v) => v,
            Err(e) => return Err(e),
        };
        let c5_ask_size_2 = match decode_num_field(entries, "C5ASKSIZE2") {
            Ok(v) => v,
            Err(e) => return Err(e),
        };
        let c5_ask_size_3 = match decode_num_field(entries, "C5ASKSIZE3") {
            Ok(v) => v,
            Err(e) => return Err(e),
        };
        let c5_ask_size_4 = match decode_num_field(entries, "C5ASKSIZE4") {
            Ok(v) => v,
            Err(e) => return Err(e),
        };
        let c5_ask_size_5 = match decode_num_field(entries, "C5ASKSIZE5") {
            Ok(v) => v,
            Err(e) => return Err(e),
        };
        let timestamp = match decode_num_field(entries, "TIMESTAMP") {
            Ok(v) => v,
            Err(e) => return Err(e),
        };
        let dealing_flag = match decode_flag_field(entries) {
            Ok(v) => v,
            Err(e) => return Err(e),
        };
        Ok(PriceFields {
            mid_open,
            high,
            low,
            bid_quote_id,
            ask_quote_id,
            bid_price1,
            bid_price2,
            bid_price3,
            bid_price4,
            bid_price5,
            ask_price1,
            ask_price2,
            ask_price3,
            ask_price4,
            ask_price5,
            bid_size1,
            bid_size2,
            bid_size3,
            bid_size4,
            bid_size5,
            ask_size1,
            ask_size2,
            ask_size3,
            ask_size4,
            ask_size5,
            currency0,
            currency1,
            currency2,
            currency3,
            currency4,
            currency5,
            c1_bid_size_1,
            c1_bid_size_2,
            c1_bid_size_3,
            c1_bid_size_4,
            c1_bid_size_5,
            c2_bid_size_1,
            c2_bid_size_2,
            c2_bid_size_3,
            c2_bid_size_4,
            c2_bid_size_5,
            c3_bid_size_1,
            c3_bid_size_2,
            c3_bid_size_3,
            c3_bid_size_4,
            c3_bid_size_5,
            c4_bid_size_1,
            c4_bid_size_2,
            c4_bid_size_3,
            c4_bid_size_4,
            c4_bid_size_5,
            c5_bid_size_1,
            c5_bid_size_2,
            c5_bid_size_3,
            c5_bid_size_4,
            c5_bid_size_5,
            c1_ask_size_1,
            c1_ask_size_2,
            c1_ask_size_3,
            c1_ask_size_4,
            c1_ask_size_5,
            c2_ask_size_1,
            c2_ask_size_2,
            c2_ask_size_3,
            c2_ask_size_4,
            c2_ask_size_5,
            c3_ask_size_1,
            c3_ask_size_2,
            c3_ask_size_3,
            c3_ask_size_4,
            c3_ask_size_5,
            c4_ask_size_1,
            c4_ask_size_2,
            c4_ask_size_3,
            c4_ask_size_4,
            c4_ask_size_5,
            c5_ask_size_1,
            c5_ask_size_2,
            c5_ask_size_3,
            c5_ask_size_4,
            c5_ask_size_5,
            timestamp,
            dealing_flag,
        })
    }

    /// Decodes a whole raw update into a price record: both the full field
    /// state and the changed subset must decode.
    pub fn from_item_update(u: &RawUpdate) -> (r: Result<PriceData, DecodeError>)
        ensures
            match r {
                Ok(pd) => {
                    &&& price_fields_ok(entries_view(u.fields@))
                    &&& price_fields_ok(changed_view(u.changed_fields@))
                    &&& pd.item_name@ == item_name_view(u.item_name)
                    &&& pd.item_pos == u.item_pos
                    &&& pd.is_snapshot == u.is_snapshot
                    &&& price_fields_decoded(entries_view(u.fields@), pd.fields)
                    &&& price_fields_decoded(changed_view(u.changed_fields@), pd.changed_fields)
                },
                Err(e) => {
                    &&& !(price_fields_ok(entries_view(u.fields@)) && price_fields_ok(
                        changed_view(u.changed_fields@),
                    ))
                    &&& (price_decode_err(entries_view(u.fields@), e) || price_decode_err(
                        changed_view(u.changed_fields@),
                        e,
                    ))
                },
            },
    {
        let item_name = match &u.item_name {
            Some(n) => n.clone(),
            None => String::new(),
        };
        let fields = match Self::create_price_fields(&u.fields) {
            Ok(f) => f,
            Err(e) => return Err(e),
        };
        let changed_entries = changed_as_entries(&u.changed_fields);
        let changed_fields = match Self::create_price_fields(&changed_entries) {
            Ok(f) => f,
            Err(e) => return Err(e),
        };
        Ok(PriceData { item_name, item_pos: u.item_pos, fields, changed_fields, is_snapshot: u.is_snapshot })
    }
}

} // verus!
