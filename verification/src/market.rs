//! The typed record for market updates: session prices, change figures,
//! update time and market state, decoded from a raw wire update.

use vstd::prelude::*;

use crate::raw::{
    DecodeError, FieldEntry, FieldMap, RawUpdate, changed_as_entries, changed_view,
    decode_num_field, entries_view, field_num_ok, field_num_value, get_str_field, item_name_view,
    opt_view, raw_lookup,
};

verus! {

/// Market field data. Every numeric field holds the verbatim
/// well-formed wire token, or no value where the wire carried none; string
/// fields pass through unchanged.
#[derive(Clone, Debug)]
pub struct MarketFields {
    /// Mid open price
    pub mid_open: Option<String>,
    /// High price of the session
    pub high: Option<String>,
    /// Low price of the session
    pub low: Option<String>,
    /// Price change since the previous close
    pub change: Option<String>,
    /// Percentage price change since the previous close
    pub change_pct: Option<String>,
    /// Time of the last update
    pub update_time: Option<String>,
    /// Market delay in milliseconds
    pub market_delay: Option<String>,
    /// State of the market, such as TRADEABLE or CLOSED
    pub market_state: Option<String>,
    /// Current bid price
    pub bid: Option<String>,
    /// Current offer price
    pub offer: Option<String>,
}

/// Every field of `m` that the record reads is decodable.
pub open spec fn market_fields_ok(m: FieldMap) -> bool {
    &&& field_num_ok(m, "MID_OPEN"@)
    &&& field_num_ok(m, "HIGH"@)
    &&& field_num_ok(m, "LOW"@)
    &&& field_num_ok(m, "CHANGE"@)
    &&& field_num_ok(m, "CHANGE_PCT"@)
    &&& field_num_ok(m, "MARKET_DELAY"@)
    &&& field_num_ok(m, "BID"@)
    &&& field_num_ok(m, "OFFER"@)
}

/// `f` holds exactly the decoded values of the fields of `m`.
pub open spec fn market_fields_decoded(m: FieldMap, f: MarketFields) -> bool {
    &&& opt_view(f.mid_open) == field_num_value(m, "MID_OPEN"@)
    &&& opt_view(f.high) == field_num_value(m, "HIGH"@)
    &&& opt_view(f.low) == field_num_value(m, "LOW"@)
    &&& opt_view(f.change) == field_num_value(m, "CHANGE"@)
    &&& opt_view(f.change_pct) == field_num_value(m, "CHANGE_PCT"@)
    &&& opt_view(f.update_time) == raw_lookup(m, "UPDATE_TIME"@)
    &&& opt_view(f.market_delay) == field_num_value(m, "MARKET_DELAY"@)
    &&& opt_view(f.market_state) == raw_lookup(m, "MARKET_STATE"@)
    &&& opt_view(f.bid) == field_num_value(m, "BID"@)
    &&& opt_view(f.offer) == field_num_value(m, "OFFER"@)
}

/// `e` reports a numeric field of `m` that is not decodable, with the value
/// it held.
pub open spec fn market_decode_err(m: FieldMap, e: DecodeError) -> bool {
    match e {
        DecodeError::InvalidNumber { field, value } => !field_num_ok(m, field@) && raw_lookup(
            m,
            field@,
        ) == Some(value@),
        DecodeError::UnknownEnumValue { field, value } => false,
    }
}

/// Market data received from a raw streaming update: the item's
/// identity, the decoded current state of all fields, and the decoded subset
/// of fields this update changed.
#[derive(Clone, Debug)]
pub struct MarketUpdate {
    /// Name of the item this data belongs to
    pub item_name: String,
    /// Position of the item in the subscription
    pub item_pos: usize,
    /// All fields of the record
    pub fields: MarketFields,
    /// Fields that have changed in this update
    pub changed_fields: MarketFields,
    /// Whether this is a snapshot or an update
    pub is_snapshot: bool,
}

impl MarketUpdate {
    /// Decodes a field record from a field list. Fails exactly when some
    /// numeric field holds a malformed token, and then reports that field.
    pub fn create_market_fields(entries: &Vec<FieldEntry>) -> (r: Result<MarketFields, DecodeError>)
        ensures
            match r {
                Ok(f) => market_fields_ok(entries_view(entries@)) && market_fields_decoded(
                    entries_view(entries@),
                    f,
                ),
                Err(e) => !market_fields_ok(entries_view(entries@)) && market_decode_err(
                    entries_view(entries@),
                    e,
                ),
            },
    {
        let mid_open = match decode_num_field(entries, "MID_OPEN") {
            Ok(v) => v,
            Err(e) => return Err(e),
        };
        let high = match decode_num_field(entries, "HIGH") {
            Ok(v) => v,
            Err(e) => return Err(e),
        };
        let low = match decode_num_field(entries, "LOW") {
            Ok(v) => v,
            Err(e) => return Err(e),
        };
        let change = match decode_num_field(entries, "CHANGE") {
            Ok(v) => v,
            Err(e) => return Err(e),
        };
        let change_pct = match decode_num_field(entries, "CHANGE_PCT") {
            Ok(v) => v,
            Err(e) => return Err(e),
        };
        let update_time = get_str_field(entries, "UPDATE_TIME");
        let market_delay = match decode_num_field(entries, "MARKET_DELAY") {
            Ok(v) => v,
            Err(e) => return Err(e),
        };
        let market_state = get_str_field(entries, "MARKET_STATE");
        let bid = match decode_num_field(entries, "BID") {
            Ok(v) => v,
            Err(e) => return Err(e),
        };
        let offer = match decode_num_field(entries, "OFFER") {
            Ok(v) => v,
            Err(e) => return Err(e),
        };
        Ok(MarketFields {
            mid_open,
            high,
            low,
            change,
            change_pct,
            update_time,
            market_delay,
            market_state,
            bid,
            offer,
        })
    }

    /// Decodes a whole raw update into a typed record: both the full field
    /// state and the changed subset must decode.
    pub fn from_item_update(u: &RawUpdate) -> (r: Result<MarketUpdate, DecodeError>)
        ensures
            match r {
                Ok(d) => {
                    &&& market_fields_ok(entries_view(u.fields@))
                    &&& market_fields_ok(changed_view(u.changed_fields@))
                    &&& d.item_name@ == item_name_view(u.item_name)
                    &&& d.item_pos == u.item_pos
                    &&& d.is_snapshot == u.is_snapshot
                    &&& market_fields_decoded(entries_view(u.fields@), d.fields)
                    &&& market_fields_decoded(changed_view(u.changed_fields@), d.changed_fields)
                },
                Err(e) => {
                    &&& !(market_fields_ok(entries_view(u.fields@)) && market_fields_ok(
                        changed_view(u.changed_fields@),
                    ))
                    &&& (market_decode_err(entries_view(u.fields@), e) || market_decode_err(
                        changed_view(u.changed_fields@),
                        e,
                    ))
                },
            },
    {
        let item_name = match &u.item_name {
            Some(n) => n.clone(),
            None => String::new(),
        };
        let fields = match Self::create_market_fields(&u.fields) {
            Ok(f) => f,
            Err(e) => return Err(e),
        };
        let changed_entries = changed_as_entries(&u.changed_fields);
        let changed_fields = match Self::create_market_fields(&changed_entries) {
            Ok(f) => f,
            Err(e) => return Err(e),
        };
        Ok(MarketUpdate { item_name, item_pos: u.item_pos, fields, changed_fields, is_snapshot: u.is_snapshot })
    }
}

} // verus!
