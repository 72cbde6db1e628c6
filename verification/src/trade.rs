//! The typed record for trade events: deal confirmations, open-position
//! updates and working-order updates, passed through as opaque text.

use vstd::prelude::*;

use crate::raw::{
    DecodeError, FieldEntry, FieldMap, RawUpdate, changed_as_entries, changed_view, entries_view,
    field_num_ok, get_str_field, item_name_view, opt_view, raw_lookup,
};

verus! {

/// Trade field data. Every numeric field holds the verbatim
/// well-formed wire token, or no value where the wire carried none; string
/// fields pass through unchanged.
#[derive(Clone, Debug)]
pub struct TradeFields {
    /// Deal confirmation payload
    pub confirms: Option<String>,
    /// Open-position update payload
    pub opu: Option<String>,
    /// Working-order update payload
    pub wou: Option<String>,
}

/// Every field of `m` that the record reads is decodable.
pub open spec fn trade_fields_ok(m: FieldMap) -> bool {
    true
}

/// `f` holds exactly the decoded values of the fields of `m`.
pub open spec fn trade_fields_decoded(m: FieldMap, f: TradeFields) -> bool {
    &&& opt_view(f.confirms) == raw_lookup(m, "CONFIRMS"@)
    &&& opt_view(f.opu) == raw_lookup(m, "OPU"@)
    &&& opt_view(f.wou) == raw_lookup(m, "WOU"@)
}

/// `e` reports a numeric field of `m` that is not decodable, with the value
/// it held.
pub open spec fn trade_decode_err(m: FieldMap, e: DecodeError) -> bool {
    match e {
        DecodeError::InvalidNumber { field, value } => !field_num_ok(m, field@) && raw_lookup(
            m,
            field@,
        ) == Some(value@),
        DecodeError::UnknownEnumValue { field, value } => false,
    }
}

/// Trade data received from a raw streaming update: the item's
/// identity, the decoded current state of all fields, and the decoded subset
/// of fields this update changed.
#[derive(Clone, Debug)]
pub struct TradeData {
    /// Name of the item this data belongs to
    pub item_name: String,
    /// Position of the item in the subscription
    pub item_pos: usize,
    /// All fields of the record
    pub fields: TradeFields,
    /// Fields that have changed in this update
    pub changed_fields: TradeFields,
    /// Whether this is a snapshot or an update
    pub is_snapshot: bool,
}

impl TradeData {
    /// Decodes a field record from a field list. Fails exactly when some
    /// numeric field holds a malformed token, and then reports that field.
    pub fn create_trade_fields(entries: &Vec<FieldEntry>) -> (r: Result<TradeFields, DecodeError>)
        ensures
            match r {
                Ok(f) => trade_fields_ok(entries_view(entries@)) && trade_fields_decoded(
                    entries_view(entries@),
                    f,
                ),
                Err(e) => !trade_fields_ok(entries_view(entries@)) && trade_decode_err(
                    entries_view(entries@),
                    e,
                ),
            },
    {
        let confirms = get_str_field(entries, "CONFIRMS");
        let opu = get_str_field(entries, "OPU");
        let wou = get_str_field(entries, "WOU");
        Ok(TradeFields {
            confirms,
            opu,
            wou,
        })
    }

    /// Decodes a whole raw update into a typed record: both the full field
    /// state and the changed subset must decode.
    pub fn from_item_update(u: &RawUpdate) -> (r: Result<TradeData, DecodeError>)
        ensures
            match r {
                Ok(d) => {
                    &&& trade_fields_ok(entries_view(u.fields@))
                    &&& trade_fields_ok(changed_view(u.changed_fields@))
                    &&& d.item_name@ == item_name_view(u.item_name)
                    &&& d.item_pos == u.item_pos
                    &&& d.is_snapshot == u.is_snapshot
                    &&& trade_fields_decoded(entries_view(u.fields@), d.fields)
                    &&& trade_fields_decoded(changed_view(u.changed_fields@), d.changed_fields)
                },
                Err(e) => {
                    &&& !(trade_fields_ok(entries_view(u.fields@)) && trade_fields_ok(
                        changed_view(u.changed_fields@),
                    ))
                    &&& (trade_decode_err(entries_view(u.fields@), e) || trade_decode_err(
                        changed_view(u.changed_fields@),
                        e,
                    ))
                },
            },
    {
        let item_name = match &u.item_name {
            Some(n) => n.clone(),
            None => String::new(),
        };
        let fields = match Self::create_trade_fields(&u.fields) {
            Ok(f) => f,
            Err(e) => return Err(e),
        };
        let changed_entries = changed_as_entries(&u.changed_fields);
        let changed_fields = match Self::create_trade_fields(&changed_entries) {
            Ok(f) => f,
            Err(e) => return Err(e),
        };
        Ok(TradeData { item_name, item_pos: u.item_pos, fields, changed_fields, is_snapshot: u.is_snapshot })
    }
}

} // verus!
