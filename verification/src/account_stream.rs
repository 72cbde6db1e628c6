//! The typed record for account metric updates: profit and loss, margin,
//! equity and available funds, decoded from a raw wire update.

use vstd::prelude::*;

use crate::raw::{
    DecodeError, FieldEntry, FieldMap, RawUpdate, changed_as_entries, changed_view,
    decode_num_field, entries_view, field_num_ok, field_num_value, item_name_view,
    opt_view, raw_lookup,
};

verus! {

/// Account field data. Every numeric field holds the verbatim
/// well-formed wire token, or no value where the wire carried none; string
/// fields pass through unchanged.
#[derive(Clone, Debug)]
pub struct AccountFields {
    /// Profit and loss
    pub pnl: Option<String>,
    /// Deposit amount
    pub deposit: Option<String>,
    /// Available cash
    pub available_cash: Option<String>,
    /// Profit and loss for positions with guaranteed stops
    pub pnl_lr: Option<String>,
    /// Profit and loss for positions without guaranteed stops
    pub pnl_nlr: Option<String>,
    /// Total funds
    pub funds: Option<String>,
    /// Total margin
    pub margin: Option<String>,
    /// Margin for positions with guaranteed stops
    pub margin_lr: Option<String>,
    /// Margin for positions without guaranteed stops
    pub margin_nlr: Option<String>,
    /// Available amount to deal
    pub available_to_deal: Option<String>,
    /// Total equity
    pub equity: Option<String>,
    /// Equity used
    pub equity_used: Option<String>,
}

/// Every field of `m` that the record reads is decodable.
pub open spec fn account_fields_ok(m: FieldMap) -> bool {
    &&& field_num_ok(m, "PNL"@)
    &&& field_num_ok(m, "DEPOSIT"@)
    &&& field_num_ok(m, "AVAILABLE_CASH"@)
    &&& field_num_ok(m, "PNL_LR"@)
    &&& field_num_ok(m, "PNL_NLR"@)
    &&& field_num_ok(m, "FUNDS"@)
    &&& field_num_ok(m, "MARGIN"@)
    &&& field_num_ok(m, "MARGIN_LR"@)
    &&& field_num_ok(m, "MARGIN_NLR"@)
    &&& field_num_ok(m, "AVAILABLE_TO_DEAL"@)
    &&& field_num_ok(m, "EQUITY"@)
    &&& field_num_ok(m, "EQUITY_USED"@)
}

/// `f` holds exactly the decoded values of the fields of `m`.
pub open spec fn account_fields_decoded(m: FieldMap, f: AccountFields) -> bool {
    &&& opt_view(f.pnl) == field_num_value(m, "PNL"@)
    &&& opt_view(f.deposit) == field_num_value(m, "DEPOSIT"@)
    &&& opt_view(f.available_cash) == field_num_value(m, "AVAILABLE_CASH"@)
    &&& opt_view(f.pnl_lr) == field_num_value(m, "PNL_LR"@)
    &&& opt_view(f.pnl_nlr) == field_num_value(m, "PNL_NLR"@)
    &&& opt_view(f.funds) == field_num_value(m, "FUNDS"@)
    &&& opt_view(f.margin) == field_num_value(m, "MARGIN"@)
    &&& opt_view(f.margin_lr) == field_num_value(m, "MARGIN_LR"@)
    &&& opt_view(f.margin_nlr) == field_num_value(m, "MARGIN_NLR"@)
    &&& opt_view(f.available_to_deal) == field_num_value(m, "AVAILABLE_TO_DEAL"@)
    &&& opt_view(f.equity) == field_num_value(m, "EQUITY"@)
    &&& opt_view(f.equity_used) == field_num_value(m, "EQUITY_USED"@)
}

/// `e` reports a numeric field of `m` that is not decodable, with the value
/// it held.
pub open spec fn account_decode_err(m: FieldMap, e: DecodeError) -> bool {
    match e {
        DecodeError::InvalidNumber { field, value } => !field_num_ok(m, field@) && raw_lookup(
            m,
            field@,
        ) == Some(value@),
        DecodeError::UnknownEnumValue { field, value } => false,
    }
}

/// Account data received from a raw streaming update: the item's
/// identity, the decoded current state of all fields, and the decoded subset
/// of fields this update changed.
#[derive(Clone, Debug)]
pub struct AccountData {
    /// Name of the item this data belongs to
    pub item_name: String,
    /// Position of the item in the subscription
    pub item_pos: usize,
    /// All fields of the record
    pub fields: AccountFields,
    /// Fields that have changed in this update
    pub changed_fields: AccountFields,
    /// Whether this is a snapshot or an update
    pub is_snapshot: bool,
}

impl AccountData {
    /// Decodes a field record from a field list. Fails exactly when some
    /// numeric field holds a malformed token, and then reports that field.
    pub fn create_account_fields(entries: &Vec<FieldEntry>) -> (r: Result<AccountFields, DecodeError>)
        ensures
            match r {
                Ok(f) => account_fields_ok(entries_view(entries@)) && account_fields_decoded(
                    entries_view(entries@),
                    f,
                ),
                Err(e) => !account_fields_ok(entries_view(entries@)) && account_decode_err(
                    entries_view(entries@),
                    e,
                ),
            },
    {
        let pnl = match decode_num_field(entries, "PNL") {
            Ok(v) => v,
            Err(e) => return Err(e),
        };
        let deposit = match decode_num_field(entries, "DEPOSIT") {
            Ok(v) => v,
            Err(e) => return Err(e),
        };
        let available_cash = match decode_num_field(entries, "AVAILABLE_CASH") {
            Ok(v) => v,
            Err(e) => return Err(e),
        };
        let pnl_lr = match decode_num_field(entries, "PNL_LR") {
            Ok(v) => v,
            Err(e) => return Err(e),
        };
        let pnl_nlr = match decode_num_field(entries, "PNL_NLR") {
            Ok(v) => v,
            Err(e) => return Err(e),
        };
        let funds = match decode_num_field(entries, "FUNDS") {
            Ok(v) => v,
            Err(e) => return Err(e),
        };
        let margin = match decode_num_field(entries, "MARGIN") {
            Ok(v) => v,
            Err(e) => return Err(e),
        };
        let margin_lr = match decode_num_field(entries, "MARGIN_LR") {
            Ok(v) => v,
            Err(e) => return Err(e),
        };
        let margin_nlr = match decode_num_field(entries, "MARGIN_NLR") {
            Ok(v) => v,
            Err(e) => return Err(e),
        };
        let available_to_deal = match decode_num_field(entries, "AVAILABLE_TO_DEAL") {
            Ok(v) => v,
            Err(e) => return Err(e),
        };
        let equity = match decode_num_field(entries, "EQUITY") {
            Ok(v) => v,
            Err(e) => return Err(e),
        };
        let equity_used = match decode_num_field(entries, "EQUITY_USED") {
            Ok(v) => v,
            Err(e) => return Err(e),
        };
        Ok(AccountFields {
            pnl,
            deposit,
            available_cash,
            pnl_lr,
            pnl_nlr,
            funds,
            margin,
            margin_lr,
            margin_nlr,
            available_to_deal,
            equity,
            equity_used,
        })
    }

    /// Decodes a whole raw update into a typed record: both the full field
    /// state and the changed subset must decode.
    pub fn from_item_update(u: &RawUpdate) -> (r: Result<AccountData, DecodeError>)
        ensures
            match r {
                Ok(d) => {
                    &&& account_fields_ok(entries_view(u.fields@))
                    &&& account_fields_ok(changed_view(u.changed_fields@))
                    &&& d.item_name@ == item_name_view(u.item_name)
                    &&& d.item_pos == u.item_pos
                    &&& d.is_snapshot == u.is_snapshot
                    &&& account_fields_decoded(entries_view(u.fields@), d.fields)
                    &&& account_fields_decoded(changed_view(u.changed_fields@), d.changed_fields)
                },
                Err(e) => {
                    &&& !(account_fields_ok(entries_view(u.fields@)) && account_fields_ok(
                        changed_view(u.changed_fields@),
                    ))
                    &&& (account_decode_err(entries_view(u.fields@), e) || account_decode_err(
                        changed_view(u.changed_fields@),
                        e,
                    ))
                },
            },
    {
        let item_name = match &u.item_name {
            Some(n) => n.clone(),
            None => String::new(),
        };
        let fields = match Self::create_account_fields(&u.fields) {
            Ok(f) => f,
            Err(e) => return Err(e),
        };
        let changed_entries = changed_as_entries(&u.changed_fields);
        let changed_fields = match Self::create_account_fields(&changed_entries) {
            Ok(f) => f,
            Err(e) => return Err(e),
        };
        Ok(AccountData { item_name, item_pos: u.item_pos, fields, changed_fields, is_snapshot: u.is_snapshot })
    }
}

} // verus!
