//! The typed record: one decoded projection of a raw field map, per domain,
//! and the dispatcher that decodes a field map according to its domain.

use vstd::prelude::*;

use crate::account_stream::{
    AccountData, AccountFields, account_decode_err, account_fields_decoded, account_fields_ok,
};
use crate::market::{MarketFields, MarketUpdate, market_decode_err, market_fields_decoded, market_fields_ok};
use crate::price::{
    PriceData, PriceFields, price_decode_err, price_fields_decoded, price_fields_ok,
};
use crate::raw::{DecodeError, FieldEntry, entries_view};
use crate::trade::{TradeData, TradeFields, trade_decode_err, trade_fields_decoded, trade_fields_ok};

verus! {

/// The domain a subscription's updates belong to.
#[derive(Clone, Copy, Debug, PartialEq, Eq, Structural)]
pub enum RecordKind {
    /// Market quotes and state.
    Market,
    /// Detailed price ladders.
    Price,
    /// Trade events.
    Trade,
    /// Account metrics.
    Account,
}

/// A strongly-typed projection of one raw field map.
#[derive(Clone, Debug)]
pub enum TypedRecord {
    /// Market quotes and state.
    Market(MarketFields),
    /// Detailed price ladders.
    Price(PriceFields),
    /// Trade events.
    Trade(TradeFields),
    /// Account metrics.
    Account(AccountFields),
}

/// Decodes a raw field map into the typed record of its domain. Pure and
/// total but for the documented error cases: a malformed numeric token or an
/// undocumented enum token fails the decode and names the offending field.
pub fn decode(entries: &Vec<FieldEntry>, kind: RecordKind) -> (r: Result<TypedRecord, DecodeError>)
    ensures
        kind == RecordKind::Market ==> match r {
            Ok(rec) => rec matches TypedRecord::Market(f) && market_fields_ok(
                entries_view(entries@),
            ) && market_fields_decoded(entries_view(entries@), f),
            Err(e) => !market_fields_ok(entries_view(entries@)) && market_decode_err(
                entries_view(entries@),
                e,
            ),
        },
        kind == RecordKind::Price ==> match r {
            Ok(rec) => rec matches TypedRecord::Price(f) && price_fields_ok(
                entries_view(entries@),
            ) && price_fields_decoded(entries_view(entries@), f),
            Err(e) => !price_fields_ok(entries_view(entries@)) && price_decode_err(
                entries_view(entries@),
                e,
            ),
        },
        kind == RecordKind::Trade ==> match r {
            Ok(rec) => rec matches TypedRecord::Trade(f) && trade_fields_ok(
                entries_view(entries@),
            ) && trade_fields_decoded(entries_view(entries@), f),
            Err(e) => !trade_fields_ok(entries_view(entries@)) && trade_decode_err(
                entries_view(entries@),
                e,
            ),
        },
        kind == RecordKind::Account ==> match r {
            Ok(rec) => rec matches TypedRecord::Account(f) && account_fields_ok(
                entries_view(entries@),
            ) && account_fields_decoded(entries_view(entries@), f),
            Err(e) => !account_fields_ok(entries_view(entries@)) && account_decode_err(
                entries_view(entries@),
                e,
            ),
        },
{
    match kind {
        RecordKind::Market => match MarketUpdate::create_market_fields(entries) {
            Ok(f) => Ok(TypedRecord::Market(f)),
            Err(e) => Err(e),
        },
        RecordKind::Price => match PriceData::create_price_fields(entries) {
            Ok(f) => Ok(TypedRecord::Price(f)),
            Err(e) => Err(e),
        },
        RecordKind::Trade => match TradeData::create_trade_fields(entries) {
            Ok(f) => Ok(TypedRecord::Trade(f)),
            Err(e) => Err(e),
        },
        RecordKind::Account => match AccountData::create_account_fields(entries) {
            Ok(f) => Ok(TypedRecord::Account(f)),
            Err(e) => Err(e),
        },
    }
}

} // verus!
