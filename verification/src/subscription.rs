//! Subscription descriptors and their per-domain builders.
//!
//! A descriptor fixes everything a push-protocol subscription needs: the item
//! keys (namespaced per domain), the wire-level field names, the delivery
//! mode, the snapshot request, and an optional data-adapter name. Building a
//! descriptor is a pure mapping and performs no network work.

use vstd::prelude::*;

use crate::streaming::{
    StreamingAccountDataField, StreamingMarketField, StreamingPriceField,
    get_streaming_account_data_fields, get_streaming_market_fields, get_streaming_price_fields,
};

verus! {

/// How the server delivers updates for the subscribed items.
#[derive(Clone, Copy, Debug, PartialEq, Eq, Structural)]
pub enum DeliveryMode {
    /// Coalesce to the latest value: an update is sent only when a field
    /// changed.
    Merge,
    /// Deliver every discrete value, never coalescing.
    Distinct,
    /// Forward updates without server-side processing.
    Raw,
}

/// Everything one push-protocol subscription is made of. Immutable once
/// submitted.
#[derive(Clone, Debug)]
pub struct SubscriptionDescriptor {
    /// Delivery mode for all items of this subscription.
    pub mode: DeliveryMode,
    /// The namespaced item keys to subscribe to.
    pub items: Vec<String>,
    /// The wire-level field names to receive.
    pub fields: Vec<String>,
    /// Whether an initial snapshot is requested.
    pub snapshot: bool,
    /// The data adapter that serves this subscription; the connection's
    /// default one when absent.
    pub data_adapter: Option<String>,
}

/// The item key of a market subscription for one instrument.
pub open spec fn market_item_key(epic: Seq<char>) -> Seq<char> {
    "MARKET:"@ + epic
}

/// The single item key of a trade subscription, scoped to the account.
pub open spec fn trade_item_key(account_id: Seq<char>) -> Seq<char> {
    "TRADE:"@ + account_id
}

/// The single item key of an account subscription, scoped to the account.
pub open spec fn account_item_key(account_id: Seq<char>) -> Seq<char> {
    "ACCOUNT:"@ + account_id
}

/// The item key of a price subscription for one instrument, scoped to the
/// account.
pub open spec fn price_item_key(account_id: Seq<char>, epic: Seq<char>) -> Seq<char> {
    "PRICE:"@ + account_id + ":"@ + epic
}

/// The adapter a price subscription uses: the configured override, or the
/// fixed default name.
pub open spec fn price_adapter_name(adapter_override: Option<Seq<char>>) -> Seq<char> {
    match adapter_override {
        Some(o) => o,
        None => "Pricing"@,
    }
}

/// The views of a list of strings.
pub open spec fn strs_view(v: Seq<String>) -> Seq<Seq<char>> {
    v.map_values(|s: String| s@)
}

/// `d` is the market descriptor for the given instruments and fields.
pub open spec fn is_market_descriptor(
    d: SubscriptionDescriptor,
    epics: Seq<Seq<char>>,
    fields: Seq<StreamingMarketField>,
) -> bool {
    &&& d.mode == DeliveryMode::Merge
    &&& d.snapshot == true
    &&& d.data_adapter is None
    &&& strs_view(d.items@) == epics.map_values(|e: Seq<char>| market_item_key(e))
    &&& strs_view(d.fields@) == fields.map_values(|f: StreamingMarketField| f.spec_wire_name())
}

/// `d` is the trade descriptor for the given account.
pub open spec fn is_trade_descriptor(d: SubscriptionDescriptor, account_id: Seq<char>) -> bool {
    &&& d.mode == DeliveryMode::Distinct
    &&& d.snapshot == true
    &&& d.data_adapter is None
    &&& strs_view(d.items@) == seq![trade_item_key(account_id)]
    &&& strs_view(d.fields@) == seq!["CONFIRMS"@, "OPU"@, "WOU"@]
}

/// `d` is the account descriptor for the given account and fields.
pub open spec fn is_account_descriptor(
    d: SubscriptionDescriptor,
    account_id: Seq<char>,
    fields: Seq<StreamingAccountDataField>,
) -> bool {
    &&& d.mode == DeliveryMode::Merge
    &&& d.snapshot == true
    &&& d.data_adapter is None
    &&& strs_view(d.items@) == seq![account_item_key(account_id)]
    &&& strs_view(d.fields@) == fields.map_values(
        |f: StreamingAccountDataField| f.spec_wire_name(),
    )
}

/// `d` is the price descriptor for the given account, instruments, fields and
/// adapter override.
pub open spec fn is_price_descriptor(
    d: SubscriptionDescriptor,
    account_id: Seq<char>,
    epics: Seq<Seq<char>>,
    fields: Seq<StreamingPriceField>,
    adapter_override: Option<Seq<char>>,
) -> bool {
    &&& d.mode == DeliveryMode::Merge
    &&& d.snapshot == true
    &&& d.data_adapter matches Some(a) && a@ == price_adapter_name(adapter_override)
    &&& strs_view(d.items@) == epics.map_values(|e: Seq<char>| price_item_key(account_id, e))
    &&& strs_view(d.fields@) == fields.map_values(|f: StreamingPriceField| f.spec_wire_name())
}

fn prefixed(prefix: &str, rest: &str) -> (r: String)
    ensures
        r@ == prefix@ + rest@,
{
    let mut s = prefix.to_owned();
    s.append(rest);
    s
}

/// Builds the descriptor of a market subscription: each instrument key under
/// the market namespace, merge delivery, a snapshot, and the connection's
/// default adapter.
pub fn build_market_subscription(
    epics: &Vec<String>,
    fields: &Vec<StreamingMarketField>,
) -> (d: SubscriptionDescriptor)
    ensures
        d.mode == DeliveryMode::Merge,
        d.snapshot == true,
        d.data_adapter is None,
        d.items@.len() == epics@.len(),
        forall|i: int| 0 <= i < epics@.len() ==> d.items@[i]@ == market_item_key(epics@[i]@),
        d.fields@.len() == fields@.len(),
        forall|i: int| 0 <= i < fields@.len() ==> d.fields@[i]@ == fields@[i].spec_wire_name(),
        is_market_descriptor(d, strs_view(epics@), fields@),
{
    let mut items: Vec<String> = Vec::new();
    let len = epics.len();
    let mut i: usize = 0;
    while i < len
        invariant
            len == epics@.len(),
            i <= len,
            items@.len() == i,
            forall|k: int| 0 <= k < i ==> items@[k]@ == market_item_key(epics@[k]@),
        decreases len - i,
    {
        items.push(prefixed("MARKET:", epics[i].as_str()));
        i = i + 1;
    }
    let names = get_streaming_market_fields(fields);
    let d = SubscriptionDescriptor {
        mode: DeliveryMode::Merge,
        items,
        fields: names,
        snapshot: true,
        data_adapter: None,
    };
    assert(strs_view(d.items@) =~= strs_view(epics@).map_values(
        |e: Seq<char>| market_item_key(e),
    ));
    assert(strs_view(d.fields@) =~= fields@.map_values(
        |f: StreamingMarketField| f.spec_wire_name(),
    ));
    d
}

/// Builds the descriptor of a trade subscription: one item key scoped to the
/// account, the fixed trade event fields, distinct delivery so that no event
/// is coalesced away, and a snapshot.
pub fn build_trade_subscription(account_id: &str) -> (d: SubscriptionDescriptor)
    ensures
        d.mode == DeliveryMode::Distinct,
        d.snapshot == true,
        d.data_adapter is None,
        d.items@.len() == 1,
        d.items@[0]@ == trade_item_key(account_id@),
        d.fields@.len() == 3,
        d.fields@[0]@ == "CONFIRMS"@,
        d.fields@[1]@ == "OPU"@,
        d.fields@[2]@ == "WOU"@,
        is_trade_descriptor(d, account_id@),
{
    let mut items: Vec<String> = Vec::new();
    items.push(prefixed("TRADE:", account_id));
    let mut fields: Vec<String> = Vec::new();
    fields.push("CONFIRMS".to_owned());
    fields.push("OPU".to_owned());
    fields.push("WOU".to_owned());
    let d = SubscriptionDescriptor {
        mode: DeliveryMode::Distinct,
        items,
        fields,
        snapshot: true,
        data_adapter: None,
    };
    assert(strs_view(d.items@) =~= seq![trade_item_key(account_id@)]);
    assert(strs_view(d.fields@) =~= seq!["CONFIRMS"@, "OPU"@, "WOU"@]);
    d
}

/// Builds the descriptor of an account subscription: one item key scoped to
/// the account, merge delivery, and a snapshot.
pub fn build_account_subscription(
    account_id: &str,
    fields: &Vec<StreamingAccountDataField>,
) -> (d: SubscriptionDescriptor)
    ensures
        d.mode == DeliveryMode::Merge,
        d.snapshot == true,
        d.data_adapter is None,
        d.items@.len() == 1,
        d.items@[0]@ == account_item_key(account_id@),
        d.fields@.len() == fields@.len(),
        forall|i: int| 0 <= i < fields@.len() ==> d.fields@[i]@ == fields@[i].spec_wire_name(),
        is_account_descriptor(d, account_id@, fields@),
{
    let mut items: Vec<String> = Vec::new();
    items.push(prefixed("ACCOUNT:", account_id));
    let names = get_streaming_account_data_fields(fields);
    let d = SubscriptionDescriptor {
        mode: DeliveryMode::Merge,
        items,
        fields: names,
        snapshot: true,
        data_adapter: None,
    };
    assert(strs_view(d.items@) =~= seq![account_item_key(account_id@)]);
    assert(strs_view(d.fields@) =~= fields@.map_values(
        |f: StreamingAccountDataField| f.spec_wire_name(),
    ));
    d
}

/// Builds the descriptor of a detailed price subscription: each instrument
/// key under the price namespace scoped to the account, merge delivery, a
/// snapshot, and an explicit data adapter (the configured override, or the
/// fixed default).
pub fn build_price_subscription(
    account_id: &str,
    epics: &Vec<String>,
    fields: &Vec<StreamingPriceField>,
    adapter_override: Option<String>,
) -> (d: SubscriptionDescriptor)
    ensures
        d.mode == DeliveryMode::Merge,
        d.snapshot == true,
        d.data_adapter matches Some(a) && a@ == price_adapter_name(
            crate::raw::opt_view(adapter_override),
        ),
        is_price_descriptor(
            d,
            account_id@,
            strs_view(epics@),
            fields@,
            crate::raw::opt_view(adapter_override),
        ),
        d.items@.len() == epics@.len(),
        forall|i: int|
            0 <= i < epics@.len() ==> d.items@[i]@ == price_item_key(account_id@, epics@[i]@),
        d.fields@.len() == fields@.len(),
        forall|i: int| 0 <= i < fields@.len() ==> d.fields@[i]@ == fields@[i].spec_wire_name(),
{
    let mut items: Vec<String> = Vec::new();
    let len = epics.len();
    let mut i: usize = 0;
    while i < len
        invariant
            len == epics@.len(),
            i <= len,
            items@.len() == i,
            forall|k: int| 0 <= k < i ==> items@[k]@ == price_item_key(account_id@, epics@[k]@),
        decreases len - i,
    {
        let mut key = prefixed("PRICE:", account_id);
        key.append(":");
        key.append(epics[i].as_str());
        assert(key@ =~= price_item_key(account_id@, epics@[i as int]@));
        items.push(key);
        i = i + 1;
    }
    let adapter: String = match adapter_override {
        Some(o) => o,
        None => "Pricing".to_owned(),
    };
    let names = get_streaming_price_fields(fields);
    let d = SubscriptionDescriptor {
        mode: DeliveryMode::Merge,
        items,
        fields: names,
        snapshot: true,
        data_adapter: Some(adapter),
    };
    assert(strs_view(d.items@) =~= strs_view(epics@).map_values(
        |e: Seq<char>| price_item_key(account_id@, e),
    ));
    assert(strs_view(d.fields@) =~= fields@.map_values(
        |f: StreamingPriceField| f.spec_wire_name(),
    ));
    d
}

} // verus!
