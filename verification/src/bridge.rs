//! The bridge to the push-protocol client library: building and configuring
//! one of its subscriptions from a descriptor.
//!
//! The library's `Subscription` value is opaque here. What it holds is named
//! by uninterpreted functions, the few calls that fill it are trusted with
//! contracts read off the library's source, and the verified configuration
//! function proves that the value handed back matches the descriptor
//! exactly.

use vstd::prelude::*;

use crate::errors::StreamError;
use crate::raw::opt_view;
use crate::subscription::{DeliveryMode, SubscriptionDescriptor, strs_view};

verus! {

#[verifier::external_type_specification]
#[verifier::external_body]
pub struct ExSubscription(lightstreamer_rs::subscription::Subscription);

#[verifier::external_type_specification]
#[verifier::external_body]
pub struct ExSubscriptionMode(lightstreamer_rs::subscription::SubscriptionMode);

#[verifier::external_type_specification]
#[verifier::external_body]
pub struct ExSnapshot(lightstreamer_rs::subscription::Snapshot);

/// The delivery mode a subscription holds.
pub uninterp spec fn sub_mode(s: lightstreamer_rs::subscription::Subscription) -> DeliveryMode;

/// The item keys a subscription holds.
pub uninterp spec fn sub_items(s: lightstreamer_rs::subscription::Subscription) -> Seq<Seq<char>>;

/// The field names a subscription holds.
pub uninterp spec fn sub_fields(s: lightstreamer_rs::subscription::Subscription) -> Seq<Seq<char>>;

/// The data-adapter name a subscription holds, if one was set.
pub uninterp spec fn sub_adapter(s: lightstreamer_rs::subscription::Subscription) -> Option<
    Seq<char>,
>;

/// The snapshot preference a subscription holds, if one was set.
pub uninterp spec fn sub_snapshot(s: lightstreamer_rs::subscription::Subscription) -> Option<bool>;

/// Whether a subscription is active, that is, submitted to a client.
pub uninterp spec fn sub_active(s: lightstreamer_rs::subscription::Subscription) -> bool;

fn clone_strings(v: &Vec<String>) -> (r: Vec<String>)
    ensures
        r@ == v@,
{
    let mut out: Vec<String> = Vec::new();
    let len = v.len();
    let mut i: usize = 0;
    while i < len
        invariant
            len == v@.len(),
            i <= len,
            out@ == v@.take(i as int),
        decreases len - i,
    {
        out.push(v[i].clone());
        assert(out@ =~= v@.take(i + 1));
        i = i + 1;
    }
    assert(v@.take(len as int) =~= v@);
    out
}

/// Relies on `Subscription::new` of the push-protocol client library: given
/// both an item list and a field list it stores them verbatim with the mode
/// and returns an inactive subscription with no adapter and no snapshot
/// preference set; it fails only when the item or field list is absent.
#[verifier::external_body]
fn new_subscription(mode: DeliveryMode, items: Vec<String>, fields: Vec<String>) -> (r: Result<
    lightstreamer_rs::subscription::Subscription,
    StreamError,
>)
    ensures
        r is Ok,
        r matches Ok(s) ==> {
            &&& sub_mode(s) == mode
            &&& sub_items(s) == strs_view(items@)
            &&& sub_fields(s) == strs_view(fields@)
            &&& sub_adapter(s) is None
            &&& sub_snapshot(s) is None
            &&& !sub_active(s)
        },
{
    let m = match mode {
        DeliveryMode::Merge => lightstreamer_rs::subscription::SubscriptionMode::Merge,
        DeliveryMode::Distinct => lightstreamer_rs::subscription::SubscriptionMode::Distinct,
        DeliveryMode::Raw => lightstreamer_rs::subscription::SubscriptionMode::Raw,
    };
    lightstreamer_rs::subscription::Subscription::new(m, Some(items), Some(fields)).map_err(
        |e| StreamError::WebSocketError(e.to_string()),
    )
}

/// Relies on `Subscription::set_data_adapter` of the push-protocol client
/// library: on an inactive subscription it stores the adapter name and
/// succeeds; on an active one it fails and changes nothing.
#[verifier::external_body]
fn set_subscription_adapter(
    s: &mut lightstreamer_rs::subscription::Subscription,
    adapter: Option<String>,
) -> (r: Result<(), StreamError>)
    ensures
        r is Ok <==> !sub_active(*old(s)),
        sub_mode(*final(s)) == sub_mode(*old(s)),
        sub_items(*final(s)) == sub_items(*old(s)),
        sub_fields(*final(s)) == sub_fields(*old(s)),
        sub_snapshot(*final(s)) == sub_snapshot(*old(s)),
        sub_active(*final(s)) == sub_active(*old(s)),
        r is Ok ==> sub_adapter(*final(s)) == opt_view(adapter),
        r is Err ==> sub_adapter(*final(s)) == sub_adapter(*old(s)),
{
    s.set_data_adapter(adapter).map_err(StreamError::WebSocketError)
}

/// Relies on `Subscription::set_requested_snapshot` of the push-protocol
/// client library: on an inactive subscription a plain yes/no preference is
/// stored and it succeeds; on an active one it fails and changes nothing.
#[verifier::external_body]
fn set_subscription_snapshot(
    s: &mut lightstreamer_rs::subscription::Subscription,
    yes: bool,
) -> (r: Result<(), StreamError>)
    ensures
        r is Ok <==> !sub_active(*old(s)),
        sub_mode(*final(s)) == sub_mode(*old(s)),
        sub_items(*final(s)) == sub_items(*old(s)),
        sub_fields(*final(s)) == sub_fields(*old(s)),
        sub_adapter(*final(s)) == sub_adapter(*old(s)),
        sub_active(*final(s)) == sub_active(*old(s)),
        r is Ok ==> sub_snapshot(*final(s)) == Some(yes),
        r is Err ==> sub_snapshot(*final(s)) == sub_snapshot(*old(s)),
{
    let snap = if yes {
        lightstreamer_rs::subscription::Snapshot::Yes
    } else {
        lightstreamer_rs::subscription::Snapshot::No
    };
    s.set_requested_snapshot(Some(snap)).map_err(StreamError::WebSocketError)
}

/// A configured subscription carries exactly the descriptor's mode, items,
/// fields, snapshot preference and adapter, and is not yet active.
pub open spec fn subscription_matches(
    s: lightstreamer_rs::subscription::Subscription,
    d: SubscriptionDescriptor,
) -> bool {
    &&& sub_mode(s) == d.mode
    &&& sub_items(s) == strs_view(d.items@)
    &&& sub_fields(s) == strs_view(d.fields@)
    &&& sub_adapter(s) == opt_view(d.data_adapter)
    &&& sub_snapshot(s) == Some(d.snapshot)
    &&& !sub_active(s)
}

/// Builds and configures the push-protocol subscription a descriptor calls
/// for: the subscription handed back matches the descriptor exactly.
pub fn configure_subscription(d: &SubscriptionDescriptor) -> (r: Result<
    lightstreamer_rs::subscription::Subscription,
    StreamError,
>)
    ensures
        r is Ok,
        r matches Ok(s) ==> subscription_matches(s, *d),
{
    let items = clone_strings(&d.items);
    let fields = clone_strings(&d.fields);
    let mut s = match new_subscription(d.mode, items, fields) {
        Ok(s) => s,
        Err(e) => {
            return Err(e);
        },
    };
    let adapter = match &d.data_adapter {
        Some(a) => Some(a.clone()),
        None => None,
    };
    match set_subscription_adapter(&mut s, adapter) {
        Ok(_) => {},
        Err(e) => {
            return Err(e);
        },
    }
    match set_subscription_snapshot(&mut s, d.snapshot) {
        Ok(_) => {},
        Err(e) => {
            return Err(e);
        },
    }
    Ok(s)
}

} // verus!
