//! The streaming client's decision core: which of the two connection classes
//! carry subscriptions, which must be started on connect, and how the
//! outcomes of the started connection tasks aggregate into one result.
//!
//! The client composes two connections because the upstream service serves
//! market, trade and account traffic through the connection's default data
//! adapter, while detailed price-ladder traffic needs its own adapter. The
//! transport itself (sockets, tasks, the blocking run) lives outside this
//! core; the core is handed each task's outcome.

use vstd::prelude::*;

use crate::errors::StreamError;
use crate::streaming::{
    StreamingAccountDataField, StreamingMarketField, StreamingPriceField,
};
use crate::subscription::{
    SubscriptionDescriptor, build_account_subscription, build_market_subscription,
    build_price_subscription, build_trade_subscription, is_account_descriptor,
    is_market_descriptor, is_price_descriptor, is_trade_descriptor, strs_view,
};
use crate::raw::opt_view;

verus! {

/// Which connection classes a connect call must start.
#[derive(Clone, Copy, Debug, PartialEq, Eq, Structural)]
pub struct ConnectPlan {
    /// Start the market/trade/account connection.
    pub start_market: bool,
    /// Start the detailed price-ladder connection.
    pub start_price: bool,
}

/// How one spawned connection task ended.
#[derive(Clone, Debug)]
pub enum ConnTaskResult {
    /// The task ran and ended gracefully.
    Completed,
    /// The task reported a terminal connection failure.
    Failed(String),
    /// The task panicked; caught at the join point.
    Panicked(String),
}

/// Every task completed gracefully.
pub open spec fn all_completed(results: Seq<ConnTaskResult>) -> bool {
    forall|i: int| 0 <= i < results.len() ==> results[i] == ConnTaskResult::Completed
}

/// The decision core of the streaming client: the account the session is
/// bound to, which connection classes have at least one subscription, and the
/// configured price-adapter override.
pub struct StreamerCore {
    /// The account identifier the session is bound to.
    pub account_id: String,
    /// Whether the market/trade/account connection has a subscription.
    pub has_market_stream_subs: bool,
    /// Whether the price-ladder connection has a subscription.
    pub has_price_stream_subs: bool,
    /// Configured override of the price data-adapter name, if any.
    pub price_adapter_override: Option<String>,
}

/// The connection classes a core must start: exactly those that carry at
/// least one subscription. Starting an idle class would only earn the
/// server's idle-connection close.
pub open spec fn spec_connect_plan(c: StreamerCore) -> ConnectPlan {
    ConnectPlan { start_market: c.has_market_stream_subs, start_price: c.has_price_stream_subs }
}

impl StreamerCore {
    /// A fresh core: no subscriptions recorded on either connection class.
    pub fn new(account_id: String, price_adapter_override: Option<String>) -> (c: StreamerCore)
        ensures
            c.account_id == account_id,
            !c.has_market_stream_subs,
            !c.has_price_stream_subs,
            c.price_adapter_override == price_adapter_override,
    {
        StreamerCore {
            account_id,
            has_market_stream_subs: false,
            has_price_stream_subs: false,
            price_adapter_override,
        }
    }

    /// Builds a market subscription and records that the market connection
    /// class now has a subscriber.
    pub fn market_subscribe(
        &mut self,
        epics: &Vec<String>,
        fields: &Vec<StreamingMarketField>,
    ) -> (d: SubscriptionDescriptor)
        ensures
            final(self).has_market_stream_subs,
            final(self).has_price_stream_subs == old(self).has_price_stream_subs,
            final(self).account_id == old(self).account_id,
            final(self).price_adapter_override == old(self).price_adapter_override,
            is_market_descriptor(d, strs_view(epics@), fields@),
    {
        self.has_market_stream_subs = true;
        build_market_subscription(epics, fields)
    }

    /// Builds the trade subscription for the session's account and records
    /// that the market connection class now has a subscriber.
    pub fn trade_subscribe(&mut self) -> (d: SubscriptionDescriptor)
        ensures
            final(self).has_market_stream_subs,
            final(self).has_price_stream_subs == old(self).has_price_stream_subs,
            final(self).account_id == old(self).account_id,
            final(self).price_adapter_override == old(self).price_adapter_override,
            is_trade_descriptor(d, old(self).account_id@),
    {
        self.has_market_stream_subs = true;
        build_trade_subscription(self.account_id.as_str())
    }

    /// Builds an account subscription for the session's account and records
    /// that the market connection class now has a subscriber.
    pub fn account_subscribe(&mut self, fields: &Vec<StreamingAccountDataField>) -> (d:
        SubscriptionDescriptor)
        ensures
            final(self).has_market_stream_subs,
            final(self).has_price_stream_subs == old(self).has_price_stream_subs,
            final(self).account_id == old(self).account_id,
            final(self).price_adapter_override == old(self).price_adapter_override,
            is_account_descriptor(d, old(self).account_id@, fields@),
    {
        self.has_market_stream_subs = true;
        build_account_subscription(self.account_id.as_str(), fields)
    }

    /// Builds a detailed price subscription, scoped to the session's account,
    /// and records that the price connection class now has a subscriber.
    pub fn price_subscribe(
        &mut self,
        epics: &Vec<String>,
        fields: &Vec<StreamingPriceField>,
    ) -> (d: SubscriptionDescriptor)
        ensures
            final(self).has_price_stream_subs,
            final(self).has_market_stream_subs == old(self).has_market_stream_subs,
            final(self).account_id == old(self).account_id,
            final(self).price_adapter_override == old(self).price_adapter_override,
            is_price_descriptor(
                d,
                old(self).account_id@,
                strs_view(epics@),
                fields@,
                opt_view(old(self).price_adapter_override),
            ),
    {
        self.has_price_stream_subs = true;
        let adapter = match &self.price_adapter_override {
            Some(o) => Some(o.clone()),
            None => None,
        };
        build_price_subscription(self.account_id.as_str(), epics, fields, adapter)
    }

    /// The connection classes a connect call must start: exactly those with
    /// at least one recorded subscriber.
    pub fn connect_plan(&self) -> (p: ConnectPlan)
        ensures
            p == spec_connect_plan(*self),
    {
        ConnectPlan {
            start_market: self.has_market_stream_subs,
            start_price: self.has_price_stream_subs,
        }
    }
}

/// Aggregates the outcomes of the started connection tasks: success exactly
/// when every task completed gracefully — a plan that started nothing is a
/// success — and one reported error otherwise, so that a partial failure is
/// never silently swallowed.
pub fn connect_outcome(results: &Vec<ConnTaskResult>) -> (r: Result<(), StreamError>)
    ensures
        r is Ok <==> all_completed(results@),
        r matches Err(e) ==> e matches StreamError::WebSocketError(m) && m@
            == "one or more streaming connections failed"@,
{
    let len = results.len();
    let mut i: usize = 0;
    while i < len
        invariant
            len == results@.len(),
            i <= len,
            forall|k: int| 0 <= k < i ==> results@[k] == ConnTaskResult::Completed,
        decreases len - i,
    {
        match &results[i] {
            ConnTaskResult::Completed => {},
            _ => {
                return Err(
                    StreamError::WebSocketError(
                        "one or more streaming connections failed".to_owned(),
                    ),
                );
            },
        }
        i = i + 1;
    }
    Ok(())
}

/// A connection class with no recorded subscriber is never started: with no
/// price-class subscriber the plan starts the price connection in no case,
/// and once the market task — then the only started one — completes, the
/// task results satisfy the condition under which `connect_outcome` reports
/// success.
pub proof fn lemma_idle_class_skipped(c: StreamerCore, market_result: ConnTaskResult)
    requires
        !c.has_price_stream_subs,
        market_result == ConnTaskResult::Completed,
    ensures
        !spec_connect_plan(c).start_price,
        all_completed(seq![market_result]),
{
    assert(seq![market_result][0] == market_result);
}

} // verus!
