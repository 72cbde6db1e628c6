//! Verified client-side logic for a brokerage streaming API: typed decoding of
//! wire field updates, subscription descriptor construction, bounded
//! reconnect-with-backoff bookkeeping, and dynamic subscription membership.

pub mod account_stream;
pub mod bridge;
pub mod connection;
pub mod dynamic;
pub mod errors;
pub mod market;
pub mod num;
pub mod price;
pub mod raw;
pub mod records;
pub mod responses;
pub mod streamer;
pub mod streaming;
pub mod subscription;
pub mod text;
pub mod trade;

pub use account_stream::{AccountData, AccountFields};
pub use bridge::configure_subscription;
pub use connection::{
    BACKOFF_CAP_MS, BACKOFF_STEP_MS, ConnState, ConnectionManager, FailureAction,
    MAX_CONNECTION_ATTEMPTS, is_graceful_close, lemma_backoff_monotone, lemma_retry_ceiling,
    retry_delay,
};
pub use dynamic::{DynamicStreamerCore, RECONNECT_GRACE_MS};
pub use errors::StreamError;
pub use market::{MarketFields, MarketUpdate};
pub use num::check_numeric;
pub use streamer::{
    ConnTaskResult, ConnectPlan, StreamerCore, connect_outcome, lemma_idle_class_skipped,
};
pub use price::{DealingFlag, PriceData, PriceFields, parse_dealing_flag};
pub use raw::{DecodeError, FieldEntry, RawUpdate, decode_num_field, get_str_field, lookup_field};
pub use records::{RecordKind, TypedRecord, decode};
pub use responses::{
    AccountTransaction, ActionType, ActivityAction, ActivityMetadata, ActivityPaging,
    ActivityType, ClosePositionResponse, CreateOrderResponse, CreateWorkingOrderResponse,
    DBEntryResponse, HistoricalPrice, HistoricalPricesResponse, MarketData, MarketDetails,
    MarketNavigationNode, MarketNavigationResponse, MarketSearchResponse,
    MultipleMarketDetailsResponse, PageData, TransactionHistoryResponse, TransactionMetadata,
    collect_db_entries, epic_symbol, merge_navigation_level,
};
pub use streaming::{
    StreamingAccountDataField, StreamingMarketField, StreamingPriceField,
    get_streaming_account_data_fields, get_streaming_market_fields, get_streaming_price_fields,
};
pub use subscription::{
    DeliveryMode, SubscriptionDescriptor, build_account_subscription, build_market_subscription,
    build_price_subscription, build_trade_subscription,
};
pub use text::str_contains;
pub use trade::{TradeData, TradeFields};

use vstd::prelude::*;

verus! {

/// Returns the number of entries in a key/value field list.
pub fn field_count(entries: &Vec<(String, Option<String>)>) -> (n: usize)
    ensures
        n == entries@.len(),
{
    entries.len()
}

} // verus!
