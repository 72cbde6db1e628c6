//! Response models of the request/response collaborator: market search
//! results, market details, historical prices, transactions and activities,
//! and order acknowledgements. These are plain data carried between the
//! transport and the caller; the verified logic here is what reads them.

use vstd::prelude::*;

use crate::text::{seq_contains, str_contains};

verus! {

/// A market returned by a search.
#[derive(Clone, Debug)]
pub struct MarketData {
    /// Unique identifier for the market.
    pub epic: String,
    /// Human-readable name of the instrument.
    pub instrument_name: String,
    /// Instrument type classification.
    pub instrument_type: String,
    /// Expiry date of the instrument.
    pub expiry: String,
}

/// Model for market search results.
#[derive(Clone, Debug)]
pub struct MarketSearchResponse {
    /// List of markets matching the search criteria.
    pub markets: Vec<MarketData>,
}

impl MarketSearchResponse {
    /// Returns the number of markets in the response.
    pub fn len(&self) -> (n: usize)
        ensures
            n == self.markets@.len(),
    {
        self.markets.len()
    }

    /// Returns true if the response contains no markets.
    pub fn is_empty(&self) -> (r: bool)
        ensures
            r == (self.markets@.len() == 0),
    {
        self.markets.len() == 0
    }

    /// Returns a reference to the markets vector.
    pub fn markets(&self) -> (r: &Vec<MarketData>)
        ensures
            r == &self.markets,
    {
        &self.markets
    }
}

/// One node of the market navigation hierarchy.
#[derive(Clone, Debug)]
pub struct MarketNavigationNode {
    /// Identifier of the node.
    pub id: String,
    /// Human-readable name of the node.
    pub name: String,
}

/// Response model for market navigation.
#[derive(Clone, Debug)]
pub struct MarketNavigationResponse {
    /// List of navigation nodes at the current level.
    pub nodes: Vec<MarketNavigationNode>,
    /// List of markets at the current level.
    pub markets: Vec<MarketData>,
}

/// Details of one market.
#[derive(Clone, Debug)]
pub struct MarketDetails {
    /// Unique identifier for the market.
    pub epic: String,
    /// Human-readable name of the instrument.
    pub instrument_name: String,
    /// Expiry date of the instrument.
    pub expiry: String,
}

/// Response containing multiple market details.
#[derive(Clone, Debug)]
pub struct MultipleMarketDetailsResponse {
    /// List of market details.
    pub market_details: Vec<MarketDetails>,
}

impl Default for MultipleMarketDetailsResponse {
    /// An empty response.
    fn default() -> (r: Self)
        ensures
            r.market_details@.len() == 0,
    {
        MultipleMarketDetailsResponse { market_details: Vec::new() }
    }
}

impl MultipleMarketDetailsResponse {
    /// Returns the number of market details in the response.
    pub fn len(&self) -> (n: usize)
        ensures
            n == self.market_details@.len(),
    {
        self.market_details.len()
    }

    /// Returns true if the response contains no market details.
    pub fn is_empty(&self) -> (r: bool)
        ensures
            r == (self.market_details@.len() == 0),
    {
        self.market_details.len() == 0
    }

    /// Returns a reference to the market details vector.
    pub fn market_details(&self) -> (r: &Vec<MarketDetails>)
        ensures
            r == &self.market_details,
    {
        &self.market_details
    }
}

/// One historical price point.
#[derive(Clone, Debug)]
pub struct HistoricalPrice {
    /// Time of the snapshot.
    pub snapshot_time: String,
    /// Opening price of the period, as the wire carried it.
    pub open_price: Option<String>,
    /// Closing price of the period, as the wire carried it.
    pub close_price: Option<String>,
    /// High price of the period, as the wire carried it.
    pub high_price: Option<String>,
    /// Low price of the period, as the wire carried it.
    pub low_price: Option<String>,
}

/// Model for historical prices.
#[derive(Clone, Debug)]
pub struct HistoricalPricesResponse {
    /// List of historical price points.
    pub prices: Vec<HistoricalPrice>,
    /// Type of the instrument.
    pub instrument_type: String,
}

impl HistoricalPricesResponse {
    /// Returns the number of price points in the response.
    pub fn len(&self) -> (n: usize)
        ensures
            n == self.prices@.len(),
    {
        self.prices.len()
    }

    /// Returns true if the response contains no price points.
    pub fn is_empty(&self) -> (r: bool)
        ensures
            r == (self.prices@.len() == 0),
    {
        self.prices.len() == 0
    }

    /// Returns a reference to the prices vector.
    pub fn prices(&self) -> (r: &Vec<HistoricalPrice>)
        ensures
            r == &self.prices,
    {
        &self.prices
    }
}

/// Pagination information.
#[derive(Clone, Copy, Debug, PartialEq, Eq, Structural)]
pub struct PageData {
    /// Current page number.
    pub page_number: i32,
    /// Number of items per page.
    pub page_size: i32,
    /// Total number of pages.
    pub total_pages: i32,
}

/// Transaction metadata.
#[derive(Clone, Copy, Debug, PartialEq, Eq, Structural)]
pub struct TransactionMetadata {
    /// Pagination information.
    pub page_data: PageData,
    /// Total number of transactions.
    pub size: i32,
}

/// Individual transaction.
#[derive(Clone, Debug)]
pub struct AccountTransaction {
    /// Date and time of the transaction.
    pub date: String,
    /// UTC date and time of the transaction.
    pub date_utc: String,
    /// UTC date and time the transaction was opened.
    pub open_date_utc: String,
    /// Name of the instrument.
    pub instrument_name: String,
    /// Time period of the transaction.
    pub period: String,
    /// Profit or loss amount.
    pub profit_and_loss: String,
    /// Type of transaction.
    pub transaction_type: String,
    /// Reference identifier for the transaction.
    pub reference: String,
    /// Opening price level.
    pub open_level: String,
    /// Closing price level.
    pub close_level: String,
    /// Size/quantity of the transaction.
    pub size: String,
    /// Currency of the transaction.
    pub currency: String,
    /// Whether this is a cash transaction.
    pub cash_transaction: bool,
}

impl AccountTransaction {
    /// Whether the transaction's instrument is a call option: its name
    /// contains the marker `CALL`.
    pub fn is_call(&self) -> (r: bool)
        ensures
            r == seq_contains(self.instrument_name@, "CALL"@),
    {
        str_contains(self.instrument_name.as_str(), "CALL")
    }

    /// Whether the transaction's instrument is a put option: its name
    /// contains the marker `PUT`.
    pub fn is_put(&self) -> (r: bool)
        ensures
            r == seq_contains(self.instrument_name@, "PUT"@),
    {
        str_contains(self.instrument_name.as_str(), "PUT")
    }
}

/// Transaction history.
#[derive(Clone, Debug)]
pub struct TransactionHistoryResponse {
    /// List of account transactions.
    pub transactions: Vec<AccountTransaction>,
    /// Metadata about the transaction list.
    pub metadata: TransactionMetadata,
}

/// Type of account activity.
#[derive(Clone, Copy, Debug, PartialEq, Eq, Structural)]
pub enum ActivityType {
    /// Activity related to editing stop and limit orders.
    EditStopAndLimit,
    /// Activity related to positions.
    Position,
    /// System-generated activity.
    System,
    /// Activity related to working orders.
    WorkingOrder,
}

/// Types of actions that can be performed on an activity.
#[derive(Clone, Copy, Debug, PartialEq, Eq, Structural)]
pub enum ActionType {
    /// A limit order was deleted.
    LimitOrderDeleted,
    /// A limit order was filled.
    LimitOrderFilled,
    /// A limit order was opened.
    LimitOrderOpened,
    /// A limit order was rolled.
    LimitOrderRolled,
    /// A position was closed.
    PositionClosed,
    /// A position was deleted.
    PositionDeleted,
    /// A position was opened.
    PositionOpened,
    /// A position was partially closed.
    PositionPartiallyClosed,
    /// A position was rolled.
    PositionRolled,
    /// A stop/limit was amended.
    StopLimitAmended,
    /// A stop order was amended.
    StopOrderAmended,
    /// A stop order was deleted.
    StopOrderDeleted,
    /// A stop order was filled.
    StopOrderFilled,
    /// A stop order was opened.
    StopOrderOpened,
    /// A stop order was rolled.
    StopOrderRolled,
    /// Unknown action type.
    Unknown,
    /// A working order was deleted.
    WorkingOrderDeleted,
}

/// Action associated with an activity.
#[derive(Clone, Debug)]
pub struct ActivityAction {
    /// Type of action.
    pub action_type: ActionType,
    /// Deal affected by this action.
    pub affected_deal_id: Option<String>,
}

/// Paging information for activities.
#[derive(Clone, Debug)]
pub struct ActivityPaging {
    /// Number of items per page.
    pub size: Option<i32>,
    /// Link to the next page of results.
    pub next: Option<String>,
}

/// Metadata for activity pagination.
#[derive(Clone, Debug)]
pub struct ActivityMetadata {
    /// Paging information.
    pub paging: Option<ActivityPaging>,
}

/// Response to order creation.
#[derive(Clone, Debug)]
pub struct CreateOrderResponse {
    /// Client-generated reference for the deal.
    pub deal_reference: String,
}

/// Response to closing a position.
#[derive(Clone, Debug)]
pub struct ClosePositionResponse {
    /// Client-generated reference for the closing deal.
    pub deal_reference: String,
}

/// Response to updating a position.
#[derive(Clone, Debug)]
pub struct UpdatePositionResponse {
    /// Client-generated reference for the update deal.
    pub deal_reference: String,
}

/// Response to working order creation.
#[derive(Clone, Debug)]
pub struct CreateWorkingOrderResponse {
    /// Client-generated reference for the deal.
    pub deal_reference: String,
}

/// The index of the first dot in `s`, or its length when it has none.
pub open spec fn first_dot(s: Seq<char>) -> int
    decreases s.len(),
{
    if s.len() == 0 {
        0
    } else if s[0] == '.' {
        0
    } else {
        1 + first_dot(s.subrange(1, s.len() as int))
    }
}

/// The `n`th dot-separated segment of `s`, if it has that many.
pub open spec fn nth_segment(s: Seq<char>, n: nat) -> Option<Seq<char>>
    decreases n,
{
    let d = first_dot(s);
    if n == 0 {
        Some(s.take(d))
    } else if d == s.len() {
        None
    } else {
        nth_segment(s.subrange(d + 1, s.len() as int), (n - 1) as nat)
    }
}

/// The symbol encoded in an epic: its third dot-separated segment, or the
/// empty string when the epic has fewer segments.
pub open spec fn symbol_of(epic: Seq<char>) -> Seq<char> {
    match nth_segment(epic, 2) {
        Some(t) => t,
        None => Seq::<char>::empty(),
    }
}

proof fn lemma_first_dot_bounds(s: Seq<char>)
    ensures
        0 <= first_dot(s) <= s.len(),
        first_dot(s) < s.len() ==> s[first_dot(s)] == '.',
        forall|k: int| 0 <= k < first_dot(s) ==> s[k] != '.',
    decreases s.len(),
{
    if s.len() > 0 && s[0] != '.' {
        let t = s.subrange(1, s.len() as int);
        lemma_first_dot_bounds(t);
        assert forall|k: int| 0 <= k < first_dot(s) implies s[k] != '.' by {
            if k > 0 {
                assert(t[k - 1] != '.');
            }
        }
    }
}

proof fn lemma_first_dot_at(s: Seq<char>, r: int)
    requires
        0 <= r <= s.len(),
        forall|k: int| 0 <= k < r ==> s[k] != '.',
        r < s.len() ==> s[r] == '.',
    ensures
        first_dot(s) == r,
    decreases r,
{
    if s.len() > 0 && s[0] != '.' {
        let t = s.subrange(1, s.len() as int);
        assert(r > 0);
        lemma_first_dot_at(t, r - 1);
    }
}

fn find_dot_from(s: &str, len: usize, start: usize) -> (r: usize)
    requires
        len == s@.len(),
        start <= len,
    ensures
        start <= r <= len,
        r < len ==> s@[r as int] == '.',
        forall|k: int| start <= k < r ==> s@[k] != '.',
{
    let mut i: usize = start;
    while i < len
        invariant
            len == s@.len(),
            start <= i <= len,
            forall|k: int| start <= k < i ==> s@[k] != '.',
        decreases len - i,
    {
        if s.get_char(i) == '.' {
            return i;
        }
        i = i + 1;
    }
    len
}

/// Extracts the symbol from an epic: the third dot-separated segment, or the
/// empty string when the epic has fewer segments.
pub fn epic_symbol(epic: &str) -> (r: String)
    ensures
        r@ == symbol_of(epic@),
{
    let len = epic.unicode_len();
    let d1 = find_dot_from(epic, len, 0);
    proof {
        lemma_first_dot_at(epic@, d1 as int);
    }
    if d1 == len {
        assert(symbol_of(epic@) =~= Seq::<char>::empty());
        return String::new();
    }
    let ghost s1 = epic@.subrange(d1 + 1, len as int);
    let d2 = find_dot_from(epic, len, d1 + 1);
    proof {
        assert forall|k: int| 0 <= k < d2 - d1 - 1 implies s1[k] != '.' by {
            assert(s1[k] == epic@[k + d1 + 1]);
        }
        if d2 < len {
            assert(s1[d2 - d1 - 1] == epic@[d2 as int]);
        }
        lemma_first_dot_at(s1, d2 - d1 - 1);
        assert(nth_segment(epic@, 2) == nth_segment(s1, 1));
    }
    if d2 == len {
        assert(first_dot(s1) == s1.len());
        assert(nth_segment(s1, 1) is None);
        assert(symbol_of(epic@) =~= Seq::<char>::empty());
        return String::new();
    }
    let ghost s2 = epic@.subrange(d2 + 1, len as int);
    let d3 = find_dot_from(epic, len, d2 + 1);
    proof {
        assert(first_dot(s1) == d2 - d1 - 1);
        assert(first_dot(s1) < s1.len());
        assert(s1.subrange(d2 - d1 - 1 + 1, s1.len() as int) =~= s2);
        assert(nth_segment(s1, 1) == nth_segment(s2, 0));
        assert forall|k: int| 0 <= k < d3 - d2 - 1 implies s2[k] != '.' by {
            assert(s2[k] == epic@[k + d2 + 1]);
        }
        if d3 < len {
            assert(s2[d3 - d2 - 1] == epic@[d3 as int]);
        }
        lemma_first_dot_at(s2, d3 - d2 - 1);
        assert(nth_segment(s2, 0) == Some(s2.take(d3 - d2 - 1)));
        assert(s2.take(d3 - d2 - 1) =~= epic@.subrange(d2 + 1, d3 as int));
    }
    let seg = epic.substring_char(d2 + 1, d3);
    seg.to_owned()
}

/// A database entry derived from a market: the symbol extracted from the
/// epic, the market's identity, and the moment the entry was made.
#[derive(Clone, Debug)]
pub struct DBEntryResponse {
    /// The trading symbol identifier.
    pub symbol: String,
    /// The epic identifier used by the exchange.
    pub epic: String,
    /// Human-readable name of the instrument.
    pub name: String,
    /// Instrument type classification.
    pub instrument_type: String,
    /// The exchange where this instrument is traded.
    pub exchange: String,
    /// Expiration date and time for the instrument.
    pub expiry: String,
    /// When this record was made, in UTC milliseconds since the epoch.
    pub last_update: i64,
}

/// Relies on chrono's `Utc::now` for the current wall-clock time; its result
/// depends on the clock, so nothing is promised of it.
#[verifier::external_body]
fn now_utc_millis() -> i64 {
    chrono::Utc::now().timestamp_millis()
}

impl DBEntryResponse {
    /// Builds a database entry from a market: the symbol is the third
    /// dot-separated segment of the epic, the exchange is fixed, and the
    /// entry is stamped with the current time.
    pub fn from_market(market: &MarketData) -> (r: DBEntryResponse)
        ensures
            r.symbol@ == symbol_of(market.epic@),
            r.epic@ == market.epic@,
            r.name@ == market.instrument_name@,
            r.instrument_type@ == market.instrument_type@,
            r.exchange@ == "IG"@,
            r.expiry@ == market.expiry@,
    {
        DBEntryResponse {
            symbol: epic_symbol(market.epic.as_str()),
            epic: market.epic.clone(),
            name: market.instrument_name.clone(),
            instrument_type: market.instrument_type.clone(),
            exchange: "IG".to_owned(),
            expiry: market.expiry.clone(),
            last_update: now_utc_millis(),
        }
    }
}

fn clone_market(m: &MarketData) -> (r: MarketData)
    ensures
        r == *m,
{
    MarketData {
        epic: m.epic.clone(),
        instrument_name: m.instrument_name.clone(),
        instrument_type: m.instrument_type.clone(),
        expiry: m.expiry.clone(),
    }
}

fn clone_node(n: &MarketNavigationNode) -> (r: MarketNavigationNode)
    ensures
        r == *n,
{
    MarketNavigationNode { id: n.id.clone(), name: n.name.clone() }
}

fn append_markets(dst: &mut Vec<MarketData>, src: &Vec<MarketData>)
    ensures
        final(dst)@ == old(dst)@ + src@,
{
    let len = src.len();
    let mut j: usize = 0;
    while j < len
        invariant
            len == src@.len(),
            j <= len,
            dst@ == old(dst)@ + src@.take(j as int),
        decreases len - j,
    {
        dst.push(clone_market(&src[j]));
        assert(dst@ =~= old(dst)@ + src@.take(j + 1));
        j = j + 1;
    }
    assert(dst@ =~= old(dst)@ + src@);
}

fn append_nodes(dst: &mut Vec<MarketNavigationNode>, src: &Vec<MarketNavigationNode>)
    ensures
        final(dst)@ == old(dst)@ + src@,
{
    let len = src.len();
    let mut j: usize = 0;
    while j < len
        invariant
            len == src@.len(),
            j <= len,
            dst@ == old(dst)@ + src@.take(j as int),
        decreases len - j,
    {
        dst.push(clone_node(&src[j]));
        assert(dst@ =~= old(dst)@ + src@.take(j + 1));
        j = j + 1;
    }
    assert(dst@ =~= old(dst)@ + src@);
}

/// The markets that one level of the navigation traversal found, in order.
pub open spec fn level_markets(rs: Seq<MarketNavigationResponse>) -> Seq<MarketData> {
    rs.flat_map(|r: MarketNavigationResponse| r.markets@)
}

/// The child nodes that one level of the navigation traversal found, in
/// order: the nodes the next level visits.
pub open spec fn level_nodes(rs: Seq<MarketNavigationResponse>) -> Seq<MarketNavigationNode> {
    rs.flat_map(|r: MarketNavigationResponse| r.nodes@)
}

/// Merges one level of the market navigation traversal: all markets the
/// level's responses carry, and the child nodes the next level must visit,
/// each concatenated in response order.
pub fn merge_navigation_level(responses: &Vec<MarketNavigationResponse>) -> (r: (
    Vec<MarketData>,
    Vec<MarketNavigationNode>,
))
    ensures
        r.0@ == level_markets(responses@),
        r.1@ == level_nodes(responses@),
{
    let ghost fm = |x: MarketNavigationResponse| x.markets@;
    let ghost fnodes = |x: MarketNavigationResponse| x.nodes@;
    let mut markets: Vec<MarketData> = Vec::new();
    let mut nodes: Vec<MarketNavigationNode> = Vec::new();
    let len = responses.len();
    let mut i: usize = 0;
    proof {
        reveal(Seq::flatten);
        assert(responses@.take(0).flat_map(fm) =~= Seq::<MarketData>::empty());
        assert(responses@.take(0).flat_map(fnodes) =~= Seq::<MarketNavigationNode>::empty());
    }
    while i < len
        invariant
            len == responses@.len(),
            i <= len,
            fm == (|x: MarketNavigationResponse| x.markets@),
            fnodes == (|x: MarketNavigationResponse| x.nodes@),
            markets@ == responses@.take(i as int).flat_map(fm),
            nodes@ == responses@.take(i as int).flat_map(fnodes),
        decreases len - i,
    {
        proof {
            responses@.lemma_flat_map_take_append(fm, i as int);
            responses@.lemma_flat_map_take_append(fnodes, i as int);
        }
        append_markets(&mut markets, &responses[i].markets);
        append_nodes(&mut nodes, &responses[i].nodes);
        i = i + 1;
    }
    proof {
        assert(responses@.take(len as int) =~= responses@);
    }
    (markets, nodes)
}

/// A market that can yield a database entry: its epic is nonempty.
pub open spec fn has_epic_key(m: MarketData) -> bool {
    m.epic@.len() > 0
}

/// `e` is the entry derived from `m`: the symbol extracted from the epic,
/// the market's identity carried over, and the fixed exchange name.
pub open spec fn entry_of(e: DBEntryResponse, m: MarketData) -> bool {
    &&& e.symbol@ == symbol_of(m.epic@)
    &&& e.epic@ == m.epic@
    &&& e.name@ == m.instrument_name@
    &&& e.instrument_type@ == m.instrument_type@
    &&& e.exchange@ == "IG"@
    &&& e.expiry@ == m.expiry@
}

/// Builds one database entry per market whose epic is nonempty, in order.
pub fn collect_db_entries(markets: &Vec<MarketData>) -> (r: Vec<DBEntryResponse>)
    ensures
        r@.len() == markets@.filter(|m: MarketData| has_epic_key(m)).len(),
        forall|k: int|
            0 <= k < r@.len() ==> entry_of(
                r@[k],
                markets@.filter(|m: MarketData| has_epic_key(m))[k],
            ),
{
    let ghost pred = |m: MarketData| has_epic_key(m);
    let mut out: Vec<DBEntryResponse> = Vec::new();
    let len = markets.len();
    let mut i: usize = 0;
    proof {
        assert(markets@.take(0) =~= Seq::<MarketData>::empty());
        reveal(Seq::filter);
    }
    while i < len
        invariant
            len == markets@.len(),
            i <= len,
            pred == (|m: MarketData| has_epic_key(m)),
            out@.len() == markets@.take(i as int).filter(pred).len(),
            forall|k: int|
                0 <= k < out@.len() ==> entry_of(out@[k], markets@.take(i as int).filter(pred)[k]),
        decreases len - i,
    {
        let ghost prefix = markets@.take(i as int);
        let ghost next = markets@.take(i + 1);
        proof {
            reveal(Seq::filter);
            assert(next.drop_last() =~= prefix);
            assert(next.last() == markets@[i as int]);
        }
        if !markets[i].epic.as_str().is_empty() {
            out.push(DBEntryResponse::from_market(&markets[i]));
            proof {
                assert(next.filter(pred) =~= prefix.filter(pred).push(markets@[i as int]));
            }
        } else {
            proof {
                assert(next.filter(pred) =~= prefix.filter(pred));
            }
        }
        i = i + 1;
    }
    proof {
        assert(markets@.take(len as int) =~= markets@);
    }
    out
}

} // verus!
