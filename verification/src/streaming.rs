//! Streaming data field definitions for the brokerage push API.
//!
//! This module provides the field enums used to build streaming
//! subscriptions, one per domain:
//! - market data (prices, market state)
//! - detailed price data (bid/ask levels and sizes)
//! - account data (profit and loss, margin, equity)
//!
//! Each variant stands for one wire-level field identifier, given exactly by
//! `wire_name`.

use vstd::prelude::*;

verus! {

/// Streaming market fields available for market subscriptions.
#[derive(Clone, Copy, Debug, PartialEq, Eq, Hash, Structural)]
pub enum StreamingMarketField {
    /// Mid open price
    MidOpen,
    /// High price
    High,
    /// Low price
    Low,
    /// Price change
    Change,
    /// Percentage change
    ChangePct,
    /// Last update time
    UpdateTime,
    /// Market delay in milliseconds
    MarketDelay,
    /// Market state, such as TRADEABLE or CLOSED
    MarketState,
    /// Bid price
    Bid,
    /// Offer/Ask price
    Offer,
}

impl Default for StreamingMarketField {
    /// The default field is `Offer`.
    fn default() -> (r: Self)
        ensures
            r == StreamingMarketField::Offer,
    {
        StreamingMarketField::Offer
    }
}

impl StreamingMarketField {
    /// The exact wire-level identifier of each field.
    pub open spec fn spec_wire_name(&self) -> Seq<char> {
        match self {
            StreamingMarketField::MidOpen => "MID_OPEN"@,
            StreamingMarketField::High => "HIGH"@,
            StreamingMarketField::Low => "LOW"@,
            StreamingMarketField::Change => "CHANGE"@,
            StreamingMarketField::ChangePct => "CHANGE_PCT"@,
            StreamingMarketField::UpdateTime => "UPDATE_TIME"@,
            StreamingMarketField::MarketDelay => "MARKET_DELAY"@,
            StreamingMarketField::MarketState => "MARKET_STATE"@,
            StreamingMarketField::Bid => "BID"@,
            StreamingMarketField::Offer => "OFFER"@,
        }
    }

    /// Renders the field as its wire-level identifier.
    pub fn wire_name(&self) -> (r: String)
        ensures
            r@ == self.spec_wire_name(),
    {
        match self {
            StreamingMarketField::MidOpen => "MID_OPEN".to_owned(),
            StreamingMarketField::High => "HIGH".to_owned(),
            StreamingMarketField::Low => "LOW".to_owned(),
            StreamingMarketField::Change => "CHANGE".to_owned(),
            StreamingMarketField::ChangePct => "CHANGE_PCT".to_owned(),
            StreamingMarketField::UpdateTime => "UPDATE_TIME".to_owned(),
            StreamingMarketField::MarketDelay => "MARKET_DELAY".to_owned(),
            StreamingMarketField::MarketState => "MARKET_STATE".to_owned(),
            StreamingMarketField::Bid => "BID".to_owned(),
            StreamingMarketField::Offer => "OFFER".to_owned(),
        }
    }
}

/// Renders a list of market fields as their wire-level identifiers, in order.
pub fn get_streaming_market_fields(fields: &Vec<StreamingMarketField>) -> (r: Vec<String>)
    ensures
        r@.len() == fields@.len(),
        forall|i: int| 0 <= i < fields@.len() ==> r@[i]@ == fields@[i].spec_wire_name(),
{
    let mut out: Vec<String> = Vec::new();
    let len = fields.len();
    let mut i: usize = 0;
    while i < len
        invariant
            len == fields@.len(),
            i <= len,
            out@.len() == i,
            forall|k: int| 0 <= k < i ==> out@[k]@ == fields@[k].spec_wire_name(),
        decreases len - i,
    {
        out.push(fields[i].wire_name());
        i = i + 1;
    }
    out
}

/// Streaming price fields available for detailed price subscriptions.
#[derive(Clone, Copy, Debug, PartialEq, Eq, Hash, Structural)]
pub enum StreamingPriceField {
    /// Mid open price
    MidOpen,
    /// High price
    High,
    /// Low price
    Low,
    /// Bid quote ID
    BidQuoteId,
    /// Ask quote ID
    AskQuoteId,
    /// Bid price level 1
    BidPrice1,
    /// Bid price level 2
    BidPrice2,
    /// Bid price level 3
    BidPrice3,
    /// Bid price level 4
    BidPrice4,
    /// Bid price level 5
    BidPrice5,
    /// Ask price level 1
    AskPrice1,
    /// Ask price level 2
    AskPrice2,
    /// Ask price level 3
    AskPrice3,
    /// Ask price level 4
    AskPrice4,
    /// Ask price level 5
    AskPrice5,
    /// Bid size level 1
    BidSize1,
    /// Bid size level 2
    BidSize2,
    /// Bid size level 3
    BidSize3,
    /// Bid size level 4
    BidSize4,
    /// Bid size level 5
    BidSize5,
    /// Ask size level 1
    AskSize1,
    /// Ask size level 2
    AskSize2,
    /// Ask size level 3
    AskSize3,
    /// Ask size level 4
    AskSize4,
    /// Ask size level 5
    AskSize5,
    /// Currency 0
    Currency0,
    /// Currency 1
    Currency1,
    /// Currency 1 bid size level 1
    C1BidSize1,
    /// Currency 1 bid size level 2
    C1BidSize2,
    /// Currency 1 bid size level 3
    C1BidSize3,
    /// Currency 1 bid size level 4
    C1BidSize4,
    /// Currency 1 bid size level 5
    C1BidSize5,
    /// Currency 1 ask size level 1
    C1AskSize1,
    /// Currency 1 ask size level 2
    C1AskSize2,
    /// Currency 1 ask size level 3
    C1AskSize3,
    /// Currency 1 ask size level 4
    C1AskSize4,
    /// Currency 1 ask size level 5
    C1AskSize5,
    /// Currency 2
    Currency2,
    /// Currency 2 bid size level 1
    C2BidSize1,
    /// Currency 2 bid size level 2
    C2BidSize2,
    /// Currency 2 bid size level 3
    C2BidSize3,
    /// Currency 2 bid size level 4
    C2BidSize4,
    /// Currency 2 bid size level 5
    C2BidSize5,
    /// Currency 2 ask size level 1
    C2AskSize1,
    /// Currency 2 ask size level 2
    C2AskSize2,
    /// Currency 2 ask size level 3
    C2AskSize3,
    /// Currency 2 ask size level 4
    C2AskSize4,
    /// Currency 2 ask size level 5
    C2AskSize5,
    /// Currency 3
    Currency3,
    /// Currency 3 bid size level 1
    C3BidSize1,
    /// Currency 3 bid size level 2
    C3BidSize2,
    /// Currency 3 bid size level 3
    C3BidSize3,
    /// Currency 3 bid size level 4
    C3BidSize4,
    /// Currency 3 bid size level 5
    C3BidSize5,
    /// Currency 3 ask size level 1
    C3AskSize1,
    /// Currency 3 ask size level 2
    C3AskSize2,
    /// Currency 3 ask size level 3
    C3AskSize3,
    /// Currency 3 ask size level 4
    C3AskSize4,
    /// Currency 3 ask size level 5
    C3AskSize5,
    /// Currency 4
    Currency4,
    /// Currency 4 bid size level 1
    C4BidSize1,
    /// Currency 4 bid size level 2
    C4BidSize2,
    /// Currency 4 bid size level 3
    C4BidSize3,
    /// Currency 4 bid size level 4
    C4BidSize4,
    /// Currency 4 bid size level 5
    C4BidSize5,
    /// Currency 4 ask size level 1
    C4AskSize1,
    /// Currency 4 ask size level 2
    C4AskSize2,
    /// Currency 4 ask size level 3
    C4AskSize3,
    /// Currency 4 ask size level 4
    C4AskSize4,
    /// Currency 4 ask size level 5
    C4AskSize5,
    /// Currency 5
    Currency5,
    /// Currency 5 bid size level 1
    C5BidSize1,
    /// Currency 5 bid size level 2
    C5BidSize2,
    /// Currency 5 bid size level 3
    C5BidSize3,
    /// Currency 5 bid size level 4
    C5BidSize4,
    /// Currency 5 bid size level 5
    C5BidSize5,
    /// Currency 5 ask size level 1
    C5AskSize1,
    /// Currency 5 ask size level 2
    C5AskSize2,
    /// Currency 5 ask size level 3
    C5AskSize3,
    /// Currency 5 ask size level 4
    C5AskSize4,
    /// Currency 5 ask size level 5
    C5AskSize5,
    /// Timestamp of the price update
    Timestamp,
    /// Dealing flag
    DlgFlag,
}

impl Default for StreamingPriceField {
    /// The default field is `AskPrice5`.
    fn default() -> (r: Self)
        ensures
            r == StreamingPriceField::AskPrice5,
    {
        StreamingPriceField::AskPrice5
    }
}

impl StreamingPriceField {
    /// The exact wire-level identifier of each field.
    pub open spec fn spec_wire_name(&self) -> Seq<char> {
        match self {
            StreamingPriceField::MidOpen => "MID_OPEN"@,
            StreamingPriceField::High => "HIGH"@,
            StreamingPriceField::Low => "LOW"@,
            StreamingPriceField::BidQuoteId => "BIDQUOTEID"@,
            StreamingPriceField::AskQuoteId => "ASKQUOTEID"@,
            StreamingPriceField::BidPrice1 => "BIDPRICE1"@,
            StreamingPriceField::BidPrice2 => "BIDPRICE2"@,
            StreamingPriceField::BidPrice3 => "BIDPRICE3"@,
            StreamingPriceField::BidPrice4 => "BIDPRICE4"@,
            StreamingPriceField::BidPrice5 => "BIDPRICE5"@,
            StreamingPriceField::AskPrice1 => "ASKPRICE1"@,
            StreamingPriceField::AskPrice2 => "ASKPRICE2"@,
            StreamingPriceField::AskPrice3 => "ASKPRICE3"@,
            StreamingPriceField::AskPrice4 => "ASKPRICE4"@,
            StreamingPriceField::AskPrice5 => "ASKPRICE5"@,
            StreamingPriceField::BidSize1 => "BIDSIZE1"@,
            StreamingPriceField::BidSize2 => "BIDSIZE2"@,
            StreamingPriceField::BidSize3 => "BIDSIZE3"@,
            StreamingPriceField::BidSize4 => "BIDSIZE4"@,
            StreamingPriceField::BidSize5 => "BIDSIZE5"@,
            StreamingPriceField::AskSize1 => "ASKSIZE1"@,
            StreamingPriceField::AskSize2 => "ASKSIZE2"@,
            StreamingPriceField::AskSize3 => "ASKSIZE3"@,
            StreamingPriceField::AskSize4 => "ASKSIZE4"@,
            StreamingPriceField::AskSize5 => "ASKSIZE5"@,
            StreamingPriceField::Currency0 => "CURRENCY0"@,
            StreamingPriceField::Currency1 => "CURRENCY1"@,
            StreamingPriceField::C1BidSize1 => "C1BIDSIZE1"@,
            StreamingPriceField::C1BidSize2 => "C1BIDSIZE2"@,
            StreamingPriceField::C1BidSize3 => "C1BIDSIZE3"@,
            StreamingPriceField::C1BidSize4 => "C1BIDSIZE4"@,
            StreamingPriceField::C1BidSize5 => "C1BIDSIZE5"@,
            StreamingPriceField::C1AskSize1 => "C1ASKSIZE1"@,
            StreamingPriceField::C1AskSize2 => "C1ASKSIZE2"@,
            StreamingPriceField::C1AskSize3 => "C1ASKSIZE3"@,
            StreamingPriceField::C1AskSize4 => "C1ASKSIZE4"@,
            StreamingPriceField::C1AskSize5 => "C1ASKSIZE5"@,
            StreamingPriceField::Currency2 => "CURRENCY2"@,
            StreamingPriceField::C2BidSize1 => "C2BIDSIZE1"@,
            StreamingPriceField::C2BidSize2 => "C2BIDSIZE2"@,
            StreamingPriceField::C2BidSize3 => "C2BIDSIZE3"@,
            StreamingPriceField::C2BidSize4 => "C2BIDSIZE4"@,
            StreamingPriceField::C2BidSize5 => "C2BIDSIZE5"@,
            StreamingPriceField::C2AskSize1 => "C2ASKSIZE1"@,
            StreamingPriceField::C2AskSize2 => "C2ASKSIZE2"@,
            StreamingPriceField::C2AskSize3 => "C2ASKSIZE3"@,
            StreamingPriceField::C2AskSize4 => "C2ASKSIZE4"@,
            StreamingPriceField::C2AskSize5 => "C2ASKSIZE5"@,
            StreamingPriceField::Currency3 => "CURRENCY3"@,
            StreamingPriceField::C3BidSize1 => "C3BIDSIZE1"@,
            StreamingPriceField::C3BidSize2 => "C3BIDSIZE2"@,
            StreamingPriceField::C3BidSize3 => "C3BIDSIZE3"@,
            StreamingPriceField::C3BidSize4 => "C3BIDSIZE4"@,
            StreamingPriceField::C3BidSize5 => "C3BIDSIZE5"@,
            StreamingPriceField::C3AskSize1 => "C3ASKSIZE1"@,
            StreamingPriceField::C3AskSize2 => "C3ASKSIZE2"@,
            StreamingPriceField::C3AskSize3 => "C3ASKSIZE3"@,
            StreamingPriceField::C3AskSize4 => "C3ASKSIZE4"@,
            StreamingPriceField::C3AskSize5 => "C3ASKSIZE5"@,
            StreamingPriceField::Currency4 => "CURRENCY4"@,
            StreamingPriceField::C4BidSize1 => "C4BIDSIZE1"@,
            StreamingPriceField::C4BidSize2 => "C4BIDSIZE2"@,
            StreamingPriceField::C4BidSize3 => "C4BIDSIZE3"@,
            StreamingPriceField::C4BidSize4 => "C4BIDSIZE4"@,
            StreamingPriceField::C4BidSize5 => "C4BIDSIZE5"@,
            StreamingPriceField::C4AskSize1 => "C4ASKSIZE1"@,
            StreamingPriceField::C4AskSize2 => "C4ASKSIZE2"@,
            StreamingPriceField::C4AskSize3 => "C4ASKSIZE3"@,
            StreamingPriceField::C4AskSize4 => "C4ASKSIZE4"@,
            StreamingPriceField::C4AskSize5 => "C4ASKSIZE5"@,
            StreamingPriceField::Currency5 => "CURRENCY5"@,
            StreamingPriceField::C5BidSize1 => "C5BIDSIZE1"@,
            StreamingPriceField::C5BidSize2 => "C5BIDSIZE2"@,
            StreamingPriceField::C5BidSize3 => "C5BIDSIZE3"@,
            StreamingPriceField::C5BidSize4 => "C5BIDSIZE4"@,
            StreamingPriceField::C5BidSize5 => "C5BIDSIZE5"@,
            StreamingPriceField::C5AskSize1 => "C5ASKSIZE1"@,
            StreamingPriceField::C5AskSize2 => "C5ASKSIZE2"@,
            StreamingPriceField::C5AskSize3 => "C5ASKSIZE3"@,
            StreamingPriceField::C5AskSize4 => "C5ASKSIZE4"@,
            StreamingPriceField::C5AskSize5 => "C5ASKSIZE5"@,
            StreamingPriceField::Timestamp => "TIMESTAMP"@,
            StreamingPriceField::DlgFlag => "DLG_FLAG"@,
        }
    }

    /// Renders the field as its wire-level identifier.
    pub fn wire_name(&self) -> (r: String)
        ensures
            r@ == self.spec_wire_name(),
    {
        match self {
            StreamingPriceField::MidOpen => "MID_OPEN".to_owned(),
            StreamingPriceField::High => "HIGH".to_owned(),
            StreamingPriceField::Low => "LOW".to_owned(),
            StreamingPriceField::BidQuoteId => "BIDQUOTEID".to_owned(),
            StreamingPriceField::AskQuoteId => "ASKQUOTEID".to_owned(),
            StreamingPriceField::BidPrice1 => "BIDPRICE1".to_owned(),
            StreamingPriceField::BidPrice2 => "BIDPRICE2".to_owned(),
            StreamingPriceField::BidPrice3 => "BIDPRICE3".to_owned(),
            StreamingPriceField::BidPrice4 => "BIDPRICE4".to_owned(),
            StreamingPriceField::BidPrice5 => "BIDPRICE5".to_owned(),
            StreamingPriceField::AskPrice1 => "ASKPRICE1".to_owned(),
            StreamingPriceField::AskPrice2 => "ASKPRICE2".to_owned(),
            StreamingPriceField::AskPrice3 => "ASKPRICE3".to_owned(),
            StreamingPriceField::AskPrice4 => "ASKPRICE4".to_owned(),
            StreamingPriceField::AskPrice5 => "ASKPRICE5".to_owned(),
            StreamingPriceField::BidSize1 => "BIDSIZE1".to_owned(),
            StreamingPriceField::BidSize2 => "BIDSIZE2".to_owned(),
            StreamingPriceField::BidSize3 => "BIDSIZE3".to_owned(),
            StreamingPriceField::BidSize4 => "BIDSIZE4".to_owned(),
            StreamingPriceField::BidSize5 => "BIDSIZE5".to_owned(),
            StreamingPriceField::AskSize1 => "ASKSIZE1".to_owned(),
            StreamingPriceField::AskSize2 => "ASKSIZE2".to_owned(),
            StreamingPriceField::AskSize3 => "ASKSIZE3".to_owned(),
            StreamingPriceField::AskSize4 => "ASKSIZE4".to_owned(),
            StreamingPriceField::AskSize5 => "ASKSIZE5".to_owned(),
            StreamingPriceField::Currency0 => "CURRENCY0".to_owned(),
            StreamingPriceField::Currency1 => "CURRENCY1".to_owned(),
            StreamingPriceField::C1BidSize1 => "C1BIDSIZE1".to_owned(),
            StreamingPriceField::C1BidSize2 => "C1BIDSIZE2".to_owned(),
            StreamingPriceField::C1BidSize3 => "C1BIDSIZE3".to_owned(),
            StreamingPriceField::C1BidSize4 => "C1BIDSIZE4".to_owned(),
            StreamingPriceField::C1BidSize5 => "C1BIDSIZE5".to_owned(),
            StreamingPriceField::C1AskSize1 => "C1ASKSIZE1".to_owned(),
            StreamingPriceField::C1AskSize2 => "C1ASKSIZE2".to_owned(),
            StreamingPriceField::C1AskSize3 => "C1ASKSIZE3".to_owned(),
            StreamingPriceField::C1AskSize4 => "C1ASKSIZE4".to_owned(),
            StreamingPriceField::C1AskSize5 => "C1ASKSIZE5".to_owned(),
            StreamingPriceField::Currency2 => "CURRENCY2".to_owned(),
            StreamingPriceField::C2BidSize1 => "C2BIDSIZE1".to_owned(),
            StreamingPriceField::C2BidSize2 => "C2BIDSIZE2".to_owned(),
            StreamingPriceField::C2BidSize3 => "C2BIDSIZE3".to_owned(),
            StreamingPriceField::C2BidSize4 => "C2BIDSIZE4".to_owned(),
            StreamingPriceField::C2BidSize5 => "C2BIDSIZE5".to_owned(),
            StreamingPriceField::C2AskSize1 => "C2ASKSIZE1".to_owned(),
            StreamingPriceField::C2AskSize2 => "C2ASKSIZE2".to_owned(),
            StreamingPriceField::C2AskSize3 => "C2ASKSIZE3".to_owned(),
            StreamingPriceField::C2AskSize4 => "C2ASKSIZE4".to_owned(),
            StreamingPriceField::C2AskSize5 => "C2ASKSIZE5".to_owned(),
            StreamingPriceField::Currency3 => "CURRENCY3".to_owned(),
            StreamingPriceField::C3BidSize1 => "C3BIDSIZE1".to_owned(),
            StreamingPriceField::C3BidSize2 => "C3BIDSIZE2".to_owned(),
            StreamingPriceField::C3BidSize3 => "C3BIDSIZE3".to_owned(),
            StreamingPriceField::C3BidSize4 => "C3BIDSIZE4".to_owned(),
            StreamingPriceField::C3BidSize5 => "C3BIDSIZE5".to_owned(),
            StreamingPriceField::C3AskSize1 => "C3ASKSIZE1".to_owned(),
            StreamingPriceField::C3AskSize2 => "C3ASKSIZE2".to_owned(),
            StreamingPriceField::C3AskSize3 => "C3ASKSIZE3".to_owned(),
            StreamingPriceField::C3AskSize4 => "C3ASKSIZE4".to_owned(),
            StreamingPriceField::C3AskSize5 => "C3ASKSIZE5".to_owned(),
            StreamingPriceField::Currency4 => "CURRENCY4".to_owned(),
            StreamingPriceField::C4BidSize1 => "C4BIDSIZE1".to_owned(),
            StreamingPriceField::C4BidSize2 => "C4BIDSIZE2".to_owned(),
            StreamingPriceField::C4BidSize3 => "C4BIDSIZE3".to_owned(),
            StreamingPriceField::C4BidSize4 => "C4BIDSIZE4".to_owned(),
            StreamingPriceField::C4BidSize5 => "C4BIDSIZE5".to_owned(),
            StreamingPriceField::C4AskSize1 => "C4ASKSIZE1".to_owned(),
            StreamingPriceField::C4AskSize2 => "C4ASKSIZE2".to_owned(),
            StreamingPriceField::C4AskSize3 => "C4ASKSIZE3".to_owned(),
            StreamingPriceField::C4AskSize4 => "C4ASKSIZE4".to_owned(),
            StreamingPriceField::C4AskSize5 => "C4ASKSIZE5".to_owned(),
            StreamingPriceField::Currency5 => "CURRENCY5".to_owned(),
            StreamingPriceField::C5BidSize1 => "C5BIDSIZE1".to_owned(),
            StreamingPriceField::C5BidSize2 => "C5BIDSIZE2".to_owned(),
            StreamingPriceField::C5BidSize3 => "C5BIDSIZE3".to_owned(),
            StreamingPriceField::C5BidSize4 => "C5BIDSIZE4".to_owned(),
            StreamingPriceField::C5BidSize5 => "C5BIDSIZE5".to_owned(),
            StreamingPriceField::C5AskSize1 => "C5ASKSIZE1".to_owned(),
            StreamingPriceField::C5AskSize2 => "C5ASKSIZE2".to_owned(),
            StreamingPriceField::C5AskSize3 => "C5ASKSIZE3".to_owned(),
            StreamingPriceField::C5AskSize4 => "C5ASKSIZE4".to_owned(),
            StreamingPriceField::C5AskSize5 => "C5ASKSIZE5".to_owned(),
            StreamingPriceField::Timestamp => "TIMESTAMP".to_owned(),
            StreamingPriceField::DlgFlag => "DLG_FLAG".to_owned(),
        }
    }
}

/// Renders a list of price fields as their wire-level identifiers, in order.
pub fn get_streaming_price_fields(fields: &Vec<StreamingPriceField>) -> (r: Vec<String>)
    ensures
        r@.len() == fields@.len(),
        forall|i: int| 0 <= i < fields@.len() ==> r@[i]@ == fields@[i].spec_wire_name(),
{
    let mut out: Vec<String> = Vec::new();
    let len = fields.len();
    let mut i: usize = 0;
    while i < len
        invariant
            len == fields@.len(),
            i <= len,
            out@.len() == i,
            forall|k: int| 0 <= k < i ==> out@[k]@ == fields@[k].spec_wire_name(),
        decreases len - i,
    {
        out.push(fields[i].wire_name());
        i = i + 1;
    }
    out
}

/// Streaming account data fields available for account subscriptions.
#[derive(Clone, Copy, Debug, PartialEq, Eq, Hash, Structural)]
pub enum StreamingAccountDataField {
    /// Profit and loss
    Pnl,
    /// Deposit amount
    Deposit,
    /// Available cash
    AvailableCash,
    /// Profit and loss for positions with guaranteed stops
    PnlLr,
    /// Profit and loss for positions without guaranteed stops
    PnlNlr,
    /// Total funds
    Funds,
    /// Total margin
    Margin,
    /// Margin for positions with guaranteed stops
    MarginLr,
    /// Margin for positions without guaranteed stops
    MarginNlr,
    /// Available amount to deal
    AvailableToDeal,
    /// Total equity
    Equity,
    /// Equity used
    EquityUsed,
}

impl Default for StreamingAccountDataField {
    /// The default field is `Pnl`.
    fn default() -> (r: Self)
        ensures
            r == StreamingAccountDataField::Pnl,
    {
        StreamingAccountDataField::Pnl
    }
}

impl StreamingAccountDataField {
    /// The exact wire-level identifier of each field.
    pub open spec fn spec_wire_name(&self) -> Seq<char> {
        match self {
            StreamingAccountDataField::Pnl => "PNL"@,
            StreamingAccountDataField::Deposit => "DEPOSIT"@,
            StreamingAccountDataField::AvailableCash => "AVAILABLE_CASH"@,
            StreamingAccountDataField::PnlLr => "PNL_LR"@,
            StreamingAccountDataField::PnlNlr => "PNL_NLR"@,
            StreamingAccountDataField::Funds => "FUNDS"@,
            StreamingAccountDataField::Margin => "MARGIN"@,
            StreamingAccountDataField::MarginLr => "MARGIN_LR"@,
            StreamingAccountDataField::MarginNlr => "MARGIN_NLR"@,
            StreamingAccountDataField::AvailableToDeal => "AVAILABLE_TO_DEAL"@,
            StreamingAccountDataField::Equity => "EQUITY"@,
            StreamingAccountDataField::EquityUsed => "EQUITY_USED"@,
        }
    }

    /// Renders the field as its wire-level identifier.
    pub fn wire_name(&self) -> (r: String)
        ensures
            r@ == self.spec_wire_name(),
    {
        match self {
            StreamingAccountDataField::Pnl => "PNL".to_owned(),
            StreamingAccountDataField::Deposit => "DEPOSIT".to_owned(),
            StreamingAccountDataField::AvailableCash => "AVAILABLE_CASH".to_owned(),
            StreamingAccountDataField::PnlLr => "PNL_LR".to_owned(),
            StreamingAccountDataField::PnlNlr => "PNL_NLR".to_owned(),
            StreamingAccountDataField::Funds => "FUNDS".to_owned(),
            StreamingAccountDataField::Margin => "MARGIN".to_owned(),
            StreamingAccountDataField::MarginLr => "MARGIN_LR".to_owned(),
            StreamingAccountDataField::MarginNlr => "MARGIN_NLR".to_owned(),
            StreamingAccountDataField::AvailableToDeal => "AVAILABLE_TO_DEAL".to_owned(),
            StreamingAccountDataField::Equity => "EQUITY".to_owned(),
            StreamingAccountDataField::EquityUsed => "EQUITY_USED".to_owned(),
        }
    }
}

/// Renders a list of account data fields as their wire-level identifiers, in order.
pub fn get_streaming_account_data_fields(fields: &Vec<StreamingAccountDataField>) -> (r: Vec<String>)
    ensures
        r@.len() == fields@.len(),
        forall|i: int| 0 <= i < fields@.len() ==> r@[i]@ == fields@[i].spec_wire_name(),
{
    let mut out: Vec<String> = Vec::new();
    let len = fields.len();
    let mut i: usize = 0;
    while i < len
        invariant
            len == fields@.len(),
            i <= len,
            out@.len() == i,
            forall|k: int| 0 <= k < i ==> out@[k]@ == fields@[k].spec_wire_name(),
        decreases len - i,
    {
        out.push(fields[i].wire_name());
        i = i + 1;
    }
    out
}

} // verus!
