//! Exchanges, market kinds and venue families.

use vstd::prelude::*;
use crate::exchange::timeframe::{PushFrequency, Timeframe};
use crate::text::{concat_str, str_eq};

verus! {

/// The kind of market a venue trades.
#[derive(Debug, Clone, Copy, PartialEq, Eq, Hash, Structural)]
pub enum MarketKind {
    Spot,
    LinearPerps,
    InversePerps,
}

/// The label of a market kind ("Spot", "Linear", "Inverse").
pub open spec fn market_kind_label(k: MarketKind) -> Seq<char> {
    match k {
        MarketKind::Spot => "Spot"@,
        MarketKind::LinearPerps => "Linear"@,
        MarketKind::InversePerps => "Inverse"@,
    }
}

/// The name of a market kind as it is debug-printed: the name of its variant.
pub open spec fn market_kind_debug_name(k: MarketKind) -> Seq<char> {
    match k {
        MarketKind::Spot => "Spot"@,
        MarketKind::LinearPerps => "LinearPerps"@,
        MarketKind::InversePerps => "InversePerps"@,
    }
}

impl MarketKind {
    /// The name of the market kind as it is debug-printed.
    pub fn debug_name(&self) -> (s: &'static str)
        ensures
            s@ == market_kind_debug_name(*self),
    {
        match self {
            MarketKind::Spot => "Spot",
            MarketKind::LinearPerps => "LinearPerps",
            MarketKind::InversePerps => "InversePerps",
        }
    }

    /// The label of the market kind ("Spot", "Linear", "Inverse").
    pub fn to_label(&self) -> (s: String)
        ensures
            s@ == market_kind_label(*self),
    {
        match self {
            MarketKind::Spot => "Spot".to_owned(),
            MarketKind::LinearPerps => "Linear".to_owned(),
            MarketKind::InversePerps => "Inverse".to_owned(),
        }
    }
}

/// A market of an exchange.
#[derive(Debug, Clone, Copy, PartialEq, Eq, Hash, Structural)]
pub enum Exchange {
    AsterLinear,
    BinanceLinear,
    BinanceInverse,
    BinanceSpot,
    BybitLinear,
    BybitInverse,
    BybitSpot,
    HyperliquidLinear,
    HyperliquidSpot,
    OkexLinear,
    OkexInverse,
    OkexSpot,
}

/// The market kind traded on an exchange market.
pub open spec fn spec_market_type(e: Exchange) -> MarketKind {
    match e {
        Exchange::AsterLinear | Exchange::BinanceLinear | Exchange::BybitLinear
        | Exchange::HyperliquidLinear | Exchange::OkexLinear => MarketKind::LinearPerps,
        Exchange::BinanceInverse | Exchange::BybitInverse | Exchange::OkexInverse => MarketKind::InversePerps,
        Exchange::BinanceSpot | Exchange::BybitSpot | Exchange::HyperliquidSpot
        | Exchange::OkexSpot => MarketKind::Spot,
    }
}

/// The human-readable name of an exchange market ("Binance Linear", ...).
pub open spec fn exchange_display_name(e: Exchange) -> Seq<char> {
    match e {
        Exchange::AsterLinear => "Aster Linear"@,
        Exchange::BinanceLinear => "Binance Linear"@,
        Exchange::BinanceInverse => "Binance Inverse"@,
        Exchange::BinanceSpot => "Binance Spot"@,
        Exchange::BybitLinear => "Bybit Linear"@,
        Exchange::BybitInverse => "Bybit Inverse"@,
        Exchange::BybitSpot => "Bybit Spot"@,
        Exchange::HyperliquidLinear => "Hyperliquid Linear"@,
        Exchange::HyperliquidSpot => "Hyperliquid Spot"@,
        Exchange::OkexLinear => "Okex Linear"@,
        Exchange::OkexInverse => "Okex Inverse"@,
        Exchange::OkexSpot => "Okex Spot"@,
    }
}

/// The exchange market whose human-readable name is `s`, if any.
pub open spec fn parse_exchange_display_name(s: Seq<char>) -> Option<Exchange> {
    if s == "Aster Linear"@ { Some(Exchange::AsterLinear) }
    else if s == "Binance Linear"@ { Some(Exchange::BinanceLinear) }
    else if s == "Binance Inverse"@ { Some(Exchange::BinanceInverse) }
    else if s == "Binance Spot"@ { Some(Exchange::BinanceSpot) }
    else if s == "Bybit Linear"@ { Some(Exchange::BybitLinear) }
    else if s == "Bybit Inverse"@ { Some(Exchange::BybitInverse) }
    else if s == "Bybit Spot"@ { Some(Exchange::BybitSpot) }
    else if s == "Hyperliquid Linear"@ { Some(Exchange::HyperliquidLinear) }
    else if s == "Hyperliquid Spot"@ { Some(Exchange::HyperliquidSpot) }
    else if s == "Okex Linear"@ { Some(Exchange::OkexLinear) }
    else if s == "Okex Inverse"@ { Some(Exchange::OkexInverse) }
    else if s == "Okex Spot"@ { Some(Exchange::OkexSpot) }
    else { None }
}

/// The compact key of an exchange market used in persisted ticker strings ("BinanceLinear", ...).
pub open spec fn exchange_key(e: Exchange) -> Seq<char> {
    match e {
        Exchange::AsterLinear => "AsterLinear"@,
        Exchange::BinanceLinear => "BinanceLinear"@,
        Exchange::BinanceInverse => "BinanceInverse"@,
        Exchange::BinanceSpot => "BinanceSpot"@,
        Exchange::BybitLinear => "BybitLinear"@,
        Exchange::BybitInverse => "BybitInverse"@,
        Exchange::BybitSpot => "BybitSpot"@,
        Exchange::HyperliquidLinear => "HyperliquidLinear"@,
        Exchange::HyperliquidSpot => "HyperliquidSpot"@,
        Exchange::OkexLinear => "OkexLinear"@,
        Exchange::OkexInverse => "OkexInverse"@,
        Exchange::OkexSpot => "OkexSpot"@,
    }
}

/// The exchange market whose compact key is `s`, if any.
pub open spec fn parse_exchange_key(s: Seq<char>) -> Option<Exchange> {
    if s == "AsterLinear"@ { Some(Exchange::AsterLinear) }
    else if s == "BinanceLinear"@ { Some(Exchange::BinanceLinear) }
    else if s == "BinanceInverse"@ { Some(Exchange::BinanceInverse) }
    else if s == "BinanceSpot"@ { Some(Exchange::BinanceSpot) }
    else if s == "BybitLinear"@ { Some(Exchange::BybitLinear) }
    else if s == "BybitInverse"@ { Some(Exchange::BybitInverse) }
    else if s == "BybitSpot"@ { Some(Exchange::BybitSpot) }
    else if s == "HyperliquidLinear"@ { Some(Exchange::HyperliquidLinear) }
    else if s == "HyperliquidSpot"@ { Some(Exchange::HyperliquidSpot) }
    else if s == "OkexLinear"@ { Some(Exchange::OkexLinear) }
    else if s == "OkexInverse"@ { Some(Exchange::OkexInverse) }
    else if s == "OkexSpot"@ { Some(Exchange::OkexSpot) }
    else { None }
}

/// Whether an exchange market trades perpetual contracts.
pub open spec fn spec_is_perps(e: Exchange) -> bool {
    spec_market_type(e) !is Spot
}

/// The push frequencies that an exchange market accepts for order-book streams.
pub open spec fn spec_allowed_push_freqs(e: Exchange) -> Seq<PushFrequency> {
    match e {
        Exchange::BybitLinear | Exchange::BybitInverse => seq![
            PushFrequency::Custom(Timeframe::MS100),
            PushFrequency::Custom(Timeframe::MS300),
        ],
        Exchange::BybitSpot => seq![
            PushFrequency::Custom(Timeframe::MS200),
            PushFrequency::Custom(Timeframe::MS300),
        ],
        _ => seq![PushFrequency::ServerDefault],
    }
}

/// Whether an exchange market can stream order-book updates at interval `tf`.
pub open spec fn spec_supports_heatmap_timeframe(e: Exchange, tf: Timeframe) -> bool {
    match e {
        Exchange::BybitSpot => tf != Timeframe::MS100,
        Exchange::BybitLinear | Exchange::BybitInverse => tf != Timeframe::MS200,
        Exchange::HyperliquidLinear | Exchange::HyperliquidSpot => tf != Timeframe::MS100
            && tf != Timeframe::MS200 && tf != Timeframe::MS300,
        _ => true,
    }
}

impl Exchange {
    /// The market kind traded on this exchange market.
    pub fn market_type(&self) -> (k: MarketKind)
        ensures
            k == spec_market_type(*self),
    {
        match self {
            Exchange::AsterLinear | Exchange::BinanceLinear | Exchange::BybitLinear
            | Exchange::HyperliquidLinear | Exchange::OkexLinear => MarketKind::LinearPerps,
            Exchange::BinanceInverse | Exchange::BybitInverse | Exchange::OkexInverse => MarketKind::InversePerps,
            Exchange::BinanceSpot | Exchange::BybitSpot | Exchange::HyperliquidSpot
            | Exchange::OkexSpot => MarketKind::Spot,
        }
    }

    /// Whether order-book aggregation by price happens on the client for this market
    /// (every market but Hyperliquid's).
    pub fn is_depth_client_aggr(&self) -> (r: bool)
        ensures
            r == !(*self is HyperliquidLinear || *self is HyperliquidSpot),
    {
        match self {
            Exchange::HyperliquidLinear | Exchange::HyperliquidSpot => false,
            _ => true,
        }
    }

    /// Whether the market lets the client choose the push frequency (Bybit's markets).
    pub fn is_custom_push_freq(&self) -> (r: bool)
        ensures
            r == (*self is BybitLinear || *self is BybitInverse || *self is BybitSpot),
    {
        match self {
            Exchange::BybitLinear | Exchange::BybitInverse | Exchange::BybitSpot => true,
            _ => false,
        }
    }

    /// The push frequencies that this market accepts for order-book streams.
    pub fn allowed_push_freqs(&self) -> (v: Vec<PushFrequency>)
        ensures
            v@ == spec_allowed_push_freqs(*self),
    {
        let v = match self {
            Exchange::BybitLinear | Exchange::BybitInverse => vec![
                PushFrequency::Custom(Timeframe::MS100),
                PushFrequency::Custom(Timeframe::MS300),
            ],
            Exchange::BybitSpot => vec![
                PushFrequency::Custom(Timeframe::MS200),
                PushFrequency::Custom(Timeframe::MS300),
            ],
            _ => vec![PushFrequency::ServerDefault],
        };
        proof {
            assert(v@ =~= spec_allowed_push_freqs(*self));
        }
        v
    }

    /// Whether this market can stream order-book updates at interval `tf`.
    pub fn supports_heatmap_timeframe(&self, tf: Timeframe) -> (r: bool)
        ensures
            r == spec_supports_heatmap_timeframe(*self, tf),
    {
        match self {
            Exchange::BybitSpot => tf != Timeframe::MS100,
            Exchange::BybitLinear | Exchange::BybitInverse => tf != Timeframe::MS200,
            Exchange::HyperliquidLinear | Exchange::HyperliquidSpot => tf != Timeframe::MS100
                && tf != Timeframe::MS200 && tf != Timeframe::MS300,
            _ => true,
        }
    }

    /// Whether this market trades perpetual contracts.
    pub fn is_perps(&self) -> (r: bool)
        ensures
            r == spec_is_perps(*self),
    {
        match self {
            Exchange::AsterLinear | Exchange::BinanceLinear | Exchange::BinanceInverse
            | Exchange::BybitLinear | Exchange::BybitInverse | Exchange::HyperliquidLinear
            | Exchange::OkexLinear | Exchange::OkexInverse => true,
            _ => false,
        }
    }

    /// The human-readable name of the market ("Binance Linear", ...).
    pub fn to_display_name(&self) -> (s: String)
        ensures
            s@ == exchange_display_name(*self),
    {
        let n = match self {
            Exchange::AsterLinear => "Aster Linear",
            Exchange::BinanceLinear => "Binance Linear",
            Exchange::BinanceInverse => "Binance Inverse",
            Exchange::BinanceSpot => "Binance Spot",
            Exchange::BybitLinear => "Bybit Linear",
            Exchange::BybitInverse => "Bybit Inverse",
            Exchange::BybitSpot => "Bybit Spot",
            Exchange::HyperliquidLinear => "Hyperliquid Linear",
            Exchange::HyperliquidSpot => "Hyperliquid Spot",
            Exchange::OkexLinear => "Okex Linear",
            Exchange::OkexInverse => "Okex Inverse",
            Exchange::OkexSpot => "Okex Spot",
        };
        n.to_owned()
    }

    /// Reads a market from its human-readable name; any other text is an error
    /// carrying the message `Invalid exchange: <text>`.
    pub fn parse(s: &str) -> (r: Result<Exchange, String>)
        ensures
            match r {
                Ok(e) => parse_exchange_display_name(s@) == Some(e),
                Err(msg) => parse_exchange_display_name(s@) is None
                    && msg@ == "Invalid exchange: "@ + s@,
            },
    {
        if str_eq(s, "Aster Linear") { Ok(Exchange::AsterLinear) }
        else if str_eq(s, "Binance Linear") { Ok(Exchange::BinanceLinear) }
        else if str_eq(s, "Binance Inverse") { Ok(Exchange::BinanceInverse) }
        else if str_eq(s, "Binance Spot") { Ok(Exchange::BinanceSpot) }
        else if str_eq(s, "Bybit Linear") { Ok(Exchange::BybitLinear) }
        else if str_eq(s, "Bybit Inverse") { Ok(Exchange::BybitInverse) }
        else if str_eq(s, "Bybit Spot") { Ok(Exchange::BybitSpot) }
        else if str_eq(s, "Hyperliquid Linear") { Ok(Exchange::HyperliquidLinear) }
        else if str_eq(s, "Hyperliquid Spot") { Ok(Exchange::HyperliquidSpot) }
        else if str_eq(s, "Okex Linear") { Ok(Exchange::OkexLinear) }
        else if str_eq(s, "Okex Inverse") { Ok(Exchange::OkexInverse) }
        else if str_eq(s, "Okex Spot") { Ok(Exchange::OkexSpot) }
        else { Err(concat_str("Invalid exchange: ", s)) }
    }
}

/// Reading a market back from its human-readable name gives the market again.
pub proof fn lemma_display_name_round_trip(e: Exchange)
    ensures
        parse_exchange_display_name(exchange_display_name(e)) == Some(e),
{
    broadcast use vstd::string::group_string_axioms;
    reveal_strlit("Aster Linear");
    reveal_strlit("Binance Linear");
    reveal_strlit("Binance Inverse");
    reveal_strlit("Binance Spot");
    reveal_strlit("Bybit Linear");
    reveal_strlit("Bybit Inverse");
    reveal_strlit("Bybit Spot");
    reveal_strlit("Hyperliquid Linear");
    reveal_strlit("Hyperliquid Spot");
    reveal_strlit("Okex Linear");
    reveal_strlit("Okex Inverse");
    reveal_strlit("Okex Spot");
    assert("Aster Linear"@.len() == 12 && "Aster Linear"@[1] == 's');
    assert("Binance Linear"@.len() == 14 && "Binance Linear"@[1] == 'i');
    assert("Binance Inverse"@.len() == 15 && "Binance Inverse"@[1] == 'i');
    assert("Binance Spot"@.len() == 12 && "Binance Spot"@[1] == 'i');
    assert("Bybit Linear"@.len() == 12 && "Bybit Linear"@[1] == 'y');
    assert("Bybit Inverse"@.len() == 13 && "Bybit Inverse"@[1] == 'y');
    assert("Bybit Spot"@.len() == 10 && "Bybit Spot"@[1] == 'y');
    assert("Hyperliquid Linear"@.len() == 18 && "Hyperliquid Linear"@[1] == 'y');
    assert("Hyperliquid Spot"@.len() == 16 && "Hyperliquid Spot"@[1] == 'y');
    assert("Okex Linear"@.len() == 11 && "Okex Linear"@[1] == 'k');
    assert("Okex Inverse"@.len() == 12 && "Okex Inverse"@[1] == 'k');
    assert("Okex Spot"@.len() == 9 && "Okex Spot"@[1] == 'k');
    match e {
        Exchange::AsterLinear => {},
        Exchange::BinanceLinear => {},
        Exchange::BinanceInverse => {},
        Exchange::BinanceSpot => {},
        Exchange::BybitLinear => {},
        Exchange::BybitInverse => {},
        Exchange::BybitSpot => {},
        Exchange::HyperliquidLinear => {},
        Exchange::HyperliquidSpot => {},
        Exchange::OkexLinear => {},
        Exchange::OkexInverse => {},
        Exchange::OkexSpot => {},
    }
}

/// Reading a market back from its compact key gives the market again.
pub proof fn lemma_key_round_trip(e: Exchange)
    ensures
        parse_exchange_key(exchange_key(e)) == Some(e),
{
    broadcast use vstd::string::group_string_axioms;
    reveal_strlit("AsterLinear");
    reveal_strlit("BinanceLinear");
    reveal_strlit("BinanceInverse");
    reveal_strlit("BinanceSpot");
    reveal_strlit("BybitLinear");
    reveal_strlit("BybitInverse");
    reveal_strlit("BybitSpot");
    reveal_strlit("HyperliquidLinear");
    reveal_strlit("HyperliquidSpot");
    reveal_strlit("OkexLinear");
    reveal_strlit("OkexInverse");
    reveal_strlit("OkexSpot");
    assert("AsterLinear"@.len() == 11 && "AsterLinear"@[1] == 's');
    assert("BinanceLinear"@.len() == 13 && "BinanceLinear"@[1] == 'i');
    assert("BinanceInverse"@.len() == 14 && "BinanceInverse"@[1] == 'i');
    assert("BinanceSpot"@.len() == 11 && "BinanceSpot"@[1] == 'i');
    assert("BybitLinear"@.len() == 11 && "BybitLinear"@[1] == 'y');
    assert("BybitInverse"@.len() == 12 && "BybitInverse"@[1] == 'y');
    assert("BybitSpot"@.len() == 9 && "BybitSpot"@[1] == 'y');
    assert("HyperliquidLinear"@.len() == 17 && "HyperliquidLinear"@[1] == 'y');
    assert("HyperliquidSpot"@.len() == 15 && "HyperliquidSpot"@[1] == 'y');
    assert("OkexLinear"@.len() == 10 && "OkexLinear"@[1] == 'k');
    assert("OkexInverse"@.len() == 11 && "OkexInverse"@[1] == 'k');
    assert("OkexSpot"@.len() == 8 && "OkexSpot"@[1] == 'k');
    match e {
        Exchange::AsterLinear => {},
        Exchange::BinanceLinear => {},
        Exchange::BinanceInverse => {},
        Exchange::BinanceSpot => {},
        Exchange::BybitLinear => {},
        Exchange::BybitInverse => {},
        Exchange::BybitSpot => {},
        Exchange::HyperliquidLinear => {},
        Exchange::HyperliquidSpot => {},
        Exchange::OkexLinear => {},
        Exchange::OkexInverse => {},
        Exchange::OkexSpot => {},
    }
}

/// The family of venues an exchange market belongs to.
#[derive(Debug, Clone, Copy, PartialEq, Eq, Hash, Structural)]
pub enum ExchangeInclusive {
    Aster,
    Bybit,
    Binance,
    Hyperliquid,
    Okex,
}

impl ExchangeInclusive {
    /// The venue family of a market.
    pub fn of(ex: Exchange) -> (r: Self)
        ensures
            r == (match ex {
                Exchange::AsterLinear => ExchangeInclusive::Aster,
                Exchange::BybitLinear | Exchange::BybitInverse | Exchange::BybitSpot => ExchangeInclusive::Bybit,
                Exchange::BinanceLinear | Exchange::BinanceInverse | Exchange::BinanceSpot => ExchangeInclusive::Binance,
                Exchange::HyperliquidLinear | Exchange::HyperliquidSpot => ExchangeInclusive::Hyperliquid,
                Exchange::OkexLinear | Exchange::OkexInverse | Exchange::OkexSpot => ExchangeInclusive::Okex,
            }),
    {
        match ex {
            Exchange::AsterLinear => Self::Aster,
            Exchange::BybitLinear | Exchange::BybitInverse | Exchange::BybitSpot => Self::Bybit,
            Exchange::BinanceLinear | Exchange::BinanceInverse | Exchange::BinanceSpot => Self::Binance,
            Exchange::HyperliquidLinear | Exchange::HyperliquidSpot => Self::Hyperliquid,
            Exchange::OkexLinear | Exchange::OkexInverse | Exchange::OkexSpot => Self::Okex,
        }
    }
}

impl std::str::FromStr for Exchange {
    type Err = String;

    /// Reads a market from its human-readable name, as `Exchange::parse` does.
    fn from_str(s: &str) -> (r: Result<Self, Self::Err>)
        ensures
            match r {
                Ok(e) => parse_exchange_display_name(s@) == Some(e),
                Err(msg) => parse_exchange_display_name(s@) is None && msg@ == "Invalid exchange: "@ + s@,
            },
    {
        Exchange::parse(s)
    }
}

} // verus!
