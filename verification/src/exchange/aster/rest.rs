//! The requests made to the REST API of Aster: which markets it serves, and the address of
//! each request, or why it cannot be made.

use vstd::prelude::*;
use crate::exchange::info::TickerInfo;
use crate::exchange::ticker::Ticker;
use crate::exchange::timeframe::{Timeframe, aster_interval, timeframe_debug_name, timeframe_to_interval};
use crate::exchange::venue::{Exchange, MarketKind, spec_market_type};
use crate::text::{concat_str, decimal, write_decimal};
use vstd::string::StringExecFns;

verus! {

/// The query that limits a request to a time range, or to the latest 500 entries without one.
pub open spec fn range_query(range: Option<(u64, u64)>) -> Seq<char> {
    match range {
        Some((start, end)) => "&startTime="@ + decimal(start as nat) + "&endTime="@ + decimal(end as nat),
        None => "&limit=500"@,
    }
}

/// Appends the query of `range` to `url`.
fn push_range_query(url: &mut String, range: Option<(u64, u64)>)
    ensures
        final(url)@ == old(url)@ + range_query(range),
{
    match range {
        Some((start, end)) => {
            url.append("&startTime=");
            write_decimal(url, start);
            url.append("&endTime=");
            write_decimal(url, end);
        },
        None => {
            url.append("&limit=500");
        },
    }
}

/// The exchange whose tickers are listed for `market`, or why none is.
pub fn exchange_info_market(market: MarketKind) -> (r: Result<Exchange, String>)
    ensures
        match market {
            MarketKind::Spot => r matches Err(m) && m@
                == "Aster DEX spot markets are not supported yet (API endpoint unclear)"@,
            MarketKind::LinearPerps => r == Ok::<Exchange, String>(Exchange::AsterLinear),
            MarketKind::InversePerps => r matches Err(m) && m@ == "Aster DEX does not support inverse perpetuals"@,
        },
{
    match market {
        MarketKind::Spot => Err("Aster DEX spot markets are not supported yet (API endpoint unclear)".to_owned()),
        MarketKind::LinearPerps => Ok(Exchange::AsterLinear),
        MarketKind::InversePerps => Err("Aster DEX does not support inverse perpetuals".to_owned()),
    }
}

/// The exchange whose daily statistics are fetched for `market`, or why none is.
pub fn ticker_stats_market(market: MarketKind) -> (r: Result<Exchange, String>)
    ensures
        match market {
            MarketKind::Spot => r matches Err(m) && m@ == "Aster DEX spot markets are not supported yet"@,
            MarketKind::LinearPerps => r == Ok::<Exchange, String>(Exchange::AsterLinear),
            MarketKind::InversePerps => r matches Err(m) && m@ == "Aster DEX does not support inverse perpetuals"@,
        },
{
    match market {
        MarketKind::Spot => Err("Aster DEX spot markets are not supported yet".to_owned()),
        MarketKind::LinearPerps => Ok(Exchange::AsterLinear),
        MarketKind::InversePerps => Err("Aster DEX does not support inverse perpetuals".to_owned()),
    }
}

/// Whether a listed symbol is open for trading.
pub fn is_trading(status: &str) -> (r: bool)
    ensures
        r == (status@ == "TRADING"@),
{
    crate::text::str_eq(status, "TRADING")
}

/// The address of a request for the candles of `ticker_info` at `timeframe`, over `range`
/// or the latest 500; an interval the API does not name, or a market other than linear
/// perpetuals, is refused.
pub fn klines_url(ticker_info: &TickerInfo, timeframe: Timeframe, range: Option<(u64, u64)>) -> (r: Result<String, String>)
    ensures
        match aster_interval(timeframe) {
            None => r matches Err(m) && m@ == "Unsupported timeframe: "@ + timeframe_debug_name(timeframe),
            Some(interval) => match spec_market_type(ticker_info.ticker.venue()) {
                MarketKind::Spot => r matches Err(m) && m@ == "Aster DEX spot markets are not supported yet"@,
                MarketKind::LinearPerps => r matches Ok(u) && u@ == "https://fapi.asterdex.com/fapi/v1/klines?symbol="@
                    + ticker_info.ticker.symbol() + "&interval="@ + interval + range_query(range),
                MarketKind::InversePerps => r matches Err(m) && m@ == "Unsupported market type"@,
            },
        },
{
    let interval = match timeframe_to_interval(timeframe) {
        Some(i) => i,
        None => return Err(concat_str("Unsupported timeframe: ", timeframe.debug_name())),
    };
    let (symbol, market) = ticker_info.ticker.to_full_symbol_and_type();
    match market {
        MarketKind::Spot => Err("Aster DEX spot markets are not supported yet".to_owned()),
        MarketKind::LinearPerps => {
            let mut url = concat_str("https://fapi.asterdex.com/fapi/v1/klines?symbol=", symbol.as_str());
            url.append("&interval=");
            url.append(interval);
            push_range_query(&mut url, range);
            Ok(url)
        },
        MarketKind::InversePerps => Err("Unsupported market type".to_owned()),
    }
}

/// The address of a request for the open interest history of `ticker` at `timeframe`,
/// over `range` or the latest 500; only Aster's linear perpetuals have one.
pub fn open_interest_url(ticker: &Ticker, range: Option<(u64, u64)>, timeframe: Timeframe) -> (r: Result<String, String>)
    ensures
        !(ticker.venue() is AsterLinear) ==> (r matches Err(m) && m@
            == "Open interest only available for linear perpetuals"@),
        ticker.venue() is AsterLinear ==> match aster_interval(timeframe) {
            None => r matches Err(m) && m@ == "Unsupported timeframe: "@ + timeframe_debug_name(timeframe),
            Some(period) => r matches Ok(u) && u@
                == "https://fapi.asterdex.com/futures/data/openInterestHist?symbol="@ + ticker.symbol()
                + "&period="@ + period + range_query(range),
        },
{
    match ticker.exchange {
        Exchange::AsterLinear => {},
        _ => return Err("Open interest only available for linear perpetuals".to_owned()),
    }
    let period = match timeframe_to_interval(timeframe) {
        Some(p) => p,
        None => return Err(concat_str("Unsupported timeframe: ", timeframe.debug_name())),
    };
    let (symbol, _) = ticker.to_full_symbol_and_type();
    let mut url = concat_str("https://fapi.asterdex.com/futures/data/openInterestHist?symbol=", symbol.as_str());
    url.append("&period=");
    url.append(period);
    push_range_query(&mut url, range);
    Ok(url)
}

/// The address of a request for the order-book snapshot of `symbol` in `market`, the 1000
/// best levels of each side; inverse perpetuals are refused.
pub fn depth_snapshot_url(symbol: &str, market: MarketKind) -> (r: Result<String, String>)
    ensures
        match market {
            MarketKind::Spot => r matches Ok(u) && u@ == "https://fapi.asterdex.com/api/v3/depth?symbol="@
                + symbol@ + "&limit=1000"@,
            MarketKind::LinearPerps => r matches Ok(u) && u@ == "https://fapi.asterdex.com/fapi/v1/depth?symbol="@
                + symbol@ + "&limit=1000"@,
            MarketKind::InversePerps => r matches Err(m) && m@ == "Unsupported market type"@,
        },
{
    match market {
        MarketKind::Spot => {
            let mut u = concat_str("https://fapi.asterdex.com/api/v3/depth?symbol=", symbol);
            u.append("&limit=1000");
            Ok(u)
        },
        MarketKind::LinearPerps => {
            let mut u = concat_str("https://fapi.asterdex.com/fapi/v1/depth?symbol=", symbol);
            u.append("&limit=1000");
            Ok(u)
        },
        MarketKind::InversePerps => Err("Unsupported market type".to_owned()),
    }
}

} // verus!
