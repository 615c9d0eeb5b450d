//! Decisions of the dashboard that do not depend on drawing: which of a pane's streams a
//! chart's request for more data is served from.

use vstd::prelude::*;
use crate::exchange::info::TickerInfo;
use crate::exchange::stream::{first_found, ResolvedStream, StreamKind};
use crate::exchange::venue::Exchange;

verus! {

/// A time range of data that a chart asks to have fetched, in milliseconds.
#[derive(Debug, Clone, Copy, PartialEq, Eq, Structural)]
pub enum FetchRange {
    /// Candles from the first time to the second.
    Kline(u64, u64),
    /// Open interest from the first time to the second.
    OpenInterest(u64, u64),
    /// Trades from the first time to the second.
    Trades(u64, u64),
}

/// What is fetched for a request.
#[derive(Debug, Clone, Copy)]
pub enum FetchPlan {
    /// Candles of a candle stream over a range.
    Klines { stream: StreamKind, from: u64, to: u64 },
    /// Open interest of the market of a candle stream over a range.
    OpenInterest { stream: StreamKind, from: u64, to: u64 },
    /// Trades of a ticker over a range, for its depth-and-trades stream.
    Trades { ticker_info: TickerInfo, stream: StreamKind, from: u64, to: u64 },
    /// Nothing is fetched.
    Nothing,
}

/// The live streams of a pane: none while they wait to be resolved.
pub open spec fn ready_streams_of(r: ResolvedStream) -> Seq<StreamKind> {
    match r {
        ResolvedStream::Ready(v) => v@,
        ResolvedStream::Waiting(_) => Seq::empty(),
    }
}

/// The first candle stream of `v`, if any.
pub open spec fn first_kline(v: Seq<StreamKind>) -> Option<StreamKind>
    decreases v.len(),
{
    if v.len() == 0 {
        None
    } else if v[0] is Kline {
        Some(v[0])
    } else {
        first_kline(v.drop_first())
    }
}

/// The first depth-and-trades stream of `v`, if any.
pub open spec fn first_depth(v: Seq<StreamKind>) -> Option<StreamKind>
    decreases v.len(),
{
    if v.len() == 0 {
        None
    } else if v[0] is DepthAndTrades {
        Some(v[0])
    } else {
        first_depth(v.drop_first())
    }
}

/// Whether trades of `exchange` can be fetched: only Binance markets offer them.
pub open spec fn trades_fetchable(exchange: Exchange) -> bool {
    exchange is BinanceSpot || exchange is BinanceLinear || exchange is BinanceInverse
}

/// What a request for `fetch` is served with, given the live streams `v` of the pane.
pub open spec fn spec_fetch_plan(v: Seq<StreamKind>, fetch: FetchRange) -> FetchPlan {
    match fetch {
        FetchRange::Kline(from, to) => match first_kline(v) {
            Some(stream) => FetchPlan::Klines { stream, from, to },
            None => FetchPlan::Nothing,
        },
        FetchRange::OpenInterest(from, to) => match first_kline(v) {
            Some(stream) => FetchPlan::OpenInterest { stream, from, to },
            None => FetchPlan::Nothing,
        },
        FetchRange::Trades(from, to) => match first_depth(v) {
            Some(stream) => {
                let ticker_info = stream->DepthAndTrades_ticker_info;
                if trades_fetchable(ticker_info.ticker.venue()) {
                    FetchPlan::Trades { ticker_info, stream, from, to }
                } else {
                    FetchPlan::Nothing
                }
            },
            None => FetchPlan::Nothing,
        },
    }
}

/// The candle stream itself, for a candle stream.
pub open spec fn kline_pick_spec(stream: StreamKind) -> Option<StreamKind> {
    if stream is Kline { Some(stream) } else { None }
}

/// The stream itself, for a depth-and-trades stream.
pub open spec fn depth_pick_spec(stream: StreamKind) -> Option<StreamKind> {
    if stream is DepthAndTrades { Some(stream) } else { None }
}

/// The candle stream itself, for a candle stream.
fn kline_pick(stream: &StreamKind) -> (r: Option<StreamKind>)
    ensures
        r == kline_pick_spec(*stream),
{
    match stream {
        StreamKind::Kline { .. } => Some(*stream),
        _ => None,
    }
}

/// The stream itself, for a depth-and-trades stream.
fn depth_pick(stream: &StreamKind) -> (r: Option<StreamKind>)
    ensures
        r == depth_pick_spec(*stream),
{
    match stream {
        StreamKind::DepthAndTrades { .. } => Some(*stream),
        _ => None,
    }
}

/// When every stream before `k` is not a candle stream and the one at `k` is, it is the first.
proof fn lemma_first_kline_at(v: Seq<StreamKind>, k: int)
    requires
        0 <= k < v.len(),
        v[k] is Kline,
        forall|j: int| 0 <= j < k ==> !(v[j] is Kline),
    ensures
        first_kline(v) == Some(v[k]),
    decreases k,
{
    if k > 0 {
        lemma_first_kline_at(v.drop_first(), k - 1);
    }
}

/// A sequence without candle streams has no first one.
proof fn lemma_first_kline_none(v: Seq<StreamKind>)
    requires
        forall|j: int| 0 <= j < v.len() ==> !(v[j] is Kline),
    ensures
        first_kline(v) is None,
    decreases v.len(),
{
    if v.len() > 0 {
        lemma_first_kline_none(v.drop_first());
    }
}

/// When every stream before `k` is not a depth stream and the one at `k` is, it is the first.
proof fn lemma_first_depth_at(v: Seq<StreamKind>, k: int)
    requires
        0 <= k < v.len(),
        v[k] is DepthAndTrades,
        forall|j: int| 0 <= j < k ==> !(v[j] is DepthAndTrades),
    ensures
        first_depth(v) == Some(v[k]),
    decreases k,
{
    if k > 0 {
        lemma_first_depth_at(v.drop_first(), k - 1);
    }
}

/// A sequence without depth streams has no first one.
proof fn lemma_first_depth_none(v: Seq<StreamKind>)
    requires
        forall|j: int| 0 <= j < v.len() ==> !(v[j] is DepthAndTrades),
    ensures
        first_depth(v) is None,
    decreases v.len(),
{
    if v.len() > 0 {
        lemma_first_depth_none(v.drop_first());
    }
}

/// The first candle stream among the live streams of a pane.
fn find_kline_stream(streams: &ResolvedStream) -> (r: Option<StreamKind>)
    ensures
        r == first_kline(ready_streams_of(*streams)),
{
    let f = |s: &StreamKind| -> (r: Option<StreamKind>)
        ensures
            r == kline_pick_spec(*s),
        { kline_pick(s) };
    let r = streams.find_ready_map(f);
    proof {
        match streams {
            ResolvedStream::Ready(v) => match r {
                Some(x) => {
                    let k = choose|k: int| #[trigger] first_found(f, v@, k, x);
                    lemma_first_kline_at(v@, k);
                },
                None => lemma_first_kline_none(v@),
            },
            ResolvedStream::Waiting(_) => {},
        }
    }
    r
}

/// The first depth-and-trades stream among the live streams of a pane.
fn find_depth_stream(streams: &ResolvedStream) -> (r: Option<StreamKind>)
    ensures
        r == first_depth(ready_streams_of(*streams)),
        r matches Some(s) ==> s is DepthAndTrades,
{
    let f = |s: &StreamKind| -> (r: Option<StreamKind>)
        ensures
            r == depth_pick_spec(*s),
        { depth_pick(s) };
    let r = streams.find_ready_map(f);
    proof {
        match streams {
            ResolvedStream::Ready(v) => match r {
                Some(x) => {
                    let k = choose|k: int| #[trigger] first_found(f, v@, k, x);
                    lemma_first_depth_at(v@, k);
                },
                None => lemma_first_depth_none(v@),
            },
            ResolvedStream::Waiting(_) => {},
        }
    }
    r
}

/// What a pane with streams `streams` fetches for `fetch`: candles and open interest come
/// from its first candle stream, trades from its first depth-and-trades stream when that is
/// a Binance market; otherwise nothing.
pub fn fetch_plan(streams: &ResolvedStream, fetch: FetchRange) -> (p: FetchPlan)
    ensures
        p == spec_fetch_plan(ready_streams_of(*streams), fetch),
{
    match fetch {
        FetchRange::Kline(from, to) => {
            let found = find_kline_stream(streams);
            match found {
                Some(stream) => FetchPlan::Klines { stream, from, to },
                None => FetchPlan::Nothing,
            }
        },
        FetchRange::OpenInterest(from, to) => {
            let found = find_kline_stream(streams);
            match found {
                Some(stream) => FetchPlan::OpenInterest { stream, from, to },
                None => FetchPlan::Nothing,
            }
        },
        FetchRange::Trades(from, to) => match find_depth_stream(streams) {
            Some(stream) => match stream {
                StreamKind::DepthAndTrades { ticker_info, .. } => {
                    let exchange = ticker_info.exchange();
                    let fetchable = match exchange {
                        Exchange::BinanceSpot | Exchange::BinanceLinear | Exchange::BinanceInverse => true,
                        _ => false,
                    };
                    if fetchable {
                        FetchPlan::Trades { ticker_info, stream, from, to }
                    } else {
                        FetchPlan::Nothing
                    }
                },
                _ => FetchPlan::Nothing,
            },
            None => FetchPlan::Nothing,
        },
    }
}

} // verus!
