//! Market data streams: what the app subscribes to, and what it persists between runs.

use vstd::prelude::*;
use crate::exchange::info::{TickMultiplier, TickerInfo};
use crate::exchange::ticker::Ticker;
use crate::exchange::timeframe::{PushFrequency, Timeframe};
use crate::exchange::venue::{Exchange, MarketKind, spec_market_type};
use crate::text::concat_str;

verus! {

/// Where order-book aggregation by price happens.
#[derive(Debug, Clone, Copy, PartialEq, Eq, Hash, Structural)]
pub enum StreamTicksize {
    /// The exchange aggregates by this multiple of the tick size.
    ServerSide(TickMultiplier),
    /// The client aggregates.
    Client,
}

impl Default for StreamTicksize {
    fn default() -> (r: Self)
        ensures
            r == StreamTicksize::Client,
    {
        StreamTicksize::Client
    }
}

/// Aggregation assumed for persisted order-book streams that do not name one.
pub fn default_depth_aggr() -> (r: StreamTicksize)
    ensures
        r == StreamTicksize::Client,
{
    StreamTicksize::Client
}

/// Push frequency assumed for persisted order-book streams that do not name one.
pub fn default_push_freq() -> (r: PushFrequency)
    ensures
        r == PushFrequency::ServerDefault,
{
    PushFrequency::ServerDefault
}

/// A live market data stream of a ticker.
#[derive(Debug, Clone, Copy, PartialEq, Eq, Hash)]
pub enum StreamKind {
    /// Candles at an interval.
    Kline { ticker_info: TickerInfo, timeframe: Timeframe },
    /// Order-book updates and trades.
    DepthAndTrades { ticker_info: TickerInfo, depth_aggr: StreamTicksize, push_freq: PushFrequency },
}

/// The ticker metadata of a stream.
pub open spec fn stream_ticker_info(s: StreamKind) -> TickerInfo {
    match s {
        StreamKind::Kline { ticker_info, .. } => ticker_info,
        StreamKind::DepthAndTrades { ticker_info, .. } => ticker_info,
    }
}

impl StreamKind {
    /// The ticker metadata of the stream.
    pub fn ticker_info(&self) -> (t: TickerInfo)
        ensures
            t == stream_ticker_info(*self),
    {
        match self {
            StreamKind::Kline { ticker_info, .. } | StreamKind::DepthAndTrades { ticker_info, .. } => *ticker_info,
        }
    }

    /// The parts of an order-book stream; `None` for a candle stream.
    pub fn as_depth_stream(&self) -> (r: Option<(TickerInfo, StreamTicksize, PushFrequency)>)
        ensures
            r == (match *self {
                StreamKind::DepthAndTrades { ticker_info, depth_aggr, push_freq } => Some((ticker_info, depth_aggr, push_freq)),
                StreamKind::Kline { .. } => None,
            }),
    {
        match self {
            StreamKind::DepthAndTrades { ticker_info, depth_aggr, push_freq } => Some((*ticker_info, *depth_aggr, *push_freq)),
            _ => None,
        }
    }

    /// The parts of a candle stream; `None` for an order-book stream.
    pub fn as_kline_stream(&self) -> (r: Option<(TickerInfo, Timeframe)>)
        ensures
            r == (match *self {
                StreamKind::Kline { ticker_info, timeframe } => Some((ticker_info, timeframe)),
                StreamKind::DepthAndTrades { .. } => None,
            }),
    {
        match self {
            StreamKind::Kline { ticker_info, timeframe } => Some((*ticker_info, *timeframe)),
            _ => None,
        }
    }

    /// Whether two streams are identical.
    pub fn same_as(&self, other: &StreamKind) -> (r: bool)
        ensures
            r == (*self == *other),
    {
        match (self, other) {
            (
                StreamKind::Kline { ticker_info: a, timeframe: ta },
                StreamKind::Kline { ticker_info: b, timeframe: tb },
            ) => a.same_as(b) && *ta == *tb,
            (
                StreamKind::DepthAndTrades { ticker_info: a, depth_aggr: da, push_freq: pa },
                StreamKind::DepthAndTrades { ticker_info: b, depth_aggr: db, push_freq: pb },
            ) => a.same_as(b) && *da == *db && *pa == *pb,
            _ => false,
        }
    }
}

/// A persisted order-book stream: the ticker without its metadata.
#[derive(Debug, Clone, Copy, PartialEq)]
pub struct PersistDepth {
    pub ticker: Ticker,
    pub depth_aggr: StreamTicksize,
    pub push_freq: PushFrequency,
}

/// A persisted candle stream: the ticker without its metadata.
#[derive(Debug, Clone, Copy, PartialEq)]
pub struct PersistKline {
    pub ticker: Ticker,
    pub timeframe: Timeframe,
}

/// A stream as it is persisted between runs.
#[derive(Debug, Clone, Copy, PartialEq)]
pub enum PersistStreamKind {
    Kline(PersistKline),
    DepthAndTrades(PersistDepth),
}

/// The persisted form of a live stream.
pub open spec fn persist_of(s: StreamKind) -> PersistStreamKind {
    match s {
        StreamKind::Kline { ticker_info, timeframe } => PersistStreamKind::Kline(
            PersistKline { ticker: ticker_info.ticker, timeframe },
        ),
        StreamKind::DepthAndTrades { ticker_info, depth_aggr, push_freq } => PersistStreamKind::DepthAndTrades(
            PersistDepth { ticker: ticker_info.ticker, depth_aggr, push_freq },
        ),
    }
}

/// The ticker a persisted stream names.
pub open spec fn persisted_ticker(p: PersistStreamKind) -> Ticker {
    match p {
        PersistStreamKind::Kline(k) => k.ticker,
        PersistStreamKind::DepthAndTrades(d) => d.ticker,
    }
}

/// The live stream a persisted stream becomes with the given ticker metadata.
pub open spec fn stream_with_info(p: PersistStreamKind, ti: TickerInfo) -> StreamKind {
    match p {
        PersistStreamKind::Kline(k) => StreamKind::Kline { ticker_info: ti, timeframe: k.timeframe },
        PersistStreamKind::DepthAndTrades(d) => StreamKind::DepthAndTrades {
            ticker_info: ti,
            depth_aggr: d.depth_aggr,
            push_freq: d.push_freq,
        },
    }
}

impl PersistStreamKind {
    /// The persisted form of a live stream: its ticker and parameters, without metadata.
    pub fn from_stream(s: StreamKind) -> (p: Self)
        ensures
            p == persist_of(s),
    {
        match s {
            StreamKind::Kline { ticker_info, timeframe } => PersistStreamKind::Kline(
                PersistKline { ticker: ticker_info.ticker, timeframe },
            ),
            StreamKind::DepthAndTrades { ticker_info, depth_aggr, push_freq } => PersistStreamKind::DepthAndTrades(
                PersistDepth { ticker: ticker_info.ticker, depth_aggr, push_freq },
            ),
        }
    }

    /// The ticker the persisted stream names.
    pub fn ticker(&self) -> (t: Ticker)
        ensures
            t == persisted_ticker(*self),
    {
        match self {
            PersistStreamKind::Kline(k) => k.ticker,
            PersistStreamKind::DepthAndTrades(d) => d.ticker,
        }
    }

    /// Completes the persisted stream with looked-up ticker metadata. Without metadata the
    /// stream cannot be restored and the error names the ticker symbol.
    pub fn resolve(self, ticker_info: Option<TickerInfo>) -> (r: Result<StreamKind, String>)
        ensures
            match ticker_info {
                Some(ti) => r == Ok::<StreamKind, String>(stream_with_info(self, ti)),
                None => r matches Err(msg) && msg@ == "TickerInfo not found for "@ + persisted_ticker(self).symbol(),
            },
    {
        match ticker_info {
            Some(ti) => Ok(match self {
                PersistStreamKind::Kline(k) => StreamKind::Kline { ticker_info: ti, timeframe: k.timeframe },
                PersistStreamKind::DepthAndTrades(d) => StreamKind::DepthAndTrades {
                    ticker_info: ti,
                    depth_aggr: d.depth_aggr,
                    push_freq: d.push_freq,
                },
            }),
            None => {
                let symbol = self.ticker().as_str();
                Err(concat_str("TickerInfo not found for ", symbol.as_str()))
            },
        }
    }

    /// Restores the live stream, looking up the ticker metadata with `resolver`; the lookup
    /// is called once, with the persisted ticker, and the result is completed as by
    /// [`PersistStreamKind::resolve`].
    pub fn into_stream_kind<F>(self, resolver: F) -> (r: Result<StreamKind, String>)
        where
            F: FnOnce(&Ticker) -> Option<TickerInfo>,
        requires
            resolver.requires((&persisted_ticker(self),)),
        ensures
            exists|found: Option<TickerInfo>| {
                &&& resolver.ensures((&persisted_ticker(self),), found)
                &&& match found {
                    Some(ti) => r == Ok::<StreamKind, String>(stream_with_info(self, ti)),
                    None => r matches Err(msg) && msg@ == "TickerInfo not found for "@
                        + persisted_ticker(self).symbol(),
                }
            },
    {
        let ticker = self.ticker();
        let found = resolver(&ticker);
        self.resolve(found)
    }
}

impl From<StreamKind> for PersistStreamKind {
    fn from(s: StreamKind) -> (p: Self) {
        PersistStreamKind::from_stream(s)
    }
}

impl vstd::std_specs::convert::FromSpecImpl<StreamKind> for PersistStreamKind {
    open spec fn obeys_from_spec() -> bool {
        true
    }

    open spec fn from_spec(s: StreamKind) -> Self {
        persist_of(s)
    }
}

/// Restoring a persisted stream with the metadata of the stream it was made from gives that
/// stream back.
pub proof fn lemma_persist_restore_round_trip(s: StreamKind)
    ensures
        persisted_ticker(persist_of(s)) == stream_ticker_info(s).ticker,
        stream_with_info(persist_of(s), stream_ticker_info(s)) == s,
{
}

/// The streams of a pane: persisted ones still waiting for ticker metadata, or live ones.
#[derive(Debug, Clone, PartialEq)]
pub enum ResolvedStream {
    /// Streams that are persisted but need to be resolved before use.
    Waiting(Vec<PersistStreamKind>),
    /// Streams that are live and ready to use.
    Ready(Vec<StreamKind>),
}

/// `f` gives `Some(x)` for the stream at index `k` and may give `None` for every stream before it.
pub open spec fn first_found<F: Fn(&StreamKind) -> Option<T>, T>(f: F, v: Seq<StreamKind>, k: int, x: T) -> bool {
    &&& 0 <= k < v.len()
    &&& f.ensures((&v[k],), Some(x))
    &&& forall|j: int| 0 <= j < k ==> f.ensures((&v[j],), None::<T>)
}

impl ResolvedStream {
    /// Replaces the streams with the given live streams.
    pub fn rebuild_ready_from(&mut self, streams: &[StreamKind])
        ensures
            *final(self) matches ResolvedStream::Ready(v) && v@ == streams@,
    {
        let v = vstd::slice::slice_to_vec(streams);
        *self = ResolvedStream::Ready(v);
    }

    /// Whether the streams are live and include `stream`.
    pub fn matches_stream(&self, stream: &StreamKind) -> (r: bool)
        ensures
            r == (match self {
                ResolvedStream::Ready(v) => v@.contains(*stream),
                ResolvedStream::Waiting(_) => false,
            }),
    {
        match self {
            ResolvedStream::Ready(existing) => {
                let mut i: usize = 0;
                while i < existing.len()
                    invariant
                        *self == ResolvedStream::Ready(*existing),
                        i <= existing@.len(),
                        forall|j: int| 0 <= j < i ==> existing@[j] != *stream,
                    decreases existing@.len() - i,
                {
                    if existing[i].same_as(stream) {
                        proof {
                            assert(existing@[i as int] == *stream);
                        }
                        return true;
                    }
                    i = i + 1;
                }
                false
            },
            _ => false,
        }
    }

    /// An iterator over the live streams; `None` while they are waiting.
    pub fn ready_iter(&self) -> (r: Option<std::slice::Iter<'_, StreamKind>>)
        ensures
            r is Some == (self is Ready),
    {
        match self {
            ResolvedStream::Ready(streams) => Some(streams.iter()),
            _ => None,
        }
    }

    /// Mutable access to the live streams; `None` while they are waiting.
    pub fn ready_iter_mut(&mut self) -> (r: Option<&mut Vec<StreamKind>>)
        ensures
            match *old(self) {
                ResolvedStream::Ready(v) => r matches Some(m) && *m == v
                    && *final(self) == ResolvedStream::Ready(*final(m)),
                ResolvedStream::Waiting(_) => r is None && *final(self) == *old(self),
            },
    {
        match self {
            ResolvedStream::Ready(streams) => Some(streams),
            _ => None,
        }
    }

    /// The first `Some` that `f` gives for the live streams, in order; `None` while they are
    /// waiting or when `f` gives `None` for every stream.
    pub fn find_ready_map<F, T>(&self, f: F) -> (r: Option<T>)
        where
            F: Fn(&StreamKind) -> Option<T>,
        requires
            self matches ResolvedStream::Ready(v) ==> forall|i: int| 0 <= i < v@.len() ==> f.requires((&v@[i],)),
        ensures
            match self {
                ResolvedStream::Ready(v) => match r {
                    Some(x) => exists|k: int| #[trigger] first_found(f, v@, k, x),
                    None => forall|j: int| 0 <= j < v@.len() ==> f.ensures((&v@[j],), None::<T>),
                },
                ResolvedStream::Waiting(_) => r is None,
            },
    {
        match self {
            ResolvedStream::Ready(streams) => {
                let mut i: usize = 0;
                while i < streams.len()
                    invariant
                        *self == ResolvedStream::Ready(*streams),
                        i <= streams@.len(),
                        forall|j: int| 0 <= j < streams@.len() ==> f.requires((&streams@[j],)),
                        forall|j: int| 0 <= j < i ==> f.ensures((&streams@[j],), None::<T>),
                    decreases streams@.len() - i,
                {
                    let found = f(&streams[i]);
                    match found {
                        Some(x) => {
                            proof {
                                assert(first_found(f, streams@, i as int, x));
                                assert(exists|k: int| #[trigger] first_found(f, streams@, k, x));
                                assert(*self == ResolvedStream::Ready(*streams));
                                assert(match self {
                                    ResolvedStream::Ready(v) => v@ == streams@,
                                    ResolvedStream::Waiting(_) => false,
                                });
                                assert(match self {
                                    ResolvedStream::Ready(v) => first_found(f, v@, i as int, x),
                                    ResolvedStream::Waiting(_) => false,
                                });
                            }
                            return Some(x);
                        },
                        None => {},
                    }
                    i = i + 1;
                }
                None
            },
            _ => None,
        }
    }

    /// The persisted form of the streams: waiting streams as they are, live streams with
    /// their metadata dropped, in order.
    pub fn into_waiting(self) -> (r: Vec<PersistStreamKind>)
        ensures
            match self {
                ResolvedStream::Waiting(v) => r@ == v@,
                ResolvedStream::Ready(v) => r@ == v@.map_values(|s: StreamKind| persist_of(s)),
            },
    {
        match self {
            ResolvedStream::Waiting(streams) => streams,
            ResolvedStream::Ready(streams) => {
                let mut out: Vec<PersistStreamKind> = Vec::new();
                let mut i: usize = 0;
                while i < streams.len()
                    invariant
                        i <= streams@.len(),
                        out@ =~= streams@.take(i as int).map_values(|s: StreamKind| persist_of(s)),
                    decreases streams@.len() - i,
                {
                    out.push(PersistStreamKind::from_stream(streams[i]));
                    i = i + 1;
                }
                proof {
                    assert(streams@.take(streams@.len() as int) =~= streams@);
                }
                out
            },
        }
    }

    /// The persisted streams still waiting for metadata; `None` once they are live.
    pub fn waiting_to_resolve(&self) -> (r: Option<&[PersistStreamKind]>)
        ensures
            match self {
                ResolvedStream::Waiting(v) => r matches Some(s) && s@ == v@,
                ResolvedStream::Ready(_) => r is None,
            },
    {
        match self {
            ResolvedStream::Waiting(streams) => Some(streams.as_slice()),
            _ => None,
        }
    }

    /// A copy of the live streams; empty while they are waiting.
    pub fn ready_streams(&self) -> (r: Vec<StreamKind>)
        ensures
            match self {
                ResolvedStream::Ready(v) => r@ == v@,
                ResolvedStream::Waiting(_) => r@.len() == 0,
            },
    {
        match self {
            ResolvedStream::Ready(streams) => vstd::slice::slice_to_vec(streams.as_slice()),
            ResolvedStream::Waiting(_) => Vec::new(),
        }
    }
}

/// The connection parameters of a stream on an exchange market.
#[derive(Debug, Clone, Hash)]
pub struct StreamConfig<I> {
    pub id: I,
    pub market_type: MarketKind,
    pub tick_mltp: Option<TickMultiplier>,
    pub push_freq: PushFrequency,
}

impl<I> StreamConfig<I> {
    /// Connection parameters for a stream of `exchange`, with its market kind.
    pub fn new(id: I, exchange: Exchange, tick_mltp: Option<TickMultiplier>, push_freq: PushFrequency) -> (c: Self)
        ensures
            c.id == id,
            c.market_type == spec_market_type(exchange),
            c.tick_mltp == tick_mltp,
            c.push_freq == push_freq,
    {
        let market_type = exchange.market_type();
        Self { id, market_type, tick_mltp, push_freq }
    }
}

/// The depth and candle streams to subscribe to.
#[derive(Debug, Clone)]
pub struct StreamSpecs {
    pub depth: Vec<(TickerInfo, StreamTicksize, PushFrequency)>,
    pub kline: Vec<(TickerInfo, Timeframe)>,
}

impl Default for StreamSpecs {
    /// No streams.
    fn default() -> (s: Self)
        ensures
            s.depth@.len() == 0,
            s.kline@.len() == 0,
    {
        Self { depth: Vec::new(), kline: Vec::new() }
    }
}

} // verus!
