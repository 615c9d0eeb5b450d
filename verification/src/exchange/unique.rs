//! The set of distinct streams that the open panes use, and the subscriptions they make
//! up per exchange market.

use vstd::prelude::*;
use crate::exchange::info::TickerInfo;
use crate::exchange::stream::{StreamKind, StreamSpecs, StreamTicksize, stream_ticker_info};
use crate::exchange::timeframe::{PushFrequency, Timeframe};
use crate::exchange::venue::Exchange;

verus! {

/// Every exchange market, in the order subscriptions are listed.
pub open spec fn all_exchanges() -> Seq<Exchange> {
    seq![
        Exchange::AsterLinear,
        Exchange::BinanceLinear,
        Exchange::BinanceInverse,
        Exchange::BinanceSpot,
        Exchange::BybitLinear,
        Exchange::BybitInverse,
        Exchange::BybitSpot,
        Exchange::HyperliquidLinear,
        Exchange::HyperliquidSpot,
        Exchange::OkexLinear,
        Exchange::OkexInverse,
        Exchange::OkexSpot,
    ]
}

/// Every exchange market, in the order subscriptions are listed.
pub fn all_exchange_markets() -> (r: [Exchange; 12])
    ensures
        r@ == all_exchanges(),
{
    let r = [
        Exchange::AsterLinear,
        Exchange::BinanceLinear,
        Exchange::BinanceInverse,
        Exchange::BinanceSpot,
        Exchange::BybitLinear,
        Exchange::BybitInverse,
        Exchange::BybitSpot,
        Exchange::HyperliquidLinear,
        Exchange::HyperliquidSpot,
        Exchange::OkexLinear,
        Exchange::OkexInverse,
        Exchange::OkexSpot,
    ];
    proof {
        assert(r@ =~= all_exchanges());
    }
    r
}

/// The exchange market of a stream.
pub open spec fn stream_exchange(s: StreamKind) -> Exchange {
    stream_ticker_info(s).ticker.venue()
}

/// The order-book subscriptions of market `e` among `s`, in order.
pub open spec fn depth_of(s: Seq<StreamKind>, e: Exchange) -> Seq<(TickerInfo, StreamTicksize, PushFrequency)>
    decreases s.len(),
{
    if s.len() == 0 {
        Seq::empty()
    } else {
        let prev = depth_of(s.drop_last(), e);
        match s.last() {
            StreamKind::DepthAndTrades { ticker_info, depth_aggr, push_freq } => if stream_exchange(
                s.last(),
            ) == e {
                prev.push((ticker_info, depth_aggr, push_freq))
            } else {
                prev
            },
            StreamKind::Kline { .. } => prev,
        }
    }
}

/// The candle subscriptions of market `e` among `s`, in order.
pub open spec fn kline_of(s: Seq<StreamKind>, e: Exchange) -> Seq<(TickerInfo, Timeframe)>
    decreases s.len(),
{
    if s.len() == 0 {
        Seq::empty()
    } else {
        let prev = kline_of(s.drop_last(), e);
        match s.last() {
            StreamKind::Kline { ticker_info, timeframe } => if stream_exchange(s.last()) == e {
                prev.push((ticker_info, timeframe))
            } else {
                prev
            },
            StreamKind::DepthAndTrades { .. } => prev,
        }
    }
}

/// The order-book subscriptions of the markets `es` among `s`, market after market.
pub open spec fn depth_over(s: Seq<StreamKind>, es: Seq<Exchange>) -> Seq<(TickerInfo, StreamTicksize, PushFrequency)>
    decreases es.len(),
{
    if es.len() == 0 {
        Seq::empty()
    } else {
        depth_over(s, es.drop_last()) + depth_of(s, es.last())
    }
}

/// The candle subscriptions of the markets `es` among `s`, market after market.
pub open spec fn kline_over(s: Seq<StreamKind>, es: Seq<Exchange>) -> Seq<(TickerInfo, Timeframe)>
    decreases es.len(),
{
    if es.len() == 0 {
        Seq::empty()
    } else {
        kline_over(s, es.drop_last()) + kline_of(s, es.last())
    }
}

/// Whether some stream of `s` is on market `e`.
pub open spec fn uses_exchange(s: Seq<StreamKind>, e: Exchange) -> bool {
    exists|i: int| 0 <= i < s.len() && stream_exchange(#[trigger] s[i]) == e
}

/// The markets among `es` that some stream of `s` is on, in the order of `es`.
pub open spec fn used_exchanges(s: Seq<StreamKind>, es: Seq<Exchange>) -> Seq<Exchange>
    decreases es.len(),
{
    if es.len() == 0 {
        Seq::empty()
    } else if uses_exchange(s, es.last()) {
        used_exchanges(s, es.drop_last()).push(es.last())
    } else {
        used_exchanges(s, es.drop_last())
    }
}

/// Distinct streams, in the order they were first added.
pub struct UniqueStreams {
    streams: Vec<StreamKind>,
}

impl View for UniqueStreams {
    type V = Seq<StreamKind>;

    closed spec fn view(&self) -> Seq<StreamKind> {
        self.streams@
    }
}

/// `s` after adding each of `streams` in order, skipping those already there.
pub open spec fn add_each(s: Seq<StreamKind>, streams: Seq<StreamKind>) -> Seq<StreamKind>
    decreases streams.len(),
{
    if streams.len() == 0 {
        s
    } else {
        let prev = add_each(s, streams.drop_last());
        if prev.contains(streams.last()) {
            prev
        } else {
            prev.push(streams.last())
        }
    }
}

impl UniqueStreams {
    #[verifier::type_invariant]
    spec fn no_repeats(self) -> bool {
        self.streams@.no_duplicates()
    }

    /// No stream.
    pub fn new() -> (u: Self)
        ensures
            u@ == Seq::<StreamKind>::empty(),
    {
        Self { streams: Vec::new() }
    }

    /// The distinct streams among `streams`, in the order they first occur.
    pub fn from(streams: &[StreamKind]) -> (u: Self)
        ensures
            u@.no_duplicates(),
            u@.to_set() == streams@.to_set(),
            u@ == add_each(Seq::empty(), streams@),
    {
        let mut u = Self::new();
        u.extend(streams);
        proof {
            use_type_invariant(&u);
        }
        u
    }

    /// Whether `stream` is among the streams.
    pub fn contains(&self, stream: &StreamKind) -> (r: bool)
        ensures
            r == self@.contains(*stream),
    {
        let mut i: usize = 0;
        while i < self.streams.len()
            invariant
                i <= self.streams@.len(),
                forall|j: int| 0 <= j < i ==> self.streams@[j] != *stream,
            decreases self.streams@.len() - i,
        {
            if self.streams[i].same_as(stream) {
                return true;
            }
            i = i + 1;
        }
        false
    }

    /// Adds `stream` unless it is already there.
    pub fn add(&mut self, stream: StreamKind)
        ensures
            final(self)@ == (if old(self)@.contains(stream) {
                old(self)@
            } else {
                old(self)@.push(stream)
            }),
    {
        proof {
            use_type_invariant(&*self);
        }
        if !self.contains(&stream) {
            let mut streams = Vec::new();
            std::mem::swap(&mut streams, &mut self.streams);
            streams.push(stream);
            self.streams = streams;
        }
    }

    /// Adds each of `streams` in order, skipping those already there.
    pub fn extend(&mut self, streams: &[StreamKind])
        ensures
            final(self)@.to_set() == old(self)@.to_set().union(streams@.to_set()),
            final(self)@.take(old(self)@.len() as int) == old(self)@,
            final(self)@ == add_each(old(self)@, streams@),
    {
        let ghost start = self@;
        let mut i: usize = 0;
        while i < streams.len()
            invariant
                i <= streams@.len(),
                self@.to_set() == start.to_set().union(streams@.take(i as int).to_set()),
                self@.len() >= start.len(),
                self@.take(start.len() as int) == start,
                self@ == add_each(start, streams@.take(i as int)),
            decreases streams@.len() - i,
        {
            let ghost before = self@;
            self.add(streams[i]);
            proof {
                assert(streams@.take(i + 1) =~= streams@.take(i as int).push(streams@[i as int]));
                assert(streams@.take(i + 1).drop_last() =~= streams@.take(i as int));
                broadcast use vstd::seq_lib::group_seq_properties;
                assert(streams@.take(i + 1).to_set() =~= streams@.take(i as int).to_set().insert(streams@[i as int]));
                if !before.contains(streams@[i as int]) {
                    assert(self@.to_set() =~= before.to_set().insert(streams@[i as int]));
                    assert(self@.take(start.len() as int) =~= before.take(start.len() as int));
                } else {
                    assert(before.to_set().contains(streams@[i as int]));
                    assert(self@.to_set() =~= before.to_set().insert(streams@[i as int]));
                }
            }
            i = i + 1;
        }
        proof {
            assert(streams@.take(i as int) =~= streams@);
        }
    }

    /// The order-book subscriptions of one market, or of every market in turn.
    pub fn depth_streams(&self, exchange_filter: Option<Exchange>) -> (r: Vec<(TickerInfo, StreamTicksize, PushFrequency)>)
        ensures
            r@ == (match exchange_filter {
                Some(e) => depth_of(self@, e),
                None => depth_over(self@, all_exchanges()),
            }),
    {
        match exchange_filter {
            Some(e) => self.depth_of_exchange(e),
            None => {
                let all = all_exchange_markets();
                let mut r: Vec<(TickerInfo, StreamTicksize, PushFrequency)> = Vec::new();
                let mut k: usize = 0;
                while k < 12
                    invariant
                        k <= 12,
                        all@ == all_exchanges(),
                        r@ == depth_over(self@, all_exchanges().take(k as int)),
                    decreases 12 - k,
                {
                    let mut part = self.depth_of_exchange(all[k]);
                    proof {
                        assert(all_exchanges().take(k + 1).drop_last() =~= all_exchanges().take(k as int));
                    }
                    r.append(&mut part);
                    k = k + 1;
                }
                proof {
                    assert(all_exchanges().take(12) =~= all_exchanges());
                }
                r
            },
        }
    }

    /// The candle subscriptions of one market, or of every market in turn.
    pub fn kline_streams(&self, exchange_filter: Option<Exchange>) -> (r: Vec<(TickerInfo, Timeframe)>)
        ensures
            r@ == (match exchange_filter {
                Some(e) => kline_of(self@, e),
                None => kline_over(self@, all_exchanges()),
            }),
    {
        match exchange_filter {
            Some(e) => self.kline_of_exchange(e),
            None => {
                let all = all_exchange_markets();
                let mut r: Vec<(TickerInfo, Timeframe)> = Vec::new();
                let mut k: usize = 0;
                while k < 12
                    invariant
                        k <= 12,
                        all@ == all_exchanges(),
                        r@ == kline_over(self@, all_exchanges().take(k as int)),
                    decreases 12 - k,
                {
                    let mut part = self.kline_of_exchange(all[k]);
                    proof {
                        assert(all_exchanges().take(k + 1).drop_last() =~= all_exchanges().take(k as int));
                    }
                    r.append(&mut part);
                    k = k + 1;
                }
                proof {
                    assert(all_exchanges().take(12) =~= all_exchanges());
                }
                r
            },
        }
    }

    fn depth_of_exchange(&self, e: Exchange) -> (r: Vec<(TickerInfo, StreamTicksize, PushFrequency)>)
        ensures
            r@ == depth_of(self@, e),
    {
        let mut r: Vec<(TickerInfo, StreamTicksize, PushFrequency)> = Vec::new();
        let mut i: usize = 0;
        while i < self.streams.len()
            invariant
                i <= self.streams@.len(),
                r@ == depth_of(self.streams@.take(i as int), e),
            decreases self.streams@.len() - i,
        {
            let s = self.streams[i];
            proof {
                assert(self.streams@.take(i + 1).drop_last() =~= self.streams@.take(i as int));
            }
            match s {
                StreamKind::DepthAndTrades { ticker_info, depth_aggr, push_freq } => {
                    if ticker_info.exchange() == e {
                        r.push((ticker_info, depth_aggr, push_freq));
                    }
                },
                StreamKind::Kline { .. } => {},
            }
            i = i + 1;
        }
        proof {
            assert(self.streams@.take(i as int) =~= self.streams@);
        }
        r
    }

    fn kline_of_exchange(&self, e: Exchange) -> (r: Vec<(TickerInfo, Timeframe)>)
        ensures
            r@ == kline_of(self@, e),
    {
        let mut r: Vec<(TickerInfo, Timeframe)> = Vec::new();
        let mut i: usize = 0;
        while i < self.streams.len()
            invariant
                i <= self.streams@.len(),
                r@ == kline_of(self.streams@.take(i as int), e),
            decreases self.streams@.len() - i,
        {
            let s = self.streams[i];
            proof {
                assert(self.streams@.take(i + 1).drop_last() =~= self.streams@.take(i as int));
            }
            match s {
                StreamKind::Kline { ticker_info, timeframe } => {
                    if ticker_info.exchange() == e {
                        r.push((ticker_info, timeframe));
                    }
                },
                StreamKind::DepthAndTrades { .. } => {},
            }
            i = i + 1;
        }
        proof {
            assert(self.streams@.take(i as int) =~= self.streams@);
        }
        r
    }

    /// The subscriptions of one market, when some stream is on it.
    pub fn specs_for(&self, exchange: Exchange) -> (r: Option<StreamSpecs>)
        ensures
            match r {
                Some(specs) => uses_exchange(self@, exchange) && specs.depth@ == depth_of(self@, exchange)
                    && specs.kline@ == kline_of(self@, exchange),
                None => !uses_exchange(self@, exchange),
            },
    {
        let mut i: usize = 0;
        let mut found = false;
        while i < self.streams.len()
            invariant
                i <= self.streams@.len(),
                found == (exists|j: int| 0 <= j < i && stream_exchange(#[trigger] self.streams@[j]) == exchange),
            decreases self.streams@.len() - i,
        {
            let t = self.streams[i].ticker_info();
            if t.exchange() == exchange {
                found = true;
            }
            i = i + 1;
        }
        if !found {
            return None;
        }
        Some(StreamSpecs { depth: self.depth_of_exchange(exchange), kline: self.kline_of_exchange(exchange) })
    }

    /// The markets some stream is on, in the order subscriptions are listed, each with its
    /// subscriptions.
    pub fn combined_used(&self) -> (r: Vec<(Exchange, StreamSpecs)>)
        ensures
            r@.len() == used_exchanges(self@, all_exchanges()).len(),
            forall|i: int| 0 <= i < r@.len() ==> {
                &&& (#[trigger] r@[i]).0 == used_exchanges(self@, all_exchanges())[i]
                &&& r@[i].1.depth@ == depth_of(self@, r@[i].0)
                &&& r@[i].1.kline@ == kline_of(self@, r@[i].0)
            },
    {
        let all = all_exchange_markets();
        let mut r: Vec<(Exchange, StreamSpecs)> = Vec::new();
        let mut k: usize = 0;
        while k < 12
            invariant
                k <= 12,
                all@ == all_exchanges(),
                r@.len() == used_exchanges(self@, all_exchanges().take(k as int)).len(),
                forall|i: int| 0 <= i < r@.len() ==> {
                    &&& (#[trigger] r@[i]).0 == used_exchanges(self@, all_exchanges().take(k as int))[i]
                    &&& r@[i].1.depth@ == depth_of(self@, r@[i].0)
                    &&& r@[i].1.kline@ == kline_of(self@, r@[i].0)
                },
            decreases 12 - k,
        {
            proof {
                assert(all_exchanges().take(k + 1).drop_last() =~= all_exchanges().take(k as int));
                assert(all_exchanges().take(k + 1).last() == all[k as int]);
            }
            match self.specs_for(all[k]) {
                Some(specs) => {
                    r.push((all[k], specs));
                },
                None => {},
            }
            k = k + 1;
        }
        proof {
            assert(all_exchanges().take(12) =~= all_exchanges());
        }
        r
    }
}

impl Default for UniqueStreams {
    /// No stream.
    fn default() -> (u: Self)
        ensures
            u@ == Seq::<StreamKind>::empty(),
    {
        Self::new()
    }
}

} // verus!
