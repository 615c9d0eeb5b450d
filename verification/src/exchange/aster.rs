//! The market-data connection to Aster: the stream names subscribed to, how a received
//! message is told apart, and the decisions of the depth-and-trades connection and of the
//! candle connection as they react to what happens on the socket.

pub mod rest;

use vstd::prelude::*;
use crate::exchange::info::TickerInfo;
use crate::exchange::timeframe::{Timeframe, aster_interval, timeframe_to_interval};
use crate::exchange::venue::Exchange;
use crate::text::{concat_str, join_with, push_char, split_char, split_on};
use vstd::string::StringExecFns;

verus! {

/// Seconds to wait before connecting again after a failure.
pub const RECONNECT_DELAY_SECS: u64 = 5;

/// Seconds without a frame after which the connection is dropped.
pub const READ_TIMEOUT_SECS: u64 = 20;

/// `c` in lower case when it is an ASCII capital letter.
pub open spec fn ascii_lower_char(c: char) -> char {
    if 'A' <= c && c <= 'Z' {
        ((c as u32) + 32) as char
    } else {
        c
    }
}

/// `c` in upper case when it is an ASCII small letter.
pub open spec fn ascii_upper_char(c: char) -> char {
    if 'a' <= c && c <= 'z' {
        ((c as u32) - 32) as char
    } else {
        c
    }
}

/// `s` with its ASCII capital letters in lower case.
pub open spec fn ascii_lower(s: Seq<char>) -> Seq<char> {
    s.map_values(|c: char| ascii_lower_char(c))
}

/// `s` with its ASCII small letters in upper case.
pub open spec fn ascii_upper(s: Seq<char>) -> Seq<char> {
    s.map_values(|c: char| ascii_upper_char(c))
}

/// Every character of `s` is ASCII.
pub open spec fn all_ascii(s: Seq<char>) -> bool {
    forall|i: int| 0 <= i < s.len() ==> (s[i] as u32) < 128
}

/// `s` with its ASCII capital letters in lower case; for ASCII text, such as every
/// ticker symbol, this is its lower case.
pub fn to_ascii_lower(s: &str) -> (r: String)
    ensures
        r@ == ascii_lower(s@),
{
    let n = s.unicode_len();
    let mut r = String::new();
    let mut i: usize = 0;
    while i < n
        invariant
            n == s@.len(),
            i <= n,
            r@ == ascii_lower(s@.take(i as int)),
        decreases n - i,
    {
        let c = s.get_char(i);
        let l = if 'A' <= c && c <= 'Z' { ((c as u8) + 32) as char } else { c };
        proof {
            assert(l == ascii_lower_char(c));
            assert(ascii_lower(s@.take(i + 1)) =~= ascii_lower(s@.take(i as int)).push(l));
        }
        push_char(&mut r, l);
        i = i + 1;
    }
    proof {
        assert(s@.take(n as int) =~= s@);
    }
    r
}

/// Upper case of a text (`str::to_uppercase`), as Unicode defines it.
pub uninterp spec fn spec_unicode_upper(s: Seq<char>) -> Seq<char>;

/// `str::to_uppercase`: the text in upper case. For ASCII text this is its ASCII letters
/// turned to capitals, as the documentation of the ASCII case mapping says; the mapping of
/// other characters is left unstated.
#[verifier::external_body]
fn str_to_uppercase(s: &str) -> (r: String)
    ensures
        r@ == spec_unicode_upper(s@),
        all_ascii(s@) ==> r@ == ascii_upper(s@),
{
    s.to_uppercase()
}

/// Whether `a` and `b` are the same text up to the case of ASCII letters
/// (`str::eq_ignore_ascii_case`).
pub open spec fn same_ignoring_ascii_case(a: Seq<char>, b: Seq<char>) -> bool {
    a.len() == b.len() && forall|i: int| 0 <= i < a.len() ==> ascii_lower_char(a[i]) == ascii_lower_char(b[i])
}

/// Whether `a` and `b` are the same text up to the case of ASCII letters.
pub fn eq_ignore_ascii_case(a: &str, b: &str) -> (r: bool)
    ensures
        r == same_ignoring_ascii_case(a@, b@),
{
    let n = a.unicode_len();
    let m = b.unicode_len();
    if n != m {
        return false;
    }
    let mut i: usize = 0;
    while i < n
        invariant
            n == a@.len(),
            m == b@.len(),
            n == m,
            i <= n,
            forall|j: int| 0 <= j < i ==> ascii_lower_char(a@[j]) == ascii_lower_char(b@[j]),
        decreases n - i,
    {
        let x = a.get_char(i);
        let y = b.get_char(i);
        let lx = if 'A' <= x && x <= 'Z' { ((x as u8) + 32) as char } else { x };
        let ly = if 'A' <= y && y <= 'Z' { ((y as u8) + 32) as char } else { y };
        proof {
            assert(lx == ascii_lower_char(x));
            assert(ly == ascii_lower_char(y));
        }
        if lx != ly {
            return false;
        }
        i = i + 1;
    }
    true
}

/// The subscription path of the depth and trade streams of a symbol.
pub open spec fn market_stream_path_text(symbol: Seq<char>) -> Seq<char> {
    "/stream?streams="@ + ascii_lower(symbol) + "@depth/"@ + ascii_lower(symbol) + "@aggTrade"@
}

/// The subscription path of the depth and trade streams of a ticker.
pub fn market_stream_path(ticker_info: &TickerInfo) -> (path: String)
    ensures
        path@ == market_stream_path_text(ticker_info.ticker.symbol()),
{
    let (symbol, _) = ticker_info.ticker.to_full_symbol_and_type();
    let lower = to_ascii_lower(symbol.as_str());
    let mut path = concat_str("/stream?streams=", lower.as_str());
    path.append("@depth/");
    path.append(lower.as_str());
    path.append("@aggTrade");
    path
}

/// The candle stream names of `streams`, in order, skipping intervals the API lacks.
pub open spec fn kline_stream_names(streams: Seq<(TickerInfo, Timeframe)>) -> Seq<Seq<char>>
    decreases streams.len(),
{
    if streams.len() == 0 {
        Seq::empty()
    } else {
        let prev = kline_stream_names(streams.drop_last());
        let (info, tf) = streams.last();
        match aster_interval(tf) {
            Some(interval) => prev.push(ascii_lower(info.ticker.symbol()) + "@kline_"@ + interval),
            None => prev,
        }
    }
}

/// The subscription path of the candle streams of `streams`.
pub fn kline_stream_path(streams: &[(TickerInfo, Timeframe)]) -> (path: String)
    ensures
        path@ == "/stream?streams="@ + join_with(kline_stream_names(streams@), "/"@),
{
    let mut joined = String::new();
    let ghost mut names: Seq<Seq<char>> = Seq::empty();
    let mut any = false;
    let mut i: usize = 0;
    while i < streams.len()
        invariant
            i <= streams@.len(),
            names == kline_stream_names(streams@.take(i as int)),
            joined@ == join_with(names, "/"@),
            any == (names.len() > 0),
        decreases streams@.len() - i,
    {
        let (info, tf) = streams[i];
        proof {
            assert(streams@.take(i + 1).drop_last() =~= streams@.take(i as int));
            assert(streams@.take(i + 1).last() == streams@[i as int]);
        }
        match timeframe_to_interval(tf) {
            Some(interval) => {
                let (symbol, _) = info.ticker.to_full_symbol_and_type();
                let mut name = to_ascii_lower(symbol.as_str());
                name.append("@kline_");
                name.append(interval);
                if any {
                    joined.append("/");
                }
                joined.append(name.as_str());
                any = true;
                proof {
                    let before = names;
                    names = names.push(name@);
                    assert(names.drop_last() =~= before);
                    if before.len() == 0 {
                        assert(joined@ =~= join_with(names, "/"@));
                    }
                }
            },
            None => {},
        }
        i = i + 1;
    }
    proof {
        assert(streams@.take(i as int) =~= streams@);
    }
    concat_str("/stream?streams=", joined.as_str())
}

/// What a received message holds, going by its stream name.
#[derive(Debug, Clone, Copy, PartialEq, Eq, Structural)]
pub enum MessageKind {
    Depth,
    Trade,
    Kline,
    Unknown,
}

/// Whether `p` occurs in `s`.
pub open spec fn contains_text(s: Seq<char>, p: Seq<char>) -> bool {
    exists|i: int| 0 <= i && i + p.len() <= s.len() && #[trigger] s.subrange(i, i + p.len()) == p
}

/// The kind of a message on stream `name`: depth when the name holds `depth`, else a trade
/// when it holds `aggTrade`, else a candle when it holds `kline`.
pub open spec fn message_kind_of(name: Seq<char>) -> MessageKind {
    if contains_text(name, "depth"@) {
        MessageKind::Depth
    } else if contains_text(name, "aggTrade"@) {
        MessageKind::Trade
    } else if contains_text(name, "kline"@) {
        MessageKind::Kline
    } else {
        MessageKind::Unknown
    }
}

/// Whether `p` occurs in `s`.
fn contains_str(s: &str, p: &str) -> (r: bool)
    ensures
        r == contains_text(s@, p@),
{
    let n = s.unicode_len();
    let m = p.unicode_len();
    if m > n {
        proof {
            assert forall|i: int| 0 <= i && i + m <= n implies #[trigger] s@.subrange(i, i + m) != p@ by {}
        }
        return false;
    }
    let mut i: usize = 0;
    while i <= n - m
        invariant
            n == s@.len(),
            m == p@.len(),
            m <= n,
            i <= n - m + 1,
            forall|k: int| 0 <= k < i ==> #[trigger] s@.subrange(k, k + m) != p@,
        decreases n - m + 1 - i,
    {
        let mut k: usize = 0;
        let mut same = true;
        while k < m
            invariant
                n == s@.len(),
                m == p@.len(),
                i + m <= n,
                k <= m,
                same == (forall|j: int| 0 <= j < k ==> s@[i + j] == p@[j]),
            decreases m - k,
        {
            if s.get_char(i + k) != p.get_char(k) {
                same = false;
            }
            k = k + 1;
        }
        if same {
            proof {
                assert(s@.subrange(i as int, i + m) =~= p@);
            }
            return true;
        }
        proof {
            assert(s@.subrange(i as int, i + m) != p@) by {
                let j = choose|j: int| 0 <= j < m && s@[i + j] != p@[j];
                assert(s@.subrange(i as int, i + m)[j] == s@[i + j]);
            }
        }
        i = i + 1;
    }
    proof {
        assert forall|k: int| 0 <= k && k + m <= n implies #[trigger] s@.subrange(k, k + m) != p@ by {
            assert(k < i);
        }
    }
    false
}

/// The kind of a message on stream `name`.
pub fn message_kind(name: &str) -> (k: MessageKind)
    ensures
        k == message_kind_of(name@),
{
    if contains_str(name, "depth") {
        MessageKind::Depth
    } else if contains_str(name, "aggTrade") {
        MessageKind::Trade
    } else if contains_str(name, "kline") {
        MessageKind::Kline
    } else {
        MessageKind::Unknown
    }
}

/// The symbol a candle stream name carries: the text before the first `@`, in upper case.
pub fn kline_message_symbol(name: &str) -> (symbol: String)
    ensures
        symbol@ == spec_unicode_upper(split_on(name@, '@')[0]),
        all_ascii(split_on(name@, '@')[0]) ==> symbol@ == ascii_upper(split_on(name@, '@')[0]),
{
    let parts = split_char(name, '@');
    proof {
        crate::text::lemma_split_on_nonempty(name@, '@');
    }
    str_to_uppercase(parts[0].as_str())
}

/// The index of the first of `streams` whose ticker symbol is `symbol` up to ASCII case.
pub fn find_kline_stream(streams: &[(TickerInfo, Timeframe)], symbol: &str) -> (r: Option<usize>)
    ensures
        match r {
            Some(i) => {
                &&& i < streams@.len()
                &&& same_ignoring_ascii_case(streams@[i as int].0.ticker.symbol(), symbol@)
                &&& forall|j: int| 0 <= j < i ==> !same_ignoring_ascii_case(streams@[j].0.ticker.symbol(), symbol@)
            },
            None => forall|j: int| 0 <= j < streams@.len() ==> !same_ignoring_ascii_case(
                streams@[j].0.ticker.symbol(),
                symbol@,
            ),
        },
{
    let mut i: usize = 0;
    while i < streams.len()
        invariant
            i <= streams@.len(),
            forall|j: int| 0 <= j < i ==> !same_ignoring_ascii_case(streams@[j].0.ticker.symbol(), symbol@),
        decreases streams@.len() - i,
    {
        let (ticker_symbol, _) = streams[i].0.ticker.to_full_symbol_and_type();
        if eq_ignore_ascii_case(ticker_symbol.as_str(), symbol) {
            return Some(i);
        }
        i = i + 1;
    }
    None
}

/// What happened on a connection, as its driver reports it.
#[derive(Debug, Clone, PartialEq, Eq)]
pub enum SocketEvent {
    /// Opening the socket failed, with the error's text.
    ConnectFailed(String),
    /// The socket of the candle connection is open.
    Opened,
    /// The depth snapshot after opening arrived, with its last update id.
    SnapshotReceived(u64),
    /// Fetching the depth snapshot failed, with the error's text.
    SnapshotFailed(String),
    /// A depth update with the first and last update ids it covers.
    DepthUpdate { first_update_id: u64, final_update_id: u64 },
    /// Trades arrived.
    Trades,
    /// A candle arrived on the stream of the given symbol.
    Kline(String),
    /// A text frame could not be read, with the error's text.
    ParseFailed(String),
    /// The server pinged.
    Ping,
    /// The server closed the socket.
    Closed,
    /// Reading the socket failed, with the error's text.
    ReadFailed(String),
    /// No frame arrived for `READ_TIMEOUT_SECS` seconds.
    TimedOut,
    /// A frame of another kind arrived.
    OtherFrame,
}

/// What the driver is to do next.
#[derive(Debug, Clone, PartialEq, Eq)]
pub enum SocketAction {
    /// Report the connection as up.
    ReportConnected,
    /// Report the connection as down with the reason; when `retry_later`, wait
    /// `RECONNECT_DELAY_SECS` seconds before connecting again.
    ReportDisconnected { reason: String, retry_later: bool },
    /// Rebuild the local order book from the snapshot and report the connection as up.
    ApplySnapshot,
    /// Apply the update to the local order book, then send the book with the buffered
    /// trades, which are emptied, tagged with this last update id.
    ApplyUpdate(u64),
    /// Add the received trades to the buffer.
    BufferTrades,
    /// Send the candle on the stream at this index.
    SendKline(usize),
    /// Log the text of a frame that could not be read.
    LogParseError(String),
    /// Answer the ping.
    Pong,
    /// Nothing to do.
    Ignore,
}

/// The state of the depth-and-trades connection.
#[derive(Debug, Clone, Copy, PartialEq, Eq, Structural)]
pub struct MarketStreamState {
    /// Whether the socket is open and the book synchronised.
    pub connected: bool,
    /// The id of the last update applied to the book.
    pub last_update_id: u64,
}

/// The state of a connection that has not connected yet.
pub fn market_stream_start() -> (s: MarketStreamState)
    ensures
        !s.connected,
        s.last_update_id == 0,
{
    MarketStreamState { connected: false, last_update_id: 0 }
}

/// Whether an update covering ids `first..=last` follows a book at `last_update_id`: it
/// starts no later than the next id and ends after the book.
pub open spec fn update_follows(last_update_id: u64, first: u64, last: u64) -> bool {
    first <= last_update_id + 1 && last > last_update_id
}

/// The state of the depth-and-trades connection after `event`: a snapshot brings it up at
/// the snapshot's update id; an update that follows the book moves it to the update's last
/// id, and one that does not breaks the sequence and takes it down; failures to connect,
/// closes, read errors and timeouts take it down; anything else leaves it as it was.
pub open spec fn market_next_state(state: MarketStreamState, event: SocketEvent) -> MarketStreamState {
    let down = MarketStreamState { connected: false, ..state };
    match event {
        SocketEvent::SnapshotReceived(id) => MarketStreamState { connected: true, last_update_id: id },
        SocketEvent::DepthUpdate { first_update_id, final_update_id } => if update_follows(
            state.last_update_id,
            first_update_id,
            final_update_id,
        ) {
            MarketStreamState { last_update_id: final_update_id, ..state }
        } else {
            down
        },
        SocketEvent::ConnectFailed(_) | SocketEvent::SnapshotFailed(_) | SocketEvent::Closed
        | SocketEvent::ReadFailed(_) | SocketEvent::TimedOut => down,
        _ => state,
    }
}

/// `a` reports a disconnection for `reason`, retrying later or not.
pub open spec fn reports_down(a: SocketAction, reason: Seq<char>, retry: bool) -> bool {
    a matches SocketAction::ReportDisconnected { reason: r, retry_later } && r@ == reason && retry_later == retry
}

fn disconnected(reason: String, retry_later: bool) -> (a: SocketAction)
    ensures
        reports_down(a, reason@, retry_later),
{
    SocketAction::ReportDisconnected { reason, retry_later }
}

/// The reaction of the depth-and-trades connection to `event`: its next state, as
/// `market_next_state` gives it, and what to do. The book's update id must stay below the
/// largest `u64` when an update arrives.
pub fn market_stream_step(state: MarketStreamState, event: SocketEvent) -> (r: (MarketStreamState, SocketAction))
    requires
        event is DepthUpdate ==> state.last_update_id < u64::MAX,
    ensures
        r.0 == market_next_state(state, event),
        match event {
            SocketEvent::ConnectFailed(e) => reports_down(r.1, "WebSocket connection failed: "@ + e@, true),
            SocketEvent::SnapshotFailed(e) => reports_down(r.1, "Failed to fetch depth snapshot: "@ + e@, true),
            SocketEvent::SnapshotReceived(_) => r.1 is ApplySnapshot,
            SocketEvent::DepthUpdate { first_update_id, final_update_id } => if update_follows(
                state.last_update_id,
                first_update_id,
                final_update_id,
            ) {
                r.1 == SocketAction::ApplyUpdate(final_update_id)
            } else {
                reports_down(r.1, "Sequence break detected"@, false)
            },
            SocketEvent::Trades => r.1 is BufferTrades,
            SocketEvent::ParseFailed(e) => r.1 matches SocketAction::LogParseError(t) && t@ == e@,
            SocketEvent::Ping => r.1 is Pong,
            SocketEvent::Closed => reports_down(r.1, "Connection closed"@, false),
            SocketEvent::ReadFailed(e) => reports_down(r.1, "WebSocket error: "@ + e@, false),
            SocketEvent::TimedOut => reports_down(r.1, "Connection timeout"@, false),
            _ => r.1 is Ignore,
        },
{
    let down = MarketStreamState { connected: false, last_update_id: state.last_update_id };
    match event {
        SocketEvent::ConnectFailed(e) => (down, disconnected(concat_str("WebSocket connection failed: ", e.as_str()), true)),
        SocketEvent::SnapshotFailed(e) => (down, disconnected(concat_str("Failed to fetch depth snapshot: ", e.as_str()), true)),
        SocketEvent::SnapshotReceived(id) => (MarketStreamState { connected: true, last_update_id: id }, SocketAction::ApplySnapshot),
        SocketEvent::DepthUpdate { first_update_id, final_update_id } => {
            if first_update_id <= state.last_update_id + 1 && final_update_id > state.last_update_id {
                (
                    MarketStreamState { connected: state.connected, last_update_id: final_update_id },
                    SocketAction::ApplyUpdate(final_update_id),
                )
            } else {
                (down, disconnected("Sequence break detected".to_owned(), false))
            }
        },
        SocketEvent::Trades => (state, SocketAction::BufferTrades),
        SocketEvent::ParseFailed(e) => (state, SocketAction::LogParseError(e)),
        SocketEvent::Ping => (state, SocketAction::Pong),
        SocketEvent::Closed => (down, disconnected("Connection closed".to_owned(), false)),
        SocketEvent::ReadFailed(e) => (down, disconnected(concat_str("WebSocket error: ", e.as_str()), false)),
        SocketEvent::TimedOut => (down, disconnected("Connection timeout".to_owned(), false)),
        _ => (state, SocketAction::Ignore),
    }
}

/// While the depth-and-trades connection stays up, the update id of its book only grows:
/// every update it applies ends after the book, and an update that does not follow the
/// book takes the connection down.
pub proof fn lemma_update_ids_grow(state: MarketStreamState, first: u64, last: u64)
    ensures
        ({
            let next = market_next_state(state, SocketEvent::DepthUpdate { first_update_id: first, final_update_id: last });
            &&& next.connected ==> state.connected && next.last_update_id > state.last_update_id
            &&& !update_follows(state.last_update_id, first, last) ==> !next.connected
        }),
{
}

/// The reaction of the candle connection of `streams` to `event`, with whether it is up
/// afterwards: an opened socket is reported; a candle is sent on the first stream whose
/// symbol matches, or ignored; failures, closes and timeouts take it down, and only a
/// failure to connect waits before retrying.
pub fn kline_stream_step(streams: &[(TickerInfo, Timeframe)], connected: bool, event: SocketEvent) -> (r: (bool, SocketAction))
    ensures
        match event {
            SocketEvent::Opened => r.0 && r.1 is ReportConnected,
            SocketEvent::ConnectFailed(e) => !r.0 && reports_down(r.1, "WebSocket connection failed: "@ + e@, true),
            SocketEvent::Kline(symbol) => r.0 == connected && match find_first(streams@, symbol@) {
                Some(i) => r.1 == SocketAction::SendKline(i as usize),
                None => r.1 is Ignore,
            },
            SocketEvent::ParseFailed(e) => r.0 == connected && (r.1 matches SocketAction::LogParseError(t) && t@ == e@),
            SocketEvent::Ping => r.0 == connected && r.1 is Pong,
            SocketEvent::Closed => !r.0 && reports_down(r.1, "Connection closed"@, false),
            SocketEvent::ReadFailed(e) => !r.0 && reports_down(r.1, "WebSocket error: "@ + e@, false),
            SocketEvent::TimedOut => !r.0 && reports_down(r.1, "Connection timeout"@, false),
            _ => r.0 == connected && r.1 is Ignore,
        },
{
    match event {
        SocketEvent::Opened => (true, SocketAction::ReportConnected),
        SocketEvent::ConnectFailed(e) => (false, disconnected(concat_str("WebSocket connection failed: ", e.as_str()), true)),
        SocketEvent::Kline(symbol) => {
            let found = find_kline_stream(streams, symbol.as_str());
            proof {
                lemma_find_first(streams@, symbol@);
            }
            match found {
                Some(i) => (connected, SocketAction::SendKline(i)),
                None => (connected, SocketAction::Ignore),
            }
        },
        SocketEvent::ParseFailed(e) => (connected, SocketAction::LogParseError(e)),
        SocketEvent::Ping => (connected, SocketAction::Pong),
        SocketEvent::Closed => (false, disconnected("Connection closed".to_owned(), false)),
        SocketEvent::ReadFailed(e) => (false, disconnected(concat_str("WebSocket error: ", e.as_str()), false)),
        SocketEvent::TimedOut => (false, disconnected("Connection timeout".to_owned(), false)),
        _ => (connected, SocketAction::Ignore),
    }
}

/// The index of the first of `streams` whose ticker symbol is `symbol` up to ASCII case.
pub open spec fn find_first(streams: Seq<(TickerInfo, Timeframe)>, symbol: Seq<char>) -> Option<nat>
    decreases streams.len(),
{
    if streams.len() == 0 {
        None
    } else if same_ignoring_ascii_case(streams[0].0.ticker.symbol(), symbol) {
        Some(0)
    } else {
        match find_first(streams.drop_first(), symbol) {
            Some(i) => Some(i + 1),
            None => None,
        }
    }
}

proof fn lemma_find_first(s: Seq<(TickerInfo, Timeframe)>, symbol: Seq<char>)
    ensures
        match find_first(s, symbol) {
            Some(i) => {
                &&& i < s.len()
                &&& same_ignoring_ascii_case(s[i as int].0.ticker.symbol(), symbol)
                &&& forall|j: int| 0 <= j < i ==> !same_ignoring_ascii_case(s[j].0.ticker.symbol(), symbol)
            },
            None => forall|j: int| 0 <= j < s.len() ==> !same_ignoring_ascii_case(s[j].0.ticker.symbol(), symbol),
        },
    decreases s.len(),
{
    if s.len() > 0 {
        let d = s.drop_first();
        lemma_find_first(d, symbol);
        if !same_ignoring_ascii_case(s[0].0.ticker.symbol(), symbol) {
            match find_first(d, symbol) {
                Some(i) => {
                    assert(s[(i + 1) as int] == d[i as int]);
                    assert forall|j: int| 0 <= j < i + 1 implies !same_ignoring_ascii_case(s[j].0.ticker.symbol(), symbol) by {
                        if j > 0 {
                            assert(s[j] == d[j - 1]);
                        }
                    }
                },
                None => {
                    assert forall|j: int| 0 <= j < s.len() implies !same_ignoring_ascii_case(s[j].0.ticker.symbol(), symbol) by {
                        if j > 0 {
                            assert(s[j] == d[j - 1]);
                        }
                    }
                },
            }
        }
    }
}

/// The exchange market a candle connection reports, from its first stream; a connection
/// without streams does nothing.
pub fn kline_connection_exchange(streams: &[(TickerInfo, Timeframe)]) -> (r: Option<Exchange>)
    ensures
        streams@.len() == 0 ==> r is None,
        streams@.len() > 0 ==> r == Some(streams@[0].0.ticker.venue()),
{
    if streams.len() == 0 {
        None
    } else {
        Some(streams[0].0.ticker.exchange)
    }
}

} // verus!
