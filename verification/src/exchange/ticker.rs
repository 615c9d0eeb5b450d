//! Ticker symbols, their persisted string forms, and ticker metadata.

use vstd::prelude::*;
use crate::exchange::venue::{
    Exchange, MarketKind, exchange_key, market_kind_debug_name, parse_exchange_key, spec_market_type,
};
use crate::text::{concat_str, decimal, push_char, str_eq, write_decimal};
use vstd::string::{StringExecFns, StringSliceAdditionalSpecFns};

verus! {

broadcast use vstd::string::group_string_axioms;

/// Longest symbol a ticker can hold, in bytes.
pub const TICKER_MAX_LEN: usize = 28;

/// A character allowed in a ticker symbol: printable ASCII other than `:` and `|`.
pub open spec fn is_symbol_char(c: char) -> bool {
    '!' <= c && c <= '~' && c != ':' && c != '|'
}

/// Text that a ticker can hold as its symbol or display symbol.
pub open spec fn valid_symbol_text(s: Seq<char>) -> bool {
    &&& s.len() <= TICKER_MAX_LEN
    &&& forall|i: int| 0 <= i < s.len() ==> is_symbol_char(#[trigger] s[i])
}

/// The fixed-size, zero-padded byte form of a symbol.
pub open spec fn encode_symbol(s: Seq<char>) -> Seq<u8> {
    Seq::new(TICKER_MAX_LEN as nat, |i: int| if i < s.len() { s[i] as u8 } else { 0u8 })
}

/// Index of the first zero byte at or after `i`, or the length when there is none.
pub open spec fn first_zero(b: Seq<u8>, i: nat) -> nat
    decreases b.len() - i,
{
    if i >= b.len() {
        b.len()
    } else if b[i as int] == 0 {
        i
    } else {
        first_zero(b, i + 1)
    }
}

/// The text held by a zero-padded byte form: the bytes before the first zero.
pub open spec fn stored_text(b: Seq<u8>) -> Seq<char> {
    b.take(first_zero(b, 0) as int).map_values(|x: u8| x as char)
}

proof fn lemma_first_zero_bound(b: Seq<u8>, i: nat)
    ensures
        i <= b.len() ==> i <= first_zero(b, i) <= b.len(),
        first_zero(b, i) <= b.len() || i > b.len(),
    decreases b.len() - i,
{
    if i < b.len() && b[i as int] != 0 {
        lemma_first_zero_bound(b, i + 1);
    }
}

proof fn lemma_first_zero_of_encoding(s: Seq<char>, i: nat)
    requires
        valid_symbol_text(s),
        i <= s.len(),
    ensures
        first_zero(encode_symbol(s), i) == s.len(),
    decreases s.len() - i,
{
    let b = encode_symbol(s);
    if i < s.len() {
        assert(is_symbol_char(s[i as int]));
        assert(b[i as int] == s[i as int] as u8);
        lemma_first_zero_of_encoding(s, i + 1);
    } else {
        if s.len() < TICKER_MAX_LEN {
            assert(b[i as int] == 0);
        }
    }
}

/// The byte form of a valid symbol holds that symbol.
pub proof fn lemma_encoding_round_trip(s: Seq<char>)
    requires
        valid_symbol_text(s),
    ensures
        stored_text(encode_symbol(s)) == s,
{
    lemma_first_zero_of_encoding(s, 0);
    let t = stored_text(encode_symbol(s));
    assert forall|i: int| 0 <= i < s.len() implies t[i] == s[i] by {
        assert(is_symbol_char(s[i]));
    }
    assert(t =~= s);
}

/// Byte form of a valid text.
fn encode_text(text: &str) -> (b: [u8; 28])
    requires
        valid_symbol_text(text@),
    ensures
        b@ == encode_symbol(text@),
{
    proof {
        assert(vstd::string::is_ascii(text)) by {
            assert forall|i: int| 0 <= i < text@.len() implies '\0' <= #[trigger] text@[i] <= '\u{7f}' by {
                assert(is_symbol_char(text@[i]));
            }
        }
        vstd::string::is_ascii_spec_bytes(text);
    }
    let bytes = text.as_bytes();
    let n = bytes.len();
    let mut out = [0u8; 28];
    let mut i: usize = 0;
    while i < n
        invariant
            n == bytes@.len(),
            n == text@.len(),
            n <= TICKER_MAX_LEN,
            i <= n,
            bytes@ == text.spec_bytes(),
            text.spec_bytes() =~= Seq::new(text@.len(), |j: int| text@[j] as u8),
            out@ =~= Seq::new(TICKER_MAX_LEN as nat, |j: int| if j < i { text@[j] as u8 } else { 0u8 }),
        decreases n - i,
    {
        out[i] = bytes[i];
        i = i + 1;
    }
    proof {
        assert(out@ =~= encode_symbol(text@));
    }
    out
}

/// The text held by a byte form.
fn decode_text(b: &[u8; 28]) -> (s: String)
    ensures
        s@ == stored_text(b@),
{
    let mut s = String::new();
    let mut i: usize = 0;
    proof {
        lemma_first_zero_bound(b@, 0);
    }
    while i < TICKER_MAX_LEN && b[i] != 0
        invariant
            b@.len() == TICKER_MAX_LEN,
            i <= TICKER_MAX_LEN,
            first_zero(b@, 0) == first_zero(b@, i as nat),
            s@ =~= b@.take(i as int).map_values(|x: u8| x as char),
        decreases TICKER_MAX_LEN - i,
    {
        push_char(&mut s, b[i] as char);
        i = i + 1;
        proof {
            assert(b@.take(i as int) =~= b@.take(i - 1).push(b@[i - 1]));
        }
    }
    proof {
        assert(first_zero(b@, i as nat) == i);
    }
    s
}

/// A ticker symbol on an exchange market, with an optional symbol for display.
#[derive(Clone, Copy, PartialEq, Eq, Hash, Debug)]
pub struct Ticker {
    pub bytes: [u8; 28],
    pub exchange: Exchange,
    pub display_bytes: [u8; 28],
    pub has_display_symbol: bool,
}

/// The symbol shown to users: the display symbol when there is one; Hyperliquid's linear
/// perpetual symbols get `USDT` appended.
pub open spec fn shown_symbol(t: Ticker) -> Seq<char> {
    match t.display() {
        Some(d) => d,
        None => if t.venue() is HyperliquidLinear {
            t.symbol() + "USDT"@
        } else {
            t.symbol()
        },
    }
}

/// How a ticker is debug-printed: its market key, the shown symbol with the stored one in
/// brackets when a display symbol differs from it, and the market kind.
pub open spec fn ticker_debug_text(t: Ticker) -> Seq<char> {
    let kind = market_kind_debug_name(spec_market_type(t.venue()));
    if t.display() is Some && t.symbol() != shown_symbol(t) {
        "Ticker("@ + exchange_key(t.venue()) + ":"@ + shown_symbol(t) + "["@ + t.symbol() + "], "@ + kind + ")"@
    } else {
        "Ticker("@ + exchange_key(t.venue()) + ":"@ + shown_symbol(t) + ", "@ + kind + ")"@
    }
}

impl Ticker {
    /// The exchange market of the ticker.
    pub open spec fn venue(self) -> Exchange {
        self.exchange
    }

    /// The symbol the ticker holds.
    pub open spec fn symbol(self) -> Seq<char> {
        stored_text(self.bytes@)
    }

    /// The display symbol the ticker holds, if it has one.
    pub open spec fn display(self) -> Option<Seq<char>> {
        if self.has_display_symbol {
            Some(stored_text(self.display_bytes@))
        } else {
            None
        }
    }

    /// A ticker as its constructor builds it: valid texts in canonical byte form.
    pub open spec fn wf(self) -> bool {
        &&& valid_symbol_text(stored_text(self.bytes@))
        &&& self.bytes@ == encode_symbol(stored_text(self.bytes@))
        &&& if self.has_display_symbol {
            &&& valid_symbol_text(stored_text(self.display_bytes@))
            &&& self.display_bytes@ == encode_symbol(stored_text(self.display_bytes@))
        } else {
            self.display_bytes@ == encode_symbol(Seq::empty())
        }
    }

    /// Two well-formed tickers with the same exchange, symbol and display symbol are equal.
    pub proof fn lemma_wf_determined(a: Ticker, b: Ticker)
        requires
            a.wf(),
            b.wf(),
            a.venue() == b.venue(),
            a.symbol() == b.symbol(),
            a.display() == b.display(),
        ensures
            a == b,
    {
        broadcast use vstd::array::group_array_axioms;
        assert(a.bytes@ == b.bytes@);
        assert(a.display_bytes@ == b.display_bytes@);
        assert(a.bytes == b.bytes);
        assert(a.display_bytes == b.display_bytes);
    }

    /// A ticker without a display symbol.
    pub fn new(ticker: &str, exchange: Exchange) -> (t: Self)
        requires
            valid_symbol_text(ticker@),
        ensures
            t.wf(),
            t.symbol() == ticker@,
            t.display() is None,
            t.venue() == exchange,
    {
        Self::new_with_display(ticker, exchange, None)
    }

    /// A ticker with an optional display symbol.
    pub fn new_with_display(ticker: &str, exchange: Exchange, display_symbol: Option<&str>) -> (t: Self)
        requires
            valid_symbol_text(ticker@),
            display_symbol matches Some(d) ==> valid_symbol_text(d@),
        ensures
            t.wf(),
            t.symbol() == ticker@,
            t.display() == (match display_symbol {
                Some(d) => Some(d@),
                None => None::<Seq<char>>,
            }),
            t.venue() == exchange,
    {
        let bytes = encode_text(ticker);
        proof {
            lemma_encoding_round_trip(ticker@);
        }
        let (display_bytes, has_display_symbol) = match display_symbol {
            Some(display) => {
                proof {
                    lemma_encoding_round_trip(display@);
                }
                (encode_text(display), true)
            },
            None => {
                let empty = [0u8; 28];
                proof {
                    assert(empty@ =~= encode_symbol(Seq::empty()));
                }
                (empty, false)
            },
        };
        Ticker { bytes, exchange, display_bytes, has_display_symbol }
    }

    /// The symbol as text.
    pub fn as_str(&self) -> (s: String)
        ensures
            s@ == self.symbol(),
    {
        decode_text(&self.bytes)
    }

    /// The display symbol when there is one, otherwise the symbol.
    pub fn display_as_str(&self) -> (s: String)
        ensures
            s@ == (match self.display() {
                Some(d) => d,
                None => self.symbol(),
            }),
    {
        if self.has_display_symbol {
            decode_text(&self.display_bytes)
        } else {
            self.as_str()
        }
    }

    /// The display symbol, if the ticker has one.
    pub fn display_symbol(&self) -> (r: Option<String>)
        ensures
            match r {
                Some(s) => self.display() == Some(s@),
                None => self.display() is None,
            },
    {
        if self.has_display_symbol {
            Some(self.display_as_str())
        } else {
            None
        }
    }

    /// The symbol and the market kind of the ticker's exchange.
    pub fn to_full_symbol_and_type(&self) -> (r: (String, MarketKind))
        ensures
            r.0@ == self.symbol(),
            r.1 == spec_market_type(self.venue()),
    {
        (self.as_str(), self.market_type())
    }

    /// The symbol to show users, and the market kind. A display symbol is shown when the
    /// ticker has one; Hyperliquid's linear perpetual symbols get `USDT` appended.
    pub fn display_symbol_and_type(&self) -> (r: (String, MarketKind))
        ensures
            r.0@ == shown_symbol(*self),
            r.1 == spec_market_type(self.venue()),
    {
        let market_kind = self.market_type();
        let result = if self.has_display_symbol {
            self.display_as_str()
        } else {
            let mut result = self.as_str();
            if matches!(self.exchange, Exchange::HyperliquidLinear) && market_kind == MarketKind::LinearPerps {
                result.append("USDT");
            }
            result
        };
        (result, market_kind)
    }

    /// The ticker as it is debug-printed.
    pub fn debug_text(&self) -> (s: String)
        ensures
            s@ == ticker_debug_text(*self),
    {
        let (sym, kind) = self.display_symbol_and_type();
        let internal = self.as_str();
        let mut s = concat_str("Ticker(", SerTicker::exchange_to_string(self.exchange));
        s.append(":");
        s.append(sym.as_str());
        if self.has_display_symbol && !str_eq(internal.as_str(), sym.as_str()) {
            s.append("[");
            s.append(internal.as_str());
            s.append("], ");
        } else {
            s.append(", ");
        }
        s.append(kind.debug_name());
        s.append(")");
        proof {
            let kname = market_kind_debug_name(spec_market_type(self.venue()));
            if self.display() is Some && self.symbol() != shown_symbol(*self) {
                assert(s@ =~= "Ticker("@ + exchange_key(self.venue()) + ":"@ + shown_symbol(*self) + "["@
                    + self.symbol() + "], "@ + kname + ")"@);
            } else {
                assert(s@ =~= "Ticker("@ + exchange_key(self.venue()) + ":"@ + shown_symbol(*self) + ", "@
                    + kname + ")"@);
            }
        }
        s
    }

    /// The market kind of the ticker's exchange.
    pub fn market_type(&self) -> (k: MarketKind)
        ensures
            k == spec_market_type(self.venue()),
    {
        self.exchange.market_type()
    }

    /// Whether two tickers are identical.
    pub fn same_as(&self, other: &Ticker) -> (r: bool)
        ensures
            r == (*self == *other),
    {
        broadcast use vstd::array::group_array_axioms;
        if self.exchange != other.exchange || self.has_display_symbol != other.has_display_symbol {
            return false;
        }
        let mut i: usize = 0;
        while i < TICKER_MAX_LEN
            invariant
                i <= TICKER_MAX_LEN,
                self.bytes@.len() == TICKER_MAX_LEN,
                other.bytes@.len() == TICKER_MAX_LEN,
                self.display_bytes@.len() == TICKER_MAX_LEN,
                other.display_bytes@.len() == TICKER_MAX_LEN,
                forall|j: int| 0 <= j < i ==> self.bytes@[j] == other.bytes@[j]
                    && self.display_bytes@[j] == other.display_bytes@[j],
            decreases TICKER_MAX_LEN - i,
        {
            if self.bytes[i] != other.bytes[i] || self.display_bytes[i] != other.display_bytes[i] {
                proof {
                    assert(self.bytes@[i as int] != other.bytes@[i as int]
                        || self.display_bytes@[i as int] != other.display_bytes@[i as int]);
                }
                return false;
            }
            i = i + 1;
        }
        proof {
            assert(self.bytes@ =~= other.bytes@);
            assert(self.display_bytes@ =~= other.display_bytes@);
            assert(self.bytes == other.bytes);
            assert(self.display_bytes == other.display_bytes);
        }
        true
    }
}


/// Index of the first occurrence of `c` in `s` at or after `from`.
pub open spec fn find_char(s: Seq<char>, c: char, from: nat) -> Option<nat>
    decreases s.len() - from,
{
    if from >= s.len() {
        None
    } else if s[from as int] == c {
        Some(from)
    } else {
        find_char(s, c, from + 1)
    }
}

/// The text before and after the first occurrence of `c`, if `c` occurs.
pub open spec fn split_once(s: Seq<char>, c: char) -> Option<(Seq<char>, Seq<char>)> {
    match find_char(s, c, 0) {
        Some(k) => Some((s.take(k as int), s.skip((k + 1) as int))),
        None => None,
    }
}

proof fn lemma_find_char_bounds(s: Seq<char>, c: char, from: nat)
    ensures
        find_char(s, c, from) matches Some(k) ==> from <= k < s.len() && s[k as int] == c,
    decreases s.len() - from,
{
    if from < s.len() && s[from as int] != c {
        lemma_find_char_bounds(s, c, from + 1);
    }
}

/// In `a + [c] + b`, where `a` does not hold `c`, the first `c` is the one after `a`.
pub proof fn lemma_find_char_after_prefix(a: Seq<char>, c: char, b: Seq<char>, from: nat)
    requires
        from <= a.len(),
        forall|i: int| 0 <= i < a.len() ==> a[i] != c,
    ensures
        find_char(a + seq![c] + b, c, from) == Some(a.len()),
    decreases a.len() - from,
{
    let s = a + seq![c] + b;
    if from < a.len() {
        assert(s[from as int] == a[from as int]);
        lemma_find_char_after_prefix(a, c, b, from + 1);
    } else {
        assert(s[from as int] == c);
    }
}

/// A text that does not hold `c` has no occurrence of it.
pub proof fn lemma_find_char_absent(s: Seq<char>, c: char, from: nat)
    requires
        forall|i: int| 0 <= i < s.len() ==> s[i] != c,
    ensures
        find_char(s, c, from) is None,
    decreases s.len() - from,
{
    if from < s.len() {
        lemma_find_char_absent(s, c, from + 1);
    }
}

/// Exec counterpart of [`find_char`] from the start of the text.
fn find_char_in(s: &str, c: char) -> (r: Option<usize>)
    ensures
        match r {
            Some(k) => find_char(s@, c, 0) == Some(k as nat),
            None => find_char(s@, c, 0) is None,
        },
{
    let n = s.unicode_len();
    let mut i: usize = 0;
    while i < n
        invariant
            n == s@.len(),
            i <= n,
            find_char(s@, c, 0) == find_char(s@, c, i as nat),
        decreases n - i,
    {
        if s.get_char(i) == c {
            return Some(i);
        }
        i = i + 1;
    }
    None
}

/// The ASCII letters and digits.
pub open spec fn is_ascii_alphanumeric(c: char) -> bool {
    ('0' <= c && c <= '9') || ('A' <= c && c <= 'Z') || ('a' <= c && c <= 'z')
}

/// Every character of a market's compact key is a letter.
pub proof fn lemma_exchange_key_alphanumeric(e: Exchange)
    ensures
        forall|i: int| 0 <= i < exchange_key(e).len() ==> is_ascii_alphanumeric(#[trigger] exchange_key(e)[i]),
        valid_symbol_text(exchange_key(e)),
{
    reveal_strlit("AsterLinear");
    reveal_strlit("BinanceLinear");
    reveal_strlit("BinanceInverse");
    reveal_strlit("BinanceSpot");
    reveal_strlit("BybitLinear");
    reveal_strlit("BybitInverse");
    reveal_strlit("BybitSpot");
    reveal_strlit("HyperliquidLinear");
    reveal_strlit("HyperliquidSpot");
    reveal_strlit("OkexLinear");
    reveal_strlit("OkexInverse");
    reveal_strlit("OkexSpot");
    let k = exchange_key(e);
    assert(k.len() <= 17);
    assert forall|i: int| 0 <= i < k.len() implies is_ascii_alphanumeric(#[trigger] k[i]) by {
        assert(k[i] == k[i]);
    }
    assert forall|i: int| 0 <= i < k.len() implies is_symbol_char(#[trigger] k[i]) by {
        assert(is_ascii_alphanumeric(k[i]));
    }
}

/// The persisted text of a ticker: `<key>:<symbol>`, followed by `|<display>` when there is a
/// display symbol.
pub open spec fn ticker_text(e: Exchange, symbol: Seq<char>, display: Option<Seq<char>>) -> Seq<char> {
    match display {
        Some(d) => exchange_key(e) + ":"@ + symbol + "|"@ + d,
        None => exchange_key(e) + ":"@ + symbol,
    }
}

/// Why a persisted ticker text could not be read.
pub enum TickerTextError {
    /// The text has no `:` separating market key and symbol.
    MissingSeparator,
    /// The market key is unknown; it carries the key.
    UnknownExchange(Seq<char>),
}

/// Reads a persisted ticker text into market, symbol and optional display symbol.
pub open spec fn parse_ticker_text(s: Seq<char>) -> Result<(Exchange, Seq<char>, Option<Seq<char>>), TickerTextError> {
    match split_once(s, ':') {
        None => Err(TickerTextError::MissingSeparator),
        Some((key, rest)) => match parse_exchange_key(key) {
            None => Err(TickerTextError::UnknownExchange(key)),
            Some(e) => match split_once(rest, '|') {
                Some((symbol, display)) => Ok((e, symbol, Some(display))),
                None => Ok((e, rest, None)),
            },
        },
    }
}

/// The texts a persisted ticker text names are ones a ticker can hold.
pub open spec fn ticker_text_has_valid_symbols(s: Seq<char>) -> bool {
    parse_ticker_text(s) matches Ok((e, symbol, display)) ==> {
        &&& valid_symbol_text(symbol)
        &&& display matches Some(d) ==> valid_symbol_text(d)
    }
}

/// Reading the persisted text of a well-formed ticker gives back its market, symbol and
/// display symbol.
pub proof fn lemma_ticker_text_round_trip(e: Exchange, symbol: Seq<char>, display: Option<Seq<char>>)
    requires
        valid_symbol_text(symbol),
        display matches Some(d) ==> valid_symbol_text(d),
    ensures
        parse_ticker_text(ticker_text(e, symbol, display)) == Ok::<_, TickerTextError>((e, symbol, display)),
{
    reveal_strlit(":");
    reveal_strlit("|");
    let key = exchange_key(e);
    lemma_exchange_key_alphanumeric(e);
    let rest = match display {
        Some(d) => symbol + "|"@ + d,
        None => symbol,
    };
    let s = ticker_text(e, symbol, display);
    assert(s =~= key + seq![':'] + rest);
    assert forall|i: int| 0 <= i < key.len() implies key[i] != ':' by {
        assert(is_ascii_alphanumeric(key[i]));
    }
    lemma_find_char_after_prefix(key, ':', rest, 0);
    assert((key + seq![':'] + rest).take(key.len() as int) =~= key);
    assert((key + seq![':'] + rest).skip((key.len() + 1) as int) =~= rest);
    lemma_key_round_trip_local(e);
    assert forall|i: int| 0 <= i < symbol.len() implies symbol[i] != '|' by {
        assert(is_symbol_char(symbol[i]));
    }
    match display {
        Some(d) => {
            assert(rest =~= symbol + seq!['|'] + d);
            lemma_find_char_after_prefix(symbol, '|', d, 0);
            assert((symbol + seq!['|'] + d).take(symbol.len() as int) =~= symbol);
            assert((symbol + seq!['|'] + d).skip((symbol.len() + 1) as int) =~= d);
        },
        None => {
            lemma_find_char_absent(symbol, '|', 0);
        },
    }
}

proof fn lemma_key_round_trip_local(e: Exchange)
    ensures
        parse_exchange_key(exchange_key(e)) == Some(e),
{
    crate::exchange::venue::lemma_key_round_trip(e);
}

impl Ticker {
    /// The persisted text of the ticker: `<key>:<symbol>` or `<key>:<symbol>|<display>`.
    pub fn to_ser_string(&self) -> (s: String)
        ensures
            s@ == ticker_text(self.venue(), self.symbol(), self.display()),
    {
        let mut s = SerTicker::exchange_to_string(self.exchange).to_owned();
        s.append(":");
        let symbol = self.as_str();
        s.append(symbol.as_str());
        if self.has_display_symbol {
            s.append("|");
            let display = decode_text(&self.display_bytes);
            s.append(display.as_str());
        }
        s
    }

    /// Reads a persisted ticker text. A text without `:` and one with an unknown market key are
    /// errors; texts whose symbols a ticker cannot hold are outside the contract.
    pub fn from_ser_string(s: &str) -> (r: Result<Ticker, String>)
        requires
            ticker_text_has_valid_symbols(s@),
        ensures
            match r {
                Ok(t) => t.wf() && parse_ticker_text(s@) == Ok::<_, TickerTextError>((t.venue(), t.symbol(), t.display())),
                Err(msg) => match parse_ticker_text(s@) {
                    Err(TickerTextError::MissingSeparator) => msg@ == "expected \"Exchange:Symbol\""@,
                    Err(TickerTextError::UnknownExchange(key)) => msg@ == "Unknown exchange: "@ + key,
                    Ok(_) => false,
                },
            },
    {
        let n = s.unicode_len();
        let colon = match find_char_in(s, ':') {
            Some(k) => k,
            None => return Err("expected \"Exchange:Symbol\"".to_owned()),
        };
        proof {
            lemma_find_char_bounds(s@, ':', 0);
        }
        let key = s.substring_char(0, colon);
        let rest = s.substring_char(colon + 1, n);
        let exchange = match SerTicker::string_to_exchange(key) {
            Ok(e) => e,
            Err(msg) => return Err(msg),
        };
        match find_char_in(rest, '|') {
            Some(bar) => {
                proof {
                    lemma_find_char_bounds(rest@, '|', 0);
                }
                let m = rest.unicode_len();
                let symbol = rest.substring_char(0, bar);
                let display = rest.substring_char(bar + 1, m);
                Ok(Ticker::new_with_display(symbol, exchange, Some(display)))
            },
            None => Ok(Ticker::new(rest, exchange)),
        }
    }
}

/// The code of the `i`-th character of a symbol in the older packed form: six bits of
/// `data`, ten characters to a word, lowest bits first.
pub open spec fn old_code(data: Seq<u64>, i: nat) -> u64 {
    (data[(i / 10) as int] >> (((i % 10) * 6) as u64)) & 0x3F
}

/// The character of a code of the older packed form: digits, capital letters and `_`.
pub open spec fn old_char(v: u64) -> Option<char> {
    if v <= 9 {
        Some(((48 + v) as u8) as char)
    } else if v <= 35 {
        Some(((65 + (v - 10)) as u8) as char)
    } else if v == 36 {
        Some('_')
    } else {
        None
    }
}

/// The first `n` characters of a symbol in the older packed form, or the first code that
/// stands for no character.
pub open spec fn decode_old(data: Seq<u64>, n: nat) -> Result<Seq<char>, u64>
    decreases n,
{
    if n == 0 {
        Ok(Seq::empty())
    } else {
        match decode_old(data, (n - 1) as nat) {
            Err(v) => Err(v),
            Ok(s) => match old_char(old_code(data, (n - 1) as nat)) {
                Some(c) => Ok(s.push(c)),
                None => Err(old_code(data, (n - 1) as nat)),
            },
        }
    }
}

/// Once a code stands for no character, the decoding of every longer prefix fails with it.
proof fn lemma_decode_old_error_stays(data: Seq<u64>, k: nat, n: nat)
    requires
        k <= n,
        decode_old(data, k) is Err,
    ensures
        decode_old(data, n) == decode_old(data, k),
    decreases n - k,
{
    if k < n {
        lemma_decode_old_error_stays(data, k, (n - 1) as nat);
    }
}

impl Ticker {
    /// Reads a ticker stored in the older packed form: at most twenty characters of six bits
    /// each, and the compact key of its market.
    pub fn from_old_packed(data: [u64; 2], len: u8, exchange: &str) -> (r: Result<Ticker, String>)
        ensures
            len > 20 ==> (r matches Err(m) && m@ == "old Ticker.len > 20"@),
            len <= 20 ==> match decode_old(data@, len as nat) {
                Err(v) => r matches Err(m) && m@ == "invalid old char code "@ + decimal(v as nat),
                Ok(symbol) => match parse_exchange_key(exchange@) {
                    None => r matches Err(m) && m@ == "Unknown exchange: "@ + exchange@,
                    Some(e) => r matches Ok(t) && t.wf() && t.symbol() == symbol && t.display() is None
                        && t.venue() == e,
                },
            },
    {
        if len > 20 {
            return Err("old Ticker.len > 20".to_owned());
        }
        let mut symbol = String::new();
        let mut i: usize = 0;
        while i < len as usize
            invariant
                i <= len,
                len <= 20,
                decode_old(data@, i as nat) == Ok::<Seq<char>, u64>(symbol@),
                symbol@.len() == i,
                forall|j: int| 0 <= j < symbol@.len() ==> is_symbol_char(#[trigger] symbol@[j]),
            decreases len - i,
        {
            let shift: u64 = ((i % 10) * 6) as u64;
            let v: u64 = (data[i / 10] >> shift) & 0x3F;
            proof {
                assert(v == old_code(data@, i as nat));
            }
            let ch = if v <= 9 {
                ((48 + v) as u8) as char
            } else if v <= 35 {
                ((65 + (v - 10)) as u8) as char
            } else if v == 36 {
                '_'
            } else {
                let mut m = "invalid old char code ".to_owned();
                write_decimal(&mut m, v);
                proof {
                    assert(decode_old(data@, (i + 1) as nat) == Err::<Seq<char>, u64>(v));
                    lemma_decode_old_error_stays(data@, (i + 1) as nat, len as nat);
                }
                return Err(m);
            };
            push_char(&mut symbol, ch);
            i = i + 1;
        }
        let e = match SerTicker::string_to_exchange(exchange) {
            Ok(e) => e,
            Err(m) => return Err(m),
        };
        Ok(Ticker::new(symbol.as_str(), e))
    }
}

/// A ticker keyed by its exchange market, as stored in maps of persisted state.
#[derive(Debug, Clone, Copy, PartialEq, Eq, Hash)]
pub struct SerTicker {
    pub exchange: Exchange,
    pub ticker: Ticker,
}

/// The persisted text of a keyed ticker: `<key>:<symbol>`.
pub open spec fn ser_ticker_text(e: Exchange, symbol: Seq<char>) -> Seq<char> {
    exchange_key(e) + ":"@ + symbol
}

/// Reads the persisted text of a keyed ticker: exactly one `:` separates a known market key
/// from the symbol. `None` marks a text of the wrong shape; `Some(Err(key))` an unknown key.
pub open spec fn parse_ser_ticker_text(s: Seq<char>) -> Option<Result<(Exchange, Seq<char>), Seq<char>>> {
    match find_char(s, ':', 0) {
        None => None,
        Some(k) => if find_char(s, ':', k + 1) is Some {
            None
        } else {
            match parse_exchange_key(s.take(k as int)) {
                None => Some(Err(s.take(k as int))),
                Some(e) => Some(Ok((e, s.skip((k + 1) as int)))),
            }
        },
    }
}

impl SerTicker {
    /// A keyed ticker for a symbol on `exchange`.
    pub fn new(exchange: Exchange, ticker_str: &str) -> (r: Self)
        requires
            valid_symbol_text(ticker_str@),
        ensures
            r.exchange == exchange,
            r.ticker.wf(),
            r.ticker.venue() == exchange,
            r.ticker.symbol() == ticker_str@,
            r.ticker.display() is None,
    {
        let ticker = Ticker::new(ticker_str, exchange);
        Self { exchange, ticker }
    }

    /// Pairs a ticker with a market of the same market kind.
    pub fn from_parts(exchange: Exchange, ticker: Ticker) -> (r: Self)
        requires
            spec_market_type(ticker.venue()) == spec_market_type(exchange),
        ensures
            r.exchange == exchange,
            r.ticker == ticker,
    {
        Self { exchange, ticker }
    }

    /// The compact key of a market ("BinanceLinear", ...).
    pub fn exchange_to_string(exchange: Exchange) -> (s: &'static str)
        ensures
            s@ == exchange_key(exchange),
    {
        match exchange {
            Exchange::AsterLinear => "AsterLinear",
            Exchange::BinanceLinear => "BinanceLinear",
            Exchange::BinanceInverse => "BinanceInverse",
            Exchange::BinanceSpot => "BinanceSpot",
            Exchange::BybitLinear => "BybitLinear",
            Exchange::BybitInverse => "BybitInverse",
            Exchange::BybitSpot => "BybitSpot",
            Exchange::HyperliquidLinear => "HyperliquidLinear",
            Exchange::HyperliquidSpot => "HyperliquidSpot",
            Exchange::OkexLinear => "OkexLinear",
            Exchange::OkexInverse => "OkexInverse",
            Exchange::OkexSpot => "OkexSpot",
        }
    }

    /// Reads a market from its compact key; any other text is an error with the message
    /// `Unknown exchange: <text>`.
    pub fn string_to_exchange(s: &str) -> (r: Result<Exchange, String>)
        ensures
            match r {
                Ok(e) => parse_exchange_key(s@) == Some(e),
                Err(msg) => parse_exchange_key(s@) is None && msg@ == "Unknown exchange: "@ + s@,
            },
    {
        if str_eq(s, "AsterLinear") { Ok(Exchange::AsterLinear) }
        else if str_eq(s, "BinanceLinear") { Ok(Exchange::BinanceLinear) }
        else if str_eq(s, "BinanceInverse") { Ok(Exchange::BinanceInverse) }
        else if str_eq(s, "BinanceSpot") { Ok(Exchange::BinanceSpot) }
        else if str_eq(s, "BybitLinear") { Ok(Exchange::BybitLinear) }
        else if str_eq(s, "BybitInverse") { Ok(Exchange::BybitInverse) }
        else if str_eq(s, "BybitSpot") { Ok(Exchange::BybitSpot) }
        else if str_eq(s, "HyperliquidLinear") { Ok(Exchange::HyperliquidLinear) }
        else if str_eq(s, "HyperliquidSpot") { Ok(Exchange::HyperliquidSpot) }
        else if str_eq(s, "OkexLinear") { Ok(Exchange::OkexLinear) }
        else if str_eq(s, "OkexInverse") { Ok(Exchange::OkexInverse) }
        else if str_eq(s, "OkexSpot") { Ok(Exchange::OkexSpot) }
        else { Err(concat_str("Unknown exchange: ", s)) }
    }

    /// The persisted text of the keyed ticker: `<key>:<symbol>`.
    pub fn to_ser_string(&self) -> (s: String)
        ensures
            s@ == ser_ticker_text(self.exchange, self.ticker.symbol()),
    {
        let mut s = Self::exchange_to_string(self.exchange).to_owned();
        s.append(":");
        let symbol = self.ticker.as_str();
        s.append(symbol.as_str());
        s
    }

    /// Reads the persisted text of a keyed ticker. A text that does not split into exactly two
    /// parts at `:` is an error naming the expected shape; an unknown key is an error naming the
    /// key; symbols a ticker cannot hold are outside the contract.
    pub fn from_ser_string(s: &str) -> (r: Result<SerTicker, String>)
        requires
            parse_ser_ticker_text(s@) matches Some(Ok((e, symbol))) ==> valid_symbol_text(symbol),
        ensures
            match r {
                Ok(t) => parse_ser_ticker_text(s@) == Some(Ok::<_, Seq<char>>((t.exchange, t.ticker.symbol())))
                    && t.ticker.wf() && t.ticker.venue() == t.exchange && t.ticker.display() is None,
                Err(msg) => match parse_ser_ticker_text(s@) {
                    None => msg@ == "Invalid ExchangeTicker format: expected 'Exchange:Ticker', got '"@ + s@ + "'"@,
                    Some(Err(key)) => msg@ == "Unknown exchange: "@ + key,
                    Some(Ok(_)) => false,
                },
            },
    {
        let n = s.unicode_len();
        let colon = match find_char_in(s, ':') {
            Some(k) => k,
            None => return Err(Self::format_error(s)),
        };
        proof {
            lemma_find_char_bounds(s@, ':', 0);
        }
        let rest = s.substring_char(colon + 1, n);
        if let Some(_) = find_char_in(rest, ':') {
            proof {
                lemma_find_char_shift(s@, ':', colon as nat + 1);
            }
            return Err(Self::format_error(s));
        }
        proof {
            lemma_find_char_shift(s@, ':', colon as nat + 1);
        }
        let key = s.substring_char(0, colon);
        let exchange = match Self::string_to_exchange(key) {
            Ok(e) => e,
            Err(msg) => return Err(msg),
        };
        Ok(SerTicker::new(exchange, rest))
    }

    fn format_error(s: &str) -> (msg: String)
        ensures
            msg@ == "Invalid ExchangeTicker format: expected 'Exchange:Ticker', got '"@ + s@ + "'"@,
    {
        let mut msg = "Invalid ExchangeTicker format: expected 'Exchange:Ticker', got '".to_owned();
        msg.append(s);
        msg.append("'");
        msg
    }
}

/// Searching a suffix of a text finds what searching the text from that point finds, shifted.
proof fn lemma_find_char_shift(s: Seq<char>, c: char, from: nat)
    requires
        from <= s.len(),
    ensures
        match find_char(s.skip(from as int), c, 0) {
            Some(k) => find_char(s, c, from) == Some(k + from),
            None => find_char(s, c, from) is None,
        },
{
    lemma_find_char_shift_at(s, c, from, 0);
}

proof fn lemma_find_char_shift_at(s: Seq<char>, c: char, from: nat, i: nat)
    requires
        from <= s.len(),
        i <= s.len() - from,
    ensures
        match find_char(s.skip(from as int), c, i) {
            Some(k) => find_char(s, c, from + i) == Some(k + from),
            None => find_char(s, c, from + i) is None,
        },
    decreases s.len() - from - i,
{
    let t = s.skip(from as int);
    if i < t.len() {
        assert(t[i as int] == s[(from + i) as int]);
        if t[i as int] != c {
            lemma_find_char_shift_at(s, c, from, i + 1);
        }
    }
}

/// Reading the persisted text of a keyed ticker gives back its market and symbol.
pub proof fn lemma_ser_ticker_text_round_trip(e: Exchange, symbol: Seq<char>)
    requires
        valid_symbol_text(symbol),
    ensures
        parse_ser_ticker_text(ser_ticker_text(e, symbol)) == Some(Ok::<_, Seq<char>>((e, symbol))),
{
    reveal_strlit(":");
    let key = exchange_key(e);
    lemma_exchange_key_alphanumeric(e);
    let s = ser_ticker_text(e, symbol);
    assert(s =~= key + seq![':'] + symbol);
    assert forall|i: int| 0 <= i < key.len() implies key[i] != ':' by {
        assert(is_ascii_alphanumeric(key[i]));
    }
    lemma_find_char_after_prefix(key, ':', symbol, 0);
    assert(s.take(key.len() as int) =~= key);
    assert(s.skip((key.len() + 1) as int) =~= symbol);
    assert forall|i: int| 0 <= i < symbol.len() implies symbol[i] != ':' by {
        assert(is_symbol_char(symbol[i]));
    }
    lemma_find_char_absent(symbol, ':', 0);
    lemma_find_char_shift(s, ':', key.len() + 1);
    lemma_key_round_trip_local(e);
}

} // verus!
