//! Ticker metadata: tick and lot sizes as powers of ten, tick multipliers, supported symbols.

use vstd::prelude::*;
use crate::exchange::ticker::{Ticker, is_ascii_alphanumeric};
use crate::exchange::venue::{Exchange, MarketKind, spec_market_type};
use crate::text::write_decimal;

verus! {

/// `x` limited to the range `[lo, hi]`.
pub open spec fn clamp(x: int, lo: int, hi: int) -> int {
    if x < lo {
        lo
    } else if x > hi {
        hi
    } else {
        x
    }
}

/// A size expressed as a power of ten, `10^power`.
#[derive(Debug, Clone, Copy, PartialEq, Eq, Hash, Structural)]
pub struct Power10 {
    pub power: i8,
}

/// Power range of contract sizes.
pub const CONTRACT_SIZE_MIN_POWER: i8 = -1;
pub const CONTRACT_SIZE_MAX_POWER: i8 = 6;
/// Power range of minimal tick sizes.
pub const MIN_TICKSIZE_MIN_POWER: i8 = -8;
pub const MIN_TICKSIZE_MAX_POWER: i8 = 2;
/// Power range of minimal order quantities.
pub const MIN_QTY_MIN_POWER: i8 = -6;
pub const MIN_QTY_MAX_POWER: i8 = 8;

impl Power10 {
    /// The power of ten `power`, limited to `[min, max]`.
    pub fn new(power: i8, min: i8, max: i8) -> (p: Self)
        requires
            min <= max,
        ensures
            p.power == clamp(power as int, min as int, max as int),
    {
        let power = if power < min {
            min
        } else if power > max {
            max
        } else {
            power
        };
        Self { power }
    }
}

/// Metadata of a ticker: its minimal tick size, minimal quantity and contract size.
#[derive(Debug, Clone, Copy, PartialEq, Eq, Hash)]
pub struct TickerInfo {
    pub ticker: Ticker,
    pub min_ticksize: Power10,
    pub min_qty: Power10,
    pub contract_size: Option<Power10>,
}

impl TickerInfo {
    /// Ticker metadata from the powers of ten of its sizes, each limited to its range.
    pub fn with_powers(
        ticker: Ticker,
        min_ticksize_power: i8,
        min_qty_power: i8,
        contract_size_power: Option<i8>,
    ) -> (info: Self)
        ensures
            info.ticker == ticker,
            info.min_ticksize.power == clamp(min_ticksize_power as int, MIN_TICKSIZE_MIN_POWER as int, MIN_TICKSIZE_MAX_POWER as int),
            info.min_qty.power == clamp(min_qty_power as int, MIN_QTY_MIN_POWER as int, MIN_QTY_MAX_POWER as int),
            match contract_size_power {
                Some(p) => info.contract_size == Some(Power10 {
                    power: clamp(p as int, CONTRACT_SIZE_MIN_POWER as int, CONTRACT_SIZE_MAX_POWER as int) as i8,
                }),
                None => info.contract_size is None,
            },
    {
        let contract_size = match contract_size_power {
            Some(p) => Some(Power10::new(p, CONTRACT_SIZE_MIN_POWER, CONTRACT_SIZE_MAX_POWER)),
            None => None,
        };
        Self {
            ticker,
            min_ticksize: Power10::new(min_ticksize_power, MIN_TICKSIZE_MIN_POWER, MIN_TICKSIZE_MAX_POWER),
            min_qty: Power10::new(min_qty_power, MIN_QTY_MIN_POWER, MIN_QTY_MAX_POWER),
            contract_size,
        }
    }

    /// The market kind of the ticker's exchange.
    pub fn market_type(&self) -> (k: MarketKind)
        ensures
            k == spec_market_type(self.ticker.venue()),
    {
        self.ticker.market_type()
    }

    /// Whether the ticker trades perpetual contracts (linear or inverse).
    pub fn is_perps(&self) -> (r: bool)
        ensures
            r == (spec_market_type(self.ticker.venue()) is LinearPerps
                || spec_market_type(self.ticker.venue()) is InversePerps),
    {
        let market_type = self.ticker.market_type();
        market_type == MarketKind::LinearPerps || market_type == MarketKind::InversePerps
    }

    /// The exchange market of the ticker.
    pub fn exchange(&self) -> (e: Exchange)
        ensures
            e == self.ticker.venue(),
    {
        self.ticker.exchange
    }

    /// Whether two ticker metadata records are identical.
    pub fn same_as(&self, other: &TickerInfo) -> (r: bool)
        ensures
            r == (*self == *other),
    {
        self.ticker.same_as(&other.ticker) && self.min_ticksize == other.min_ticksize
            && self.min_qty == other.min_qty && self.contract_size == other.contract_size
    }
}

/// A multiple of the minimal tick size that prices are grouped by.
#[derive(Debug, Clone, Copy, PartialEq, Eq, Hash, Structural)]
pub struct TickMultiplier(pub u16);

/// The multipliers offered as presets.
pub open spec fn is_preset_multiplier(m: u16) -> bool {
    m == 1 || m == 2 || m == 5 || m == 10 || m == 25 || m == 50 || m == 100 || m == 200 || m == 500
}

impl TickMultiplier {
    /// Whether the multiplier is not one of the presets 1, 2, 5, 10, 25, 50, 100, 200, 500.
    pub fn is_custom(&self) -> (r: bool)
        ensures
            r == !is_preset_multiplier(self.0),
    {
        let all: [u16; 9] = [1, 2, 5, 10, 25, 50, 100, 200, 500];
        let mut i: usize = 0;
        while i < 9
            invariant
                i <= 9,
                all@ == seq![1u16, 2, 5, 10, 25, 50, 100, 200, 500],
                forall|j: int| 0 <= j < i ==> all@[j] != self.0,
            decreases 9 - i,
        {
            if all[i] == self.0 {
                return false;
            }
            i = i + 1;
        }
        proof {
            assert(all@[0] != self.0 && all@[1] != self.0 && all@[2] != self.0);
            assert(all@[3] != self.0 && all@[4] != self.0 && all@[5] != self.0);
            assert(all@[6] != self.0 && all@[7] != self.0 && all@[8] != self.0);
        }
        true
    }

    /// The label of the multiplier, such as `5x`.
    pub fn to_label(&self) -> (s: String)
        ensures
            s@ == crate::text::decimal(self.0 as nat).push('x'),
    {
        let mut s = String::new();
        write_decimal(&mut s, self.0 as u64);
        crate::text::push_char(&mut s, 'x');
        proof {
            assert(s@ =~= crate::text::decimal(self.0 as nat).push('x'));
        }
        s
    }
}

/// Whether a symbol consists only of ASCII letters, digits and `_`.
pub open spec fn spec_symbol_supported(symbol: Seq<char>) -> bool {
    forall|i: int| 0 <= i < symbol.len() ==> is_ascii_alphanumeric(#[trigger] symbol[i]) || symbol[i] == '_'
}

/// A symbol is supported exactly when each of its characters is an ASCII digit, an ASCII
/// letter of either case, or `_`; any other character makes it unsupported.
pub proof fn lemma_supported_symbol_characters(symbol: Seq<char>)
    ensures
        spec_symbol_supported(symbol) <==> forall|i: int| 0 <= i < symbol.len() ==> {
            let c = #[trigger] symbol[i];
            ('0' <= c && c <= '9') || ('A' <= c && c <= 'Z') || ('a' <= c && c <= 'z') || c == '_'
        },
        forall|i: int| 0 <= i < symbol.len() && symbol[i] == '_' && (forall|j: int| 0 <= j < symbol.len() && j != i ==> {
            let c = #[trigger] symbol[j];
            ('0' <= c && c <= '9') || ('A' <= c && c <= 'Z') || ('a' <= c && c <= 'z')
        }) ==> spec_symbol_supported(symbol),
{
}

/// Whether the app can track a symbol: it must consist of ASCII letters, digits and `_`.
/// The exchange and the logging flag do not change the answer.
pub fn is_symbol_supported(symbol: &str, exchange: Exchange, log: bool) -> (r: bool)
    ensures
        r == spec_symbol_supported(symbol@),
{
    let n = symbol.unicode_len();
    let mut i: usize = 0;
    while i < n
        invariant
            n == symbol@.len(),
            i <= n,
            forall|j: int| 0 <= j < i ==> is_ascii_alphanumeric(#[trigger] symbol@[j]) || symbol@[j] == '_',
        decreases n - i,
    {
        let c = symbol.get_char(i);
        let ok = ('0' <= c && c <= '9') || ('A' <= c && c <= 'Z') || ('a' <= c && c <= 'z') || c == '_';
        if !ok {
            return false;
        }
        i = i + 1;
    }
    true
}

} // verus!
