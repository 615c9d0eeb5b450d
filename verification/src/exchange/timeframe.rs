//! Candle and update intervals.

use vstd::prelude::*;
use crate::text::{decimal, write_decimal};

verus! {

/// An aggregation interval: sub-second intervals for heatmaps, minutes to a day for candles.
#[derive(Debug, Clone, Copy, PartialEq, Eq, Hash, PartialOrd, Ord, Structural)]
pub enum Timeframe {
    MS100,
    MS200,
    MS300,
    MS500,
    MS1000,
    M1,
    M3,
    M5,
    M15,
    M30,
    H1,
    H2,
    H4,
    H6,
    H12,
    D1,
}

/// Whether a timeframe is one of the candle intervals (one minute or longer).
pub open spec fn is_kline_timeframe(tf: Timeframe) -> bool {
    !(tf is MS100 || tf is MS200 || tf is MS300 || tf is MS500 || tf is MS1000)
}

/// Minutes spanned by a candle interval.
pub open spec fn spec_minutes(tf: Timeframe) -> nat {
    match tf {
        Timeframe::M1 => 1,
        Timeframe::M3 => 3,
        Timeframe::M5 => 5,
        Timeframe::M15 => 15,
        Timeframe::M30 => 30,
        Timeframe::H1 => 60,
        Timeframe::H2 => 120,
        Timeframe::H4 => 240,
        Timeframe::H6 => 360,
        Timeframe::H12 => 720,
        Timeframe::D1 => 1440,
        _ => 0,
    }
}

/// Milliseconds spanned by an interval.
pub open spec fn spec_milliseconds(tf: Timeframe) -> nat {
    match tf {
        Timeframe::MS100 => 100,
        Timeframe::MS200 => 200,
        Timeframe::MS300 => 300,
        Timeframe::MS500 => 500,
        Timeframe::MS1000 => 1000,
        _ => spec_minutes(tf) * 60_000,
    }
}

/// The short label of an interval, as shown to users ("100ms", "1m", "1d", ...).
pub open spec fn timeframe_label(tf: Timeframe) -> Seq<char> {
    match tf {
        Timeframe::MS100 => "100ms"@,
        Timeframe::MS200 => "200ms"@,
        Timeframe::MS300 => "300ms"@,
        Timeframe::MS500 => "500ms"@,
        Timeframe::MS1000 => "1s"@,
        Timeframe::M1 => "1m"@,
        Timeframe::M3 => "3m"@,
        Timeframe::M5 => "5m"@,
        Timeframe::M15 => "15m"@,
        Timeframe::M30 => "30m"@,
        Timeframe::H1 => "1h"@,
        Timeframe::H2 => "2h"@,
        Timeframe::H4 => "4h"@,
        Timeframe::H6 => "6h"@,
        Timeframe::H12 => "12h"@,
        Timeframe::D1 => "1d"@,
    }
}

/// The name of an interval as it is debug-printed: the name of its variant.
pub open spec fn timeframe_debug_name(tf: Timeframe) -> Seq<char> {
    match tf {
        Timeframe::MS100 => "MS100"@,
        Timeframe::MS200 => "MS200"@,
        Timeframe::MS300 => "MS300"@,
        Timeframe::MS500 => "MS500"@,
        Timeframe::MS1000 => "MS1000"@,
        Timeframe::M1 => "M1"@,
        Timeframe::M3 => "M3"@,
        Timeframe::M5 => "M5"@,
        Timeframe::M15 => "M15"@,
        Timeframe::M30 => "M30"@,
        Timeframe::H1 => "H1"@,
        Timeframe::H2 => "H2"@,
        Timeframe::H4 => "H4"@,
        Timeframe::H6 => "H6"@,
        Timeframe::H12 => "H12"@,
        Timeframe::D1 => "D1"@,
    }
}

/// The number of minutes a unit letter of a candle label stands for: `m` one, `h` sixty,
/// `d` a day's 1440; other letters none.
pub open spec fn unit_minutes(unit: char) -> nat {
    if unit == 'm' {
        1
    } else if unit == 'h' {
        60
    } else if unit == 'd' {
        1440
    } else {
        0
    }
}

/// An interval's length agrees with its label: a candle interval labelled `<n><unit>` spans
/// `n` minutes, hours or days, and every interval spans its minutes in milliseconds; a
/// sub-second interval labelled `<n>ms` spans `n` milliseconds, and the one labelled `1s`
/// a thousand.
pub proof fn lemma_lengths_match_labels(tf: Timeframe)
    ensures
        is_kline_timeframe(tf) ==> exists|n: nat, unit: char|
            #![trigger decimal(n).push(unit)]
            timeframe_label(tf) == decimal(n).push(unit) && unit_minutes(unit) > 0
                && spec_minutes(tf) == n * unit_minutes(unit),
        is_kline_timeframe(tf) ==> spec_milliseconds(tf) == spec_minutes(tf) * 60_000,
        !is_kline_timeframe(tf) ==> (timeframe_label(tf) == decimal(spec_milliseconds(tf)) + "ms"@
            || (timeframe_label(tf) == "1s"@ && spec_milliseconds(tf) == 1000)),
{
    reveal_with_fuel(decimal, 4);
    match tf {
        Timeframe::MS100 => {
            reveal_strlit("100ms");
            reveal_strlit("ms");
            assert(timeframe_label(tf) =~= decimal(100) + "ms"@);
        },
        Timeframe::MS200 => {
            reveal_strlit("200ms");
            reveal_strlit("ms");
            assert(timeframe_label(tf) =~= decimal(200) + "ms"@);
        },
        Timeframe::MS300 => {
            reveal_strlit("300ms");
            reveal_strlit("ms");
            assert(timeframe_label(tf) =~= decimal(300) + "ms"@);
        },
        Timeframe::MS500 => {
            reveal_strlit("500ms");
            reveal_strlit("ms");
            assert(timeframe_label(tf) =~= decimal(500) + "ms"@);
        },
        Timeframe::MS1000 => {},
        Timeframe::M1 => {
            reveal_strlit("1m");
            assert(timeframe_label(tf) =~= decimal(1).push('m'));
        },
        Timeframe::M3 => {
            reveal_strlit("3m");
            assert(timeframe_label(tf) =~= decimal(3).push('m'));
        },
        Timeframe::M5 => {
            reveal_strlit("5m");
            assert(timeframe_label(tf) =~= decimal(5).push('m'));
        },
        Timeframe::M15 => {
            reveal_strlit("15m");
            assert(timeframe_label(tf) =~= decimal(15).push('m'));
        },
        Timeframe::M30 => {
            reveal_strlit("30m");
            assert(timeframe_label(tf) =~= decimal(30).push('m'));
        },
        Timeframe::H1 => {
            reveal_strlit("1h");
            assert(timeframe_label(tf) =~= decimal(1).push('h'));
        },
        Timeframe::H2 => {
            reveal_strlit("2h");
            assert(timeframe_label(tf) =~= decimal(2).push('h'));
        },
        Timeframe::H4 => {
            reveal_strlit("4h");
            assert(timeframe_label(tf) =~= decimal(4).push('h'));
        },
        Timeframe::H6 => {
            reveal_strlit("6h");
            assert(timeframe_label(tf) =~= decimal(6).push('h'));
        },
        Timeframe::H12 => {
            reveal_strlit("12h");
            assert(timeframe_label(tf) =~= decimal(12).push('h'));
        },
        Timeframe::D1 => {
            reveal_strlit("1d");
            assert(timeframe_label(tf) =~= decimal(1).push('d'));
        },
    }
}

impl Timeframe {
    /// The name of the interval as it is debug-printed.
    pub fn debug_name(self) -> (s: &'static str)
        ensures
            s@ == timeframe_debug_name(self),
    {
        match self {
            Timeframe::MS100 => "MS100",
            Timeframe::MS200 => "MS200",
            Timeframe::MS300 => "MS300",
            Timeframe::MS500 => "MS500",
            Timeframe::MS1000 => "MS1000",
            Timeframe::M1 => "M1",
            Timeframe::M3 => "M3",
            Timeframe::M5 => "M5",
            Timeframe::M15 => "M15",
            Timeframe::M30 => "M30",
            Timeframe::H1 => "H1",
            Timeframe::H2 => "H2",
            Timeframe::H4 => "H4",
            Timeframe::H6 => "H6",
            Timeframe::H12 => "H12",
            Timeframe::D1 => "D1",
        }
    }

    /// Minutes spanned by a candle interval; sub-second intervals have no minute count.
    pub fn to_minutes(self) -> (m: u16)
        requires
            is_kline_timeframe(self),
        ensures
            m == spec_minutes(self),
            m > 0,
    {
        match self {
            Timeframe::M1 => 1,
            Timeframe::M3 => 3,
            Timeframe::M5 => 5,
            Timeframe::M15 => 15,
            Timeframe::M30 => 30,
            Timeframe::H1 => 60,
            Timeframe::H2 => 120,
            Timeframe::H4 => 240,
            Timeframe::H6 => 360,
            Timeframe::H12 => 720,
            Timeframe::D1 => 1440,
            _ => 0,
        }
    }

    /// Milliseconds spanned by the interval.
    pub fn to_milliseconds(self) -> (ms: u64)
        ensures
            ms == spec_milliseconds(self),
            ms > 0,
    {
        match self {
            Timeframe::MS100 => 100,
            Timeframe::MS200 => 200,
            Timeframe::MS300 => 300,
            Timeframe::MS500 => 500,
            Timeframe::MS1000 => 1_000,
            _ => {
                let minutes = self.to_minutes();
                (minutes as u64) * 60_000
            },
        }
    }

    /// The short label of the interval ("100ms", "1m", "1d", ...).
    pub fn to_label(self) -> (s: String)
        ensures
            s@ == timeframe_label(self),
    {
        let l = match self {
            Timeframe::MS100 => "100ms",
            Timeframe::MS200 => "200ms",
            Timeframe::MS300 => "300ms",
            Timeframe::MS500 => "500ms",
            Timeframe::MS1000 => "1s",
            Timeframe::M1 => "1m",
            Timeframe::M3 => "3m",
            Timeframe::M5 => "5m",
            Timeframe::M15 => "15m",
            Timeframe::M30 => "30m",
            Timeframe::H1 => "1h",
            Timeframe::H2 => "2h",
            Timeframe::H4 => "4h",
            Timeframe::H6 => "6h",
            Timeframe::H12 => "12h",
            Timeframe::D1 => "1d",
        };
        l.to_owned()
    }
}

/// How often an exchange pushes order-book updates.
#[derive(Debug, Clone, Copy, PartialEq, Eq, Hash, Structural)]
pub enum PushFrequency {
    ServerDefault,
    Custom(Timeframe),
}

/// The interval name that the Aster API uses for a candle interval.
pub open spec fn aster_interval(tf: Timeframe) -> Option<Seq<char>> {
    if is_kline_timeframe(tf) {
        Some(timeframe_label(tf))
    } else {
        None
    }
}

/// Maps a candle interval to the interval name of the Aster API; sub-second intervals have none.
pub fn timeframe_to_interval(tf: Timeframe) -> (r: Option<&'static str>)
    ensures
        match r {
            Some(s) => aster_interval(tf) == Some(s@),
            None => aster_interval(tf) is None,
        },
{
    match tf {
        Timeframe::M1 => Some("1m"),
        Timeframe::M3 => Some("3m"),
        Timeframe::M5 => Some("5m"),
        Timeframe::M15 => Some("15m"),
        Timeframe::M30 => Some("30m"),
        Timeframe::H1 => Some("1h"),
        Timeframe::H2 => Some("2h"),
        Timeframe::H4 => Some("4h"),
        Timeframe::H6 => Some("6h"),
        Timeframe::H12 => Some("12h"),
        Timeframe::D1 => Some("1d"),
        _ => None,
    }
}

/// A number of milliseconds that is no timeframe's length.
#[derive(Debug, Clone, Copy, PartialEq, Eq, Structural)]
pub struct InvalidTimeframe(pub u64);

impl InvalidTimeframe {
    /// The text the error is shown with.
    pub fn to_message(&self) -> (s: String)
        ensures
            s@ == "Invalid milliseconds value for Timeframe: "@ + decimal(self.0 as nat),
    {
        let mut s = "Invalid milliseconds value for Timeframe: ".to_owned();
        write_decimal(&mut s, self.0);
        s
    }
}

/// Which currency sizes are shown in.
#[derive(Debug, Clone, Copy, PartialEq, Eq, Hash, Structural)]
pub enum PreferredCurrency {
    Quote,
    Base,
}

impl PreferredCurrency {
    /// Whether sizes are shown in the quote currency.
    pub fn size_in_quote(self) -> (r: bool)
        ensures
            r == (self == PreferredCurrency::Quote),
    {
        match self {
            PreferredCurrency::Quote => true,
            PreferredCurrency::Base => false,
        }
    }
}

} // verus!
