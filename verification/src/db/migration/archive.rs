//! Archives of aggregated trades: what their file names say, and how the outcome of each
//! archive adds to the statistics of a migration.

use vstd::prelude::*;
use std::path::Path;
use crate::db::error::{DatabaseError, error_text};
use crate::db::migration::{MigrationConfig, MigrationStats, texts};
use crate::exchange::info::TickerInfo;
use crate::exchange::ticker::{Ticker, valid_symbol_text};
use crate::exchange::venue::Exchange;
use crate::text::{concat_str, split_char, split_on, trim_end_str, trim_end_all, push_char};
use vstd::string::StringExecFns;

verus! {

/// `std::path::Path`, held opaque.
#[verifier::external_type_specification]
#[verifier::external_body]
pub struct ExPath(Path);

/// The last component of a path read as UTF-8 text, if it has one that is valid UTF-8
/// (`Path::file_name`, then `OsStr::to_str`).
pub uninterp spec fn spec_path_file_name(path: &Path) -> Option<Seq<char>>;

/// `Path::file_name`, read as UTF-8 (`OsStr::to_str`): the last component of the path, or
/// `None` when there is none or it is not valid UTF-8. Its result is named; what the name
/// gives on a path is left to the documentation of `Path::file_name`. The two calls stand
/// together because the `OsStr` between them lives in `std::ffi`, which the library does
/// not name.
#[verifier::external_body]
fn path_file_name(path: &Path) -> (r: Option<&str>)
    ensures
        match r {
            Some(s) => spec_path_file_name(path) == Some(s@),
            None => spec_path_file_name(path) is None,
        },
{
    path.file_name().and_then(|name| name.to_str())
}

/// The pieces of an archive's file name, separated by `-`.
pub open spec fn archive_name_parts(name: Seq<char>) -> Seq<Seq<char>> {
    split_on(name, '-')
}

/// File names that are read without a fault: any other number of pieces than four, and
/// with five or more, a first piece that a ticker can hold.
pub open spec fn archive_name_readable(name: Seq<char>) -> bool {
    let parts = archive_name_parts(name);
    &&& parts.len() != 4
    &&& parts.len() > 4 ==> valid_symbol_text(parts[0])
}

/// The symbol and the date (`YYYY-MM-DD`) an archive's file name gives, or `None` when it
/// has fewer than four pieces. The date is the third, fourth and fifth pieces joined by
/// `-`, with every trailing `.zip` removed from the fifth.
pub open spec fn archive_name_fields(name: Seq<char>) -> Option<(Seq<char>, Seq<char>)> {
    let parts = archive_name_parts(name);
    if parts.len() < 4 {
        None
    } else {
        Some((parts[0], parts[2] + "-"@ + parts[3] + "-"@ + trim_end_all(parts[4], ".zip"@)))
    }
}

/// `r` is what reading the file name `name` gives: the ticker of the symbol on Binance
/// linear perpetuals with a tick size of 0.01, a minimal quantity of 0.001 and no contract
/// size, and the date; or the error naming the file.
pub open spec fn archive_name_result(name: Seq<char>, r: Result<(TickerInfo, String), DatabaseError>) -> bool {
    match archive_name_fields(name) {
        None => r matches Err(DatabaseError::Migration(m)) && m@
            == "Invalid Binance archive filename format: "@ + name,
        Some((symbol, date)) => r matches Ok((info, d)) && {
            &&& info.ticker.wf()
            &&& info.ticker.symbol() == symbol
            &&& info.ticker.display() is None
            &&& info.ticker.venue() == Exchange::BinanceLinear
            &&& info.min_ticksize.power == -2
            &&& info.min_qty.power == -3
            &&& info.contract_size is None
            &&& d@ == date
        },
    }
}

/// Reads the symbol and the date from an archive's file name, such as
/// `BTCUSDT-aggTrades-2024-01-15.zip`.
pub fn parse_archive_file_name(file_name: &str) -> (r: Result<(TickerInfo, String), DatabaseError>)
    requires
        archive_name_readable(file_name@),
    ensures
        archive_name_result(file_name@, r),
{
    let parts = split_char(file_name, '-');
    if parts.len() < 4 {
        return Err(DatabaseError::Migration(
            concat_str("Invalid Binance archive filename format: ", file_name),
        ));
    }
    let mut date = parts[2].clone();
    push_char(&mut date, '-');
    date.append(parts[3].as_str());
    push_char(&mut date, '-');
    let day = trim_end_str(parts[4].as_str(), ".zip");
    date.append(day.as_str());
    proof {
        reveal_strlit(".zip");
        reveal_strlit("-");
        assert(date@ =~= parts@[2]@ + "-"@ + parts@[3]@ + "-"@ + trim_end_all(parts@[4]@, ".zip"@));
    }
    let ticker = Ticker::new(parts[0].as_str(), Exchange::BinanceLinear);
    let info = TickerInfo::with_powers(ticker, -2, -3, None);
    Ok((info, date))
}

/// Reads migrations of aggregated-trade archives.
pub struct ArchiveMigrator {
    pub config: MigrationConfig,
}

impl ArchiveMigrator {
    /// A migrator with the given configuration.
    pub fn new(config: MigrationConfig) -> (m: Self)
        ensures
            m.config == config,
    {
        Self { config }
    }

    /// Reads the symbol and the date from the file name of the archive at `zip_path`.
    /// A path without a file name, or with one that is not UTF-8, is an error, and so is a
    /// file name outside `archive_name_readable`.
    pub fn parse_archive_path(&self, zip_path: &Path) -> (r: Result<(TickerInfo, String), DatabaseError>)
        ensures
            match spec_path_file_name(zip_path) {
                None => r matches Err(DatabaseError::Migration(m)) && m@ == "Invalid file name"@,
                Some(name) => if archive_name_readable(name) {
                    archive_name_result(name, r)
                } else {
                    r matches Err(DatabaseError::Migration(m)) && m@ == "Unsupported Binance archive filename: "@ + name
                },
            },
    {
        match path_file_name(zip_path) {
            None => Err(DatabaseError::Migration("Invalid file name".to_owned())),
            Some(file_name) => {
                if archive_file_name_readable(file_name) {
                    parse_archive_file_name(file_name)
                } else {
                    Err(DatabaseError::Migration(
                        concat_str("Unsupported Binance archive filename: ", file_name),
                    ))
                }
            },
        }
    }
}

/// Whether `file_name` is read without a fault.
pub fn archive_file_name_readable(file_name: &str) -> (r: bool)
    ensures
        r == archive_name_readable(file_name@),
{
    let parts = split_char(file_name, '-');
    if parts.len() == 4 {
        return false;
    }
    if parts.len() < 4 {
        return true;
    }
    is_ticker_symbol(parts[0].as_str())
}

/// Whether a ticker can hold `s` as its symbol.
pub fn is_ticker_symbol(s: &str) -> (r: bool)
    ensures
        r == valid_symbol_text(s@),
{
    let n = s.unicode_len();
    if n > crate::exchange::ticker::TICKER_MAX_LEN {
        return false;
    }
    let mut i: usize = 0;
    while i < n
        invariant
            n == s@.len(),
            n <= crate::exchange::ticker::TICKER_MAX_LEN,
            i <= n,
            forall|j: int| 0 <= j < i ==> crate::exchange::ticker::is_symbol_char(#[trigger] s@[j]),
        decreases n - i,
    {
        let c = s.get_char(i);
        if !('!' <= c && c <= '~' && c != ':' && c != '|') {
            return false;
        }
        i = i + 1;
    }
    true
}

/// Adds the outcome of one archive to the statistics of the whole run: its counts and one
/// more processed file when it went through, else the error with the archive's path.
pub fn record_archive_outcome(
    all: &mut MigrationStats,
    path_text: &str,
    outcome: Result<MigrationStats, DatabaseError>,
)
    requires
        outcome matches Ok(s) ==> {
            &&& old(all).files_processed + s.files_processed + 1 <= usize::MAX
            &&& old(all).trades_migrated + s.trades_migrated <= usize::MAX
            &&& old(all).klines_migrated + s.klines_migrated <= usize::MAX
            &&& old(all).footprints_migrated + s.footprints_migrated <= usize::MAX
            &&& old(all).runs_migrated + s.runs_migrated <= usize::MAX
        },
    ensures
        match outcome {
            Ok(s) => {
                &&& final(all).files_processed == old(all).files_processed + s.files_processed + 1
                &&& final(all).trades_migrated == old(all).trades_migrated + s.trades_migrated
                &&& final(all).klines_migrated == old(all).klines_migrated + s.klines_migrated
                &&& final(all).footprints_migrated == old(all).footprints_migrated + s.footprints_migrated
                &&& final(all).runs_migrated == old(all).runs_migrated + s.runs_migrated
                &&& texts(final(all).errors@) == texts(old(all).errors@) + texts(s.errors@)
            },
            Err(e) => {
                &&& final(all).files_processed == old(all).files_processed
                &&& final(all).trades_migrated == old(all).trades_migrated
                &&& final(all).klines_migrated == old(all).klines_migrated
                &&& final(all).footprints_migrated == old(all).footprints_migrated
                &&& final(all).runs_migrated == old(all).runs_migrated
                &&& texts(final(all).errors@) == texts(old(all).errors@).push(
                    path_text@ + ": "@ + error_text(e))
            },
        },
{
    match outcome {
        Ok(s) => {
            all.merge(&s);
            all.files_processed = all.files_processed + 1;
        },
        Err(e) => {
            let mut m = concat_str(path_text, ": ");
            let t = e.to_message();
            m.append(t.as_str());
            let ghost before = all.errors@;
            all.add_error(m);
            proof {
                assert(texts(all.errors@) =~= texts(before).push(path_text@ + ": "@ + error_text(e)));
            }
        },
    }
}

} // verus!
