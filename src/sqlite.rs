use vstd::prelude::*;
use sqlx::sqlite::{SqliteAutoVacuum, SqliteConnectOptions, SqliteJournalMode};
use crate::config::{AutoVacuum, JournalMode, StoreOptions};
use crate::error::StoreError;

verus! {

#[verifier::external_type_specification]
#[verifier::external_body]
pub struct ExSqliteConnectOptions(SqliteConnectOptions);

#[verifier::external_type_specification]
#[verifier::external_body]
pub struct ExSqlxError(sqlx::Error);

/// A location with no query part and no percent escapes: SQLite's option
/// parser takes it as a file name as it stands.
pub open spec fn is_plain_location(s: Seq<char>) -> bool {
    forall|i: int| 0 <= i < s.len() ==> s[i] != '?' && s[i] != '%'
}

/// Whether SQLite's option parser accepts `location` (a file name or a
/// `sqlite:` URL with its parameters).
pub uninterp spec fn location_accepted(location: Seq<char>) -> bool;

/// Relies on `SqliteConnectOptions::from_str`, which strips a `sqlite:` or
/// `sqlite://` prefix, splits off a `?` query and percent-decodes the rest
/// as the file name (a malformed escape is kept as it stands). It fails
/// when the decoded name is not UTF-8, on an unknown query parameter, and on
/// an unknown value of `mode`, `cache` or `immutable`.
#[verifier::external_body]
fn parse_location(location: &str) -> (r: Result<SqliteConnectOptions, sqlx::Error>)
    ensures
        r is Ok == location_accepted(location@),
        is_plain_location(location@) ==> r is Ok,
{
    <SqliteConnectOptions as std::str::FromStr>::from_str(location)
}

/// Whether the options ask for the database file to be created when it is
/// missing.
pub uninterp spec fn creates_if_missing(options: SqliteConnectOptions) -> bool;

/// The journal mode the options set on each connection, if they set one.
pub uninterp spec fn journal_mode_of(options: SqliteConnectOptions) -> Option<JournalMode>;

/// The auto-vacuum setting the options set on each connection, if any.
pub uninterp spec fn auto_vacuum_of(options: SqliteConnectOptions) -> Option<AutoVacuum>;

/// How long, in milliseconds, a connection opened with the options waits
/// on a locked database.
pub uninterp spec fn busy_timeout_ms_of(options: SqliteConnectOptions) -> int;

/// The options ask for everything that `config` configures: creation of a
/// missing file, and its journal mode, auto-vacuum setting and busy timeout.
pub open spec fn configured(o: SqliteConnectOptions, config: StoreOptions) -> bool {
    &&& creates_if_missing(o)
    &&& journal_mode_of(o) == Some(config.journal_mode)
    &&& auto_vacuum_of(o) == Some(config.auto_vacuum)
    &&& busy_timeout_ms_of(o) == config.busy_timeout_ms
}

/// Relies on `SqliteConnectOptions::create_if_missing`, which sets its own
/// field and nothing else.
#[verifier::external_body]
fn with_create_if_missing(options: SqliteConnectOptions, create: bool) -> (r: SqliteConnectOptions)
    ensures
        creates_if_missing(r) == create,
        journal_mode_of(r) == journal_mode_of(options),
        auto_vacuum_of(r) == auto_vacuum_of(options),
        busy_timeout_ms_of(r) == busy_timeout_ms_of(options),
{
    options.create_if_missing(create)
}

/// Relies on `SqliteConnectOptions::journal_mode`, which records the
/// `journal_mode` pragma (replacing an earlier one) and nothing else; each
/// mode maps to the variant of `SqliteJournalMode` of the same name.
#[verifier::external_body]
fn with_journal_mode(options: SqliteConnectOptions, mode: JournalMode) -> (r: SqliteConnectOptions)
    ensures
        journal_mode_of(r) == Some(mode),
        creates_if_missing(r) == creates_if_missing(options),
        auto_vacuum_of(r) == auto_vacuum_of(options),
        busy_timeout_ms_of(r) == busy_timeout_ms_of(options),
{
    options.journal_mode(match mode {
        JournalMode::Delete => SqliteJournalMode::Delete,
        JournalMode::Truncate => SqliteJournalMode::Truncate,
        JournalMode::Persist => SqliteJournalMode::Persist,
        JournalMode::Memory => SqliteJournalMode::Memory,
        JournalMode::Wal => SqliteJournalMode::Wal,
        JournalMode::Off => SqliteJournalMode::Off,
    })
}

/// Relies on `SqliteConnectOptions::auto_vacuum`, which records the
/// `auto_vacuum` pragma (replacing an earlier one) and nothing else;
/// `Disabled` maps to `SqliteAutoVacuum::None`, the others by name.
#[verifier::external_body]
fn with_auto_vacuum(options: SqliteConnectOptions, mode: AutoVacuum) -> (r: SqliteConnectOptions)
    ensures
        auto_vacuum_of(r) == Some(mode),
        creates_if_missing(r) == creates_if_missing(options),
        journal_mode_of(r) == journal_mode_of(options),
        busy_timeout_ms_of(r) == busy_timeout_ms_of(options),
{
    options.auto_vacuum(match mode {
        AutoVacuum::Disabled => SqliteAutoVacuum::None,
        AutoVacuum::Full => SqliteAutoVacuum::Full,
        AutoVacuum::Incremental => SqliteAutoVacuum::Incremental,
    })
}

/// Relies on `SqliteConnectOptions::busy_timeout`, which sets its own field
/// and nothing else, given a whole number of milliseconds.
#[verifier::external_body]
fn with_busy_timeout(options: SqliteConnectOptions, ms: u64) -> (r: SqliteConnectOptions)
    ensures
        busy_timeout_ms_of(r) == ms,
        creates_if_missing(r) == creates_if_missing(options),
        journal_mode_of(r) == journal_mode_of(options),
        auto_vacuum_of(r) == auto_vacuum_of(options),
{
    options.busy_timeout(std::time::Duration::from_millis(ms))
}

/// Turns parsed connection options into those of a store with
/// `options`: the file is created when missing and the journal mode,
/// auto-vacuum setting and busy timeout are applied. A location that could
/// not be parsed cannot be reached.
pub fn configure(
    parsed: Result<SqliteConnectOptions, sqlx::Error>,
    options: &StoreOptions,
) -> (r: Result<SqliteConnectOptions, StoreError>)
    ensures
        r is Ok == parsed is Ok,
        r is Err ==> r == Err::<SqliteConnectOptions, StoreError>(StoreError::Unreachable),
        r matches Ok(o) ==> configured(o, *options),
{
    match parsed {
        Ok(o) => {
            let o = with_create_if_missing(o, true);
            let o = with_journal_mode(o, options.journal_mode);
            let o = with_auto_vacuum(o, options.auto_vacuum);
            Ok(with_busy_timeout(o, options.busy_timeout_ms))
        },
        Err(_) => Err(StoreError::Unreachable),
    }
}

/// The connection options of the store at `location`, configured by
/// `options`. Fails with `Unreachable` exactly when the location is not a
/// usable SQLite location; a plain file path always is.
pub fn connect_options(location: &str, options: &StoreOptions) -> (r: Result<
    SqliteConnectOptions,
    StoreError,
>)
    ensures
        r is Ok == location_accepted(location@),
        is_plain_location(location@) ==> r is Ok,
        r is Err ==> r == Err::<SqliteConnectOptions, StoreError>(StoreError::Unreachable),
        r matches Ok(o) ==> configured(o, *options),
{
    configure(parse_location(location), options)
}

/// SQLite's primary result code for a damaged database image.
pub const SQLITE_CORRUPT: i64 = 11;

/// SQLite's primary result code for a file that is not a database.
pub const SQLITE_NOTADB: i64 = 26;

/// The store error for an open that failed with the (possibly extended)
/// SQLite result code `code`, if the failure carried one.
pub open spec fn open_failure_spec(code: Option<i64>) -> StoreError {
    match code {
        Some(c) => if c >= 0 && (c % 256 == SQLITE_CORRUPT || c % 256 == SQLITE_NOTADB) {
            StoreError::CorruptFile
        } else {
            StoreError::Unreachable
        },
        None => StoreError::Unreachable,
    }
}

/// Classifies a failed open: a damaged file or one that is not a database
/// is `CorruptFile`; every other failure (a missing or read-only directory,
/// an I/O error) is `Unreachable`. Extended result codes keep their primary
/// code in the low byte; result codes are never negative.
pub fn open_failure(code: Option<i64>) -> (r: StoreError)
    ensures
        r == open_failure_spec(code),
{
    match code {
        Some(c) => {
            if c >= 0 && (c % 256 == SQLITE_CORRUPT || c % 256 == SQLITE_NOTADB) {
                StoreError::CorruptFile
            } else {
                StoreError::Unreachable
            }
        },
        None => StoreError::Unreachable,
    }
}

/// Whether the rows returned by `PRAGMA integrity_check` report a sound
/// file: exactly one row, reading `ok`.
pub open spec fn integrity_sound(rows: Seq<Seq<char>>) -> bool {
    rows.len() == 1 && rows[0] == "ok"@
}

/// Judges the integrity probe of an existing file: `CorruptFile` unless
/// the probe reported exactly `ok`.
pub fn check_integrity(rows: &Vec<String>) -> (r: Result<(), StoreError>)
    ensures
        r is Ok == integrity_sound(rows@.map_values(|s: String| s@)),
        r is Err ==> r == Err::<(), StoreError>(StoreError::CorruptFile),
{
    let ok = String::from_str("ok");
    if rows.len() == 1 && rows[0] == ok {
        Ok(())
    } else {
        Err(StoreError::CorruptFile)
    }
}

} // verus!
