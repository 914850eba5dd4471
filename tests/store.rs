use store_core::config::{AutoVacuum, JournalMode, StoreOptions};
use store_core::error::StoreError;
use store_core::greeting::{greet, location_line};
use store_core::lifecycle::{Action, Event, Lifecycle, Phase};
use store_core::pool::{AcquireStep, LeaseTable};
use store_core::sqlite::{check_integrity, connect_options, open_failure};
use store_core::store::Database;

fn pool_of(size: u32) -> StoreOptions {
    StoreOptions { max_pool_size: size, ..StoreOptions::new() }
}

#[test]
fn greet_formats_name() {
    assert_eq!(greet("World"), "Hello, World! You've been greeted from Rust!");
    assert_eq!(greet(""), "Hello, ! You've been greeted from Rust!");
}

#[test]
fn location_line_joins_with_space() {
    assert_eq!(location_line("/home/u/.local/share/app", "app.db"), "/home/u/.local/share/app app.db");
}

#[test]
fn default_options() {
    let o = StoreOptions::new();
    assert_eq!(o.max_pool_size, 5);
    assert_eq!(o.busy_timeout_ms, 5000);
    assert_eq!(o.acquire_timeout_ms, 30000);
    assert_eq!(o.idle_timeout_ms, 600000);
    assert_eq!(o.journal_mode, JournalMode::Wal);
    assert_eq!(o.auto_vacuum, AutoVacuum::Incremental);
}

#[test]
fn fresh_store_migrates_to_three() {
    let db = Database::new("./app.db").unwrap();
    assert!(db.is_open());
    assert_eq!(db.location(), "./app.db");
    let mut lc = Lifecycle::new(3);
    assert_eq!(lc.step(Event::Start), Action::ReadVersion);
    assert_eq!(lc.step(Event::VersionRead(0)), Action::Apply(1));
    assert_eq!(lc.step(Event::Committed(1)), Action::Apply(2));
    assert_eq!(lc.step(Event::Committed(2)), Action::Apply(3));
    assert_eq!(lc.step(Event::Committed(3)), Action::Done);
    assert_eq!(lc.version, 3);
    assert_eq!(lc.phase, Phase::Ready);
}

#[test]
fn ensure_ready_twice_applies_nothing_more() {
    let mut lc = Lifecycle::new(2);
    lc.step(Event::Start);
    lc.step(Event::VersionRead(0));
    lc.step(Event::Committed(1));
    assert_eq!(lc.step(Event::Committed(2)), Action::Done);
    assert_eq!(lc.step(Event::Start), Action::ReadVersion);
    assert_eq!(lc.step(Event::VersionRead(2)), Action::Done);
    assert_eq!(lc.version, 2);
    assert_eq!(lc.phase, Phase::Ready);
}

#[test]
fn store_ahead_of_migrations_is_ready() {
    let mut lc = Lifecycle::new(2);
    lc.step(Event::Start);
    assert_eq!(lc.step(Event::VersionRead(5)), Action::Done);
    assert_eq!(lc.version, 5);
}

#[test]
fn failed_migration_keeps_previous_version() {
    let mut lc = Lifecycle::new(3);
    lc.step(Event::Start);
    lc.step(Event::VersionRead(0));
    assert_eq!(lc.step(Event::Committed(1)), Action::Apply(2));
    assert_eq!(lc.step(Event::Failed(2)), Action::Fail(StoreError::MigrationFailed(2)));
    assert_eq!(lc.version, 1);
    assert_eq!(lc.phase, Phase::Uninitialized);
    // retried only by starting over
    assert_eq!(lc.step(Event::Committed(2)), Action::Ignored);
    assert_eq!(lc.step(Event::Start), Action::ReadVersion);
    assert_eq!(lc.step(Event::VersionRead(1)), Action::Apply(2));
}

#[test]
fn first_migration_failure_keeps_version_zero() {
    let mut lc = Lifecycle::new(1);
    lc.step(Event::Start);
    assert_eq!(lc.step(Event::VersionRead(0)), Action::Apply(1));
    assert_eq!(lc.step(Event::Failed(1)), Action::Fail(StoreError::MigrationFailed(1)));
    assert_eq!(lc.version, 0);
}

#[test]
fn out_of_phase_events_are_ignored() {
    let mut lc = Lifecycle::new(3);
    assert_eq!(lc.step(Event::Committed(1)), Action::Ignored);
    assert_eq!(lc.step(Event::Failed(1)), Action::Ignored);
    lc.step(Event::VersionRead(0));
    assert_eq!(lc.step(Event::VersionRead(0)), Action::Ignored);
    assert_eq!(lc.step(Event::Committed(2)), Action::Ignored);
    assert_eq!(lc.phase, Phase::Migrating(1));
}

#[test]
fn single_connection_second_caller_waits() {
    let mut db = Database::with_options("./app.db", pool_of(1)).unwrap();
    assert_eq!(db.acquire(0), Ok(AcquireStep::Granted(0)));
    assert_eq!(db.acquire(0), Ok(AcquireStep::Wait));
    assert_eq!(db.acquire(100), Ok(AcquireStep::Wait));
    assert!(db.release(0));
    assert_eq!(db.acquire(200), Ok(AcquireStep::Granted(0)));
}

#[test]
fn concurrent_callers_get_distinct_connections() {
    let mut db = Database::with_options("./app.db", pool_of(3)).unwrap();
    assert_eq!(db.acquire(0), Ok(AcquireStep::Granted(0)));
    assert_eq!(db.acquire(0), Ok(AcquireStep::Granted(1)));
    assert_eq!(db.acquire(0), Ok(AcquireStep::Granted(2)));
    assert_eq!(db.acquire(0), Ok(AcquireStep::Wait));
    assert!(db.release(1));
    assert_eq!(db.acquire(0), Ok(AcquireStep::Granted(1)));
}

#[test]
fn wait_past_timeout_is_exhausted() {
    let mut db = Database::with_options("./app.db", pool_of(1)).unwrap();
    let timeout = db.options().acquire_timeout_ms;
    assert_eq!(db.acquire(0), Ok(AcquireStep::Granted(0)));
    assert_eq!(db.acquire(timeout - 1), Ok(AcquireStep::Wait));
    assert_eq!(db.acquire(timeout), Err(StoreError::PoolExhausted));
}

#[test]
fn release_of_free_slot_changes_nothing() {
    let mut db = Database::with_options("./app.db", pool_of(2)).unwrap();
    assert!(!db.release(0));
    assert!(!db.release(7));
    assert_eq!(db.acquire(0), Ok(AcquireStep::Granted(0)));
}

#[test]
fn close_is_idempotent() {
    let mut db = Database::with_options("./app.db", pool_of(2)).unwrap();
    assert_eq!(db.acquire(0), Ok(AcquireStep::Granted(0)));
    db.close();
    assert!(!db.is_open());
    db.close();
    assert!(!db.is_open());
    assert_eq!(db.acquire(0), Err(StoreError::PoolExhausted));
    assert!(!db.release(0));
}

#[test]
fn open_close_open_same_path() {
    let mut db = Database::new("./app.db").unwrap();
    db.close();
    let again = Database::new("./app.db").unwrap();
    assert!(again.is_open());
    assert_eq!(again.location(), db.location());
    assert_eq!(again.options(), db.options());
}

#[test]
fn bad_locations_are_unreachable() {
    assert!(matches!(Database::new("app.db?mode=bogus"), Err(StoreError::Unreachable)));
    assert!(matches!(Database::new("sqlite://%ff%fe.db"), Err(StoreError::Unreachable)));
    assert!(matches!(connect_options("app.db?colour=red", &StoreOptions::new()), Err(StoreError::Unreachable)));
}

#[test]
fn url_locations_are_accepted() {
    assert!(Database::new("sqlite:app.db?mode=rwc").is_ok());
    assert!(Database::new("sqlite::memory:").is_ok());
    assert!(connect_options("data/app%20one.db", &StoreOptions::new()).is_ok());
}

#[test]
fn open_failure_codes() {
    assert_eq!(open_failure(Some(11)), StoreError::CorruptFile);
    assert_eq!(open_failure(Some(26)), StoreError::CorruptFile);
    assert_eq!(open_failure(Some(267)), StoreError::CorruptFile);
    assert_eq!(open_failure(Some(14)), StoreError::Unreachable);
    assert_eq!(open_failure(Some(8)), StoreError::Unreachable);
    assert_eq!(open_failure(Some(-245)), StoreError::Unreachable);
    assert_eq!(open_failure(None), StoreError::Unreachable);
}

#[test]
fn integrity_probe() {
    assert_eq!(check_integrity(&vec!["ok".to_string()]), Ok(()));
    assert_eq!(check_integrity(&vec!["*** in database main ***".to_string()]), Err(StoreError::CorruptFile));
    assert_eq!(check_integrity(&vec![]), Err(StoreError::CorruptFile));
    assert_eq!(check_integrity(&vec!["ok".to_string(), "ok".to_string()]), Err(StoreError::CorruptFile));
}

#[test]
fn lease_table_counts() {
    let mut t = LeaseTable::new(3);
    assert_eq!(t.capacity(), 3);
    assert_eq!(t.in_use(), 0);
    assert_eq!(t.try_acquire(), Some(0));
    assert_eq!(t.try_acquire(), Some(1));
    assert!(t.is_lent(1));
    assert!(!t.is_lent(2));
    assert_eq!(t.in_use(), 2);
    t.release_all();
    assert_eq!(t.in_use(), 0);
}

#[test]
fn lease_table_steps() {
    let mut t = LeaseTable::new(1);
    assert_eq!(t.acquire_step(0, 10), AcquireStep::Granted(0));
    assert_eq!(t.acquire_step(9, 10), AcquireStep::Wait);
    assert_eq!(t.acquire_step(10, 10), AcquireStep::Exhausted);
    assert_eq!(t.try_acquire(), None);
}

#[test]
fn connect_options_keep_file_name() {
    let db = Database::new("./data/app.db").unwrap();
    assert_eq!(db.connect_options().get_filename(), std::path::Path::new("./data/app.db"));
    let o = connect_options("sqlite://store.db?mode=rwc", &StoreOptions::new()).unwrap();
    assert_eq!(o.get_filename(), std::path::Path::new("store.db"));
}
