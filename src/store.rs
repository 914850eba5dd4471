use vstd::prelude::*;
use sqlx::sqlite::SqliteConnectOptions;
use crate::config::StoreOptions;
use crate::error::StoreError;
use crate::pool::{AcquireStep, LeaseTable, all_lent, is_first_free, none_lent};
use crate::sqlite::{configured, connect_options, is_plain_location, location_accepted};

verus! {

/// What a store handle stands for: where the store lives, how it is
/// configured, the SQLite options its pool opens connections with, whether
/// it is open, and which pooled connections are lent.
pub struct DatabaseModel {
    pub location: Seq<char>,
    pub options: StoreOptions,
    pub connect: SqliteConnectOptions,
    pub open: bool,
    pub lent: Seq<bool>,
}

impl DatabaseModel {
    /// One lease slot per pooled connection, and nothing lent once closed.
    pub open spec fn wf(self) -> bool {
        &&& self.options.wf()
        &&& self.lent.len() == self.options.max_pool_size
        &&& !self.open ==> none_lent(self.lent)
    }
}

/// The handle after `close`: shut, with every connection taken back.
pub open spec fn after_close(m: DatabaseModel) -> DatabaseModel {
    DatabaseModel {
        location: m.location,
        options: m.options,
        connect: m.connect,
        open: false,
        lent: Seq::new(m.lent.len(), |i: int| false),
    }
}

/// The handle of one embedded store: its location, its configuration, the
/// SQLite options that open it, and the accounting of its pooled
/// connections. Connections are handed out only through `acquire`.
pub struct Database {
    location: String,
    options: StoreOptions,
    connect: SqliteConnectOptions,
    leases: LeaseTable,
    open: bool,
}

impl View for Database {
    type V = DatabaseModel;

    closed spec fn view(&self) -> DatabaseModel {
        DatabaseModel {
            location: self.location@,
            options: self.options,
            connect: self.connect,
            open: self.open,
            lent: self.leases@,
        }
    }
}

impl Database {
    /// The handle of the store at `db_file`, with the default configuration.
    pub fn new(db_file: &str) -> (r: Result<Database, StoreError>)
        ensures
            r is Ok == location_accepted(db_file@),
            is_plain_location(db_file@) ==> r is Ok,
            r is Err ==> r == Err::<Database, StoreError>(StoreError::Unreachable),
            r matches Ok(d) ==> d@.wf() && d@.open && d@.location == db_file@
                && d@.options == StoreOptions::new_spec() && none_lent(d@.lent)
                && configured(d@.connect, StoreOptions::new_spec()),
    {
        Database::with_options(db_file, StoreOptions::new())
    }

    /// The handle of the store at `db_file`, configured by `options`: the
    /// file is to be created when missing, and no connection is lent yet.
    /// Fails with `Unreachable` exactly when `db_file` is no usable location.
    pub fn with_options(db_file: &str, options: StoreOptions) -> (r: Result<Database, StoreError>)
        requires
            options.wf(),
        ensures
            r is Ok == location_accepted(db_file@),
            is_plain_location(db_file@) ==> r is Ok,
            r is Err ==> r == Err::<Database, StoreError>(StoreError::Unreachable),
            r matches Ok(d) ==> d@.wf() && d@.open && d@.location == db_file@
                && d@.options == options && none_lent(d@.lent)
                && configured(d@.connect, options),
    {
        match connect_options(db_file, &options) {
            Ok(connect) => {
                let leases = LeaseTable::new(options.max_pool_size as usize);
                Ok(Database {
                    location: String::from_str(db_file),
                    options,
                    connect,
                    leases,
                    open: true,
                })
            },
            Err(e) => Err(e),
        }
    }

    /// Where the store lives.
    pub fn location(&self) -> (r: &String)
        ensures
            r@ == self@.location,
    {
        &self.location
    }

    /// The store's configuration.
    pub fn options(&self) -> (r: StoreOptions)
        ensures
            r == self@.options,
    {
        self.options
    }

    /// The SQLite options with which the pool opens its connections.
    pub fn connect_options(&self) -> (r: &SqliteConnectOptions)
        ensures
            *r == self@.connect,
    {
        &self.connect
    }

    /// Whether the handle is open.
    pub fn is_open(&self) -> (r: bool)
        ensures
            r == self@.open,
    {
        self.open
    }

    /// One attempt to obtain a connection by a caller that has waited
    /// `waited_ms` so far. An open handle grants its lowest free connection
    /// at once; when all are lent the caller waits, and gets
    /// `PoolExhausted` once the acquisition timeout has passed. A closed
    /// handle lends nothing.
    pub fn acquire(&mut self, waited_ms: u64) -> (r: Result<AcquireStep, StoreError>)
        requires
            old(self)@.wf(),
        ensures
            final(self)@.wf(),
            final(self)@.location == old(self)@.location,
            final(self)@.options == old(self)@.options,
            final(self)@.connect == old(self)@.connect,
            final(self)@.open == old(self)@.open,
            !old(self)@.open ==> r == Err::<AcquireStep, StoreError>(StoreError::PoolExhausted),
            old(self)@.open && all_lent(old(self)@.lent) ==> (if waited_ms
                >= old(self)@.options.acquire_timeout_ms {
                r == Err::<AcquireStep, StoreError>(StoreError::PoolExhausted)
            } else {
                r == Ok::<AcquireStep, StoreError>(AcquireStep::Wait)
            }),
            old(self)@.open && !all_lent(old(self)@.lent) ==> (r matches Ok(
                AcquireStep::Granted(i),
            ) && is_first_free(old(self)@.lent, i as int) && final(self)@.lent == old(
                self,
            )@.lent.update(i as int, true)),
            !(r matches Ok(AcquireStep::Granted(_))) ==> final(self)@.lent == old(self)@.lent,
    {
        if !self.open {
            return Err(StoreError::PoolExhausted);
        }
        match self.leases.acquire_step(waited_ms, self.options.acquire_timeout_ms) {
            AcquireStep::Exhausted => Err(StoreError::PoolExhausted),
            step => Ok(step),
        }
    }

    /// Gives back the connection in `slot`, on every exit path of the
    /// operation that used it. Returns whether it was lent.
    pub fn release(&mut self, slot: usize) -> (r: bool)
        requires
            old(self)@.wf(),
        ensures
            final(self)@.wf(),
            final(self)@.location == old(self)@.location,
            final(self)@.options == old(self)@.options,
            final(self)@.connect == old(self)@.connect,
            final(self)@.open == old(self)@.open,
            r == (slot < old(self)@.lent.len() && old(self)@.lent[slot as int]),
            r ==> final(self)@.lent == old(self)@.lent.update(slot as int, false),
            !r ==> final(self)@.lent == old(self)@.lent,
    {
        let r = self.leases.release(slot);
        proof {
            if !self.open {
                assert(none_lent(self.leases@));
            }
        }
        r
    }

    /// Shuts the handle and takes every connection back.
    pub fn close(&mut self)
        requires
            old(self)@.wf(),
        ensures
            final(self)@ == after_close(old(self)@),
            final(self)@.wf(),
    {
        self.leases.release_all();
        self.open = false;
        assert(self.leases@ =~= Seq::new(self.leases@.len(), |i: int| false));
    }
}

/// Closing is idempotent: closing a closed handle changes nothing.
pub proof fn lemma_close_idempotent(m: DatabaseModel)
    ensures
        after_close(after_close(m)) == after_close(m),
{
    assert(after_close(after_close(m)).lent =~= after_close(m).lent);
}

/// Closing keeps what the handle was opened with: the location and the
/// configuration stay, every connection is free, and the closed handle is
/// well formed. Opening the location again depends on the location alone
/// (see `Database::with_options`).
pub proof fn lemma_close_keeps_identity(m: DatabaseModel)
    requires
        m.wf(),
    ensures
        after_close(m).location == m.location,
        after_close(m).options == m.options,
        after_close(m).lent.len() == m.lent.len(),
        none_lent(after_close(m).lent),
        after_close(m).wf(),
{
}

/// A handle never lends one connection to two callers at once. Caller A
/// holds connection `held`: it was granted (so marked lent), and since then
/// the handle has granted connections and taken back connections other
/// than `held`, each step as `acquire` and `release` state (a release of a
/// connection that was not lent changes nothing, and is left out). Every
/// connection that the handle now grants differs from `held`.
pub proof fn lemma_handle_never_lends_twice(
    start: Seq<bool>,
    held: int,
    grants: Seq<int>,
    releases: Seq<int>,
    granted: int,
)
    requires
        is_first_free(start, held),
        forall|k: int| 0 <= k < grants.len() ==> 0 <= #[trigger] grants[k] < start.len(),
        forall|k: int| 0 <= k < releases.len() ==> 0 <= #[trigger] releases[k] < start.len(),
        forall|k: int| 0 <= k < releases.len() ==> releases[k] != held,
        is_first_free(lent_after(start.update(held, true), grants, releases), granted),
    ensures
        granted != held,
{
    lemma_held_stays_lent(start.update(held, true), held, grants, releases);
}

/// The lease record after the given grants, then the given releases.
pub open spec fn lent_after(lent: Seq<bool>, grants: Seq<int>, releases: Seq<int>) -> Seq<bool>
    decreases grants.len() + releases.len(),
{
    if grants.len() > 0 {
        lent_after(lent.update(grants[0], true), grants.drop_first(), releases)
    } else if releases.len() > 0 {
        lent_after(lent.update(releases[0], false), grants, releases.drop_first())
    } else {
        lent
    }
}

/// A lent connection stays lent through grants and through releases of
/// other connections.
pub proof fn lemma_held_stays_lent(lent: Seq<bool>, held: int, grants: Seq<int>, releases: Seq<int>)
    requires
        0 <= held < lent.len(),
        lent[held],
        forall|k: int| 0 <= k < grants.len() ==> 0 <= #[trigger] grants[k] < lent.len(),
        forall|k: int| 0 <= k < releases.len() ==> 0 <= #[trigger] releases[k] < lent.len(),
        forall|k: int| 0 <= k < releases.len() ==> releases[k] != held,
    ensures
        lent_after(lent, grants, releases).len() == lent.len(),
        lent_after(lent, grants, releases)[held],
    decreases grants.len() + releases.len(),
{
    if grants.len() > 0 {
        let rest = grants.drop_first();
        assert forall|k: int| 0 <= k < rest.len() implies 0 <= #[trigger] rest[k] < lent.len() by {
            assert(rest[k] == grants[k + 1]);
        }
        lemma_held_stays_lent(lent.update(grants[0], true), held, rest, releases);
    } else if releases.len() > 0 {
        assert(releases[0] != held);
        let rest = releases.drop_first();
        assert forall|k: int| 0 <= k < rest.len() implies #[trigger] rest[k] != held && 0 <= rest[k]
            < lent.len() by {
            assert(rest[k] == releases[k + 1]);
        }
        lemma_held_stays_lent(lent.update(releases[0], false), held, grants, rest);
    }
}

} // verus!
