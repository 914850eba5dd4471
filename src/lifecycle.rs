use vstd::prelude::*;
use crate::error::StoreError;

verus! {

/// Where the lifecycle manager stands.
#[derive(Debug, Clone, Copy, PartialEq, Eq, Structural)]
pub enum Phase {
    /// Nothing is known of the store's schema yet, or the last attempt to
    /// bring it up to date aborted.
    Uninitialized,
    /// The migration to the given version is running in its own transaction.
    Migrating(u32),
    /// The store is at the newest schema version.
    Ready,
}

/// What the host reports back after performing an action.
#[derive(Debug, Clone, Copy, PartialEq, Eq, Structural)]
pub enum Event {
    /// A caller asked for the store to be made ready.
    Start,
    /// The schema version recorded in the store was read (0 when absent).
    VersionRead(u32),
    /// The migration to the given version was committed.
    Committed(u32),
    /// The migration to the given version failed and its transaction was
    /// rolled back.
    Failed(u32),
}

/// What the host must do next.
#[derive(Debug, Clone, Copy, PartialEq, Eq, Structural)]
pub enum Action {
    /// Read the schema version recorded in the store.
    ReadVersion,
    /// Apply the migration to the given version in one transaction, recording
    /// that version in the same transaction.
    Apply(u32),
    /// The store is ready.
    Done,
    /// Making the store ready failed.
    Fail(StoreError),
    /// The event does not belong to the current phase and changed nothing.
    Ignored,
}

/// Decides, step by step, how a store is brought to the newest schema.
///
/// `version` is the schema version last known to be committed in the store
/// and `target` the number of migrations that exist: migration `v` takes the
/// schema from version `v - 1` to version `v`.
pub struct Lifecycle {
    pub phase: Phase,
    pub version: u32,
    pub target: u32,
}

/// The manager's state, as a value.
pub struct LifecycleModel {
    pub phase: Phase,
    pub version: u32,
    pub target: u32,
}

impl LifecycleModel {
    /// A migration runs only on top of the version before it and never past
    /// the last migration; a ready store is at or beyond the last migration.
    pub open spec fn wf(self) -> bool {
        match self.phase {
            Phase::Uninitialized => true,
            Phase::Migrating(m) => m == self.version + 1 && m <= self.target,
            Phase::Ready => self.version >= self.target,
        }
    }
}

/// The step that follows a known version `v`: done when no migration is
/// pending, otherwise the next migration.
pub open spec fn after_version(v: u32, target: u32) -> (LifecycleModel, Action) {
    if v >= target {
        (LifecycleModel { phase: Phase::Ready, version: v, target }, Action::Done)
    } else {
        (
            LifecycleModel { phase: Phase::Migrating((v + 1) as u32), version: v, target },
            Action::Apply((v + 1) as u32),
        )
    }
}

/// The transition relation of the manager.
pub open spec fn next(s: LifecycleModel, e: Event) -> (LifecycleModel, Action) {
    match e {
        Event::Start => (
            LifecycleModel { phase: Phase::Uninitialized, version: s.version, target: s.target },
            Action::ReadVersion,
        ),
        Event::VersionRead(v) => if s.phase == Phase::Uninitialized {
            after_version(v, s.target)
        } else {
            (s, Action::Ignored)
        },
        Event::Committed(v) => if s.phase == Phase::Migrating(v) {
            after_version(v, s.target)
        } else {
            (s, Action::Ignored)
        },
        Event::Failed(v) => if s.phase == Phase::Migrating(v) {
            (
                LifecycleModel { phase: Phase::Uninitialized, version: s.version, target: s.target },
                Action::Fail(StoreError::MigrationFailed(v)),
            )
        } else {
            (s, Action::Ignored)
        },
    }
}

impl Lifecycle {
    pub open spec fn view(&self) -> LifecycleModel {
        LifecycleModel { phase: self.phase, version: self.version, target: self.target }
    }

    /// A manager for a schema with `target` migrations, before anything is
    /// known of the store.
    pub fn new(target: u32) -> (r: Lifecycle)
        ensures
            r.view().wf(),
            r.phase == Phase::Uninitialized,
            r.version == 0,
            r.target == target,
    {
        Lifecycle { phase: Phase::Uninitialized, version: 0, target }
    }

    /// Takes the host's report `e` and says what to do next.
    pub fn step(&mut self, e: Event) -> (r: Action)
        requires
            old(self).view().wf(),
        ensures
            (final(self).view(), r) == next(old(self).view(), e),
            final(self).view().wf(),
    {
        match e {
            Event::Start => {
                self.phase = Phase::Uninitialized;
                Action::ReadVersion
            },
            Event::VersionRead(v) => {
                if self.phase == Phase::Uninitialized {
                    self.advance_from(v)
                } else {
                    Action::Ignored
                }
            },
            Event::Committed(v) => {
                if self.phase == Phase::Migrating(v) {
                    self.advance_from(v)
                } else {
                    Action::Ignored
                }
            },
            Event::Failed(v) => {
                if self.phase == Phase::Migrating(v) {
                    self.phase = Phase::Uninitialized;
                    Action::Fail(StoreError::MigrationFailed(v))
                } else {
                    Action::Ignored
                }
            },
        }
    }

    fn advance_from(&mut self, v: u32) -> (r: Action)
        ensures
            (final(self).view(), r) == after_version(v, old(self).target),
    {
        self.version = v;
        if v >= self.target {
            self.phase = Phase::Ready;
            Action::Done
        } else {
            self.phase = Phase::Migrating(v + 1);
            Action::Apply(v + 1)
        }
    }
}

/// When the migration to version `k` fails, the store stays at the version
/// before it: the manager records `k - 1`, reports the failure of `k` and
/// must be restarted rather than resumed.
pub proof fn lemma_failed_migration_keeps_previous_version(s: LifecycleModel, k: u32)
    requires
        s.wf(),
        s.phase == Phase::Migrating(k),
    ensures
        next(s, Event::Failed(k)).0.version == k - 1,
        next(s, Event::Failed(k)).0.phase == Phase::Uninitialized,
        next(s, Event::Failed(k)).1 == Action::Fail(StoreError::MigrationFailed(k)),
{
}

/// Making a ready store ready again reads the recorded version and finishes
/// at once, applying no migration and leaving the state as it was.
pub proof fn lemma_ensure_ready_idempotent(s: LifecycleModel)
    requires
        s.wf(),
        s.phase == Phase::Ready,
    ensures
        next(s, Event::Start).1 == Action::ReadVersion,
        next(next(s, Event::Start).0, Event::VersionRead(s.version)).1 == Action::Done,
        next(next(s, Event::Start).0, Event::VersionRead(s.version)).0 == s,
{
}

/// Migrations are applied in strictly increasing order, one version at a
/// time: after migration `v` commits, the only migration asked for next is
/// `v + 1`, and none once the last one has committed.
pub proof fn lemma_migrations_in_order(s: LifecycleModel, v: u32)
    requires
        s.wf(),
        s.phase == Phase::Migrating(v),
    ensures
        next(s, Event::Committed(v)).0.version == v,
        v < s.target ==> next(s, Event::Committed(v)).1 == Action::Apply((v + 1) as u32),
        v == s.target ==> next(s, Event::Committed(v)).1 == Action::Done,
{
}

/// The state reached from `s` when the host reports, one migration after
/// another, whether it committed (`true`) or failed (`false`). Reports stop
/// counting once no migration is running.
pub open spec fn run_migrations(s: LifecycleModel, outcomes: Seq<bool>) -> LifecycleModel
    decreases outcomes.len(),
{
    if outcomes.len() == 0 {
        s
    } else {
        match s.phase {
            Phase::Migrating(m) => {
                let e = if outcomes[0] {
                    Event::Committed(m)
                } else {
                    Event::Failed(m)
                };
                run_migrations(next(s, e).0, outcomes.drop_first())
            },
            _ => s,
        }
    }
}

/// `n` successful migrations followed by a failing one.
pub open spec fn commits_then_failure(n: nat) -> Seq<bool> {
    Seq::new(n, |i: int| true).push(false)
}

/// If, during a run, migration `k` fails after those before it committed,
/// the version recorded is `k - 1`: while migration `m` is running,
/// migrations `m` to `k - 1` commit and migration `k` fails.
pub proof fn lemma_run_failure_records_previous(s: LifecycleModel, k: u32)
    requires
        s.wf(),
        s.phase matches Phase::Migrating(m) && m <= k && k <= s.target,
    ensures
        ({
            let m = s.phase->Migrating_0;
            let r = run_migrations(s, commits_then_failure((k - m) as nat));
            r.version == k - 1 && r.phase == Phase::Uninitialized && r.target == s.target
        }),
    decreases k - s.phase->Migrating_0,
{
    let m = s.phase->Migrating_0;
    let n = (k - m) as nat;
    let o = commits_then_failure(n);
    if n > 0 {
        let s1 = next(s, Event::Committed(m)).0;
        assert(o[0]);
        assert(o.drop_first() =~= commits_then_failure((n - 1) as nat));
        assert(run_migrations(s, o) == run_migrations(s1, o.drop_first()));
        lemma_run_failure_records_previous(s1, k);
    } else {
        assert(!o[0]);
        let s1 = next(s, Event::Failed(m)).0;
        assert(o.drop_first() =~= Seq::<bool>::empty());
        assert(run_migrations(s, o) == run_migrations(s1, o.drop_first()));
    }
}

/// A run in which every pending migration commits ends ready at the last
/// version, having asked for each migration once, in order.
pub proof fn lemma_run_success_reaches_target(s: LifecycleModel)
    requires
        s.wf(),
        s.phase matches Phase::Migrating(m),
    ensures
        ({
            let m = s.phase->Migrating_0;
            let r = run_migrations(s, Seq::new((s.target - m + 1) as nat, |i: int| true));
            r.version == s.target && r.phase == Phase::Ready && r.target == s.target
        }),
    decreases s.target - s.phase->Migrating_0,
{
    let m = s.phase->Migrating_0;
    let o = Seq::new((s.target - m + 1) as nat, |i: int| true);
    let s1 = next(s, Event::Committed(m)).0;
    if m < s.target {
        assert(o.drop_first() =~= Seq::new((s.target - (m + 1) + 1) as nat, |i: int| true));
        assert(run_migrations(s, o) == run_migrations(s1, o.drop_first()));
        lemma_run_success_reaches_target(s1);
    } else {
        assert(o.drop_first() =~= Seq::<bool>::empty());
        assert(run_migrations(s, o) == run_migrations(s1, o.drop_first()));
    }
}

} // verus!
