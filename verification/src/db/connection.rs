//! Connection pool and migration management: the order of the startup
//! steps.
//!
//! Startup prepares the data directory, opens the pool on the database
//! file in it, applies the pending migrations and only then publishes the
//! shared state. Each step is work on the disk or the database, done by
//! the caller; this module decides what comes next. The caller performs
//! the [`Action`] it is given and reports the [`Outcome`]; the first
//! failure ends startup.

use crate::db::settings::{
    connection_settings, settings_of, ConnectionSettings, SettingsModel, DATABASE_FILE_NAME,
};
use crate::error::{AppError, ErrorModel};
use vstd::prelude::*;
use vstd::string::*;

verus! {

/// Where startup stands.
#[derive(Debug, Clone, Copy, PartialEq, Eq, Structural)]
pub enum Phase {
    /// The data directory is being resolved and created.
    PreparingDirectory,
    /// The pool is being opened.
    OpeningPool,
    /// The pool is open and the migrations are being applied.
    Migrating,
    /// The shared state is published; handlers may run.
    Ready,
    /// A step failed; startup is over.
    Failed,
}

/// What the caller reports of the step it performed.
#[derive(Debug, PartialEq, Eq)]
pub enum Outcome {
    /// The data directory exists; the text is the path of the database
    /// file inside it.
    DirectoryReady(String),
    /// The pool is open.
    PoolOpened,
    /// Every pending migration is applied.
    MigrationsApplied,
    /// The step failed, with this message.
    Failed(String),
}

/// What an [`Outcome`] is in contracts.
pub enum OutcomeModel {
    DirectoryReady(Seq<char>),
    PoolOpened,
    MigrationsApplied,
    Failed(Seq<char>),
}

impl View for Outcome {
    type V = OutcomeModel;

    open spec fn view(&self) -> OutcomeModel {
        match self {
            Outcome::DirectoryReady(path) => OutcomeModel::DirectoryReady(path@),
            Outcome::PoolOpened => OutcomeModel::PoolOpened,
            Outcome::MigrationsApplied => OutcomeModel::MigrationsApplied,
            Outcome::Failed(message) => OutcomeModel::Failed(message@),
        }
    }
}

/// What the caller is to do next.
#[derive(Debug, PartialEq, Eq)]
pub enum Action {
    /// Resolve the data directory, create it if it is missing, and name
    /// the file of this name inside it: that file is the database.
    PrepareDirectory(String),
    /// Open the pool with these settings.
    OpenPool(ConnectionSettings),
    /// Apply the pending migrations on the open pool.
    RunMigrations,
    /// Publish the shared state that holds the pool.
    Publish,
    /// Give startup up with this error.
    Abort(AppError),
    /// Startup is over; there is nothing to do.
    Nothing,
}

/// What an [`Action`] is in contracts.
pub enum ActionModel {
    PrepareDirectory(Seq<char>),
    OpenPool(SettingsModel),
    RunMigrations,
    Publish,
    Abort(ErrorModel),
    Nothing,
}

impl View for Action {
    type V = ActionModel;

    open spec fn view(&self) -> ActionModel {
        match self {
            Action::PrepareDirectory(file_name) => ActionModel::PrepareDirectory(file_name@),
            Action::OpenPool(settings) => ActionModel::OpenPool(settings@),
            Action::RunMigrations => ActionModel::RunMigrations,
            Action::Publish => ActionModel::Publish,
            Action::Abort(error) => ActionModel::Abort(error@),
            Action::Nothing => ActionModel::Nothing,
        }
    }
}

/// Message of the error for an outcome that does not answer the step in
/// progress.
pub open spec fn out_of_order() -> Seq<char> {
    "Startup step reported out of order"@
}

/// The phase that follows `phase` when `outcome` is reported.
///
/// A finished startup stays as it is. A failure ends startup. A success
/// moves on only when it answers the step in progress; any other report
/// ends startup too.
pub open spec fn next_phase(phase: Phase, outcome: OutcomeModel) -> Phase {
    match (phase, outcome) {
        (Phase::Ready, _) => Phase::Ready,
        (Phase::PreparingDirectory, OutcomeModel::DirectoryReady(_)) => Phase::OpeningPool,
        (Phase::OpeningPool, OutcomeModel::PoolOpened) => Phase::Migrating,
        (Phase::Migrating, OutcomeModel::MigrationsApplied) => Phase::Ready,
        _ => Phase::Failed,
    }
}

/// What the caller is told to do when `outcome` is reported in `phase`.
///
/// A failure of the directory step is an I/O error; a failure to open the
/// pool or to migrate is a database error; a report out of order is a
/// validation error.
pub open spec fn next_action(phase: Phase, outcome: OutcomeModel) -> ActionModel {
    match (phase, outcome) {
        (Phase::Ready, _) => ActionModel::Nothing,
        (Phase::Failed, _) => ActionModel::Nothing,
        (Phase::PreparingDirectory, OutcomeModel::DirectoryReady(path)) => ActionModel::OpenPool(
            settings_of(path),
        ),
        (Phase::PreparingDirectory, OutcomeModel::Failed(message)) => ActionModel::Abort(
            ErrorModel::Io(message),
        ),
        (Phase::OpeningPool, OutcomeModel::PoolOpened) => ActionModel::RunMigrations,
        (Phase::OpeningPool, OutcomeModel::Failed(message)) => ActionModel::Abort(
            ErrorModel::Database(message),
        ),
        (Phase::Migrating, OutcomeModel::MigrationsApplied) => ActionModel::Publish,
        (Phase::Migrating, OutcomeModel::Failed(message)) => ActionModel::Abort(
            ErrorModel::Database(message),
        ),
        _ => ActionModel::Abort(ErrorModel::Validation(out_of_order())),
    }
}

/// The phase startup is in after the outcomes of `reports`, in order.
pub open spec fn phase_after(reports: Seq<OutcomeModel>) -> Phase
    decreases reports.len(),
{
    if reports.len() == 0 {
        Phase::PreparingDirectory
    } else {
        next_phase(phase_after(reports.drop_last()), reports.last())
    }
}

/// The action told to the caller for the report at position `at`.
pub open spec fn action_at(reports: Seq<OutcomeModel>, at: int) -> ActionModel {
    next_action(phase_after(reports.take(at)), reports[at])
}

/// The steps were taken in order: the phase tells which outcomes were
/// reported. In particular startup is ready only after the directory was
/// prepared, the pool opened and the migrations applied, in that order.
pub proof fn lemma_phase_tells_reports(reports: Seq<OutcomeModel>)
    ensures
        match phase_after(reports) {
            Phase::PreparingDirectory => reports.len() == 0,
            Phase::OpeningPool => reports.len() == 1 && reports[0] is DirectoryReady,
            Phase::Migrating => reports.len() == 2 && reports[0] is DirectoryReady && reports[1]
                == OutcomeModel::PoolOpened,
            Phase::Ready => reports.len() >= 3 && reports[0] is DirectoryReady && reports[1]
                == OutcomeModel::PoolOpened && reports[2] == OutcomeModel::MigrationsApplied,
            Phase::Failed => reports.len() >= 1,
        },
    decreases reports.len(),
{
    if reports.len() > 0 {
        lemma_phase_tells_reports(reports.drop_last());
    }
}

/// A finished startup stays as it is: once startup is ready or has
/// failed, no further report changes the phase.
pub proof fn lemma_finished_stays(reports: Seq<OutcomeModel>, more: Seq<OutcomeModel>)
    requires
        phase_after(reports) == Phase::Ready || phase_after(reports) == Phase::Failed,
    ensures
        phase_after(reports + more) == phase_after(reports),
    decreases more.len(),
{
    if more.len() == 0 {
        assert(reports + more =~= reports);
    } else {
        lemma_finished_stays(reports, more.drop_last());
        assert((reports + more).drop_last() =~= reports + more.drop_last());
    }
}

/// The first failure is fatal: a failure reported before startup is ready
/// leaves startup failed, whatever is reported after it.
pub proof fn lemma_failure_is_fatal(reports: Seq<OutcomeModel>, at: int)
    requires
        0 <= at < reports.len(),
        reports[at] is Failed,
        phase_after(reports.take(at)) != Phase::Ready,
    ensures
        phase_after(reports) == Phase::Failed,
{
    let upto = reports.take(at + 1);
    assert(upto.drop_last() =~= reports.take(at));
    assert(upto.last() == reports[at]);
    assert(phase_after(upto) == Phase::Failed);
    lemma_finished_stays(upto, reports.skip(at + 1));
    assert(upto + reports.skip(at + 1) =~= reports);
}

/// The migrations are run once in a startup, right after the pool was
/// opened: the report that is answered with [`ActionModel::RunMigrations`]
/// is the second, after the directory, and at that point nothing is
/// published yet.
pub proof fn lemma_migrations_follow_pool(reports: Seq<OutcomeModel>, at: int)
    requires
        0 <= at < reports.len(),
        action_at(reports, at) == ActionModel::RunMigrations,
    ensures
        at == 1,
        reports[0] is DirectoryReady,
        reports[1] == OutcomeModel::PoolOpened,
        phase_after(reports.take(at + 1)) == Phase::Migrating,
{
    let before = reports.take(at);
    lemma_phase_tells_reports(before);
    assert(phase_after(before) == Phase::OpeningPool);
    assert(before[0] == reports[0]);
    assert(reports.take(at + 1).drop_last() =~= before);
}

/// The shared state is published when the migrations are reported applied
/// on the open pool, and at no other time: the report that is answered
/// with [`ActionModel::Publish`] is the third, after the directory and the
/// pool.
pub proof fn lemma_publish_follows_migration(reports: Seq<OutcomeModel>, at: int)
    requires
        0 <= at < reports.len(),
        action_at(reports, at) == ActionModel::Publish,
    ensures
        at == 2,
        reports[0] is DirectoryReady,
        reports[1] == OutcomeModel::PoolOpened,
        reports[2] == OutcomeModel::MigrationsApplied,
        phase_after(reports.take(at + 1)) == Phase::Ready,
{
    let before = reports.take(at);
    lemma_phase_tells_reports(before);
    assert(phase_after(before) == Phase::Migrating);
    assert(before[0] == reports[0]);
    assert(before[1] == reports[1]);
    assert(reports.take(at + 1).drop_last() =~= before);
}

/// The shared state is published at most once in a startup.
pub proof fn lemma_published_once(reports: Seq<OutcomeModel>, first: int, second: int)
    requires
        0 <= first < reports.len(),
        0 <= second < reports.len(),
        action_at(reports, first) == ActionModel::Publish,
        action_at(reports, second) == ActionModel::Publish,
    ensures
        first == second,
{
    lemma_publish_follows_migration(reports, first);
    lemma_publish_follows_migration(reports, second);
}

/// One startup, from the first step to its end.
pub struct Startup {
    phase: Phase,
    reports: Ghost<Seq<OutcomeModel>>,
}

impl Startup {
    #[verifier::type_invariant]
    spec fn consistent(self) -> bool {
        self.phase == phase_after(self.reports@)
    }

    /// The outcomes reported so far, oldest first.
    pub closed spec fn reports(&self) -> Seq<OutcomeModel> {
        self.reports@
    }

    /// The phase startup is in.
    pub closed spec fn phase(&self) -> Phase {
        self.phase
    }

    /// The phase startup is in: the one that the reports so far lead to.
    pub fn current_phase(&self) -> (phase: Phase)
        ensures
            phase == self.phase(),
            phase == phase_after(self.reports()),
    {
        proof {
            use_type_invariant(self);
        }
        self.phase
    }

    /// Takes the outcome of the step in progress and tells what to do
    /// next.
    pub fn advance(&mut self, outcome: Outcome) -> (action: Action)
        ensures
            final(self).reports() == old(self).reports().push(outcome@),
            final(self).phase() == next_phase(old(self).phase(), outcome@),
            action@ == next_action(old(self).phase(), outcome@),
    {
        proof {
            use_type_invariant(&*self);
        }
        let ghost before = self.reports@;
        let ghost after = before.push(outcome@);
        proof {
            assert(after.drop_last() =~= before);
        }
        let (phase, action) = match (self.phase, outcome) {
            (Phase::Ready, _) => (Phase::Ready, Action::Nothing),
            (Phase::Failed, _) => (Phase::Failed, Action::Nothing),
            (Phase::PreparingDirectory, Outcome::DirectoryReady(path)) => (
                Phase::OpeningPool,
                Action::OpenPool(connection_settings(path.as_str())),
            ),
            (Phase::PreparingDirectory, Outcome::Failed(message)) => (
                Phase::Failed,
                Action::Abort(AppError::Io(message)),
            ),
            (Phase::OpeningPool, Outcome::PoolOpened) => (Phase::Migrating, Action::RunMigrations),
            (Phase::OpeningPool, Outcome::Failed(message)) => (
                Phase::Failed,
                Action::Abort(AppError::Database(message)),
            ),
            (Phase::Migrating, Outcome::MigrationsApplied) => (Phase::Ready, Action::Publish),
            (Phase::Migrating, Outcome::Failed(message)) => (
                Phase::Failed,
                Action::Abort(AppError::Database(message)),
            ),
            _ => (
                Phase::Failed,
                Action::Abort(
                    AppError::Validation(String::from_str("Startup step reported out of order")),
                ),
            ),
        };
        *self = Startup { phase, reports: Ghost(after) };
        action
    }
}

/// Begins startup: nothing is reported yet, and the first thing to do is
/// to prepare the data directory, in which the database is the file
/// [`DATABASE_FILE_NAME`].
pub fn initialize() -> (started: (Startup, Action))
    ensures
        started.0.reports() == Seq::<OutcomeModel>::empty(),
        started.0.phase() == Phase::PreparingDirectory,
        started.1@ == ActionModel::PrepareDirectory(DATABASE_FILE_NAME@),
{
    (
        Startup { phase: Phase::PreparingDirectory, reports: Ghost(Seq::empty()) },
        Action::PrepareDirectory(String::from_str(DATABASE_FILE_NAME)),
    )
}

} // verus!
