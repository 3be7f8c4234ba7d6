//! Connection settings of the embedded database.
//!
//! The database is one SQLite file in the application's data directory.
//! This module says how a pool on that file is to be opened: the address
//! of the file, that the file is created when missing, the journal mode,
//! the bound on the number of connections and how long a caller waits for
//! one.

use crate::error::AppError;
use sqlx::sqlite::SqliteConnectOptions;
use vstd::prelude::*;
use vstd::string::*;

verus! {

/// Name of the database file inside the data directory.
pub const DATABASE_FILE_NAME: &'static str = "app.db";

/// Most connections the pool keeps open at once.
pub const MAX_CONNECTIONS: u32 = 5;

/// Journal mode of a SQLite connection.
#[derive(Debug, Clone, Copy, PartialEq, Eq, Structural)]
pub enum JournalMode {
    Delete,
    Truncate,
    Persist,
    Memory,
    /// Write-ahead log: readers go on while a writer commits.
    Wal,
    Off,
}

/// How the pool on the database file is opened.
#[derive(Debug, PartialEq, Eq)]
pub struct ConnectionSettings {
    /// Address of the database file.
    pub url: String,
    /// Whether a missing file is created.
    pub create_if_missing: bool,
    /// Journal mode set on every connection.
    pub journal_mode: JournalMode,
    /// Most connections open at once.
    pub max_connections: u32,
    /// Seconds after which a caller that waits for a connection gives up;
    /// `None` when it waits until one is released, however long.
    pub checkout_timeout_secs: Option<u64>,
}

/// What [`ConnectionSettings`] are in contracts.
pub struct SettingsModel {
    pub url: Seq<char>,
    pub create_if_missing: bool,
    pub journal_mode: JournalMode,
    pub max_connections: u32,
    pub checkout_timeout_secs: Option<u64>,
}

impl View for ConnectionSettings {
    type V = SettingsModel;

    open spec fn view(&self) -> SettingsModel {
        SettingsModel {
            url: self.url@,
            create_if_missing: self.create_if_missing,
            journal_mode: self.journal_mode,
            max_connections: self.max_connections,
            checkout_timeout_secs: self.checkout_timeout_secs,
        }
    }
}

/// Address of the database file at `path`.
pub open spec fn url_of(path: Seq<char>) -> Seq<char> {
    "sqlite:"@ + path
}

/// The settings the backend opens the file at `path` with: the file is
/// created when missing, the journal is a write-ahead log, at most
/// [`MAX_CONNECTIONS`] connections are open at once, and a caller that
/// finds them all in use waits until one is released, without a time-out.
pub open spec fn settings_of(path: Seq<char>) -> SettingsModel {
    SettingsModel {
        url: url_of(path),
        create_if_missing: true,
        journal_mode: JournalMode::Wal,
        max_connections: MAX_CONNECTIONS,
        checkout_timeout_secs: None,
    }
}

/// The address holds neither an escape (`%`) nor parameters (`?`): the
/// driver reads every such address.
pub open spec fn plain_address(url: Seq<char>) -> bool {
    forall|i: int| 0 <= i < url.len() ==> url[i] != '%' && url[i] != '?'
}

/// The address of a path is plain exactly when the path is.
pub proof fn lemma_plain_path_has_plain_address(path: Seq<char>)
    ensures
        plain_address(url_of(path)) <==> plain_address(path),
{
    reveal_strlit("sqlite:");
    let url = url_of(path);
    if plain_address(path) {
        assert forall|i: int| 0 <= i < url.len() implies url[i] != '%' && url[i] != '?' by {
            if i >= 7 {
                assert(url[i] == path[i - 7]);
            }
        }
    }
    if plain_address(url) {
        assert forall|i: int| 0 <= i < path.len() implies path[i] != '%' && path[i] != '?' by {
            assert(url[i + 7] == path[i]);
        }
    }
}

/// Address of the database file at `db_path`.
pub fn database_url(db_path: &str) -> (url: String)
    ensures
        url@ == url_of(db_path@),
{
    String::from_str("sqlite:").concat(db_path)
}

/// Settings for the pool on the database file at `db_path`. For a plain
/// path the address is plain too, so the driver reads it.
pub fn connection_settings(db_path: &str) -> (settings: ConnectionSettings)
    ensures
        settings@ == settings_of(db_path@),
        plain_address(db_path@) ==> plain_address(settings.url@),
{
    proof {
        lemma_plain_path_has_plain_address(db_path@);
    }
    ConnectionSettings {
        url: database_url(db_path),
        create_if_missing: true,
        journal_mode: JournalMode::Wal,
        max_connections: MAX_CONNECTIONS,
        checkout_timeout_secs: None,
    }
}

/// `sqlx::sqlite::SqliteConnectOptions`, the connect options of the SQLite
/// driver. The verifier sees nothing inside them.
#[verifier::external_type_specification]
#[verifier::external_body]
pub struct ExConnectOptions(SqliteConnectOptions);

/// Whether `SqliteConnectOptions::from_str` reads the connection address
/// `url`. The driver decides this from the characters of the address
/// alone: it takes the scheme off, decodes the escapes of the file name
/// and goes through the parameters after `?`.
pub uninterp spec fn driver_reads(url: Seq<char>) -> bool;

/// Whether the file is created when it is missing, as `options` have it.
pub uninterp spec fn creates_missing_file(options: SqliteConnectOptions) -> bool;

/// The journal mode that `options` set on a connection, if they set one.
pub uninterp spec fn journal_mode_set(options: SqliteConnectOptions) -> Option<JournalMode>;

/// Calls `SqliteConnectOptions::from_str`, which reads a connection
/// address. It succeeds exactly on the addresses that [`driver_reads`]
/// names. The driver fails only on an escape that does not decode to
/// text, on a parameter it does not know and on a value it does not know
/// for a parameter it knows; all of these need a `%` or a `?`, so an
/// address without either is read. Nothing is claimed of the options it
/// returns.
#[verifier::external_body]
fn parse_connect_options(url: &str) -> (parsed: Result<SqliteConnectOptions, sqlx::Error>)
    ensures
        parsed is Ok <==> driver_reads(url@),
        plain_address(url@) ==> parsed is Ok,
{
    <SqliteConnectOptions as std::str::FromStr>::from_str(url)
}

/// Calls `SqliteConnectOptions::create_if_missing`, which sets whether a
/// missing file is created and leaves everything else in the options as
/// it was, the journal mode included.
#[verifier::external_body]
fn with_create_if_missing(options: SqliteConnectOptions, create: bool) -> (changed:
    SqliteConnectOptions)
    ensures
        creates_missing_file(changed) == create,
        journal_mode_set(changed) == journal_mode_set(options),
{
    options.create_if_missing(create)
}

/// Calls `SqliteConnectOptions::journal_mode` with the driver's mode of
/// the same name, which sets the journal mode and leaves everything else
/// in the options as it was, the creation of a missing file included.
#[verifier::external_body]
fn with_journal_mode(options: SqliteConnectOptions, mode: JournalMode) -> (changed:
    SqliteConnectOptions)
    ensures
        journal_mode_set(changed) == Some(mode),
        creates_missing_file(changed) == creates_missing_file(options),
{
    options.journal_mode(
        match mode {
            JournalMode::Delete => sqlx::sqlite::SqliteJournalMode::Delete,
            JournalMode::Truncate => sqlx::sqlite::SqliteJournalMode::Truncate,
            JournalMode::Persist => sqlx::sqlite::SqliteJournalMode::Persist,
            JournalMode::Memory => sqlx::sqlite::SqliteJournalMode::Memory,
            JournalMode::Wal => sqlx::sqlite::SqliteJournalMode::Wal,
            JournalMode::Off => sqlx::sqlite::SqliteJournalMode::Off,
        },
    )
}

/// The driver's `options` create a missing file and set the journal mode
/// as `settings` say.
pub open spec fn carries(options: SqliteConnectOptions, settings: SettingsModel) -> bool {
    creates_missing_file(options) == settings.create_if_missing && journal_mode_set(options)
        == Some(settings.journal_mode)
}

/// Finishes the driver's options from what its parser returned: options
/// that were read get the settings' creation policy and journal mode, a
/// failure to read the address becomes a database error with the driver's
/// message.
pub fn apply_settings(
    parsed: Result<SqliteConnectOptions, sqlx::Error>,
    settings: &ConnectionSettings,
) -> (result: Result<SqliteConnectOptions, AppError>)
    ensures
        match parsed {
            Ok(_) => result is Ok && carries(result->Ok_0, settings@),
            Err(failure) => result is Err && result->Err_0 is Database
                && to_string_from_display_ensures::<sqlx::Error>(
                &failure,
                result->Err_0->Database_0,
            ),
        },
{
    match parsed {
        Ok(options) => {
            let options = with_create_if_missing(options, settings.create_if_missing);
            Ok(with_journal_mode(options, settings.journal_mode))
        },
        Err(failure) => Err(AppError::from(failure)),
    }
}

/// The driver's connect options for `settings`: what the driver reads
/// from the settings' address, with the settings' creation policy and
/// journal mode set on it. There are options exactly when the driver
/// reads the address, which it does of every plain one; when it does
/// not, the error is a database error.
pub fn connect_options(settings: &ConnectionSettings) -> (result: Result<
    SqliteConnectOptions,
    AppError,
>)
    ensures
        result is Ok <==> driver_reads(settings.url@),
        plain_address(settings.url@) ==> result is Ok,
        result is Ok ==> carries(result->Ok_0, settings@),
        result is Err ==> result->Err_0 is Database,
{
    apply_settings(parse_connect_options(settings.url.as_str()), settings)
}

} // verus!
