use desktop_backend::db::settings::{
    apply_settings, connect_options, connection_settings, database_url, ConnectionSettings,
    JournalMode, DATABASE_FILE_NAME, MAX_CONNECTIONS,
};
use desktop_backend::error::AppError;
use sqlx::sqlite::SqliteConnectOptions;
use sqlx::ConnectOptions;
use std::path::Path;
use std::str::FromStr;

#[test]
fn the_database_file_and_the_pool_bound_are_fixed() {
    assert_eq!(DATABASE_FILE_NAME, "app.db");
    assert_eq!(MAX_CONNECTIONS, 5);
}

#[test]
fn the_address_is_the_scheme_and_the_path() {
    assert_eq!(database_url("/data/app/app.db"), "sqlite:/data/app/app.db");
    assert_eq!(database_url(""), "sqlite:");
    assert_eq!(database_url("C:\\Users\\a b\\app.db"), "sqlite:C:\\Users\\a b\\app.db");
}

#[test]
fn settings_create_the_file_use_the_log_and_bound_the_pool() {
    assert_eq!(
        connection_settings("/data/app/app.db"),
        ConnectionSettings {
            url: String::from("sqlite:/data/app/app.db"),
            create_if_missing: true,
            journal_mode: JournalMode::Wal,
            max_connections: 5,
            checkout_timeout_secs: None,
        }
    );
}

#[test]
fn a_caller_waits_for_a_connection_without_a_time_out() {
    assert_eq!(connection_settings("/data/app/app.db").checkout_timeout_secs, None);
    assert_eq!(connection_settings("").checkout_timeout_secs, None);
}

#[test]
fn driver_options_carry_the_settings() {
    let options = connect_options(&connection_settings("/data/app/app.db")).unwrap();
    assert_eq!(options.get_filename(), Path::new("/data/app/app.db"));
    let url = options.to_url_lossy();
    assert!(url.as_str().contains("mode=rwc"));
    let shown = format!("{:?}", options);
    assert!(shown.contains("\"journal_mode\": Some(\"WAL\")"));
    assert!(shown.contains("create_if_missing: true"));
}

#[test]
fn driver_options_follow_other_settings() {
    let settings = ConnectionSettings {
        url: String::from("sqlite:plain.db"),
        create_if_missing: false,
        journal_mode: JournalMode::Truncate,
        max_connections: 1,
        checkout_timeout_secs: Some(30),
    };
    let options = connect_options(&settings).unwrap();
    assert_eq!(options.get_filename(), Path::new("plain.db"));
    assert!(options.to_url_lossy().as_str().contains("mode=rw&"));
    let shown = format!("{:?}", options);
    assert!(shown.contains("\"journal_mode\": Some(\"TRUNCATE\")"));
    assert!(shown.contains("create_if_missing: false"));
}

#[test]
fn every_journal_mode_reaches_the_driver() {
    let modes = [
        (JournalMode::Delete, "DELETE"),
        (JournalMode::Truncate, "TRUNCATE"),
        (JournalMode::Persist, "PERSIST"),
        (JournalMode::Memory, "MEMORY"),
        (JournalMode::Wal, "WAL"),
        (JournalMode::Off, "OFF"),
    ];
    for (mode, name) in modes {
        let mut settings = connection_settings("a.db");
        settings.journal_mode = mode;
        let shown = format!("{:?}", connect_options(&settings).unwrap());
        assert!(shown.contains(&format!("\"journal_mode\": Some(\"{}\")", name)));
    }
}

#[test]
fn an_address_the_driver_cannot_read_is_a_database_error() {
    let result = connect_options(&connection_settings("/data/app.db?bogus=1"));
    match result {
        Err(AppError::Database(message)) => assert!(message.contains("bogus")),
        other => panic!("expected a database error, got {:?}", other.map(|_| ())),
    }
}

#[test]
fn a_plain_address_is_always_read() {
    for path in ["", "app.db", "/a b/c.db", "C:\\data\\app.db", ":memory:", "/tmp/ü#x/app.db"] {
        assert!(connect_options(&connection_settings(path)).is_ok());
    }
}

#[test]
fn an_escape_that_is_no_text_is_a_database_error() {
    let result = connect_options(&connection_settings("/data/%FF/app.db"));
    assert!(matches!(result, Err(AppError::Database(_))));
}

#[test]
fn there_are_options_exactly_when_the_driver_reads_the_address() {
    let addresses = [
        "sqlite:app.db",
        "sqlite://app.db",
        "sqlite::memory:",
        "sqlite:a.db?mode=ro",
        "sqlite:a.db?mode=rwc&cache=shared",
        "sqlite:a.db?immutable=1",
        "sqlite:a%20b.db",
        "sqlite:a.db?mode=sideways",
        "sqlite:a.db?cache=none",
        "sqlite:a.db?bogus=1",
        "sqlite:%FF.db",
        "a.db",
        "",
    ];
    for address in addresses {
        let settings = ConnectionSettings {
            url: String::from(address),
            create_if_missing: true,
            journal_mode: JournalMode::Wal,
            max_connections: 5,
            checkout_timeout_secs: None,
        };
        assert_eq!(
            connect_options(&settings).is_ok(),
            SqliteConnectOptions::from_str(address).is_ok()
        );
    }
    let read = |address: &str| {
        connect_options(&ConnectionSettings {
            url: String::from(address),
            create_if_missing: true,
            journal_mode: JournalMode::Wal,
            max_connections: 5,
            checkout_timeout_secs: None,
        })
        .is_ok()
    };
    assert!(read("sqlite:a.db?mode=ro"));
    assert!(read("sqlite:a%20b.db"));
    assert!(!read("sqlite:a.db?mode=sideways"));
    assert!(!read("sqlite:%FF.db"));
}

#[test]
fn a_parse_failure_keeps_the_driver_message() {
    let failure = SqliteConnectOptions::from_str("sqlite:a.db?mode=sideways").unwrap_err();
    let message = failure.to_string();
    let result = apply_settings(Err(failure), &connection_settings("a.db"));
    assert_eq!(result.map(|_| ()), Err(AppError::Database(message)));
}

#[test]
fn parsed_options_get_the_settings_applied() {
    let parsed = SqliteConnectOptions::from_str("sqlite:other.db");
    let options = apply_settings(parsed, &connection_settings("a.db")).unwrap();
    assert_eq!(options.get_filename(), Path::new("other.db"));
    assert!(options.to_url_lossy().as_str().contains("mode=rwc"));
    assert!(format!("{:?}", options).contains("\"journal_mode\": Some(\"WAL\")"));
}
