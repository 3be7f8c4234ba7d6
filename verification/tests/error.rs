use desktop_backend::error::{AppError, AppResult};

#[test]
fn each_kind_renders_with_its_prefix() {
    assert_eq!(
        AppError::Database(String::from("disk full")).to_string(),
        "Database error: disk full"
    );
    assert_eq!(
        AppError::Io(String::from("permission denied")).to_string(),
        "IO error: permission denied"
    );
    assert_eq!(
        AppError::NotFound(String::from("item 7")).to_string(),
        "Not found: item 7"
    );
    assert_eq!(
        AppError::Validation(String::from("Name cannot be empty")).to_string(),
        "Validation error: Name cannot be empty"
    );
}

#[test]
fn an_empty_message_leaves_the_prefix() {
    assert_eq!(AppError::NotFound(String::new()).to_string(), "Not found: ");
}

#[test]
fn rendered_text_tells_errors_apart() {
    let errors = vec![
        AppError::Database(String::from("x")),
        AppError::Io(String::from("x")),
        AppError::NotFound(String::from("x")),
        AppError::Validation(String::from("x")),
        AppError::Validation(String::from("y")),
        AppError::Io(String::from("Database error: x")),
    ];
    for (i, a) in errors.iter().enumerate() {
        for (j, b) in errors.iter().enumerate() {
            assert_eq!(a.to_string() == b.to_string(), i == j);
        }
    }
}

#[test]
fn a_driver_failure_becomes_a_database_error() {
    let error = AppError::from(sqlx::Error::RowNotFound);
    assert_eq!(
        error,
        AppError::Database(sqlx::Error::RowNotFound.to_string())
    );
    assert_eq!(
        AppError::from(sqlx::Error::PoolTimedOut).to_string(),
        format!("Database error: {}", sqlx::Error::PoolTimedOut)
    );
}

#[test]
fn a_file_system_failure_becomes_an_io_error() {
    let failure = std::io::Error::new(std::io::ErrorKind::PermissionDenied, "no access");
    assert_eq!(AppError::from(failure), AppError::Io(String::from("no access")));
}

#[test]
fn question_mark_converts_failures() {
    fn storage() -> AppResult<u8> {
        Err(sqlx::Error::PoolClosed)?
    }
    fn disk() -> AppResult<u8> {
        Err(std::io::Error::new(std::io::ErrorKind::NotFound, "gone"))?
    }
    assert!(matches!(storage(), Err(AppError::Database(_))));
    assert_eq!(disk(), Err(AppError::Io(String::from("gone"))));
}
