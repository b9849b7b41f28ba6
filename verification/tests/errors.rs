use lmdb_tui::errors::AppError;

#[test]
fn formats_database_not_found() {
    let err = AppError::DatabaseNotFound("foo".into());
    assert_eq!(err.message(), "database not found: foo");
}

#[test]
fn messages_of_the_other_kinds() {
    assert_eq!(AppError::EmptyQuery.message(), "empty query");
    assert_eq!(AppError::BadQuery("invalid range".into()).message(), "bad query: invalid range");
    assert_eq!(AppError::BadRegex("oops".into()).message(), "bad regex: oops");
    assert_eq!(AppError::Undecodable.message(), "unable to decode value");
    assert_eq!(AppError::Storage("disk full".into()).message(), "disk full");
    assert_eq!(AppError::NotFound.message(), "not found");
    assert_eq!(AppError::PermissionDenied.message(), "permission denied");
    assert_eq!(AppError::ReadOnlyEnv.message(), "environment is read-only");
    assert_eq!(AppError::WriterBusy.message(), "another writer is active");
    assert_eq!(AppError::Corruption.message(), "store is corrupt");
}

#[test]
fn exit_codes() {
    assert_eq!(AppError::NotFound.exit_code(), 2);
    assert_eq!(AppError::DatabaseNotFound("x".into()).exit_code(), 1);
    assert_eq!(AppError::PermissionDenied.exit_code(), 3);
    assert_eq!(AppError::WriterBusy.exit_code(), 1);
    assert_eq!(AppError::ReadOnlyEnv.exit_code(), 1);
    assert_eq!(AppError::Corruption.exit_code(), 1);
    assert_eq!(AppError::Storage("x".into()).exit_code(), 1);
    assert_eq!(AppError::EmptyQuery.exit_code(), 1);
}
