use shortener::database::{
    collect_row, hit_counted, key_attempt, sql_call, url_info_from_cells, SqlStatement,
    INSERT_CODE_SQL, INSERT_KEY_SQL,
};
use shortener::sqlite::{IntegerCell, OptionalIntegerCell, SqlFailure, TextCell};
use shortener::DatabaseError;

#[test]
fn statements_bind_their_parameters_in_order() {
    let call = sql_call(SqlStatement::InsertCode {
        code: "abc",
        url: "https://example.com",
        created_by: "alice",
    });
    assert_eq!(call.sql, INSERT_CODE_SQL);
    assert_eq!(call.params, vec!["abc", "https://example.com", "alice"]);
    let call = sql_call(SqlStatement::InsertKey { key_hash: "h", username: "bob" });
    assert_eq!(call.sql, INSERT_KEY_SQL);
    assert_eq!(call.params, vec!["h", "bob"]);
    assert!(sql_call(SqlStatement::AllCodes).params.is_empty());
}

#[test]
fn collecting_rows() {
    let mut items = vec![1];
    assert!(collect_row(&mut items, Ok(Some(2))).is_none());
    assert_eq!(items, vec![1, 2]);
    assert!(matches!(collect_row(&mut items, Ok(None)), Some(Ok(()))));
    assert!(matches!(
        collect_row(&mut items, Err(rusqlite::Error::InvalidQuery)),
        Some(Err(_))
    ));
    assert_eq!(items, vec![1, 2]);
}

#[test]
fn url_info_takes_each_field_from_its_column() {
    let info = url_info_from_cells(
        TextCell { column: 0, value: "abc".to_owned() },
        TextCell { column: 1, value: "https://example.com".to_owned() },
        IntegerCell { column: 2, value: 10 },
        TextCell { column: 3, value: "alice".to_owned() },
        IntegerCell { column: 4, value: 3 },
        OptionalIntegerCell { column: 5, value: Some(20) },
    );
    assert_eq!(info.code, "abc");
    assert_eq!(info.url, "https://example.com");
    assert_eq!(info.created_at, 10);
    assert_eq!(info.created_by, "alice");
    assert_eq!(info.hits, 3);
    assert_eq!(info.last_hit, Some(20));
}

#[test]
fn key_attempts() {
    assert_eq!(key_attempt("k".to_owned(), Ok(1)).unwrap().unwrap(), "k");
    let taken = SqlFailure::ConstraintViolation(rusqlite::Error::InvalidQuery);
    assert!(key_attempt("k".to_owned(), Err(taken)).is_none());
    let other = SqlFailure::Other(rusqlite::Error::InvalidQuery);
    assert!(matches!(
        key_attempt("k".to_owned(), Err(other)),
        Some(Err(DatabaseError::Sqlite(_)))
    ));
}

#[test]
fn hit_counting_step() {
    assert_eq!(hit_counted("u".to_owned(), Ok(1)).unwrap(), "u");
    let failed = SqlFailure::Other(rusqlite::Error::InvalidQuery);
    assert!(matches!(hit_counted("u".to_owned(), Err(failed)), Err(DatabaseError::Sqlite(_))));
}
