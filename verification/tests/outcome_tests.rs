use shortener::database::{change_outcome, insert_outcome, lookup_outcome};
use shortener::server::{
    code_attempt, created_outcome, custom_code_outcome, key_checked_step, redirect_outcome,
    CodeAttempt, RequestStep,
};
use shortener::sqlite::SqlFailure;
use shortener::DatabaseError;

#[test]
fn insert_outcomes() {
    assert!(insert_outcome(Ok(1), DatabaseError::CodeAlreadyInUse).is_ok());
    let conflict = SqlFailure::ConstraintViolation(rusqlite::Error::QueryReturnedNoRows);
    assert!(matches!(
        insert_outcome(Err(conflict), DatabaseError::UsernameAlreadyInUse),
        Err(DatabaseError::UsernameAlreadyInUse)
    ));
    let other = SqlFailure::Other(rusqlite::Error::InvalidQuery);
    assert!(matches!(
        insert_outcome(Err(other), DatabaseError::CodeAlreadyInUse),
        Err(DatabaseError::Sqlite(rusqlite::Error::InvalidQuery))
    ));
}

#[test]
fn change_outcomes() {
    assert!(change_outcome(Ok(2)).is_ok());
    assert!(matches!(change_outcome(Ok(0)), Err(DatabaseError::NotFound)));
    let conflict = SqlFailure::ConstraintViolation(rusqlite::Error::InvalidQuery);
    assert!(matches!(change_outcome(Err(conflict)), Err(DatabaseError::Sqlite(_))));
}

#[test]
fn lookup_outcomes() {
    assert_eq!(lookup_outcome(Ok(Some(7))).unwrap(), 7);
    assert!(matches!(lookup_outcome::<i64>(Ok(None)), Err(DatabaseError::NotFound)));
    assert!(matches!(
        lookup_outcome::<i64>(Err(rusqlite::Error::InvalidQuery)),
        Err(DatabaseError::Sqlite(_))
    ));
}

#[test]
fn redirect_outcomes() {
    let h = redirect_outcome("h GET /x", Ok("https://example.com".to_owned()));
    assert_eq!(h.response.status, 302);
    assert_eq!(h.log_lines, vec!["h GET /x => https://example.com".to_owned()]);
    let h = redirect_outcome("h GET /x", Err(DatabaseError::Sqlite(rusqlite::Error::InvalidQuery)));
    assert_eq!(h.response.status, 500);
    assert!(h.log_lines[0].starts_with("h GET /x ["));
    assert!(h.log_lines[0].ends_with(']'));
}

#[test]
fn auth_and_create_outcomes() {
    match key_checked_step("abc".to_owned(), "h POST /abc".to_owned(), Ok("alice".to_owned())) {
        RequestStep::ReadBody(p) => {
            assert_eq!(p.created_by, "alice");
            assert_eq!(p.custom_code, "abc");
            assert_eq!(p.request_line, "h POST /abc");
        }
        RequestStep::Done(_) => panic!("expected the request to go on"),
    }
    match key_checked_step(String::new(), "h POST /".to_owned(), Err(DatabaseError::NotFound)) {
        RequestStep::Done(h) => {
            assert_eq!(h.response.status, 401);
            assert_eq!(h.log_lines, vec!["h POST / [Invalid credentials]".to_owned()]);
        }
        RequestStep::ReadBody(_) => panic!("expected a refusal"),
    }

    let h = created_outcome("h POST /", "https://s.example/", "https://t.example", "abc");
    assert_eq!(h.response.status, 200);
    assert_eq!(h.response.body, "https://s.example/abc\n");
    assert_eq!(
        h.log_lines,
        vec!["h POST / (https://t.example) => https://s.example/abc".to_owned()]
    );

    let h = custom_code_outcome("h POST /abc", "p/", "t", "abc", Err(DatabaseError::CodeAlreadyInUse));
    assert_eq!(h.response.status, 409);
    let h = custom_code_outcome("h POST /abc", "p/", "t", "abc", Err(DatabaseError::NotFound));
    assert_eq!(h.response.status, 500);
    assert_eq!(h.log_lines, vec!["h POST /abc [not found]".to_owned()]);
    let h = custom_code_outcome("h POST /abc", "p/", "t", "abc", Ok(()));
    assert_eq!(h.response.body, "p/abc\n");
}

#[test]
fn error_messages_of_outside_errors_are_their_display_text() {
    let e = DatabaseError::Sqlite(rusqlite::Error::QueryReturnedNoRows);
    assert_eq!(e.message(), rusqlite::Error::QueryReturnedNoRows.to_string());
    let db = shortener::Database::new_in_memory().unwrap();
    db.init().unwrap();
    match db.check_api_key("not!valid!base64") {
        Err(e @ DatabaseError::ApiKey(_)) => assert!(!e.message().is_empty()),
        _ => panic!("expected a decoding error"),
    }
}

#[test]
fn code_attempt_outcomes() {
    match code_attempt("h POST /", 2, "Ab3".to_owned(), Ok(())) {
        CodeAttempt::Stored(code) => assert_eq!(code, "Ab3"),
        CodeAttempt::Failed(_) => panic!("expected the code to be stored"),
    }
    match code_attempt("h POST /", 1, "Ab3".to_owned(), Err(DatabaseError::CodeAlreadyInUse)) {
        CodeAttempt::Failed(line) => {
            assert_eq!(line, "h POST / [Attempt 1: Ab3: Code already in use]")
        }
        CodeAttempt::Stored(_) => panic!("expected a failure"),
    }
    match code_attempt("h POST /", 0, "x".to_owned(), Err(DatabaseError::NotFound)) {
        CodeAttempt::Failed(line) => assert_eq!(line, "h POST / [Attempt 0: x: not found]"),
        CodeAttempt::Stored(_) => panic!("expected a failure"),
    }
}
