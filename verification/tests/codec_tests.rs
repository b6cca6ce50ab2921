use backlogrs::codec::{collect_sql, CodecError, Col, FromSqlRow, Row, SqlData, SqlType,
    UtcString};
use backlogrs::error::{on_err, LibError, ResponseSpec, STATUS_BAD_REQUEST};
use backlogrs::models::{Entry, Game, Library, Login, Status, User};
use backlogrs::pipeline::{get_from_router, parse_i32};

fn status_type() -> SqlType {
    SqlType::Other("status".to_string())
}

fn int_col(v: i32) -> Col {
    Col { ty: SqlType::Int4, data: SqlData::Int(v) }
}

fn text_col(s: &str) -> Col {
    Col { ty: SqlType::Varchar, data: SqlData::Text(s.to_string()) }
}

#[test]
fn status_round_trip_all_tags() {
    let ty = status_type();
    for status in [
        Status::Frozen,
        Status::CurrentlyPlaying,
        Status::Dropped,
        Status::PlanToPlay,
    ] {
        let mut out = String::new();
        status.to_sql(&ty, &mut out).expect("a matching column type encodes");
        let back = Status::from_sql(&ty, &out).expect("the emitted tag decodes");
        assert_eq!(back, status);
    }
}

#[test]
fn status_tags_are_the_literal_names() {
    let ty = status_type();
    let mut out = String::new();
    Status::CurrentlyPlaying.to_sql(&ty, &mut out).unwrap();
    assert_eq!(out, "CurrentlyPlaying");
}

#[test]
fn status_type_mismatch_is_distinct_from_bad_data() {
    // a wrong declared type points at the schema, not the data
    let mismatch = Status::from_sql(&SqlType::Int4, &"Frozen".to_string());
    assert_eq!(mismatch, Err(CodecError::TypeMismatch));
    let other = Status::from_sql(&SqlType::Other("mood".to_string()), &"Frozen".to_string());
    assert_eq!(other, Err(CodecError::TypeMismatch));
    // a right type with an unknown tag points at the stored content
    let bad_data = Status::from_sql(&status_type(), &"Paused".to_string());
    assert_eq!(bad_data, Err(CodecError::WrongValue));
    // encoding performs the same type check before emitting anything
    let mut out = String::new();
    assert_eq!(Status::Frozen.to_sql(&SqlType::Int4, &mut out), Err(CodecError::TypeMismatch));
    assert_eq!(out, "");
}

#[test]
fn utc_rendering_depends_on_the_instant() {
    let epoch = UtcString { secs: 0, nsecs: 0 };
    assert_eq!(epoch.to_string_repr().as_deref(), Some("1970-01-01T00:00:00Z"));
    let later = UtcString { secs: 1424520000, nsecs: 0 };
    assert_eq!(later.to_string_repr().as_deref(), Some("2015-02-21T12:00:00Z"));
    // far outside the representable calendar range
    let unrepresentable = UtcString { secs: i64::MAX, nsecs: 0 };
    assert!(unrepresentable.to_string_repr().is_none());
    // an invalid nanosecond part is rejected too
    let bad_nanos = UtcString { secs: 0, nsecs: 2_000_000_000 };
    assert!(bad_nanos.to_string_repr().is_none());
}

#[test]
fn user_row_decodes_positionally() {
    let row = Row {
        cols: vec![int_col(7), text_col("ada"), text_col("ignored"), text_col("ada@example.net")],
    };
    let user = User::from_sql_row(&row).unwrap();
    assert_eq!(user.id, Some(7));
    assert_eq!(user.username, "ada");
    assert_eq!(user.email, "ada@example.net");
}

#[test]
fn login_row_decodes_positionally() {
    let row = Row {
        cols: vec![int_col(7), text_col("ada"), text_col("pw"), text_col("ada@example.net")],
    };
    let l = Login::from_sql_row(&row).unwrap();
    assert_eq!(l.id, Some(7));
    assert_eq!(l.password, "pw");
}

#[test]
fn library_row_decodes_positionally() {
    let row = Row { cols: vec![int_col(4), int_col(7), int_col(9)] };
    let l = Library::from_sql_row(&row).unwrap();
    assert_eq!(l.id, Some(4));
    assert_eq!(l.login_id, 7);
    assert_eq!(l.entry_id, 9);
    assert!(l.user.is_none());
    assert!(l.entry.is_none());
}

#[test]
fn game_row_decodes_positionally() {
    let row = Row { cols: vec![int_col(3), text_col("Orbiting"), text_col("space")] };
    let g = Game::from_sql_row(&row).unwrap();
    assert_eq!(g.id, Some(3));
    assert_eq!(g.name, "Orbiting");
    assert_eq!(g.description, "space");
}

fn entry_row(time: SqlData, status_text: &str) -> Row {
    Row {
        cols: vec![
            int_col(1),
            int_col(3),
            Col { ty: SqlType::Numeric, data: time },
            Col { ty: SqlType::Timestamp, data: SqlData::Time(0, 0) },
            Col { ty: status_type(), data: SqlData::Text(status_text.to_string()) },
        ],
    }
}

#[test]
fn entry_row_decodes_with_rendered_timestamp() {
    let entry = Entry::from_sql_row(&entry_row(SqlData::Num(1250), "Dropped")).unwrap();
    assert_eq!(entry.id, Some(1));
    assert_eq!(entry.game_id, Some(3));
    assert_eq!(entry.time_played, Some(1250));
    assert_eq!(entry.status, Some(Status::Dropped));
    assert_eq!(entry.last_update.as_deref(), Some("1970-01-01T00:00:00Z"));
    assert!(entry.game.is_none());
}

#[test]
fn entry_row_keeps_null_play_time_unset() {
    let entry = Entry::from_sql_row(&entry_row(SqlData::Null, "Frozen")).unwrap();
    assert_eq!(entry.time_played, None);
}

#[test]
fn entry_row_errors_stay_distinguishable() {
    // a text column where an integer belongs: schema bug
    let mut row = entry_row(SqlData::Num(0), "Frozen");
    row.cols[0] = text_col("one");
    assert_eq!(Entry::from_sql_row(&row), Err(CodecError::TypeMismatch));
    // an unknown tag under the right type: corrupt content
    let row = entry_row(SqlData::Num(0), "Paused");
    assert_eq!(Entry::from_sql_row(&row), Err(CodecError::WrongValue));
    // a short row cannot be addressed positionally
    let row = Row { cols: vec![int_col(1)] };
    assert_eq!(Entry::from_sql_row(&row), Err(CodecError::TypeMismatch));
}

#[test]
fn collect_decodes_all_rows_or_reports_the_failure() {
    let rows = vec![
        Row { cols: vec![int_col(1), text_col("a"), text_col("-"), text_col("a@x")] },
        Row { cols: vec![int_col(2), text_col("b"), text_col("-"), text_col("b@x")] },
    ];
    let users: Vec<User> = collect_sql(&rows).unwrap();
    assert_eq!(users.len(), 2);
    assert_eq!(users[1].username, "b");
    let broken = vec![
        Row { cols: vec![int_col(1), text_col("a"), text_col("-"), text_col("a@x")] },
        Row { cols: vec![text_col("x")] },
    ];
    let failed: Result<Vec<User>, CodecError> = collect_sql(&broken);
    assert_eq!(failed, Err(CodecError::TypeMismatch));
}

#[test]
fn parse_i32_accepts_the_whole_range() {
    assert_eq!(parse_i32("0"), Some(0));
    assert_eq!(parse_i32("7"), Some(7));
    assert_eq!(parse_i32("007"), Some(7));
    assert_eq!(parse_i32("2147483647"), Some(i32::MAX));
    assert_eq!(parse_i32("-2147483648"), Some(i32::MIN));
    assert_eq!(parse_i32("-0"), Some(0));
}

#[test]
fn parse_i32_rejects_malformed_or_overflowing_text() {
    assert_eq!(parse_i32(""), None);
    assert_eq!(parse_i32("-"), None);
    assert_eq!(parse_i32("12a"), None);
    assert_eq!(parse_i32("a12"), None);
    assert_eq!(parse_i32(" 1"), None);
    assert_eq!(parse_i32("2147483648"), None);
    assert_eq!(parse_i32("-2147483649"), None);
    assert_eq!(parse_i32("99999999999999999999"), None);
}

#[test]
fn router_parameter_failures_become_client_errors() {
    let ok = get_from_router(&"41".to_string()).unwrap();
    assert_eq!(ok, 41);
    let failure = get_from_router(&"forty-one".to_string()).unwrap_err();
    assert_eq!(failure.response.status, STATUS_BAD_REQUEST);
}

#[test]
fn error_adapter_passes_values_and_wraps_failures() {
    let passed: Result<i32, LibError> = Ok(5);
    let out = on_err(passed, ResponseSpec::of_status(500));
    assert_eq!(out.unwrap(), 5);
    let failed: Result<i32, LibError> = Err(LibError::Cause("broke".to_string()));
    let failure = on_err(failed, ResponseSpec::with_message(500, "server error".to_string()))
        .unwrap_err();
    assert_eq!(failure.response.status, 500);
    assert_eq!(failure.response.message.as_deref(), Some("server error"));
    assert_eq!(failure.cause, "broke");
}

#[test]
fn error_description_is_the_cause() {
    let err = LibError::Cause("what went wrong".to_string());
    assert_eq!(err.description(), "what went wrong");
}
