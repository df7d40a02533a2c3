use std::sync::Arc;

use backend_support::database::connect::{
    first_row_or_sql_error, get_mysql_pool, get_mysql_pool_manual, rows_or_sql_error,
};
use backend_support::database::mysql_datetime_string_from_row;
use backend_support::error::CustomError;
use mysql_common::constants::ColumnType;
use mysql_common::packets::Column;
use mysql_common::row::new_row;
use mysql_common::value::Value;

fn datetime_row(value: Value) -> mysql::Row {
    let col = Column::new(ColumnType::MYSQL_TYPE_DATETIME).with_name(b"created_at");
    new_row(vec![value], Arc::from(vec![col].into_boxed_slice()))
}

fn some_driver_error() -> mysql::Error {
    mysql::Error::FromValueError(mysql::Value::NULL)
}

#[test]
fn empty_result_sets_are_not_errors() {
    let r = rows_or_sql_error::<u32>(Ok(Vec::new()));
    assert_eq!(r.ok(), Some(Vec::new()));
    let r = first_row_or_sql_error::<u32>(Ok(None));
    assert_eq!(r.ok(), Some(None));
}

#[test]
fn rows_pass_through_unchanged() {
    let r = rows_or_sql_error::<u32>(Ok(vec![1, 2, 3]));
    assert_eq!(r.ok(), Some(vec![1, 2, 3]));
    let r = first_row_or_sql_error::<u32>(Ok(Some(7)));
    assert_eq!(r.ok(), Some(Some(7)));
}

#[test]
fn execution_failures_become_the_fixed_sql_error() {
    match rows_or_sql_error::<u32>(Err(some_driver_error())) {
        Err(CustomError::Database(m)) => assert_eq!(m, "SQL ERROR"),
        _ => panic!("expected a Database error"),
    }
    match first_row_or_sql_error::<u32>(Err(some_driver_error())) {
        Err(CustomError::Database(m)) => assert_eq!(m, "SQL ERROR"),
        _ => panic!("expected a Database error"),
    }
}

#[test]
fn pool_construction_without_a_url_is_a_database_error() {
    // DATABASE_URL is not set where these tests run, so the empty default
    // fails to parse as a connection URL.
    match get_mysql_pool() {
        Err(CustomError::Database(_)) => {}
        _ => panic!("expected a Database error"),
    }
    match get_mysql_pool_manual(1, 4) {
        Err(CustomError::Database(_)) => {}
        _ => panic!("expected a Database error"),
    }
}

#[test]
fn invalid_pool_bounds_are_a_database_error() {
    match get_mysql_pool_manual(5, 2) {
        Err(CustomError::Database(_)) => {}
        _ => panic!("expected a Database error"),
    }
    match get_mysql_pool_manual(0, 0) {
        Err(CustomError::Database(_)) => {}
        _ => panic!("expected a Database error"),
    }
}

#[test]
fn datetime_column_renders_like_the_datetime_type() {
    let row = datetime_row(Value::Date(2024, 1, 2, 3, 4, 5, 0));
    assert_eq!(
        mysql_datetime_string_from_row(&row, "created_at"),
        Some("2024-01-02 03:04:05".to_string())
    );
    assert_eq!(mysql_datetime_string_from_row(&row, "missing"), None);
}

#[test]
fn datetime_column_keeps_fractional_seconds() {
    let row = datetime_row(Value::Date(2024, 1, 2, 3, 4, 5, 123_000));
    assert_eq!(
        mysql_datetime_string_from_row(&row, "created_at"),
        Some("2024-01-02 03:04:05.123".to_string())
    );
    let row = datetime_row(Value::Date(2024, 1, 2, 3, 4, 5, 123_456));
    assert_eq!(
        mysql_datetime_string_from_row(&row, "created_at"),
        Some("2024-01-02 03:04:05.123456".to_string())
    );
}

#[test]
fn null_and_unconvertible_datetime_columns_give_none() {
    let row = datetime_row(Value::NULL);
    assert_eq!(mysql_datetime_string_from_row(&row, "created_at"), None);
    let row = datetime_row(Value::Bytes(b"not a datetime".to_vec()));
    assert_eq!(mysql_datetime_string_from_row(&row, "created_at"), None);
}
