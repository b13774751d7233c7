use tenant_todos::database::{parse_number, read_setting, PoolConfig, PoolSettings};
use tenant_todos::error::WebError;
use tenant_todos::model::todo_list::TodoList;

fn settings(url: Option<&str>) -> PoolSettings {
    PoolSettings {
        url: url.map(|text| text.to_string()),
        max_lifetime: None,
        pool_max: None,
        pool_min: None,
        idle_timeout: None,
        conn_timeout: None,
    }
}

#[test]
fn numbers_are_read_as_decimal() {
    assert_eq!(parse_number("0", u64::MAX), Some(0));
    assert_eq!(parse_number("5000", u64::MAX), Some(5000));
    assert_eq!(parse_number("+42", u64::MAX), Some(42));
    assert_eq!(parse_number("007", u64::MAX), Some(7));
    assert_eq!(parse_number("18446744073709551615", u64::MAX), Some(u64::MAX));
    assert_eq!(parse_number("4294967295", 0xffff_ffff), Some(4294967295));
}

#[test]
fn other_texts_write_no_number() {
    for text in ["", "+", "-1", "12a", " 12", "12 ", "1_000", "0x10", "++1", "1.5", "١٢"] {
        assert_eq!(parse_number(text, u64::MAX), None);
        assert_eq!(parse_number(text, u64::MAX), text.parse::<u64>().ok());
    }
    assert_eq!(parse_number("18446744073709551616", u64::MAX), None);
    assert_eq!(parse_number("99999999999999999999999", u64::MAX), None);
    assert_eq!(parse_number("4294967296", 0xffff_ffff), None);
    assert_eq!(parse_number("10", 9), None);
    assert_eq!(parse_number("9", 9), Some(9));
}

#[test]
fn numbers_agree_with_the_standard_parser() {
    for text in ["0", "1", "+1", "000", "65535", "4294967295", "4294967296", "18446744073709551615"] {
        assert_eq!(parse_number(text, u64::MAX), text.parse::<u64>().ok());
        assert_eq!(
            parse_number(text, 0xffff_ffff),
            text.parse::<u32>().ok().map(|number| number as u64)
        );
    }
}

#[test]
fn setting_falls_back_to_default_or_zero() {
    assert_eq!(read_setting(&None, 5000, u64::MAX), 5000);
    assert_eq!(read_setting(&Some("250".to_string()), 5000, u64::MAX), 250);
    assert_eq!(read_setting(&Some("soon".to_string()), 5000, u64::MAX), 0);
    assert_eq!(read_setting(&Some("".to_string()), 5000, u64::MAX), 0);
}

#[test]
fn configuration_needs_the_address_of_the_store() {
    assert!(PoolConfig::from_settings(settings(None)).is_none());
}

#[test]
fn configuration_has_defaults() {
    let config = PoolConfig::from_settings(settings(Some("sqlite::memory:"))).unwrap();
    assert_eq!(config.url(), "sqlite::memory:");
    assert_eq!(config.max_lifetime(), 5000);
    assert_eq!(config.idle_timeout(), 10000);
    assert_eq!(config.conn_timeout(), 1000);
    assert_eq!(config.pool_size(), (16, 8));
}

#[test]
fn configuration_takes_what_is_given() {
    let mut given = settings(Some("sqlite://todos.db"));
    given.max_lifetime = Some("60000".to_string());
    given.pool_max = Some("4".to_string());
    given.pool_min = Some("many".to_string());
    given.idle_timeout = Some("+30".to_string());
    given.conn_timeout = Some("4294967296".to_string());
    let config = PoolConfig::from_settings(given).unwrap();
    assert_eq!(config.max_lifetime(), 60000);
    assert_eq!(config.pool_size(), (4, 0));
    assert_eq!(config.idle_timeout(), 30);
    assert_eq!(config.conn_timeout(), 4294967296);
    let mut given = settings(Some("sqlite://todos.db"));
    given.pool_max = Some("4294967296".to_string());
    assert_eq!(PoolConfig::from_settings(given).unwrap().pool_size(), (0, 8));
}

#[test]
fn errors_show_their_category_only() {
    assert_eq!(WebError::Unauthorized.identifier(), "Unauthorized");
    assert_eq!(WebError::NotFound.identifier(), "NotFound");
    assert_eq!(WebError::ValidationFailed("content: too short".to_string()).identifier(), "ValidationError");
    assert_eq!(WebError::StorageFailure.identifier(), "DatabaseError");
    assert_eq!(WebError::Unauthorized.detail(), "credential missing, invalid or expired");
    assert_eq!(WebError::NotFound.detail(), "no such entity");
    assert_eq!(WebError::ValidationFailed("content: too short".to_string()).detail(), "content: too short");
    assert_eq!(WebError::StorageFailure.detail(), "storage failure");
}

#[test]
fn errors_map_to_statuses() {
    assert_eq!(WebError::Unauthorized.status_code(), 401);
    assert_eq!(WebError::NotFound.status_code(), 404);
    assert_eq!(WebError::ValidationFailed(String::new()).status_code(), 422);
    assert_eq!(WebError::StorageFailure.status_code(), 500);
}

#[test]
fn todo_list_reports_its_id() {
    assert_eq!(TodoList::new(Some(7), "n".to_string()).id(), Some(7));
    assert_eq!(TodoList::new(None, "n".to_string()).id(), None);
    assert_eq!(TodoList::new(None, "n".to_string()).name(), "n");
}
