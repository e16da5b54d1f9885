use pivot_api::config::{read_flag, read_unsigned, Config, Environment};
use pivot_api::error::ApiError;

fn unset() -> Environment {
    Environment {
        host: None,
        port: None,
        clickhouse_url: None,
        clickhouse_database: None,
        redis_url: None,
        cache_enabled: None,
        cache_ttl_seconds: None,
    }
}

#[test]
fn unset_variables_give_the_defaults() {
    let config = Config::from_env(&unset());
    assert_eq!(config.server.host, "0.0.0.0");
    assert_eq!(config.server.port, 8080);
    assert_eq!(config.clickhouse.url, "http://localhost:8123");
    assert_eq!(config.clickhouse.database, "pivot");
    assert_eq!(config.redis.url, "redis://localhost:6379");
    assert!(config.cache.enabled);
    assert_eq!(config.cache.ttl_seconds, 300);
}

#[test]
fn set_variables_are_taken() {
    let vars = Environment {
        host: Some("127.0.0.1".to_string()),
        port: Some("9000".to_string()),
        clickhouse_url: Some("http://ch:8123".to_string()),
        clickhouse_database: Some("trades".to_string()),
        redis_url: Some("redis://r:1".to_string()),
        cache_enabled: Some("false".to_string()),
        cache_ttl_seconds: Some("60".to_string()),
    };
    let config = Config::from_env(&vars);
    assert_eq!(config.server.host, "127.0.0.1");
    assert_eq!(config.server.port, 9000);
    assert_eq!(config.clickhouse.url, "http://ch:8123");
    assert_eq!(config.clickhouse.database, "trades");
    assert_eq!(config.redis.url, "redis://r:1");
    assert!(!config.cache.enabled);
    assert_eq!(config.cache.ttl_seconds, 60);
}

#[test]
fn unreadable_variables_give_way_to_the_defaults() {
    let vars = Environment {
        port: Some("65536".to_string()),
        cache_enabled: Some("yes".to_string()),
        cache_ttl_seconds: Some("5m".to_string()),
        ..unset()
    };
    let config = Config::from_env(&vars);
    assert_eq!(config.server.port, 8080);
    assert!(config.cache.enabled);
    assert_eq!(config.cache.ttl_seconds, 300);
}

#[test]
fn numerals_are_read_as_the_standard_library_reads_them() {
    for text in [
        "0", "7", "007", "+5", "65535", "65536", "18446744073709551615", "18446744073709551616",
        "99999999999999999999999", "", "+", "-0", "-1", " 1", "1 ", "1_000", "0x10", "١٢", "++1",
        "1.0", "+0", "000000000000000000000000001",
    ] {
        assert_eq!(read_unsigned(text, u64::MAX), text.parse::<u64>().ok());
        assert_eq!(
            read_unsigned(text, 65535).map(|port| port as u16),
            text.parse::<u16>().ok()
        );
    }
    assert_eq!(read_unsigned("5", 5), Some(5));
    assert_eq!(read_unsigned("6", 5), None);
    assert_eq!(read_unsigned("0", 0), Some(0));
    assert_eq!(read_unsigned("10", 9), None);
}

#[test]
fn flags_are_true_or_false_and_nothing_else() {
    for text in ["true", "false", "True", "FALSE", "1", "0", "", " true", "yes"] {
        assert_eq!(read_flag(text), text.parse::<bool>().ok());
    }
}

#[test]
fn errors_describe_themselves() {
    let cases = [
        (ApiError::BadRequest("no body".to_string()), "Bad request: no body", 400, "no body"),
        (ApiError::Database("conn reset".to_string()), "Database error: conn reset", 500, "Database error"),
        (ApiError::Cache("timeout".to_string()), "Cache error: timeout", 500, "Cache error"),
        (
            ApiError::QueryValidation("bad column".to_string()),
            "Query validation error: bad column",
            400,
            "bad column",
        ),
        (ApiError::Internal("bug".to_string()), "Internal error: bug", 500, "Internal server error"),
    ];
    for (error, text, status, shown) in cases {
        assert_eq!(error.to_string(), text);
        assert_eq!(error.status_code(), status);
        let response = error.error_response();
        assert_eq!(response.status, status);
        assert_eq!(response.error, shown);
    }
    match ApiError::from_json_error("expected value at line 1 column 1") {
        ApiError::BadRequest(message) => {
            assert_eq!(message, "JSON error: expected value at line 1 column 1")
        }
        _ => panic!("a JSON error is a bad request"),
    }
}
