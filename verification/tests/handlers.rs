use pivot_api::cache::aside::{CacheSlot, Executor, Job, Statement};
use pivot_api::cache::key::generate_cache_key;
use pivot_api::config::{CacheConfig, ClickHouseConfig, Config, RedisConfig, ServerConfig};
use pivot_api::db::models::{deserialize_bool, ConstituentRow, ExposureDbRow, InstrumentRow};
use pivot_api::error::ApiError;
use pivot_api::handlers::{constituents, exposure, health, instruments, pivot, pnl};
use pivot_api::models::request::{
    ConstituentsQuery, ExposureQuery, ExposureView, InstrumentsQuery, PivotRequest, PnlQuery,
};
use pivot_api::models::response::{
    Constituent, ExposureRow, Instrument, QueryMetadata, Real,
};
use pivot_api::query::{Dimension, Metric};

fn settings(enabled: bool) -> Config {
    Config {
        server: ServerConfig { host: "0.0.0.0".to_string(), port: 8080 },
        clickhouse: ClickHouseConfig {
            url: "http://db:8123".to_string(),
            database: "pivot".to_string(),
        },
        redis: RedisConfig { url: "redis://cache:6379".to_string() },
        cache: CacheConfig { enabled, ttl_seconds: 120 },
    }
}

#[test]
fn pivot_job_names_statement_fallback_and_cache_slot() {
    let request = PivotRequest {
        dimensions: vec![Dimension::Desk],
        metrics: vec![Metric::Pnl],
        ..Default::default()
    };
    let job = pivot::prepare(&request, &settings(true)).unwrap();
    assert_eq!(
        job,
        Job {
            cache: Some(CacheSlot {
                key: generate_cache_key("pivot:query", &request.canonical_payload()),
                ttl_seconds: 120,
            }),
            fallback: true,
        }
    );
    let sql = "SELECT desk, sum(pnl) AS total_pnl FROM pivot.trades_1d GROUP BY desk \
               ORDER BY total_pnl DESC LIMIT 100";
    assert_eq!(
        pivot::statement(&request, &settings(true)).unwrap(),
        Statement {
            sql: sql.to_string(),
            primary: Executor::Client { statement: format!("{} FORMAT JSONEachRow", sql) },
            fallback: Some(Executor::Http {
                url: "http://db:8123?default_format=JSONEachRow".to_string(),
                body: sql.to_string(),
            }),
        }
    );
    let invalid = PivotRequest { metrics: vec![], ..Default::default() };
    assert!(pivot::prepare(&invalid, &settings(true)).is_err());
    assert!(pivot::statement(&invalid, &settings(true)).is_err());
    assert!(pivot::prepare(&request, &settings(false)).unwrap().cache.is_none());
    let bypass = PivotRequest { cache_bypass: true, ..request };
    assert!(pivot::prepare(&bypass, &settings(true)).unwrap().cache.is_none());
}

#[test]
fn pivot_response_is_assembled_from_lines_and_from_a_body() {
    let lines = vec![
        "{\"desk\":\"FX\",\"total_pnl\":1.5}".to_string(),
        "oops".to_string(),
        "{\"desk\":\"Rates\",\"total_pnl\":2}".to_string(),
    ];
    let from_lines = pivot::assemble(&lines, 42);
    assert_eq!(from_lines.data.len(), 2);
    assert_eq!(
        from_lines.metadata,
        QueryMetadata { total_rows: 2, returned_rows: 2, query_time_ms: 42, cached: false }
    );
    let from_body = pivot::assemble_body(
        "{\"desk\":\"FX\",\"total_pnl\":1.5}\n\noops\r\n{\"desk\":\"Rates\",\"total_pnl\":2}\n",
        42,
    );
    assert_eq!(from_body, from_lines);
    let empty = pivot::assemble_body("", 0);
    assert!(empty.data.is_empty());
    assert_eq!(empty.metadata.total_rows, 0);
}

fn exposure_query(group_by: &str, view: ExposureView) -> ExposureQuery {
    ExposureQuery {
        trade_date: "2024-01-15".to_string(),
        group_by: group_by.to_string(),
        view,
        cache_bypass: false,
    }
}

#[test]
fn exposure_statement_is_exact() {
    let cache = CacheConfig { enabled: true, ttl_seconds: 60 };
    let query = exposure_query("desk", ExposureView::TopLevel);
    let job = exposure::prepare(&query, &cache).unwrap();
    let compiled = exposure::statement(&query).unwrap();
    assert_eq!(
        compiled.sql,
        "SELECT
            toString(desk) AS group_value,
            sum(notional) AS total_notional,
            sum(pnl) AS total_pnl,
            count() AS trade_count
         FROM pivot.trades_1d
         WHERE trade_date = '2024-01-15' AND exposure_type IN ('Direct', 'ETF', 'ETC')
         GROUP BY desk
         ORDER BY total_notional DESC
         LIMIT 100"
    );
    assert_eq!(compiled.primary, Executor::Client { statement: compiled.sql.clone() });
    assert!(compiled.fallback.is_none());
    assert_eq!(
        job,
        Job {
            cache: Some(CacheSlot {
                key: generate_cache_key("exposure", &query.canonical_payload()),
                ttl_seconds: 60,
            }),
            fallback: false,
        }
    );
    let look_through =
        exposure::statement(&exposure_query("symbol", ExposureView::LookThrough)).unwrap();
    assert!(look_through.sql.contains("AND exposure_type IN ('Direct', 'Constituent')\n"));
    let all = exposure::statement(&exposure_query("fund_id", ExposureView::All)).unwrap();
    assert!(all.sql.contains("WHERE trade_date = '2024-01-15' AND 1=1\n"));
    assert_eq!(ExposureView::default(), ExposureView::TopLevel);
}

#[test]
fn exposure_whitelist_rejects_everything_else() {
    let cache = CacheConfig { enabled: true, ttl_seconds: 60 };
    for column in [
        "asset_class",
        "symbol",
        "underlying_symbol",
        "instrument_type",
        "portfolio_manager_id",
        "fund_id",
        "desk",
        "book",
        "region",
        "country",
    ] {
        assert!(exposure::is_allowed(column));
        assert!(exposure::prepare(&exposure_query(column, ExposureView::All), &cache).is_ok());
        assert!(exposure::statement(&exposure_query(column, ExposureView::All)).is_ok());
    }
    for column in ["", "Desk", "desk ", "exposure_type", "desk; DROP TABLE trades_1d", "1"] {
        assert!(!exposure::is_allowed(column));
        assert!(exposure::statement(&exposure_query(column, ExposureView::All)).is_err());
        match exposure::prepare(&exposure_query(column, ExposureView::All), &cache) {
            Err(ApiError::QueryValidation(message)) => assert_eq!(
                message,
                format!(
                    "Invalid group_by: '{}'. Allowed values: {:?}",
                    column,
                    [
                        "asset_class",
                        "symbol",
                        "underlying_symbol",
                        "instrument_type",
                        "portfolio_manager_id",
                        "fund_id",
                        "desk",
                        "book",
                        "region",
                        "country"
                    ]
                )
            ),
            _ => panic!("a column off the whitelist was accepted"),
        }
    }
}

#[test]
fn exposure_date_is_sanitized() {
    assert_eq!(exposure::escape_string("2024-01-15"), "2024-01-15");
    assert_eq!(exposure::escape_string("2024-01-15' OR '1'='1"), "2024-01-1511");
    assert_eq!(exposure::escape_string("2024-01-15T00:00"), "2024-01-150000");
    assert_eq!(exposure::escape_string("a b_c-d;"), "-");
    let cache = CacheConfig { enabled: false, ttl_seconds: 60 };
    let mut query = exposure_query("desk", ExposureView::All);
    query.trade_date = "2024-01-15'; DROP TABLE trades_1d; --".to_string();
    let compiled = exposure::statement(&query).unwrap();
    assert!(compiled.sql.contains("WHERE trade_date = '2024-01-151--' AND 1=1"));
    assert!(!compiled.sql.contains(';'));
    assert!(exposure::prepare(&query, &cache).unwrap().cache.is_none());
}

#[test]
fn exposure_rows_are_renamed() {
    let rows = vec![
        ExposureDbRow {
            group_value: "FX".to_string(),
            total_notional: Real { bits: 1.5f64.to_bits() },
            total_pnl: Real { bits: (-2.0f64).to_bits() },
            trade_count: 3,
        },
        ExposureDbRow {
            group_value: "Rates".to_string(),
            total_notional: Real::zero(),
            total_pnl: Real::zero(),
            trade_count: 0,
        },
    ];
    let response = exposure::assemble(rows, 8);
    assert_eq!(
        response.data,
        vec![
            ExposureRow {
                group: "FX".to_string(),
                total_notional: Real { bits: 1.5f64.to_bits() },
                total_pnl: Real { bits: (-2.0f64).to_bits() },
                trade_count: 3,
            },
            ExposureRow {
                group: "Rates".to_string(),
                total_notional: Real::zero(),
                total_pnl: Real::zero(),
                trade_count: 0,
            },
        ]
    );
    assert_eq!(
        response.metadata,
        QueryMetadata { total_rows: 2, returned_rows: 2, query_time_ms: 8, cached: false }
    );
}

fn pnl_query(group_by: &str) -> PnlQuery {
    PnlQuery {
        trade_date: "2024-01-15".to_string(),
        group_by: group_by.to_string(),
        cache_bypass: false,
    }
}

#[test]
fn pnl_statement_is_exact() {
    let query = pnl_query(" desk ,book,\tregion");
    let job = pnl::prepare(&query, &settings(true)).unwrap();
    let compiled = pnl::statement(&query, &settings(true)).unwrap();
    assert_eq!(
        compiled.sql,
        "SELECT desk, book, region, sum(pnl) AS total_pnl, sum(notional) AS total_notional, count() AS trade_count
         FROM pivot.trades_1d
         WHERE trade_date = '2024-01-15'
         GROUP BY desk, book, region
         ORDER BY total_pnl DESC
         LIMIT 100"
    );
    assert_eq!(
        compiled.primary,
        Executor::Http {
            url: "http://db:8123/?default_format=JSONEachRow".to_string(),
            body: compiled.sql.clone(),
        }
    );
    assert!(compiled.fallback.is_none());
    assert_eq!(
        job,
        Job {
            cache: Some(CacheSlot {
                key: generate_cache_key("pnl", &query.canonical_payload()),
                ttl_seconds: 120,
            }),
            fallback: false,
        }
    );
}

#[test]
fn pnl_names_the_first_column_that_is_off_the_whitelist() {
    let allowed = [
        "portfolio_manager_id",
        "fund_id",
        "desk",
        "book",
        "asset_class",
        "symbol",
        "exposure_type",
        "region",
        "country",
    ];
    for column in allowed {
        assert!(pnl::is_allowed(column));
    }
    for (group_by, offender) in [
        ("", ""),
        ("desk,", ""),
        ("desk,,book", ""),
        ("desk, instrument_type, nope", "instrument_type"),
        ("underlying_symbol", "underlying_symbol"),
        ("desk; DROP TABLE trades_1d", "desk; DROP TABLE trades_1d"),
        (" , desk", ""),
    ] {
        assert!(pnl::statement(&pnl_query(group_by), &settings(true)).is_err());
        match pnl::prepare(&pnl_query(group_by), &settings(true)) {
            Err(ApiError::QueryValidation(message)) => assert_eq!(
                message,
                format!("Invalid group_by column: '{}'. Allowed values: {:?}", offender, allowed)
            ),
            _ => panic!("a column off the whitelist was accepted"),
        }
    }
}

#[test]
fn pnl_date_keeps_digits_and_hyphens() {
    assert_eq!(pnl::escape_string("2024-01-15"), "2024-01-15");
    assert_eq!(pnl::escape_string("2024-01-15' OR 1=1 --"), "2024-01-1511--");
    assert_eq!(pnl::escape_string("١٢٣abc"), "");
}

#[test]
fn pnl_response_is_assembled_from_a_body() {
    let response = pnl::assemble_body(
        "{\"desk\":\"FX\",\"total_pnl\":1.5,\"total_notional\":10,\"trade_count\":2}\n\n{bad\n",
        5,
    );
    assert_eq!(response.data.len(), 1);
    assert_eq!(response.data[0].trade_count, 2);
    assert_eq!(response.data[0].total_pnl, Real { bits: 1.5f64.to_bits() });
    assert_eq!(
        response.metadata,
        QueryMetadata { total_rows: 1, returned_rows: 1, query_time_ms: 5, cached: false }
    );
}

#[test]
fn instrument_listing_is_cached_only_when_unfiltered() {
    let select = "SELECT symbol, name, asset_class, instrument_type, currency, exchange, sector, is_composite FROM pivot.instruments";
    let unfiltered = InstrumentsQuery::default();
    let all = instruments::statement(&unfiltered);
    assert_eq!(all.sql, format!("{} ORDER BY symbol", select));
    assert_eq!(all.primary, Executor::Client { statement: all.sql.clone() });
    assert!(all.fallback.is_none());
    assert_eq!(
        instruments::prepare(&unfiltered, true),
        Job {
            cache: Some(CacheSlot { key: "instruments:all".to_string(), ttl_seconds: 3600 }),
            fallback: false,
        }
    );
    assert!(instruments::prepare(&unfiltered, false).cache.is_none());

    let one = InstrumentsQuery { asset_class: Some("Fixed Income".to_string()), instrument_type: None };
    assert_eq!(
        instruments::statement(&one).sql,
        format!("{} WHERE asset_class = 'Fixed Income' ORDER BY symbol", select)
    );
    assert!(instruments::prepare(&one, true).cache.is_none());

    let both = InstrumentsQuery {
        asset_class: Some("Equity' --".to_string()),
        instrument_type: Some("ETF".to_string()),
    };
    assert_eq!(
        instruments::statement(&both).sql,
        format!(
            "{} WHERE asset_class = 'Equity --' AND instrument_type = 'ETF' ORDER BY symbol",
            select
        )
    );
    assert!(instruments::prepare(&both, true).cache.is_none());
    assert_eq!(instruments::escape_string("O'Neil & Co; x_y-z"), "ONeil  Co x_y-z");
}

#[test]
fn constituent_listing_is_cached_only_when_unfiltered() {
    let select = "SELECT parent_symbol, constituent_symbol, weight, shares_per_unit, toString(effective_date) as effective_date FROM pivot.constituents";
    let unfiltered = ConstituentsQuery::default();
    assert_eq!(
        constituents::statement(&unfiltered).sql,
        format!("{} ORDER BY parent_symbol, weight DESC", select)
    );
    assert_eq!(
        constituents::prepare(&unfiltered, true),
        Job {
            cache: Some(CacheSlot { key: "constituents:all".to_string(), ttl_seconds: 3600 }),
            fallback: false,
        }
    );
    let filtered = ConstituentsQuery {
        parent_symbol: None,
        constituent_symbol: Some("AAPL".to_string()),
    };
    assert_eq!(
        constituents::statement(&filtered).sql,
        format!("{} WHERE constituent_symbol = 'AAPL' ORDER BY parent_symbol, weight DESC", select)
    );
    assert!(constituents::prepare(&filtered, true).cache.is_none());
    assert_eq!(constituents::escape_string("SPY'"), "SPY");
}

#[test]
fn listings_are_assembled_row_by_row() {
    let row = InstrumentRow {
        symbol: "SPY".to_string(),
        name: "SPDR S&P 500 ETF".to_string(),
        asset_class: "Equity".to_string(),
        instrument_type: "ETF".to_string(),
        currency: "USD".to_string(),
        exchange: "NYSE".to_string(),
        sector: "Broad Market".to_string(),
        is_composite: deserialize_bool(1),
    };
    let response = instruments::assemble(vec![row.clone(), row], 11);
    assert_eq!(response.count, 2);
    assert_eq!(
        response.metadata,
        QueryMetadata { total_rows: 2, returned_rows: 2, query_time_ms: 11, cached: false }
    );
    assert_eq!(
        response.instruments[1],
        Instrument {
            symbol: "SPY".to_string(),
            name: "SPDR S&P 500 ETF".to_string(),
            asset_class: "Equity".to_string(),
            instrument_type: "ETF".to_string(),
            currency: "USD".to_string(),
            exchange: "NYSE".to_string(),
            sector: "Broad Market".to_string(),
            is_composite: true,
        }
    );
    assert!(!deserialize_bool(0));
    assert!(deserialize_bool(255));

    let holding = ConstituentRow {
        parent_symbol: "SPY".to_string(),
        constituent_symbol: "AAPL".to_string(),
        weight: Real { bits: 0.07f64.to_bits() },
        shares_per_unit: Real { bits: 0.45f64.to_bits() },
        effective_date: "2024-01-15".to_string(),
    };
    let response = constituents::assemble(vec![holding], 4);
    assert_eq!(response.count, 1);
    assert_eq!(
        response.metadata,
        QueryMetadata { total_rows: 1, returned_rows: 1, query_time_ms: 4, cached: false }
    );
    assert_eq!(
        response.constituents,
        vec![Constituent {
            parent_symbol: "SPY".to_string(),
            constituent_symbol: "AAPL".to_string(),
            weight: Real { bits: 0.07f64.to_bits() },
            shares_per_unit: Real { bits: 0.45f64.to_bits() },
            effective_date: "2024-01-15".to_string(),
        }]
    );
    assert_eq!(constituents::assemble(vec![], 0).count, 0);
}

#[test]
fn health_is_degraded_unless_both_stores_answer() {
    let (status, response) = health::report(Ok(3), Ok(1), "0.1.0");
    assert_eq!(status, 200);
    assert_eq!(response.status, "healthy");
    assert_eq!(response.version, "0.1.0");
    assert_eq!(
        response.clickhouse,
        health::ServiceHealth { status: "connected".to_string(), latency_ms: Some(3), error: None }
    );
    assert_eq!(response.redis.latency_ms, Some(1));

    let (status, response) = health::report(Err("refused".to_string()), Ok(1), "0.1.0");
    assert_eq!(status, 503);
    assert_eq!(response.status, "degraded");
    assert_eq!(
        response.clickhouse,
        health::ServiceHealth {
            status: "error".to_string(),
            latency_ms: None,
            error: Some("refused".to_string()),
        }
    );
    assert_eq!(response.redis.status, "connected");

    let (status, response) = health::report(Ok(1), Err("timeout".to_string()), "x");
    assert_eq!(status, 503);
    assert_eq!(response.status, "degraded");
    let (status, _) = health::report(Err("a".to_string()), Err("b".to_string()), "x");
    assert_eq!(status, 503);
}
