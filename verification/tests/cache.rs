use pivot_api::cache::aside::{advance, Action, CacheRead, CacheSlot, Event, Job, Phase};
use pivot_api::cache::canonical::quote_json;
use pivot_api::cache::key::{generate_cache_key, hex_string, key_for_digest};
use pivot_api::config::{CacheConfig, ClickHouseConfig, Config, RedisConfig, ServerConfig};
use pivot_api::error::ApiError;
use pivot_api::db::models::InstrumentRow;
use pivot_api::handlers::{instruments, pivot};
use pivot_api::models::request::{
    DateRange, ExposureQuery, ExposureType, ExposureView, InstrumentsQuery, PivotFilters,
    PivotRequest, PnlQuery, SortDirection, SortSpec,
};
use pivot_api::models::response::{
    Cacheable, InstrumentsResponse, PivotResponse, QueryMetadata,
};
use pivot_api::query::{Dimension, Metric};
use std::collections::HashMap;

#[test]
fn key_is_prefix_colon_and_the_digest_in_hex() {
    assert_eq!(
        generate_cache_key("pivot:query", "hello"),
        "pivot:query:2cf24dba5fb0a30e26e83b2ac5b9e29e1b161e5c1fa7425e73043362938b9824"
    );
    assert_eq!(
        generate_cache_key("", ""),
        ":e3b0c44298fc1c149afbf4c8996fb92427ae41e4649b934ca495991b7852b855"
    );
    let key = generate_cache_key("exposure", "Zürich");
    assert_eq!(key.len(), "exposure".len() + 65);
    assert!(key["exposure:".len()..].chars().all(|c| c.is_ascii_digit() || ('a'..='f').contains(&c)));
}

#[test]
fn hex_is_lower_case_and_two_digits_per_byte() {
    assert_eq!(hex_string(&vec![]), "");
    assert_eq!(hex_string(&vec![0x00, 0x0f, 0xa0, 0xff, 0x7b]), "000fa0ff7b");
}

#[test]
fn json_strings_are_escaped() {
    assert_eq!(quote_json(""), "\"\"");
    assert_eq!(quote_json("plain"), "\"plain\"");
    assert_eq!(quote_json("a\"b\\c"), "\"a\\\"b\\\\c\"");
    assert_eq!(quote_json("\n\r\t\u{8}\u{c}"), "\"\\n\\r\\t\\b\\f\"");
    assert_eq!(quote_json("\u{0}\u{1f}\u{7f}é"), "\"\\u0000\\u001f\u{7f}é\"");
    for text in ["", "a\"b\\c", "\n\r\t\u{8}\u{c}", "\u{0}\u{1f}\u{7f}é", "2024-01-15'; --"] {
        assert_eq!(quote_json(text), serde_json::to_string(text).unwrap());
        let back: String = serde_json::from_str(&quote_json(text)).unwrap();
        assert_eq!(back, text);
    }
}

fn sample_request() -> PivotRequest {
    PivotRequest {
        dimensions: vec![Dimension::AssetClass],
        metrics: vec![Metric::Notional, Metric::Pnl],
        filters: PivotFilters {
            trade_date: Some("2024-01-15".to_string()),
            ..Default::default()
        },
        ..Default::default()
    }
}

#[test]
fn pivot_payload_is_exact() {
    assert_eq!(
        sample_request().canonical_payload(),
        "{\"dimensions\":[\"asset_class\"],\"metrics\":[\"notional\",\"pnl\"],\
         \"filters\":{\"trade_date\":\"2024-01-15\",\"trade_date_range\":null,\
         \"exposure_type\":null,\"portfolio_manager_id\":null,\"fund_id\":null,\
         \"asset_class\":null,\"symbol\":null,\"underlying_symbol\":null,\"desk\":null,\
         \"book\":null,\"region\":null,\"country\":null},\"sort\":null,\"limit\":100,\
         \"offset\":0,\"cache_bypass\":false}"
    );
}

#[test]
fn full_pivot_payload_is_json() {
    let request = PivotRequest {
        dimensions: vec![Dimension::Desk, Dimension::Book],
        metrics: vec![Metric::TradeCount],
        filters: PivotFilters {
            trade_date: None,
            trade_date_range: Some(DateRange { start: "a\"b".to_string(), end: "".to_string() }),
            exposure_type: Some(vec![ExposureType::Etf, ExposureType::Direct]),
            portfolio_manager_id: Some(vec![3, 1]),
            fund_id: Some(vec![]),
            asset_class: Some(vec!["Fixed Income".to_string()]),
            symbol: None,
            underlying_symbol: None,
            desk: None,
            book: None,
            region: None,
            country: Some(vec!["US".to_string(), "UK".to_string()]),
        },
        sort: Some(SortSpec { field: "desk".to_string(), direction: SortDirection::Asc }),
        limit: 7,
        offset: 9,
        cache_bypass: true,
    };
    let payload = request.canonical_payload();
    let value: serde_json::Value = serde_json::from_str(&payload).unwrap();
    assert_eq!(value["dimensions"][1], "book");
    assert_eq!(value["metrics"][0], "trade_count");
    assert!(value["filters"]["trade_date"].is_null());
    assert_eq!(value["filters"]["trade_date_range"]["start"], "a\"b");
    assert_eq!(value["filters"]["trade_date_range"]["end"], "");
    assert_eq!(value["filters"]["exposure_type"][0], "ETF");
    assert_eq!(value["filters"]["portfolio_manager_id"][0], 3);
    assert_eq!(value["filters"]["fund_id"].as_array().unwrap().len(), 0);
    assert_eq!(value["filters"]["asset_class"][0], "Fixed Income");
    assert_eq!(value["filters"]["country"][1], "UK");
    assert_eq!(value["sort"]["field"], "desk");
    assert_eq!(value["sort"]["direction"], "asc");
    assert_eq!(value["limit"], 7);
    assert_eq!(value["offset"], 9);
    assert_eq!(value["cache_bypass"], true);
}

#[test]
fn query_payloads_are_exact() {
    let exposure = ExposureQuery {
        trade_date: "2024-01-15".to_string(),
        group_by: "desk".to_string(),
        view: ExposureView::LookThrough,
        cache_bypass: false,
    };
    assert_eq!(
        exposure.canonical_payload(),
        "{\"trade_date\":\"2024-01-15\",\"group_by\":\"desk\",\"view\":\"look_through\",\"cache_bypass\":false}"
    );
    let pnl = PnlQuery {
        trade_date: "2024-01-15".to_string(),
        group_by: "desk, book".to_string(),
        cache_bypass: true,
    };
    assert_eq!(
        pnl.canonical_payload(),
        "{\"trade_date\":\"2024-01-15\",\"group_by\":\"desk, book\",\"cache_bypass\":true}"
    );
}

#[test]
fn the_same_request_has_the_same_key_however_it_is_written_down() {
    let first = PivotRequest {
        cache_bypass: false,
        offset: 0,
        limit: 100,
        sort: None,
        filters: PivotFilters {
            country: None,
            trade_date: Some(String::from("2024-01-15")),
            ..Default::default()
        },
        metrics: vec![Metric::Notional, Metric::Pnl],
        dimensions: vec![Dimension::AssetClass],
    };
    let second = sample_request();
    assert_eq!(
        generate_cache_key("pivot:query", &first.canonical_payload()),
        generate_cache_key("pivot:query", &second.canonical_payload())
    );
    let mut other = sample_request();
    other.metrics = vec![Metric::Pnl, Metric::Notional];
    assert_ne!(
        generate_cache_key("pivot:query", &other.canonical_payload()),
        generate_cache_key("pivot:query", &second.canonical_payload())
    );
}

fn config(enabled: bool) -> Config {
    Config {
        server: ServerConfig { host: "0.0.0.0".to_string(), port: 8080 },
        clickhouse: ClickHouseConfig {
            url: "http://db:8123".to_string(),
            database: "pivot".to_string(),
        },
        redis: RedisConfig { url: "redis://cache:6379".to_string() },
        cache: CacheConfig { enabled, ttl_seconds: 300 },
    }
}

struct World {
    cache: HashMap<String, (PivotResponse, u64)>,
    lines: Vec<String>,
    compilations: usize,
    executions: usize,
    clock: u64,
}

fn serve(world: &mut World, request: &PivotRequest, config: &Config) -> Result<PivotResponse, ApiError> {
    let job = pivot::prepare(request, config)?;
    let mut phase = Phase::Idle;
    let mut event = Event::Begin;
    loop {
        world.clock += 5;
        let (next, action) = advance(&job, phase, event);
        phase = next;
        event = match action {
            Action::ReadCache => {
                let key = &job.cache.as_ref().unwrap().key;
                Event::Cached {
                    read: match world.cache.get(key) {
                        Some(entry) => CacheRead::Found(entry.0.clone()),
                        None => CacheRead::Absent,
                    },
                    elapsed_ms: world.clock,
                }
            }
            Action::RunPrimary => {
                world.compilations += 1;
                let compiled = pivot::statement(request, config)?;
                assert!(compiled.sql.starts_with("SELECT "));
                world.executions += 1;
                Event::Computed(pivot::assemble(&world.lines, world.clock))
            }
            Action::RunFallback => panic!("the primary executor did not fail"),
            Action::Store(response) => {
                let slot = job.cache.as_ref().unwrap();
                world.cache.insert(slot.key.clone(), (response.clone(), slot.ttl_seconds));
                assert_eq!(phase, Phase::Done);
                return Ok(response);
            }
            Action::Reply(response) => {
                assert_eq!(phase, Phase::Done);
                return Ok(response);
            }
            Action::Fail(error) => return Err(error),
        };
    }
}

fn world() -> World {
    World {
        cache: HashMap::new(),
        lines: vec![
            "{\"asset_class\":\"Equity\",\"total_notional\":1000,\"total_pnl\":-2.5}".to_string(),
            "{\"asset_class\":\"Commodity\",\"total_notional\":10,\"total_pnl\":0}".to_string(),
        ],
        compilations: 0,
        executions: 0,
        clock: 0,
    }
}

#[test]
fn second_request_is_served_from_the_cache() {
    let mut world = world();
    let request = sample_request();
    let first = serve(&mut world, &request, &config(true)).unwrap();
    assert_eq!(world.executions, 1);
    assert!(!first.metadata.cached);
    assert_eq!(first.metadata.total_rows, 2);
    assert_eq!(first.metadata.returned_rows, 2);
    assert_eq!(first.metadata.query_time_ms, 10);
    assert_eq!(world.cache.len(), 1);
    assert_eq!(world.cache.values().next().unwrap().1, 300);
    assert!(world.cache.keys().next().unwrap().starts_with("pivot:query:"));

    let second = serve(&mut world, &request, &config(true)).unwrap();
    assert_eq!(world.executions, 1);
    assert_eq!(world.compilations, 1);
    assert_eq!(second.data, first.data);
    assert!(second.metadata.cached);
    assert_eq!(second.metadata.total_rows, 2);
    assert_eq!(second.metadata.returned_rows, 2);
    assert_eq!(second.metadata.query_time_ms, 20);
}

#[test]
fn bypass_and_disabled_cache_always_recompute() {
    let mut world = world();
    let mut request = sample_request();
    request.cache_bypass = true;
    let first = serve(&mut world, &request, &config(true)).unwrap();
    let second = serve(&mut world, &request, &config(true)).unwrap();
    assert_eq!(world.executions, 2);
    assert!(world.cache.is_empty());
    assert!(!first.metadata.cached && !second.metadata.cached);

    request.cache_bypass = false;
    serve(&mut world, &request, &config(false)).unwrap();
    serve(&mut world, &request, &config(false)).unwrap();
    assert_eq!(world.executions, 4);
    assert!(world.cache.is_empty());
}

#[test]
fn invalid_request_touches_nothing() {
    let mut world = world();
    let mut request = sample_request();
    request.metrics.clear();
    match serve(&mut world, &request, &config(true)) {
        Err(ApiError::QueryValidation(message)) => assert_eq!(message, "at least one metric required"),
        _ => panic!("a request without metrics was served"),
    }
    assert_eq!(world.executions, 0);
    assert_eq!(world.compilations, 0);
    assert!(world.cache.is_empty());
    assert_eq!(world.clock, 0);
}

fn job(cache: bool, fallback: bool) -> Job {
    Job {
        cache: if cache {
            Some(CacheSlot { key: "k".to_string(), ttl_seconds: 1 })
        } else {
            None
        },
        fallback,
    }
}

fn response(cached: bool) -> PivotResponse {
    PivotResponse {
        data: vec![],
        metadata: QueryMetadata { total_rows: 4, returned_rows: 3, query_time_ms: 77, cached },
    }
}

#[test]
fn executor_failure_falls_back_once_and_then_fails() {
    let with_fallback = job(false, true);
    let (phase, action) =
        advance::<PivotResponse>(&with_fallback, Phase::Query, Event::Failed("down".to_string()));
    assert_eq!(phase, Phase::Fallback);
    assert!(matches!(action, Action::RunFallback));
    let (phase, action) =
        advance::<PivotResponse>(&with_fallback, Phase::Fallback, Event::Failed("still down".to_string()));
    assert_eq!(phase, Phase::Done);
    match action {
        Action::Fail(ApiError::Database(message)) => assert_eq!(message, "still down"),
        _ => panic!("the failure was not reported"),
    }
    let (phase, action) =
        advance(&with_fallback, Phase::Fallback, Event::Computed(response(false)));
    assert_eq!(phase, Phase::Done);
    assert!(matches!(action, Action::Reply(_)));

    let without = job(true, false);
    let (phase, action) =
        advance::<PivotResponse>(&without, Phase::Query, Event::Failed("down".to_string()));
    assert_eq!(phase, Phase::Done);
    match action {
        Action::Fail(ApiError::Database(message)) => assert_eq!(message, "down"),
        _ => panic!("the failure was not reported"),
    }
}

#[test]
fn reports_out_of_turn_are_refused() {
    let job = job(true, true);
    for phase in [Phase::Idle, Phase::Done] {
        let (next, action) = advance(&job, phase, Event::Computed(response(false)));
        assert_eq!(next, Phase::Done);
        match action {
            Action::Fail(ApiError::Internal(message)) => assert_eq!(message, "unexpected event"),
            _ => panic!("a report out of turn was accepted"),
        }
    }
    let (next, action) = advance::<PivotResponse>(&job, Phase::Lookup, Event::Begin);
    assert_eq!(next, Phase::Done);
    assert!(matches!(action, Action::Fail(ApiError::Internal(_))));
}

#[test]
fn a_miss_runs_the_statement_and_a_hit_does_not() {
    let job = job(true, false);
    let (phase, action) = advance::<PivotResponse>(&job, Phase::Idle, Event::Begin);
    assert_eq!(phase, Phase::Lookup);
    assert!(matches!(action, Action::ReadCache));
    for read in [CacheRead::Absent, CacheRead::Failed, CacheRead::Undecodable] {
        let (phase, action) = advance::<PivotResponse>(
            &job,
            Phase::Lookup,
            Event::Cached { read, elapsed_ms: 1 },
        );
        assert_eq!(phase, Phase::Query);
        assert!(matches!(action, Action::RunPrimary));
    }
    let (phase, action) = advance(&job, Phase::Query, Event::Computed(response(false)));
    assert_eq!(phase, Phase::Done);
    match action {
        Action::Store(stored) => assert_eq!(stored, response(false)),
        _ => panic!("the response was not stored"),
    }
    let (phase, action) = advance(
        &job,
        Phase::Lookup,
        Event::Cached { read: CacheRead::Found(response(false)), elapsed_ms: 9 },
    );
    assert_eq!(phase, Phase::Done);
    match action {
        Action::Reply(served) => {
            assert_eq!(
                served.metadata,
                QueryMetadata { total_rows: 4, returned_rows: 3, query_time_ms: 9, cached: true }
            )
        }
        _ => panic!("the hit was not served"),
    }
}

#[test]
fn listings_are_served_with_fresh_metadata() {
    let listing = InstrumentsResponse {
        instruments: vec![],
        count: 0,
        metadata: QueryMetadata::fresh(0, 90),
    };
    let served = listing.clone().served_from_cache(12);
    assert_eq!(served.instruments, listing.instruments);
    assert_eq!(served.count, 0);
    assert_eq!(
        served.metadata,
        QueryMetadata { total_rows: 0, returned_rows: 0, query_time_ms: 12, cached: true }
    );
    let metadata = QueryMetadata { total_rows: 1, returned_rows: 1, query_time_ms: 500, cached: false };
    assert_eq!(
        metadata.served_from_cache(3),
        QueryMetadata { total_rows: 1, returned_rows: 1, query_time_ms: 3, cached: true }
    );
    assert_eq!(
        QueryMetadata::fresh(6, 40),
        QueryMetadata { total_rows: 6, returned_rows: 6, query_time_ms: 40, cached: false }
    );
}

#[test]
fn key_of_a_digest_is_written_in_hex() {
    assert_eq!(key_for_digest("pnl", &vec![0xde, 0xad, 0x00]), "pnl:dead00");
    assert_eq!(key_for_digest("", &vec![]), ":");
}

struct Shelf {
    cache: HashMap<String, InstrumentsResponse>,
    executions: usize,
}

fn list(shelf: &mut Shelf, query: &InstrumentsQuery, enabled: bool) -> InstrumentsResponse {
    let job = instruments::prepare(query, enabled);
    let mut phase = Phase::Idle;
    let mut event = Event::Begin;
    loop {
        let (next, action) = advance(&job, phase, event);
        phase = next;
        event = match action {
            Action::ReadCache => Event::Cached {
                read: match shelf.cache.get(&job.cache.as_ref().unwrap().key) {
                    Some(entry) => CacheRead::Found(entry.clone()),
                    None => CacheRead::Absent,
                },
                elapsed_ms: 2,
            },
            Action::RunPrimary => {
                assert!(instruments::statement(query).sql.ends_with(" ORDER BY symbol"));
                shelf.executions += 1;
                Event::Computed(instruments::assemble(
                    vec![InstrumentRow {
                    symbol: "AAPL".to_string(),
                    name: "Apple Inc".to_string(),
                    asset_class: "Equity".to_string(),
                    instrument_type: "Stock".to_string(),
                    currency: "USD".to_string(),
                    exchange: "NASDAQ".to_string(),
                    sector: "Technology".to_string(),
                    is_composite: false,
                }],
                    30,
                ))
            }
            Action::Store(response) => {
                let slot = job.cache.as_ref().unwrap();
                assert_eq!(slot.ttl_seconds, 3600);
                shelf.cache.insert(slot.key.clone(), response.clone());
                return response;
            }
            Action::Reply(response) => return response,
            _ => panic!("a listing neither fails nor falls back here"),
        };
    }
}

#[test]
fn unfiltered_listing_is_served_twice_and_run_once() {
    let mut shelf = Shelf { cache: HashMap::new(), executions: 0 };
    let first = list(&mut shelf, &InstrumentsQuery::default(), true);
    let second = list(&mut shelf, &InstrumentsQuery::default(), true);
    assert_eq!(shelf.executions, 1);
    assert_eq!(first.instruments, second.instruments);
    assert_eq!(first.count, second.count);
    assert_eq!(first.count, 1);
    assert_eq!(
        first.metadata,
        QueryMetadata { total_rows: 1, returned_rows: 1, query_time_ms: 30, cached: false }
    );
    assert_eq!(
        second.metadata,
        QueryMetadata { total_rows: 1, returned_rows: 1, query_time_ms: 2, cached: true }
    );
    assert!(shelf.cache.contains_key("instruments:all"));

    let filtered = InstrumentsQuery { asset_class: Some("Equity".to_string()), instrument_type: None };
    list(&mut shelf, &filtered, true);
    list(&mut shelf, &filtered, true);
    assert_eq!(shelf.executions, 3);
    assert_eq!(shelf.cache.len(), 1);
}

#[test]
fn different_requests_have_different_payloads() {
    let base = sample_request();
    let mut variants: Vec<PivotRequest> = vec![base.clone()];
    let mut push = |change: &dyn Fn(&mut PivotRequest)| {
        let mut request = base.clone();
        change(&mut request);
        variants.push(request);
    };
    push(&|r| r.limit = 10);
    push(&|r| r.limit = 1);
    push(&|r| r.offset = 100);
    push(&|r| r.cache_bypass = true);
    push(&|r| r.dimensions = vec![Dimension::AssetClass, Dimension::Desk]);
    push(&|r| r.metrics = vec![Metric::Pnl, Metric::Notional]);
    push(&|r| r.filters.trade_date = None);
    push(&|r| r.filters.trade_date = Some("null".to_string()));
    push(&|r| r.filters.symbol = Some(vec![]));
    push(&|r| r.filters.symbol = Some(vec!["a".to_string(), "b".to_string()]));
    push(&|r| r.filters.symbol = Some(vec!["a\",\"b".to_string()]));
    push(&|r| r.filters.symbol = Some(vec!["a,b".to_string()]));
    push(&|r| r.filters.underlying_symbol = Some(vec!["a".to_string(), "b".to_string()]));
    push(&|r| r.filters.fund_id = Some(vec![1, 2]));
    push(&|r| r.filters.fund_id = Some(vec![12]));
    push(&|r| r.filters.portfolio_manager_id = Some(vec![12]));
    push(&|r| r.filters.exposure_type = Some(vec![ExposureType::Etf]));
    push(&|r| r.filters.exposure_type = Some(vec![ExposureType::Etc]));
    push(&|r| {
        r.filters.trade_date_range =
            Some(DateRange { start: "a".to_string(), end: "b\\".to_string() })
    });
    push(&|r| {
        r.filters.trade_date_range =
            Some(DateRange { start: "a\",\"end\":\"b".to_string(), end: "".to_string() })
    });
    push(&|r| r.sort = Some(SortSpec { field: "x".to_string(), direction: SortDirection::Asc }));
    push(&|r| r.sort = Some(SortSpec { field: "x".to_string(), direction: SortDirection::Desc }));
    let payloads: Vec<String> = variants.iter().map(|r| r.canonical_payload()).collect();
    for i in 0..payloads.len() {
        let value: serde_json::Value = serde_json::from_str(&payloads[i]).unwrap();
        assert!(value.is_object());
        for j in 0..i {
            assert_ne!(payloads[i], payloads[j]);
        }
    }
}
