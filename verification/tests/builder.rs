use pivot_api::error::ApiError;
use pivot_api::models::request::{
    default_group_by, default_limit, default_pnl_group_by, DateRange, ExposureType, PivotFilters,
    PivotRequest, SortDirection, SortSpec,
};
use pivot_api::query::{Dimension, Metric, PivotQueryBuilder};

#[test]
fn test_simple_query() {
    let req = PivotRequest {
        dimensions: vec![Dimension::AssetClass],
        metrics: vec![Metric::Notional, Metric::Pnl],
        filters: PivotFilters {
            trade_date: Some("2024-01-15".to_string()),
            ..Default::default()
        },
        ..Default::default()
    };

    let builder = PivotQueryBuilder::from_request(&req).unwrap();
    let sql = builder.build();

    assert!(sql.contains("SELECT asset_class"));
    assert!(sql.contains("sum(notional) AS total_notional"));
    assert!(sql.contains("sum(pnl) AS total_pnl"));
    assert!(sql.contains("FROM pivot.trades_1d"));
    assert!(sql.contains("WHERE trade_date = '2024-01-15'"));
    assert!(sql.contains("GROUP BY asset_class"));
}

#[test]
fn test_exposure_type_filter() {
    let req = PivotRequest {
        dimensions: vec![Dimension::Symbol],
        metrics: vec![Metric::Notional],
        filters: PivotFilters {
            exposure_type: Some(vec![ExposureType::Direct, ExposureType::Etf]),
            ..Default::default()
        },
        ..Default::default()
    };

    let builder = PivotQueryBuilder::from_request(&req).unwrap();
    let sql = builder.build();

    assert!(sql.contains("exposure_type IN ('Direct', 'ETF')"));
}

#[test]
fn test_multiple_dimensions() {
    let req = PivotRequest {
        dimensions: vec![
            Dimension::PortfolioManagerId,
            Dimension::AssetClass,
            Dimension::Symbol,
        ],
        metrics: vec![Metric::TradeCount],
        filters: PivotFilters::default(),
        ..Default::default()
    };

    let builder = PivotQueryBuilder::from_request(&req).unwrap();
    let sql = builder.build();

    assert!(sql.contains("SELECT portfolio_manager_id, asset_class, symbol"));
    assert!(sql.contains("GROUP BY portfolio_manager_id, asset_class, symbol"));
}

#[test]
fn test_sql_injection_prevention() {
    let req = PivotRequest {
        dimensions: vec![Dimension::AssetClass],
        metrics: vec![Metric::Notional],
        filters: PivotFilters {
            trade_date: Some("2024-01-15'; DROP TABLE trades_1d; --".to_string()),
            ..Default::default()
        },
        ..Default::default()
    };

    let builder = PivotQueryBuilder::from_request(&req).unwrap();
    let sql = builder.build();

    assert!(!sql.contains("DROP TABLE"));
    assert!(!sql.contains(";"));
}

#[test]
fn simple_query_is_exact() {
    let req = PivotRequest {
        dimensions: vec![Dimension::AssetClass],
        metrics: vec![Metric::Notional, Metric::Pnl],
        filters: PivotFilters {
            trade_date: Some("2024-01-15".to_string()),
            ..Default::default()
        },
        ..Default::default()
    };
    let sql = PivotQueryBuilder::from_request(&req).unwrap().build();
    assert_eq!(
        sql,
        "SELECT asset_class, sum(notional) AS total_notional, sum(pnl) AS total_pnl \
         FROM pivot.trades_1d WHERE trade_date = '2024-01-15' GROUP BY asset_class \
         ORDER BY total_notional DESC LIMIT 100"
    );
}

fn request(dimensions: Vec<Dimension>, metrics: Vec<Metric>) -> PivotRequest {
    PivotRequest { dimensions, metrics, ..Default::default() }
}

#[test]
fn request_without_dimensions_is_rejected() {
    let req = request(vec![], vec![Metric::Notional]);
    match PivotQueryBuilder::from_request(&req) {
        Err(ApiError::QueryValidation(message)) => {
            assert_eq!(message, "at least one dimension required")
        }
        _ => panic!("a request without dimensions was accepted"),
    }
}

#[test]
fn request_without_metrics_is_rejected() {
    let req = request(vec![Dimension::Desk], vec![]);
    match PivotQueryBuilder::from_request(&req) {
        Err(ApiError::QueryValidation(message)) => {
            assert_eq!(message, "at least one metric required")
        }
        _ => panic!("a request without metrics was accepted"),
    }
}

#[test]
fn dimensions_are_checked_before_metrics() {
    let req = request(vec![], vec![]);
    match PivotQueryBuilder::from_request(&req) {
        Err(ApiError::QueryValidation(message)) => {
            assert_eq!(message, "at least one dimension required")
        }
        _ => panic!("an empty request was accepted"),
    }
}

#[test]
fn group_by_repeats_the_selected_dimensions() {
    let req = request(
        vec![Dimension::Region, Dimension::Desk, Dimension::TradeDate],
        vec![Metric::Price],
    );
    let sql = PivotQueryBuilder::from_request(&req).unwrap().build();
    assert_eq!(
        sql,
        "SELECT region, desk, trade_date, avg(price) AS avg_price FROM pivot.trades_1d \
         GROUP BY region, desk, trade_date ORDER BY avg_price DESC LIMIT 100"
    );
}

#[test]
fn compiling_twice_gives_the_same_text() {
    let mut req = request(vec![Dimension::Book], vec![Metric::Fees, Metric::TradeCount]);
    req.filters.symbol = Some(vec!["AAPL".to_string(), "MSFT".to_string()]);
    let builder = PivotQueryBuilder::from_request(&req).unwrap();
    let first = builder.build();
    let second = builder.build();
    assert_eq!(first, second);
    let again = PivotQueryBuilder::from_request(&req).unwrap().build();
    assert_eq!(first, again);
}

#[test]
fn cache_flag_does_not_change_the_statement() {
    let mut req = request(vec![Dimension::Book], vec![Metric::Fees]);
    let plain = PivotQueryBuilder::from_request(&req).unwrap().build();
    req.cache_bypass = true;
    let bypassed = PivotQueryBuilder::from_request(&req).unwrap().build();
    assert_eq!(plain, bypassed);
}

#[test]
fn filters_come_in_their_fixed_order() {
    let req = PivotRequest {
        dimensions: vec![Dimension::Symbol],
        metrics: vec![Metric::Quantity],
        filters: PivotFilters {
            trade_date: Some("2024-01-15".to_string()),
            trade_date_range: Some(DateRange {
                start: "2024-01-01".to_string(),
                end: "2024-01-31".to_string(),
            }),
            exposure_type: Some(vec![ExposureType::Etc, ExposureType::Constituent]),
            portfolio_manager_id: Some(vec![1, 22, 4294967295]),
            fund_id: Some(vec![0]),
            asset_class: Some(vec!["Equity".to_string()]),
            symbol: Some(vec!["AAPL".to_string(), "BRK_B".to_string()]),
            underlying_symbol: Some(vec!["GOLD".to_string()]),
            desk: Some(vec!["FX".to_string()]),
            book: Some(vec!["Alpha".to_string()]),
            region: Some(vec!["EMEA".to_string()]),
            country: Some(vec!["UK".to_string()]),
        },
        sort: Some(SortSpec { field: "total_quantity".to_string(), direction: SortDirection::Asc }),
        limit: 25,
        offset: 50,
        cache_bypass: false,
    };
    let sql = PivotQueryBuilder::from_request(&req).unwrap().build();
    assert_eq!(
        sql,
        "SELECT symbol, sum(quantity) AS total_quantity FROM pivot.trades_1d \
         WHERE trade_date = '2024-01-15' \
         AND trade_date >= '2024-01-01' AND trade_date <= '2024-01-31' \
         AND exposure_type IN ('ETC', 'Constituent') \
         AND portfolio_manager_id IN (1, 22, 4294967295) \
         AND fund_id IN (0) \
         AND asset_class IN ('Equity') \
         AND symbol IN ('AAPL', 'BRK_B') \
         AND underlying_symbol IN ('GOLD') \
         AND desk IN ('FX') \
         AND book IN ('Alpha') \
         AND region IN ('EMEA') \
         AND country IN ('UK') \
         GROUP BY symbol ORDER BY total_quantity ASC LIMIT 25 OFFSET 50"
    );
}

#[test]
fn empty_lists_do_not_constrain() {
    let mut req = request(vec![Dimension::Symbol], vec![Metric::Quantity]);
    req.filters.exposure_type = Some(vec![]);
    req.filters.fund_id = Some(vec![]);
    req.filters.desk = Some(vec![]);
    let sql = PivotQueryBuilder::from_request(&req).unwrap().build();
    assert_eq!(
        sql,
        "SELECT symbol, sum(quantity) AS total_quantity FROM pivot.trades_1d \
         GROUP BY symbol ORDER BY total_quantity DESC LIMIT 100"
    );
}

#[test]
fn sort_defaults_to_descending() {
    assert_eq!(SortDirection::default(), SortDirection::Desc);
    let mut req = request(vec![Dimension::Symbol], vec![Metric::Pnl]);
    req.sort = Some(SortSpec { field: "total_pnl".to_string(), direction: SortDirection::default() });
    let sql = PivotQueryBuilder::from_request(&req).unwrap().build();
    assert!(sql.ends_with(" GROUP BY symbol ORDER BY total_pnl DESC LIMIT 100"));
}

#[test]
fn zero_offset_is_left_out_and_zero_limit_is_kept() {
    let mut req = request(vec![Dimension::Symbol], vec![Metric::Pnl]);
    req.limit = 0;
    req.offset = 0;
    let sql = PivotQueryBuilder::from_request(&req).unwrap().build();
    assert!(sql.ends_with(" GROUP BY symbol ORDER BY total_pnl DESC LIMIT 0"));
    req.limit = u32::MAX;
    req.offset = 1;
    let sql = PivotQueryBuilder::from_request(&req).unwrap().build();
    assert!(sql.ends_with(" LIMIT 4294967295 OFFSET 1"));
}

#[test]
fn dates_keep_their_digits_and_hyphens_and_nothing_else() {
    assert_eq!(PivotQueryBuilder::escape_date("2024-01-15"), "2024-01-15");
    assert_eq!(PivotQueryBuilder::escape_date("2024-01-15T00:00"), "2024-01-150000");
    assert_eq!(PivotQueryBuilder::escape_date("today"), "");
    assert_eq!(PivotQueryBuilder::escape_date("١٢-3"), "-3");
    let mut req = request(vec![Dimension::Desk], vec![Metric::Pnl]);
    req.filters.trade_date = Some("2024-01-15T00:00".to_string());
    req.filters.trade_date_range = Some(DateRange {
        start: "2024-01-01 00:00:00".to_string(),
        end: "Jan 31st, 2024".to_string(),
    });
    let clauses = PivotQueryBuilder::from_request(&req).unwrap().build_where_clauses();
    assert_eq!(
        clauses,
        vec![
            "trade_date = '2024-01-150000'".to_string(),
            "trade_date >= '2024-01-01000000' AND trade_date <= '312024'".to_string(),
        ]
    );
    let mut injected = request(vec![Dimension::Desk], vec![Metric::Pnl]);
    injected.filters.trade_date = Some("2024-01-15'; DROP TABLE trades_1d; --".to_string());
    assert_eq!(
        PivotQueryBuilder::from_request(&injected).unwrap().build_where_clauses(),
        vec!["trade_date = '2024-01-151--'".to_string()]
    );
}

#[test]
fn escape_string_keeps_dates_and_strips_the_rest() {
    assert_eq!(PivotQueryBuilder::escape_string("2024-01-15"), "2024-01-15");
    assert_eq!(PivotQueryBuilder::escape_string("--"), "--");
    assert_eq!(PivotQueryBuilder::escape_string(""), "");
    assert_eq!(PivotQueryBuilder::escape_string("Fixed Income"), "FixedIncome");
    assert_eq!(PivotQueryBuilder::escape_string("a-b_c"), "ab_c");
    assert_eq!(PivotQueryBuilder::escape_string("O'Brien"), "OBrien");
    assert_eq!(
        PivotQueryBuilder::escape_string("2024-01-15'; DROP TABLE trades_1d; --"),
        "20240115DROPTABLEtrades_1d"
    );
    assert_eq!(PivotQueryBuilder::escape_string("Zürich\u{0}é١"), "Züriché١");
}

#[test]
fn injected_text_leaves_no_quote_and_no_separator() {
    let mut req = request(vec![Dimension::AssetClass], vec![Metric::Notional]);
    req.filters.asset_class = Some(vec!["x' OR '1'='1".to_string(), "a;b\\c\"d`e".to_string()]);
    let sql = PivotQueryBuilder::from_request(&req).unwrap().build();
    assert_eq!(
        sql,
        "SELECT asset_class, sum(notional) AS total_notional FROM pivot.trades_1d \
         WHERE asset_class IN ('xOR11', 'abcde') GROUP BY asset_class \
         ORDER BY total_notional DESC LIMIT 100"
    );
    assert_eq!(sql.matches('\'').count(), 4);
    assert!(!sql.contains(';'));
}

#[test]
fn exposure_types_have_fixed_names() {
    assert_eq!(PivotQueryBuilder::exposure_type_to_string(&ExposureType::Direct), "Direct");
    assert_eq!(PivotQueryBuilder::exposure_type_to_string(&ExposureType::Etf), "ETF");
    assert_eq!(PivotQueryBuilder::exposure_type_to_string(&ExposureType::Etc), "ETC");
    assert_eq!(
        PivotQueryBuilder::exposure_type_to_string(&ExposureType::Constituent),
        "Constituent"
    );
}

#[test]
fn where_clauses_are_listed_one_per_field() {
    let mut req = request(vec![Dimension::Symbol], vec![Metric::Pnl]);
    req.filters.trade_date = Some("2024-02-29".to_string());
    req.filters.fund_id = Some(vec![7, 8]);
    let clauses = PivotQueryBuilder::from_request(&req).unwrap().build_where_clauses();
    assert_eq!(clauses, vec!["trade_date = '2024-02-29'".to_string(), "fund_id IN (7, 8)".to_string()]);
}

#[test]
fn registries_are_complete_and_consistent() {
    assert_eq!(Dimension::all().len(), 22);
    assert_eq!(Metric::all().len(), 14);
    assert_eq!(Dimension::all()[0], Dimension::TradeDate);
    assert_eq!(Dimension::all()[21], Dimension::Scenario);
    assert_eq!(Metric::all()[13], Metric::TradeCount);
    assert_eq!(Dimension::PortfolioManagerId.to_column(), "portfolio_manager_id");
    assert_eq!(Dimension::RiskBucket.to_column(), "risk_bucket");
    assert_eq!(Metric::Price.to_aggregation(), "avg(price)");
    assert_eq!(Metric::Price.alias(), "avg_price");
    assert_eq!(Metric::TradeCount.to_aggregation(), "count()");
    assert_eq!(Metric::TradeCount.alias(), "trade_count");
    assert_eq!(Metric::Notional.name(), "notional");
    for metric in Metric::all() {
        let alias = metric.alias();
        assert!(alias.starts_with("total_") || alias.ends_with("_count") || alias == "avg_price");
    }
    for dimension in Dimension::all() {
        let column = dimension.to_column();
        assert!(!(column.starts_with("total_") || column.ends_with("_count") || column == "avg_price"));
    }
}

#[test]
fn request_defaults() {
    let req = PivotRequest::default();
    assert!(req.dimensions.is_empty());
    assert!(req.metrics.is_empty());
    assert!(req.sort.is_none());
    assert_eq!(req.limit, 100);
    assert_eq!(req.offset, 0);
    assert!(!req.cache_bypass);
    assert!(req.filters.trade_date.is_none());
    assert_eq!(default_limit(), 100);
    assert_eq!(default_group_by(), "asset_class");
    assert_eq!(default_pnl_group_by(), "portfolio_manager_id");
}

#[test]
fn names_are_looked_up_in_the_closed_vocabulary() {
    for dimension in Dimension::all() {
        assert_eq!(Dimension::from_name(dimension.to_column()), Some(*dimension));
    }
    for metric in Metric::all() {
        assert_eq!(Metric::from_name(metric.name()), Some(*metric));
        assert_eq!(Metric::from_name(metric.alias()).is_some(), *metric == Metric::TradeCount);
    }
    for name in ["", "Desk", "desk ", "total_pnl", "sum(pnl)", "trade_date; --", "pnl_"] {
        assert_eq!(Dimension::from_name(name), None);
        assert_eq!(Metric::from_name(name), None);
    }
    assert_eq!(Dimension::from_name("exposure_type"), Some(Dimension::ExposureType));
    assert_eq!(Metric::from_name("exposure"), Some(Metric::Exposure));
    assert_eq!(Metric::from_name("trade_count"), Some(Metric::TradeCount));
}

#[test]
fn unsorted_request_is_ordered_by_its_first_metric() {
    let req = request(vec![Dimension::Desk], vec![Metric::TradeCount, Metric::Pnl]);
    let sql = PivotQueryBuilder::from_request(&req).unwrap().build();
    assert_eq!(
        sql,
        "SELECT desk, count() AS trade_count, sum(pnl) AS total_pnl FROM pivot.trades_1d \
         GROUP BY desk ORDER BY trade_count DESC LIMIT 100"
    );
    let mut sorted = request(vec![Dimension::Desk], vec![Metric::TradeCount, Metric::Pnl]);
    sorted.sort = Some(SortSpec { field: "desk".to_string(), direction: SortDirection::Asc });
    let sql = PivotQueryBuilder::from_request(&sorted).unwrap().build();
    assert_eq!(sql.matches(" ORDER BY ").count(), 1);
    assert!(sql.ends_with(" GROUP BY desk ORDER BY desk ASC LIMIT 100"));
}
