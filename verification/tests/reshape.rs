use pivot_api::models::response::{
    CellValue, MetricValue, Number, Numeral, PivotRow, PnlRow, Real,
};
use pivot_api::reshape::{
    is_metric_column, reshape_line, reshape_lines, reshape_pnl_lines, reshape_pnl_row,
    reshape_row, split_lines,
};

fn unsigned(n: u64) -> Number {
    Number { unsigned: Some(n), signed: Some(n as i64), real: Some(Real { bits: (n as f64).to_bits() }) }
}

fn as_float(value: &MetricValue) -> f64 {
    match value {
        MetricValue::Real(real) => f64::from_bits(real.bits),
        MetricValue::Integer(i) => *i as f64,
    }
}

fn double(value: f64) -> MetricValue {
    MetricValue::Real(Real { bits: value.to_bits() })
}

#[test]
fn raw_row_is_parted_by_the_naming_convention() {
    let row = reshape_line("{\"asset_class\":\"Equity\",\"total_notional\":1000,\"trade_count\":5}")
        .unwrap();
    assert_eq!(
        row.dimensions,
        vec![("asset_class".to_string(), CellValue::Text("Equity".to_string()))]
    );
    assert_eq!(row.metrics.len(), 2);
    assert_eq!(row.metrics[0].0, "total_notional");
    assert_eq!(as_float(&row.metrics[0].1), 1000.0);
    assert_eq!(row.metrics[1].0, "trade_count");
    assert_eq!(as_float(&row.metrics[1].1), 5.0);
    assert_eq!(row.metrics[0].1, double(1000.0));
    assert_eq!(row.metrics[1].1, double(5.0));
}

#[test]
fn metric_names_follow_the_three_patterns() {
    assert!(is_metric_column("total_notional"));
    assert!(is_metric_column("total_"));
    assert!(is_metric_column("trade_count"));
    assert!(is_metric_column("_count"));
    assert!(is_metric_column("avg_price"));
    assert!(!is_metric_column("avg_prices"));
    assert!(!is_metric_column("avg_quantity"));
    assert!(!is_metric_column("total"));
    assert!(!is_metric_column("Total_pnl"));
    assert!(!is_metric_column("count"));
    assert!(!is_metric_column("counts_count_x"));
    assert!(!is_metric_column("asset_class"));
    assert!(!is_metric_column(""));
}

#[test]
fn numbers_keep_what_they_are() {
    let row = reshape_line(
        "{\"total_a\":-3,\"total_b\":2.5,\"total_c\":18446744073709551615,\"pm\":7,\"x\":-1.5e3}",
    )
    .unwrap();
    assert_eq!(
        row.metrics,
        vec![
            ("total_a".to_string(), double(-3.0)),
            ("total_b".to_string(), double(2.5)),
            ("total_c".to_string(), double(u64::MAX as f64)),
        ]
    );
    assert_eq!(
        row.dimensions,
        vec![
            ("pm".to_string(), CellValue::Number(unsigned(7))),
            (
                "x".to_string(),
                CellValue::Number(Number {
                    unsigned: None,
                    signed: None,
                    real: Some(Real { bits: (-1500.0f64).to_bits() })
                })
            ),
        ]
    );
}

#[test]
fn metric_without_a_number_is_dropped() {
    let row = reshape_line(
        "{\"total_pnl\":null,\"trade_count\":\"5\",\"avg_price\":true,\"total_x\":[1],\"desk\":null,\"flags\":{\"a\":[1,2]},\"ok\":false}",
    )
    .unwrap();
    assert!(row.metrics.is_empty());
    assert_eq!(
        row.dimensions,
        vec![
            ("desk".to_string(), CellValue::Null),
            ("flags".to_string(), CellValue::Nested("{\"a\":[1,2]}".to_string())),
            ("ok".to_string(), CellValue::Bool(false)),
        ]
    );
}

#[test]
fn hand_made_rows_are_reshaped_in_their_order() {
    let cells = vec![
        ("symbol".to_string(), CellValue::Text("AAPL".to_string())),
        ("total_pnl".to_string(), CellValue::Number(Number { unsigned: None, signed: Some(4), real: None })),
        ("avg_price".to_string(), CellValue::Number(Number { unsigned: Some(1), signed: None, real: None })),
        ("book".to_string(), CellValue::Text("Alpha".to_string())),
    ];
    let row = reshape_row(&cells);
    assert_eq!(
        row,
        PivotRow {
            dimensions: vec![
                ("symbol".to_string(), CellValue::Text("AAPL".to_string())),
                ("book".to_string(), CellValue::Text("Alpha".to_string())),
            ],
            metrics: vec![("total_pnl".to_string(), MetricValue::Integer(4))],
        }
    );
    assert_eq!(as_float(&row.metrics[0].1), 4.0);
    assert_eq!(reshape_row(&vec![]), PivotRow { dimensions: vec![], metrics: vec![] });
}

#[test]
fn lines_that_are_no_objects_are_left_out() {
    assert!(reshape_line("").is_none());
    assert!(reshape_line("null").is_none());
    assert!(reshape_line("[1,2]").is_none());
    assert!(reshape_line("{\"a\":1").is_none());
    assert!(reshape_line("{\"a\":1} x").is_none());
    assert_eq!(reshape_line("{}"), Some(PivotRow { dimensions: vec![], metrics: vec![] }));
    assert_eq!(
        reshape_line(" {\"a\":1, \"a\":2} ").unwrap().dimensions,
        vec![("a".to_string(), CellValue::Number(unsigned(2)))]
    );
    let rows = reshape_lines(&vec![
        "{\"desk\":\"FX\"}".to_string(),
        "not json".to_string(),
        "{\"desk\":\"Rates\",\"total_pnl\":1}".to_string(),
    ]);
    assert_eq!(rows.len(), 2);
    assert_eq!(rows[0].dimensions[0].1, CellValue::Text("FX".to_string()));
    assert_eq!(rows[1].metrics[0].0, "total_pnl");
    assert!(reshape_lines(&vec![]).is_empty());
}

#[test]
fn names_come_once_and_in_ascending_order() {
    let row = reshape_line("{\"symbol\":\"A\",\"book\":\"B\",\"desk\":\"C\",\"book\":\"D\"}").unwrap();
    assert_eq!(
        row.dimensions,
        vec![
            ("book".to_string(), CellValue::Text("D".to_string())),
            ("desk".to_string(), CellValue::Text("C".to_string())),
            ("symbol".to_string(), CellValue::Text("A".to_string())),
        ]
    );
}

#[test]
fn bodies_are_split_into_their_lines() {
    assert_eq!(split_lines(""), Vec::<String>::new());
    assert_eq!(split_lines("\n\n"), Vec::<String>::new());
    assert_eq!(split_lines("a"), vec!["a"]);
    assert_eq!(split_lines("a\nb\n"), vec!["a", "b"]);
    assert_eq!(split_lines("a\r\n\r\nb"), vec!["a", "b"]);
    assert_eq!(split_lines("\n a \n\nb\r"), vec![" a ", "b\r"]);
    assert_eq!(split_lines("a\r\r\nb"), vec!["a\r", "b"]);
    for body in ["", "\n\n", "a", "a\nb\n", "a\r\n\r\nb", "\n a \n\nb\r", "a\r\r\nb", "\r\n", "\r"] {
        let expected: Vec<String> =
            body.lines().filter(|line| !line.is_empty()).map(|line| line.to_string()).collect();
        assert_eq!(split_lines(body), expected);
    }
}

#[test]
fn pnl_rows_read_their_three_aggregates() {
    let rows = reshape_pnl_lines(&vec![
        "{\"desk\":\"FX\",\"book\":\"Alpha\",\"total_pnl\":-12.5,\"total_notional\":300,\"trade_count\":4}"
            .to_string(),
        "garbage".to_string(),
        "{\"desk\":\"Rates\",\"total_pnl\":\"n/a\",\"trade_count\":-1}".to_string(),
        "{\"trade_count\":2.0,\"total_count\":9}".to_string(),
    ]);
    assert_eq!(rows.len(), 3);
    assert_eq!(
        rows[0],
        PnlRow {
            groups: vec![
                ("book".to_string(), CellValue::Text("Alpha".to_string())),
                ("desk".to_string(), CellValue::Text("FX".to_string())),
            ],
            total_pnl: Real { bits: (-12.5f64).to_bits() },
            total_notional: Real { bits: 300.0f64.to_bits() },
            trade_count: 4,
        }
    );
    assert_eq!(
        rows[1],
        PnlRow {
            groups: vec![("desk".to_string(), CellValue::Text("Rates".to_string()))],
            total_pnl: Real { bits: 0.0f64.to_bits() },
            total_notional: Real { bits: 0.0f64.to_bits() },
            trade_count: 0,
        }
    );
    assert_eq!(rows[2].trade_count, 0);
    assert_eq!(rows[2].groups, vec![("total_count".to_string(), CellValue::Number(unsigned(9)))]);
    assert_eq!(Real::zero().bits, 0.0f64.to_bits());
}

#[test]
fn last_aggregate_wins_in_a_hand_made_row() {
    let cells = vec![
        ("trade_count".to_string(), CellValue::Number(unsigned(1))),
        ("trade_count".to_string(), CellValue::Number(unsigned(2))),
        ("total_pnl".to_string(), CellValue::Number(unsigned(3))),
        ("total_pnl".to_string(), CellValue::Null),
    ];
    let row = reshape_pnl_row(&cells);
    assert_eq!(row.trade_count, 2);
    assert_eq!(row.total_pnl, Real::zero());
    assert_eq!(row.total_notional, Real::zero());
    assert!(row.groups.is_empty());
}

#[test]
fn a_number_is_read_as_a_double_before_it_is_read_as_an_integer() {
    let both = Number { unsigned: Some(7), signed: Some(7), real: Some(Real { bits: 7.0f64.to_bits() }) };
    assert_eq!(both.as_metric(), Some(double(7.0)));
    let integer = Number { unsigned: None, signed: Some(-7), real: None };
    assert_eq!(integer.as_metric(), Some(MetricValue::Integer(-7)));
    let neither = Number { unsigned: Some(7), signed: None, real: None };
    assert_eq!(neither.as_metric(), None);
}

#[test]
fn an_integer_is_written_out_as_an_integer() {
    assert_eq!(unsigned(7).numeral(), Some(Numeral::Unsigned(7)));
    let negative = Number { unsigned: None, signed: Some(-7), real: Some(Real { bits: (-7.0f64).to_bits() }) };
    assert_eq!(negative.numeral(), Some(Numeral::Signed(-7)));
    let fraction = Number { unsigned: None, signed: None, real: Some(Real { bits: 0.5f64.to_bits() }) };
    assert_eq!(fraction.numeral(), Some(Numeral::Real(Real { bits: 0.5f64.to_bits() })));
    assert_eq!(Number { unsigned: None, signed: None, real: None }.numeral(), None);
}
