//! What holds of every compiled statement, whatever the filter values were.

use crate::models::request::{ExposureType, PivotFiltersView, PivotRequestView};
use crate::query::builder::{
    compile, date_filter, date_text, dimension_columns, direction_word, exposure_filter, exposure_literals,
    exposure_name, group_by_columns, id_filter, id_literals, in_clause, limit_part, metric_item,
    metric_list, order_part, plan_of, quoted, range_filter, sanitized, select_dimensions,
    text_filter, text_literals, valid_plan, where_clauses, where_part, QueryPlan,
};
use crate::query::{Dimension, Metric};
use crate::reshape::metric_name;
use crate::text::{
    all_admitted, decimal, has_prefix, inert, join, lacks, lemma_admitted_is_inert, lemma_decimal_digits,
    lemma_inert_is_plain, lemma_inert_stays_inside, lemma_plain_is_well_quoted,
    lemma_read_concat, lemma_retain_admitted, lemma_well_quoted_concat,
    lemma_well_quoted_has_no_separator, lemma_well_quoted_join, plain, read, well_quoted,
    Charset, Reading,
};
use vstd::prelude::*;

verus! {

/// Whatever a filter value holds, the text that stands for it in the statement holds no
/// quote, no backslash and no statement separator.
pub proof fn lemma_sanitized_is_inert(value: Seq<char>)
    ensures
        inert(sanitized(value)),
        plain(sanitized(value)),
{
    if all_admitted(value, Charset::DateLike) {
        assert forall|i: int| 0 <= i < value.len() implies !crate::text::sql_metachar(
            #[trigger] value[i],
        ) by {
            lemma_admitted_is_inert(Charset::DateLike, value[i]);
        }
    } else {
        lemma_retain_admitted(value, Charset::Word);
    }
    lemma_inert_is_plain(sanitized(value));
}

/// Whatever a trade date holds, the literal that stands for it holds digits and hyphens
/// only, and a date that holds nothing else is interpolated unchanged.
pub proof fn lemma_date_text_is_date_like(value: Seq<char>)
    ensures
        all_admitted(date_text(value), Charset::DateLike),
        inert(date_text(value)),
        all_admitted(value, Charset::DateLike) ==> date_text(value) == value,
{
    lemma_retain_admitted(value, Charset::DateLike);
    if all_admitted(value, Charset::DateLike) {
        crate::text::lemma_retain_identity(value, Charset::DateLike);
    }
}

/// A value that is already safe is interpolated unchanged.
pub proof fn lemma_sanitized_keeps_safe_text(value: Seq<char>)
    requires
        all_admitted(value, Charset::DateLike) || all_admitted(value, Charset::Word),
    ensures
        sanitized(value) == value,
{
    if !all_admitted(value, Charset::DateLike) {
        crate::text::lemma_retain_identity(value, Charset::Word);
    }
}

/// Whether a list filter constrains the query: it is present and not empty.
pub open spec fn constrains<T>(list: Option<Seq<T>>) -> bool {
    list matches Some(values) && values.len() > 0
}

/// One if the condition holds, zero if it does not.
pub open spec fn one_if(condition: bool) -> nat {
    if condition {
        1
    } else {
        0
    }
}

/// Every field that constrains the query contributes exactly one clause, and no other field
/// contributes any: an absent field does not, and neither does an empty list.
pub proof fn lemma_one_clause_per_field(filters: PivotFiltersView)
    ensures
        where_clauses(filters).len() == one_if(filters.trade_date is Some) + one_if(
            filters.trade_date_range is Some,
        ) + one_if(constrains(filters.exposure_type)) + one_if(
            constrains(filters.portfolio_manager_id),
        ) + one_if(constrains(filters.fund_id)) + one_if(constrains(filters.asset_class)) + one_if(
            constrains(filters.symbol),
        ) + one_if(constrains(filters.underlying_symbol)) + one_if(constrains(filters.desk))
            + one_if(constrains(filters.book)) + one_if(constrains(filters.region)) + one_if(
            constrains(filters.country),
        ),
        where_clauses(PivotFiltersView::unconstrained()).len() == 0,
{
}

/// The statement groups by exactly the dimension columns that it selects, in the same order.
pub proof fn lemma_group_by_matches_select(plan: QueryPlan)
    ensures
        group_by_columns(plan) == select_dimensions(plan),
        select_dimensions(plan).len() == plan.dimensions.len(),
        forall|i: int|
            0 <= i < plan.dimensions.len() ==> #[trigger] select_dimensions(plan)[i]
                == plan.dimensions[i].column(),
{
}

/// Every statement of a valid plan is ordered: by the sort of the request where it names
/// one, and otherwise by the alias of its first metric, largest first.
pub proof fn lemma_statement_is_ordered(plan: QueryPlan)
    requires
        valid_plan(plan),
    ensures
        has_prefix(order_part(plan), " ORDER BY "@),
        plan.sort_field is None ==> order_part(plan) == " ORDER BY "@
            + plan.metrics[0].output_alias() + " DESC"@,
        plan.sort_field matches Some(field) ==> order_part(plan) == " ORDER BY "@ + field
            + direction_word(plan.sort_direction),
{
    let head = " ORDER BY "@;
    match plan.sort_field {
        Some(field) => {
            let word = direction_word(plan.sort_direction);
            assert((head + field + word).take(head.len() as int) =~= head);
        },
        None => {
            let alias = plan.metrics[0].output_alias();
            assert((head + alias + " DESC"@).take(head.len() as int) =~= head);
        },
    }
}

/// The statement depends on nothing but the plan: requests that agree on everything but
/// the cache flag compile to the same text.
pub proof fn lemma_compile_ignores_cache_flag(a: PivotRequestView, b: PivotRequestView)
    requires
        a.dimensions == b.dimensions,
        a.metrics == b.metrics,
        a.filters == b.filters,
        a.sort == b.sort,
        a.limit == b.limit,
        a.offset == b.offset,
    ensures
        compile(plan_of(a)) == compile(plan_of(b)),
{
}

/// The registry and the naming convention of result rows agree: the alias of every metric
/// is read as a metric, and the column of every dimension is not. So a row of a compiled
/// statement is parted the way the request meant it.
pub proof fn lemma_registry_follows_convention(dimension: Dimension, metric: Metric)
    ensures
        !metric_name(dimension.column()),
        metric_name(metric.output_alias()),
{
    reveal_strlit("total_");
    reveal_strlit("_count");
    reveal_strlit("avg_price");
    let column = dimension.column();
    let alias = metric.output_alias();
    match dimension {
        Dimension::TradeDate => {
            reveal_strlit("trade_date");
            assert(column.take(6)[1] != "total_"@[1]);
            assert(column.skip(column.len() - 6)[5] != "_count"@[5]);
        },
        Dimension::PortfolioManagerId => {
            reveal_strlit("portfolio_manager_id");
            assert(column.take(6)[0] != "total_"@[0]);
            assert(column.skip(column.len() - 6)[5] != "_count"@[5]);
        },
        Dimension::FundId => {
            reveal_strlit("fund_id");
            assert(column.take(6)[0] != "total_"@[0]);
            assert(column.skip(column.len() - 6)[5] != "_count"@[5]);
        },
        Dimension::PortfolioId => {
            reveal_strlit("portfolio_id");
            assert(column.take(6)[0] != "total_"@[0]);
            assert(column.skip(column.len() - 6)[5] != "_count"@[5]);
        },
        Dimension::AccountId => {
            reveal_strlit("account_id");
            assert(column.take(6)[0] != "total_"@[0]);
            assert(column.skip(column.len() - 6)[5] != "_count"@[5]);
        },
        Dimension::Desk => {
            reveal_strlit("desk");
        },
        Dimension::Book => {
            reveal_strlit("book");
        },
        Dimension::Strategy => {
            reveal_strlit("strategy");
            assert(column.take(6)[0] != "total_"@[0]);
            assert(column.skip(column.len() - 6)[5] != "_count"@[5]);
        },
        Dimension::Region => {
            reveal_strlit("region");
            assert(column.take(6)[0] != "total_"@[0]);
            assert(column.skip(column.len() - 6)[5] != "_count"@[5]);
        },
        Dimension::Country => {
            reveal_strlit("country");
            assert(column.take(6)[0] != "total_"@[0]);
            assert(column.skip(column.len() - 6)[5] != "_count"@[5]);
        },
        Dimension::Venue => {
            reveal_strlit("venue");
        },
        Dimension::AssetClass => {
            reveal_strlit("asset_class");
            assert(column.take(6)[0] != "total_"@[0]);
            assert(column.skip(column.len() - 6)[5] != "_count"@[5]);
        },
        Dimension::Product => {
            reveal_strlit("product");
            assert(column.take(6)[0] != "total_"@[0]);
            assert(column.skip(column.len() - 6)[4] != "_count"@[4]);
        },
        Dimension::InstrumentType => {
            reveal_strlit("instrument_type");
            assert(column.take(6)[0] != "total_"@[0]);
            assert(column.skip(column.len() - 6)[5] != "_count"@[5]);
        },
        Dimension::Symbol => {
            reveal_strlit("symbol");
            assert(column.take(6)[0] != "total_"@[0]);
            assert(column.skip(column.len() - 6)[5] != "_count"@[5]);
        },
        Dimension::UnderlyingSymbol => {
            reveal_strlit("underlying_symbol");
            assert(column.take(6)[0] != "total_"@[0]);
            assert(column.skip(column.len() - 6)[5] != "_count"@[5]);
        },
        Dimension::ParentSymbol => {
            reveal_strlit("parent_symbol");
            assert(column.take(6)[0] != "total_"@[0]);
            assert(column.skip(column.len() - 6)[5] != "_count"@[5]);
        },
        Dimension::ExposureType => {
            reveal_strlit("exposure_type");
            assert(column.take(6)[0] != "total_"@[0]);
            assert(column.skip(column.len() - 6)[5] != "_count"@[5]);
        },
        Dimension::Currency => {
            reveal_strlit("currency");
            assert(column.take(6)[0] != "total_"@[0]);
            assert(column.skip(column.len() - 6)[5] != "_count"@[5]);
        },
        Dimension::Counterparty => {
            reveal_strlit("counterparty");
            assert(column.take(6)[0] != "total_"@[0]);
            assert(column.skip(column.len() - 6)[5] != "_count"@[5]);
        },
        Dimension::RiskBucket => {
            reveal_strlit("risk_bucket");
            assert(column.take(6)[0] != "total_"@[0]);
            assert(column.skip(column.len() - 6)[4] != "_count"@[4]);
        },
        Dimension::Scenario => {
            reveal_strlit("scenario");
            assert(column.take(6)[0] != "total_"@[0]);
            assert(column.skip(column.len() - 6)[5] != "_count"@[5]);
        },
    }
    match metric {
        Metric::Quantity => {
            reveal_strlit("total_quantity");
            assert(alias.take(6) =~= "total_"@);
        },
        Metric::Notional => {
            reveal_strlit("total_notional");
            assert(alias.take(6) =~= "total_"@);
        },
        Metric::Pnl => {
            reveal_strlit("total_pnl");
            assert(alias.take(6) =~= "total_"@);
        },
        Metric::Price => {
            reveal_strlit("avg_price");
        },
        Metric::Delta => {
            reveal_strlit("total_delta");
            assert(alias.take(6) =~= "total_"@);
        },
        Metric::Gamma => {
            reveal_strlit("total_gamma");
            assert(alias.take(6) =~= "total_"@);
        },
        Metric::Vega => {
            reveal_strlit("total_vega");
            assert(alias.take(6) =~= "total_"@);
        },
        Metric::Theta => {
            reveal_strlit("total_theta");
            assert(alias.take(6) =~= "total_"@);
        },
        Metric::Rho => {
            reveal_strlit("total_rho");
            assert(alias.take(6) =~= "total_"@);
        },
        Metric::Margin => {
            reveal_strlit("total_margin");
            assert(alias.take(6) =~= "total_"@);
        },
        Metric::Fees => {
            reveal_strlit("total_fees");
            assert(alias.take(6) =~= "total_"@);
        },
        Metric::Slippage => {
            reveal_strlit("total_slippage");
            assert(alias.take(6) =~= "total_"@);
        },
        Metric::Exposure => {
            reveal_strlit("total_exposure");
            assert(alias.take(6) =~= "total_"@);
        },
        Metric::TradeCount => {
            reveal_strlit("trade_count");
            assert(alias.skip(alias.len() - 6) =~= "_count"@);
        },
    }
}

proof fn lemma_column_plain(d: Dimension)
    ensures
        plain(d.column()),
        well_quoted(d.column()),
{
    reveal_strlit("trade_date");
    reveal_strlit("portfolio_manager_id");
    reveal_strlit("fund_id");
    reveal_strlit("portfolio_id");
    reveal_strlit("account_id");
    reveal_strlit("desk");
    reveal_strlit("book");
    reveal_strlit("strategy");
    reveal_strlit("region");
    reveal_strlit("country");
    reveal_strlit("venue");
    reveal_strlit("asset_class");
    reveal_strlit("product");
    reveal_strlit("instrument_type");
    reveal_strlit("symbol");
    reveal_strlit("underlying_symbol");
    reveal_strlit("parent_symbol");
    reveal_strlit("exposure_type");
    reveal_strlit("currency");
    reveal_strlit("counterparty");
    reveal_strlit("risk_bucket");
    reveal_strlit("scenario");
    assert(plain(d.column()));
    lemma_plain_is_well_quoted(d.column());
}

proof fn lemma_aggregation_plain(m: Metric)
    ensures
        plain(m.aggregation()),
{
    reveal_strlit("sum(quantity)");
    reveal_strlit("sum(notional)");
    reveal_strlit("sum(pnl)");
    reveal_strlit("avg(price)");
    reveal_strlit("sum(delta)");
    reveal_strlit("sum(gamma)");
    reveal_strlit("sum(vega)");
    reveal_strlit("sum(theta)");
    reveal_strlit("sum(rho)");
    reveal_strlit("sum(margin)");
    reveal_strlit("sum(fees)");
    reveal_strlit("sum(slippage)");
    reveal_strlit("sum(exposure)");
    reveal_strlit("count()");
}

proof fn lemma_alias_plain(m: Metric)
    ensures
        plain(m.output_alias()),
{
    reveal_strlit("total_quantity");
    reveal_strlit("total_notional");
    reveal_strlit("total_pnl");
    reveal_strlit("avg_price");
    reveal_strlit("total_delta");
    reveal_strlit("total_gamma");
    reveal_strlit("total_vega");
    reveal_strlit("total_theta");
    reveal_strlit("total_rho");
    reveal_strlit("total_margin");
    reveal_strlit("total_fees");
    reveal_strlit("total_slippage");
    reveal_strlit("total_exposure");
    reveal_strlit("trade_count");
}

/// A literal around inert text is well quoted: its two quotes are the only ones, and
/// nothing between them ends or escapes it.
pub proof fn lemma_quoted_is_well_quoted(text: Seq<char>)
    requires
        inert(text),
    ensures
        well_quoted(quoted(text)),
{
    reveal_strlit("'");
    let q = "'"@;
    assert(q.len() == 1 && q[0] == '\'');
    assert(q.drop_last().len() == 0);
    assert(q.last() == '\'');
    assert(read(q.drop_last(), Reading::Outside) == Reading::Outside);
    assert(read(q.drop_last(), Reading::Inside) == Reading::Inside);
    assert(read(q, Reading::Outside) == Reading::Inside);
    assert(read(q, Reading::Inside) == Reading::Outside);
    lemma_inert_stays_inside(text);
    lemma_read_concat(q, text, Reading::Outside);
    lemma_read_concat(q + text, q, Reading::Outside);
}

proof fn lemma_exposure_name_inert(t: ExposureType)
    ensures
        inert(exposure_name(t)),
{
    reveal_strlit("Direct");
    reveal_strlit("ETF");
    reveal_strlit("ETC");
    reveal_strlit("Constituent");
}

proof fn lemma_metric_list_well_quoted(metrics: Seq<Metric>)
    ensures
        well_quoted(metric_list(metrics)),
    decreases metrics.len(),
{
    if metrics.len() == 0 {
        assert(plain(Seq::<char>::empty()));
        lemma_plain_is_well_quoted(Seq::<char>::empty());
    } else {
        let m = metrics.last();
        lemma_metric_list_well_quoted(metrics.drop_last());
        lemma_aggregation_plain(m);
        lemma_alias_plain(m);
        reveal_strlit(", ");
        reveal_strlit(" AS ");
        lemma_plain_is_well_quoted(", "@);
        lemma_plain_is_well_quoted(" AS "@);
        lemma_plain_is_well_quoted(m.aggregation());
        lemma_plain_is_well_quoted(m.output_alias());
        lemma_well_quoted_concat(", "@, m.aggregation());
        lemma_well_quoted_concat(", "@ + m.aggregation(), " AS "@);
        lemma_well_quoted_concat(", "@ + m.aggregation() + " AS "@, m.output_alias());
        lemma_well_quoted_concat(metric_list(metrics.drop_last()), metric_item(m));
    }
}

/// A list of well-quoted literals behind a plain column is well quoted.
pub proof fn lemma_in_clause_well_quoted(column: Seq<char>, literals: Seq<Seq<char>>)
    requires
        plain(column),
        forall|i: int| 0 <= i < literals.len() ==> well_quoted(#[trigger] literals[i]),
    ensures
        well_quoted(in_clause(column, literals)),
{
    reveal_strlit(" IN (");
    reveal_strlit(", ");
    reveal_strlit(")");
    lemma_plain_is_well_quoted(column);
    lemma_plain_is_well_quoted(" IN ("@);
    lemma_plain_is_well_quoted(")"@);
    lemma_well_quoted_join(literals, ", "@);
    lemma_well_quoted_concat(column, " IN ("@);
    lemma_well_quoted_concat(column + " IN ("@, join(literals, ", "@));
    lemma_well_quoted_concat(column + " IN ("@ + join(literals, ", "@), ")"@);
}

/// Whether every text of a list is well quoted.
pub open spec fn all_well_quoted(parts: Seq<Seq<char>>) -> bool {
    forall|i: int| 0 <= i < parts.len() ==> well_quoted(#[trigger] parts[i])
}

proof fn lemma_all_well_quoted_concat(a: Seq<Seq<char>>, b: Seq<Seq<char>>)
    requires
        all_well_quoted(a),
        all_well_quoted(b),
    ensures
        all_well_quoted(a + b),
{
    assert forall|i: int| 0 <= i < (a + b).len() implies well_quoted(#[trigger] (a + b)[i]) by {
        if i < a.len() {
            assert((a + b)[i] == a[i]);
        } else {
            assert((a + b)[i] == b[i - a.len()]);
        }
    }
}

proof fn lemma_date_filter_well_quoted(date: Option<Seq<char>>)
    ensures
        all_well_quoted(date_filter(date)),
{
    if let Some(day) = date {
        reveal_strlit("trade_date = ");
        lemma_plain_is_well_quoted("trade_date = "@);
        lemma_date_text_is_date_like(day);
        lemma_quoted_is_well_quoted(date_text(day));
        lemma_well_quoted_concat("trade_date = "@, quoted(date_text(day)));
    }
}

proof fn lemma_range_filter_well_quoted(range: Option<crate::models::request::DateRangeView>)
    ensures
        all_well_quoted(range_filter(range)),
{
    if let Some(r) = range {
        reveal_strlit("trade_date >= ");
        reveal_strlit(" AND trade_date <= ");
        let a = "trade_date >= "@;
        let b = quoted(date_text(r.start));
        let c = " AND trade_date <= "@;
        let d = quoted(date_text(r.end));
        lemma_plain_is_well_quoted(a);
        lemma_plain_is_well_quoted(c);
        lemma_date_text_is_date_like(r.start);
        lemma_date_text_is_date_like(r.end);
        lemma_quoted_is_well_quoted(date_text(r.start));
        lemma_quoted_is_well_quoted(date_text(r.end));
        lemma_well_quoted_concat(a, b);
        lemma_well_quoted_concat(a + b, c);
        lemma_well_quoted_concat(a + b + c, d);
    }
}

/// The literals of exposure types are well quoted: their names are fixed and plain.
pub proof fn lemma_exposure_literals_well_quoted(types: Seq<ExposureType>)
    ensures
        all_well_quoted(exposure_literals(types)),
{
    let literals = exposure_literals(types);
    assert forall|i: int| 0 <= i < literals.len() implies well_quoted(#[trigger] literals[i]) by {
        lemma_exposure_name_inert(types[i]);
        lemma_quoted_is_well_quoted(exposure_name(types[i]));
    }
}

proof fn lemma_exposure_filter_well_quoted(types: Option<Seq<ExposureType>>)
    ensures
        all_well_quoted(exposure_filter(types)),
{
    if let Some(list) = types {
        if list.len() > 0 {
            reveal_strlit("exposure_type");
            lemma_exposure_literals_well_quoted(list);
            lemma_in_clause_well_quoted("exposure_type"@, exposure_literals(list));
        }
    }
}

proof fn lemma_id_filter_well_quoted(column: Seq<char>, ids: Option<Seq<u32>>)
    requires
        plain(column),
    ensures
        all_well_quoted(id_filter(column, ids)),
{
    if let Some(list) = ids {
        if list.len() > 0 {
            let literals = id_literals(list);
            assert forall|i: int| 0 <= i < literals.len() implies well_quoted(
                #[trigger] literals[i],
            ) by {
                lemma_decimal_digits(list[i] as nat);
                lemma_plain_is_well_quoted(decimal(list[i] as nat));
            }
            lemma_in_clause_well_quoted(column, literals);
        }
    }
}

proof fn lemma_text_filter_well_quoted(column: Seq<char>, values: Option<Seq<Seq<char>>>)
    requires
        plain(column),
    ensures
        all_well_quoted(text_filter(column, values)),
{
    if let Some(list) = values {
        if list.len() > 0 {
            let literals = text_literals(list);
            assert forall|i: int| 0 <= i < literals.len() implies well_quoted(
                #[trigger] literals[i],
            ) by {
                lemma_sanitized_is_inert(list[i]);
                lemma_quoted_is_well_quoted(sanitized(list[i]));
            }
            lemma_in_clause_well_quoted(column, literals);
        }
    }
}

/// Every filter clause is well quoted, whatever the filter values hold.
pub proof fn lemma_where_clauses_well_quoted(filters: PivotFiltersView)
    ensures
        all_well_quoted(where_clauses(filters)),
        well_quoted(where_part(filters)),
{
    reveal_strlit("portfolio_manager_id");
    reveal_strlit("fund_id");
    reveal_strlit("asset_class");
    reveal_strlit("symbol");
    reveal_strlit("underlying_symbol");
    reveal_strlit("desk");
    reveal_strlit("book");
    reveal_strlit("region");
    reveal_strlit("country");
    let c1 = date_filter(filters.trade_date);
    let c2 = range_filter(filters.trade_date_range);
    let c3 = exposure_filter(filters.exposure_type);
    let c4 = id_filter("portfolio_manager_id"@, filters.portfolio_manager_id);
    let c5 = id_filter("fund_id"@, filters.fund_id);
    let c6 = text_filter("asset_class"@, filters.asset_class);
    let c7 = text_filter("symbol"@, filters.symbol);
    let c8 = text_filter("underlying_symbol"@, filters.underlying_symbol);
    let c9 = text_filter("desk"@, filters.desk);
    let c10 = text_filter("book"@, filters.book);
    let c11 = text_filter("region"@, filters.region);
    let c12 = text_filter("country"@, filters.country);
    lemma_date_filter_well_quoted(filters.trade_date);
    lemma_range_filter_well_quoted(filters.trade_date_range);
    lemma_exposure_filter_well_quoted(filters.exposure_type);
    lemma_id_filter_well_quoted("portfolio_manager_id"@, filters.portfolio_manager_id);
    lemma_id_filter_well_quoted("fund_id"@, filters.fund_id);
    lemma_text_filter_well_quoted("asset_class"@, filters.asset_class);
    lemma_text_filter_well_quoted("symbol"@, filters.symbol);
    lemma_text_filter_well_quoted("underlying_symbol"@, filters.underlying_symbol);
    lemma_text_filter_well_quoted("desk"@, filters.desk);
    lemma_text_filter_well_quoted("book"@, filters.book);
    lemma_text_filter_well_quoted("region"@, filters.region);
    lemma_text_filter_well_quoted("country"@, filters.country);
    lemma_all_well_quoted_concat(c1, c2);
    lemma_all_well_quoted_concat(c1 + c2, c3);
    lemma_all_well_quoted_concat(c1 + c2 + c3, c4);
    lemma_all_well_quoted_concat(c1 + c2 + c3 + c4, c5);
    lemma_all_well_quoted_concat(c1 + c2 + c3 + c4 + c5, c6);
    lemma_all_well_quoted_concat(c1 + c2 + c3 + c4 + c5 + c6, c7);
    lemma_all_well_quoted_concat(c1 + c2 + c3 + c4 + c5 + c6 + c7, c8);
    lemma_all_well_quoted_concat(c1 + c2 + c3 + c4 + c5 + c6 + c7 + c8, c9);
    lemma_all_well_quoted_concat(c1 + c2 + c3 + c4 + c5 + c6 + c7 + c8 + c9, c10);
    lemma_all_well_quoted_concat(c1 + c2 + c3 + c4 + c5 + c6 + c7 + c8 + c9 + c10, c11);
    lemma_all_well_quoted_concat(c1 + c2 + c3 + c4 + c5 + c6 + c7 + c8 + c9 + c10 + c11, c12);
    reveal_strlit(" WHERE ");
    reveal_strlit(" AND ");
    if where_clauses(filters).len() == 0 {
        assert(plain(Seq::<char>::empty()));
        lemma_plain_is_well_quoted(Seq::<char>::empty());
    } else {
        lemma_plain_is_well_quoted(" WHERE "@);
        lemma_well_quoted_join(where_clauses(filters), " AND "@);
        lemma_well_quoted_concat(" WHERE "@, join(where_clauses(filters), " AND "@));
    }
}

/// A compiled statement holds no statement separator, and every single quote in it opens or
/// closes a literal: this holds whatever the filter values are, as long as the sort field,
/// which is interpolated as it stands, holds neither.
pub proof fn lemma_statement_is_well_quoted(plan: QueryPlan)
    requires
        plan.sort_field matches Some(field) ==> plain(field),
    ensures
        well_quoted(compile(plan)),
        lacks(compile(plan), ';'),
{
    reveal_strlit("SELECT ");
    reveal_strlit(", ");
    reveal_strlit(" FROM pivot.trades_1d");
    reveal_strlit(" GROUP BY ");
    reveal_strlit(" ORDER BY ");
    reveal_strlit(" ASC");
    reveal_strlit(" DESC");
    reveal_strlit(" LIMIT ");
    reveal_strlit(" OFFSET ");
    let columns = dimension_columns(plan.dimensions);
    assert forall|i: int| 0 <= i < columns.len() implies well_quoted(#[trigger] columns[i]) by {
        lemma_column_plain(plan.dimensions[i]);
    }
    lemma_well_quoted_join(columns, ", "@);
    lemma_metric_list_well_quoted(plan.metrics);
    lemma_where_clauses_well_quoted(plan.filters);

    let select = "SELECT "@;
    let from = " FROM pivot.trades_1d"@;
    let group = " GROUP BY "@;
    lemma_plain_is_well_quoted(select);
    lemma_plain_is_well_quoted(from);
    lemma_plain_is_well_quoted(group);

    // ORDER BY
    match plan.sort_field {
        Some(field) => {
            let word = direction_word(plan.sort_direction);
            lemma_plain_is_well_quoted(" ORDER BY "@);
            lemma_plain_is_well_quoted(field);
            lemma_plain_is_well_quoted(word);
            lemma_well_quoted_concat(" ORDER BY "@, field);
            lemma_well_quoted_concat(" ORDER BY "@ + field, word);
        },
        None => {
            if plan.metrics.len() > 0 {
                let alias = plan.metrics[0].output_alias();
                lemma_alias_plain(plan.metrics[0]);
                lemma_plain_is_well_quoted(" ORDER BY "@);
                lemma_plain_is_well_quoted(alias);
                lemma_plain_is_well_quoted(" DESC"@);
                lemma_well_quoted_concat(" ORDER BY "@, alias);
                lemma_well_quoted_concat(" ORDER BY "@ + alias, " DESC"@);
            } else {
                assert(plain(Seq::<char>::empty()));
                lemma_plain_is_well_quoted(Seq::<char>::empty());
            }
        },
    }

    // LIMIT and OFFSET
    lemma_decimal_digits(plan.limit as nat);
    lemma_decimal_digits(plan.offset as nat);
    lemma_plain_is_well_quoted(" LIMIT "@);
    lemma_plain_is_well_quoted(" OFFSET "@);
    lemma_plain_is_well_quoted(decimal(plan.limit as nat));
    lemma_plain_is_well_quoted(decimal(plan.offset as nat));
    lemma_well_quoted_concat(" LIMIT "@, decimal(plan.limit as nat));
    lemma_well_quoted_concat(" LIMIT "@ + decimal(plan.limit as nat), " OFFSET "@);
    lemma_well_quoted_concat(
        " LIMIT "@ + decimal(plan.limit as nat) + " OFFSET "@,
        decimal(plan.offset as nat),
    );

    let s1 = select + join(columns, ", "@);
    lemma_well_quoted_concat(select, join(columns, ", "@));
    let s2 = s1 + metric_list(plan.metrics);
    lemma_well_quoted_concat(s1, metric_list(plan.metrics));
    let s3 = s2 + from;
    lemma_well_quoted_concat(s2, from);
    let s4 = s3 + where_part(plan.filters);
    lemma_well_quoted_concat(s3, where_part(plan.filters));
    let s5 = s4 + group;
    lemma_well_quoted_concat(s4, group);
    let s6 = s5 + join(columns, ", "@);
    lemma_well_quoted_concat(s5, join(columns, ", "@));
    let s7 = s6 + order_part(plan);
    lemma_well_quoted_concat(s6, order_part(plan));
    lemma_well_quoted_concat(s7, limit_part(plan));
    lemma_well_quoted_has_no_separator(compile(plan));
}

} // verus!
