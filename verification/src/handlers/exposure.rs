//! The exposure endpoint: one aggregation over a single whitelisted grouping column.

use crate::cache::aside::{
    slot_for, CacheSlot, Executor, ExecutorView, Job, JobView, Statement, StatementView,
};
use crate::cache::canonical::exposure_payload;
use crate::cache::key::{cache_key, generate_cache_key};
use crate::config::CacheConfig;
use crate::db::models::ExposureDbRow;
use crate::error::{ApiError, ApiErrorView};
use crate::handlers::pivot::fresh_metadata;
use crate::models::request::{ExposureQuery, ExposureQueryView, ExposureType, ExposureView};
use crate::query::builder::{
    exposure_literals, in_clause, quote_literal, quoted, render_in_clause, PivotQueryBuilder,
};
use crate::models::response::{ExposureResponse, ExposureRow, QueryMetadata};
use crate::query::safety::{
    lemma_exposure_literals_well_quoted, lemma_in_clause_well_quoted, lemma_quoted_is_well_quoted,
};
use crate::text::{
    all_admitted, double_single_quotes, inert, lemma_plain_is_well_quoted,
    lemma_retain_admitted, lemma_retain_after_doubling, lemma_well_quoted_concat, plain, retain,
    retain_chars, same_text, well_quoted, Charset,
};
use vstd::prelude::*;
use vstd::string::StringExecFns;

verus! {

/// The columns that an exposure may be grouped by.
pub open spec fn allowed_group_by() -> Seq<Seq<char>> {
    seq![
        "asset_class"@,
        "symbol"@,
        "underlying_symbol"@,
        "instrument_type"@,
        "portfolio_manager_id"@,
        "fund_id"@,
        "desk"@,
        "book"@,
        "region"@,
        "country"@,
    ]
}

/// Whether a column is on the whitelist.
pub fn is_allowed(column: &str) -> (yes: bool)
    ensures
        yes == allowed_group_by().contains(column@),
{
    let ghost list = allowed_group_by();
    if same_text(column, "asset_class") {
        assert(list[0] == column@);
        true
    } else if same_text(column, "symbol") {
        assert(list[1] == column@);
        true
    } else if same_text(column, "underlying_symbol") {
        assert(list[2] == column@);
        true
    } else if same_text(column, "instrument_type") {
        assert(list[3] == column@);
        true
    } else if same_text(column, "portfolio_manager_id") {
        assert(list[4] == column@);
        true
    } else if same_text(column, "fund_id") {
        assert(list[5] == column@);
        true
    } else if same_text(column, "desk") {
        assert(list[6] == column@);
        true
    } else if same_text(column, "book") {
        assert(list[7] == column@);
        true
    } else if same_text(column, "region") {
        assert(list[8] == column@);
        true
    } else if same_text(column, "country") {
        assert(list[9] == column@);
        true
    } else {
        false
    }
}

/// The error for a grouping column that is not on the whitelist. It names the column and
/// the whitelist.
pub open spec fn invalid_group_by(column: Seq<char>) -> ApiErrorView {
    ApiErrorView::QueryValidation(
        "Invalid group_by: '"@ + column
            + "'. Allowed values: [\"asset_class\", \"symbol\", \"underlying_symbol\", \"instrument_type\", \"portfolio_manager_id\", \"fund_id\", \"desk\", \"book\", \"region\", \"country\"]"@,
    )
}

/// The text that stands for the trade date: its digits and hyphens, and nothing else of it.
pub open spec fn escaped(value: Seq<char>) -> Seq<char> {
    retain(value, Charset::DateLike)
}

/// Doubles the quotes of a trade date and then cuts it down to its digits and hyphens. The
/// doubling changes nothing in what comes out: no quote passes the filter.
pub fn escape_string(s: &str) -> (out: String)
    ensures
        out@ == escaped(s@),
        all_admitted(out@, Charset::DateLike),
{
    let doubled = double_single_quotes(s);
    proof {
        lemma_retain_after_doubling(s@, Charset::DateLike);
    }
    retain_chars(doubled.as_str(), Charset::DateLike)
}

/// The exposure types that a view counts: the top level takes every trade as it was made,
/// the look-through takes funds by what they hold. `None` where the view counts all.
pub open spec fn view_types(view: ExposureView) -> Option<Seq<ExposureType>> {
    match view {
        ExposureView::TopLevel => Some(
            seq![ExposureType::Direct, ExposureType::Etf, ExposureType::Etc],
        ),
        ExposureView::LookThrough => Some(seq![ExposureType::Direct, ExposureType::Constituent]),
        ExposureView::All => None,
    }
}

/// The condition that a view puts on the exposure type.
pub open spec fn view_filter(view: ExposureView) -> Seq<char> {
    match view_types(view) {
        Some(types) => in_clause("exposure_type"@, exposure_literals(types)),
        None => "1=1"@,
    }
}

/// The statement of an exposure query.
pub open spec fn exposure_sql(query: ExposureQueryView) -> Seq<char> {
    "SELECT\n            toString("@ + query.group_by
        + ") AS group_value,\n            sum(notional) AS total_notional,\n            sum(pnl) AS total_pnl,\n            count() AS trade_count\n         FROM pivot.trades_1d\n         WHERE trade_date = "@
        + quoted(escaped(query.trade_date)) + " AND "@ + view_filter(query.view)
        + "\n         GROUP BY "@ + query.group_by
        + "\n         ORDER BY total_notional DESC\n         LIMIT 100"@
}

fn render_view_filter(view: ExposureView) -> (text: String)
    ensures
        text@ == view_filter(view),
{
    let direct = quote_literal(PivotQueryBuilder::exposure_type_to_string(&ExposureType::Direct));
    let mut literals: Vec<String> = Vec::new();
    literals.push(direct);
    match view {
        ExposureView::TopLevel => {
            let etf = PivotQueryBuilder::exposure_type_to_string(&ExposureType::Etf);
            let etc = PivotQueryBuilder::exposure_type_to_string(&ExposureType::Etc);
            literals.push(quote_literal(etf));
            literals.push(quote_literal(etc));
        },
        ExposureView::LookThrough => {
            let held = PivotQueryBuilder::exposure_type_to_string(&ExposureType::Constituent);
            literals.push(quote_literal(held));
        },
        ExposureView::All => {
            return "1=1".to_owned();
        },
    }
    proof {
        assert(literals.deep_view() =~= exposure_literals(view_types(view)->0));
    }
    render_in_clause("exposure_type", &literals)
}

/// The job of a query whose grouping column is on the whitelist.
pub open spec fn exposure_job(query: ExposureQueryView, cache: CacheConfig) -> JobView {
    JobView {
        cache: slot_for(
            !query.cache_bypass,
            cache.enabled,
            cache_key("exposure"@, exposure_payload(query)),
            cache.ttl_seconds,
        ),
        fallback: false,
    }
}

fn check_group_by(query: &ExposureQuery) -> (result: Result<(), ApiError>)
    ensures
        match result {
            Ok(_) => allowed_group_by().contains(query@.group_by),
            Err(error) => !allowed_group_by().contains(query@.group_by) && error@
                == invalid_group_by(query@.group_by),
        },
{
    if !is_allowed(query.group_by.as_str()) {
        let mut message = "Invalid group_by: '".to_owned();
        message.append(query.group_by.as_str());
        message.append(
            "'. Allowed values: [\"asset_class\", \"symbol\", \"underlying_symbol\", \"instrument_type\", \"portfolio_manager_id\", \"fund_id\", \"desk\", \"book\", \"region\", \"country\"]",
        );
        return Err(ApiError::QueryValidation(message));
    }
    Ok(())
}

/// Validates a query and settles where its response is cached. A grouping column that is
/// not on the whitelist is rejected here, before anything is read, compiled, run or
/// written.
pub fn prepare(query: &ExposureQuery, cache: &CacheConfig) -> (result: Result<Job, ApiError>)
    ensures
        match result {
            Ok(job) => allowed_group_by().contains(query@.group_by) && job@ == exposure_job(
                query@,
                *cache,
            ),
            Err(error) => !allowed_group_by().contains(query@.group_by) && error@
                == invalid_group_by(query@.group_by),
        },
{
    match check_group_by(query) {
        Ok(_) => {},
        Err(error) => {
            return Err(error);
        },
    }
    let cache = if !query.cache_bypass && cache.enabled {
        let payload = query.canonical_payload();
        Some(
            CacheSlot {
                key: generate_cache_key("exposure", payload.as_str()),
                ttl_seconds: cache.ttl_seconds,
            },
        )
    } else {
        None
    };
    Ok(Job { cache, fallback: false })
}

/// The statement of a query whose grouping column is on the whitelist: the client runs it.
pub open spec fn exposure_statement(query: ExposureQueryView) -> StatementView {
    StatementView {
        sql: exposure_sql(query),
        primary: ExecutorView::Client { statement: exposure_sql(query) },
        fallback: None,
    }
}

/// Compiles the statement of a query. No statement is compiled for a grouping column that
/// is not on the whitelist.
pub fn statement(query: &ExposureQuery) -> (result: Result<Statement, ApiError>)
    ensures
        match result {
            Ok(compiled) => allowed_group_by().contains(query@.group_by) && compiled@
                == exposure_statement(query@),
            Err(error) => !allowed_group_by().contains(query@.group_by) && error@
                == invalid_group_by(query@.group_by),
        },
{
    match check_group_by(query) {
        Ok(_) => {},
        Err(error) => {
            return Err(error);
        },
    }
    let date = quote_literal(escape_string(query.trade_date.as_str()).as_str());
    let filter = render_view_filter(query.view);
    let mut sql = "SELECT\n            toString(".to_owned();
    sql.append(query.group_by.as_str());
    sql.append(
        ") AS group_value,\n            sum(notional) AS total_notional,\n            sum(pnl) AS total_pnl,\n            count() AS trade_count\n         FROM pivot.trades_1d\n         WHERE trade_date = ",
    );
    sql.append(date.as_str());
    sql.append(" AND ");
    sql.append(filter.as_str());
    sql.append("\n         GROUP BY ");
    sql.append(query.group_by.as_str());
    sql.append("\n         ORDER BY total_notional DESC\n         LIMIT 100");
    Ok(Statement { sql: sql.clone(), primary: Executor::Client { statement: sql }, fallback: None })
}

/// Assembles the response: one row for each row of the result, in its order.
pub fn assemble(rows: Vec<ExposureDbRow>, elapsed_ms: u64) -> (response: ExposureResponse)
    ensures
        response.data@.len() == rows@.len(),
        forall|i: int|
            0 <= i < rows@.len() ==> {
                &&& (#[trigger] response.data@[i]).group@ == rows@[i].group_value@
                &&& response.data@[i].total_notional == rows@[i].total_notional
                &&& response.data@[i].total_pnl == rows@[i].total_pnl
                &&& response.data@[i].trade_count == rows@[i].trade_count
            },
        response.metadata == fresh_metadata(rows@.len(), elapsed_ms),
{
    let mut data: Vec<ExposureRow> = Vec::new();
    let mut i: usize = 0;
    while i < rows.len()
        invariant
            i <= rows.len(),
            data@.len() == i,
            forall|j: int|
                0 <= j < i ==> {
                    &&& (#[trigger] data@[j]).group@ == rows@[j].group_value@
                    &&& data@[j].total_notional == rows@[j].total_notional
                    &&& data@[j].total_pnl == rows@[j].total_pnl
                    &&& data@[j].trade_count == rows@[j].trade_count
                },
        decreases rows.len() - i,
    {
        let row = &rows[i];
        data.push(
            ExposureRow {
                group: row.group_value.clone(),
                total_notional: row.total_notional,
                total_pnl: row.total_pnl,
                trade_count: row.trade_count,
            },
        );
        i += 1;
    }
    let metadata = QueryMetadata::fresh(data.len(), elapsed_ms);
    ExposureResponse { data, metadata }
}

/// A column on the whitelist holds neither a quote nor a statement separator.
pub proof fn lemma_whitelist_is_plain(column: Seq<char>)
    requires
        allowed_group_by().contains(column),
    ensures
        plain(column),
{
    reveal_strlit("asset_class");
    reveal_strlit("symbol");
    reveal_strlit("underlying_symbol");
    reveal_strlit("instrument_type");
    reveal_strlit("portfolio_manager_id");
    reveal_strlit("fund_id");
    reveal_strlit("desk");
    reveal_strlit("book");
    reveal_strlit("region");
    reveal_strlit("country");
    let list = allowed_group_by();
    let k = choose|k: int| 0 <= k < list.len() && list[k] == column;
    assert(list[k] == column);
}

/// Whatever the trade date holds, the text that stands for it holds digits and hyphens
/// only.
pub proof fn lemma_escaped_is_inert(value: Seq<char>)
    ensures
        inert(escaped(value)),
        all_admitted(escaped(value), Charset::DateLike),
{
    lemma_retain_admitted(value, Charset::DateLike);
}

/// The statement of a query that passed validation holds no statement separator, and every
/// single quote in it opens or closes a literal, whatever the trade date holds.
pub proof fn lemma_statement_is_well_quoted(query: ExposureQueryView)
    requires
        allowed_group_by().contains(query.group_by),
    ensures
        well_quoted(exposure_sql(query)),
{
    reveal_strlit("SELECT\n            toString(");
    reveal_strlit(
        ") AS group_value,\n            sum(notional) AS total_notional,\n            sum(pnl) AS total_pnl,\n            count() AS trade_count\n         FROM pivot.trades_1d\n         WHERE trade_date = ",
    );
    reveal_strlit(" AND ");
    reveal_strlit("\n         GROUP BY ");
    reveal_strlit("\n         ORDER BY total_notional DESC\n         LIMIT 100");
    reveal_strlit("1=1");
    reveal_strlit("exposure_type");
    let a = "SELECT\n            toString("@;
    let b = ") AS group_value,\n            sum(notional) AS total_notional,\n            sum(pnl) AS total_pnl,\n            count() AS trade_count\n         FROM pivot.trades_1d\n         WHERE trade_date = "@;
    let c = " AND "@;
    let d = "\n         GROUP BY "@;
    let e = "\n         ORDER BY total_notional DESC\n         LIMIT 100"@;
    let date = quoted(escaped(query.trade_date));
    let filter = view_filter(query.view);
    lemma_whitelist_is_plain(query.group_by);
    lemma_escaped_is_inert(query.trade_date);
    lemma_quoted_is_well_quoted(escaped(query.trade_date));
    match view_types(query.view) {
        Some(types) => {
            lemma_exposure_literals_well_quoted(types);
            lemma_in_clause_well_quoted("exposure_type"@, exposure_literals(types));
        },
        None => {
            lemma_plain_is_well_quoted("1=1"@);
        },
    }
    lemma_plain_is_well_quoted(a);
    lemma_plain_is_well_quoted(b);
    lemma_plain_is_well_quoted(c);
    lemma_plain_is_well_quoted(d);
    lemma_plain_is_well_quoted(e);
    lemma_plain_is_well_quoted(query.group_by);
    let s1 = a + query.group_by;
    lemma_well_quoted_concat(a, query.group_by);
    let s2 = s1 + b;
    lemma_well_quoted_concat(s1, b);
    let s3 = s2 + date;
    lemma_well_quoted_concat(s2, date);
    let s4 = s3 + c;
    lemma_well_quoted_concat(s3, c);
    let s5 = s4 + filter;
    lemma_well_quoted_concat(s4, filter);
    let s6 = s5 + d;
    lemma_well_quoted_concat(s5, d);
    let s7 = s6 + query.group_by;
    lemma_well_quoted_concat(s6, query.group_by);
    lemma_well_quoted_concat(s7, e);
}

} // verus!
