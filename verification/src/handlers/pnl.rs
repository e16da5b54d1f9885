//! The profit-and-loss endpoint: one aggregation over a list of whitelisted grouping columns.

use crate::cache::aside::{
    slot_for, CacheSlot, Executor, ExecutorView, Job, JobView, Statement, StatementView,
};
use crate::cache::canonical::pnl_payload;
use crate::cache::key::{cache_key, generate_cache_key};
use crate::config::{CacheConfig, Config};
use crate::error::{ApiError, ApiErrorView};
use crate::handlers::pivot::fresh_metadata;
use crate::models::request::{PnlQuery, PnlQueryView};
use crate::models::response::{PnlResponse, QueryMetadata};
use crate::query::builder::{quote_literal, quoted};
use crate::reshape::{
    body_lines, pnl_aggregate, pnl_reshaped_lines, reshape_pnl_lines, sound_pnl_row,
    split_lines,
};
use crate::query::safety::lemma_quoted_is_well_quoted;
use crate::text::{
    all_admitted, join, join_strings, lemma_plain_is_well_quoted, lemma_retain_admitted,
    lemma_well_quoted_concat, lemma_well_quoted_join, plain, retain, retain_chars, same_text,
    split, split_at, trim, trimmed, well_quoted, Charset,
};
use vstd::prelude::*;
use vstd::string::StringExecFns;

verus! {

/// The columns that profit and loss may be grouped by.
pub open spec fn allowed_group_by() -> Seq<Seq<char>> {
    seq![
        "portfolio_manager_id"@,
        "fund_id"@,
        "desk"@,
        "book"@,
        "asset_class"@,
        "symbol"@,
        "exposure_type"@,
        "region"@,
        "country"@,
    ]
}

/// Whether a column is on the whitelist.
pub fn is_allowed(column: &str) -> (yes: bool)
    ensures
        yes == allowed_group_by().contains(column@),
{
    let ghost list = allowed_group_by();
    if same_text(column, "portfolio_manager_id") {
        assert(list[0] == column@);
        true
    } else if same_text(column, "fund_id") {
        assert(list[1] == column@);
        true
    } else if same_text(column, "desk") {
        assert(list[2] == column@);
        true
    } else if same_text(column, "book") {
        assert(list[3] == column@);
        true
    } else if same_text(column, "asset_class") {
        assert(list[4] == column@);
        true
    } else if same_text(column, "symbol") {
        assert(list[5] == column@);
        true
    } else if same_text(column, "exposure_type") {
        assert(list[6] == column@);
        true
    } else if same_text(column, "region") {
        assert(list[7] == column@);
        true
    } else if same_text(column, "country") {
        assert(list[8] == column@);
        true
    } else {
        false
    }
}

/// The grouping columns that a query names: the pieces between the commas, each without
/// the white space around it.
pub open spec fn columns_of(group_by: Seq<char>) -> Seq<Seq<char>> {
    Seq::new(split(group_by, ',').len(), |i: int| trimmed(split(group_by, ',')[i]))
}

/// Whether `k` is the place of the first column that is not on the whitelist.
pub open spec fn first_invalid(columns: Seq<Seq<char>>, k: int) -> bool {
    &&& 0 <= k < columns.len()
    &&& !allowed_group_by().contains(columns[k])
    &&& forall|j: int| 0 <= j < k ==> allowed_group_by().contains(#[trigger] columns[j])
}

/// Whether every column is on the whitelist.
pub open spec fn all_allowed(columns: Seq<Seq<char>>) -> bool {
    forall|j: int| 0 <= j < columns.len() ==> allowed_group_by().contains(#[trigger] columns[j])
}

/// The error for a grouping column that is not on the whitelist. It names the column and
/// the whitelist.
pub open spec fn invalid_group_by(column: Seq<char>) -> ApiErrorView {
    ApiErrorView::QueryValidation(
        "Invalid group_by column: '"@ + column
            + "'. Allowed values: [\"portfolio_manager_id\", \"fund_id\", \"desk\", \"book\", \"asset_class\", \"symbol\", \"exposure_type\", \"region\", \"country\"]"@,
    )
}

/// The text that stands for the trade date: its digits and hyphens.
pub open spec fn escaped(value: Seq<char>) -> Seq<char> {
    retain(value, Charset::DateLike)
}

pub fn escape_string(s: &str) -> (out: String)
    ensures
        out@ == escaped(s@),
        all_admitted(out@, Charset::DateLike),
{
    retain_chars(s, Charset::DateLike)
}

/// The statement of a profit-and-loss query.
pub open spec fn pnl_sql(query: PnlQueryView) -> Seq<char> {
    "SELECT "@ + join(columns_of(query.group_by), ", "@)
        + ", sum(pnl) AS total_pnl, sum(notional) AS total_notional, count() AS trade_count\n         FROM pivot.trades_1d\n         WHERE trade_date = "@
        + quoted(escaped(query.trade_date)) + "\n         GROUP BY "@ + join(
        columns_of(query.group_by),
        ", "@,
    ) + "\n         ORDER BY total_pnl DESC\n         LIMIT 100"@
}

/// The job of a query whose grouping columns are all on the whitelist.
pub open spec fn pnl_job(query: PnlQueryView, cache: CacheConfig) -> JobView {
    JobView {
        cache: slot_for(
            !query.cache_bypass,
            cache.enabled,
            cache_key("pnl"@, pnl_payload(query)),
            cache.ttl_seconds,
        ),
        fallback: false,
    }
}

/// The grouping columns of a query, if all of them are on the whitelist, and the error for
/// the first that is not.
fn checked_columns(query: &PnlQuery) -> (result: Result<Vec<String>, ApiError>)
    ensures
        match result {
            Ok(columns) => all_allowed(columns_of(query@.group_by)) && columns.deep_view()
                == columns_of(query@.group_by),
            Err(error) => exists|k: int|
                first_invalid(columns_of(query@.group_by), k) && error@ == invalid_group_by(
                    #[trigger] columns_of(query@.group_by)[k],
                ),
        },
{
    let pieces = split_at(query.group_by.as_str(), ',');
    let mut columns: Vec<String> = Vec::new();
    let mut i: usize = 0;
    while i < pieces.len()
        invariant
            i <= pieces.len(),
            pieces.deep_view() == split(query@.group_by, ','),
            columns@.len() == i,
            forall|j: int| 0 <= j < i ==> columns@[j]@ == trimmed(#[trigger] pieces@[j]@),
        decreases pieces.len() - i,
    {
        columns.push(trim(pieces[i].as_str()));
        i += 1;
    }
    proof {
        assert(columns.deep_view() =~= columns_of(query@.group_by));
    }
    let mut k: usize = 0;
    while k < columns.len()
        invariant
            k <= columns.len(),
            columns.deep_view() == columns_of(query@.group_by),
            forall|j: int|
                0 <= j < k ==> allowed_group_by().contains(
                    #[trigger] columns_of(query@.group_by)[j],
                ),
        decreases columns.len() - k,
    {
        if !is_allowed(columns[k].as_str()) {
            let mut message = "Invalid group_by column: '".to_owned();
            message.append(columns[k].as_str());
            message.append(
                "'. Allowed values: [\"portfolio_manager_id\", \"fund_id\", \"desk\", \"book\", \"asset_class\", \"symbol\", \"exposure_type\", \"region\", \"country\"]",
            );
            proof {
                assert(columns.deep_view()[k as int] == columns@[k as int]@);
                assert(first_invalid(columns_of(query@.group_by), k as int));
            }
            return Err(ApiError::QueryValidation(message));
        }
        proof {
            assert(columns.deep_view()[k as int] == columns@[k as int]@);
        }
        k += 1;
    }
    Ok(columns)
}

/// Validates a query and settles where its response is cached. The first grouping column
/// that is not on the whitelist rejects the query, before anything is read, compiled, run
/// or written. An empty list cannot pass: it is one empty column, which is not on the
/// whitelist.
pub fn prepare(query: &PnlQuery, config: &Config) -> (result: Result<Job, ApiError>)
    ensures
        match result {
            Ok(job) => all_allowed(columns_of(query@.group_by)) && job@ == pnl_job(
                query@,
                config.cache,
            ),
            Err(error) => exists|k: int|
                first_invalid(columns_of(query@.group_by), k) && error@ == invalid_group_by(
                    #[trigger] columns_of(query@.group_by)[k],
                ),
        },
{
    match checked_columns(query) {
        Ok(_) => {},
        Err(error) => {
            return Err(error);
        },
    }
    let cache = if !query.cache_bypass && config.cache.enabled {
        let payload = query.canonical_payload();
        Some(
            CacheSlot {
                key: generate_cache_key("pnl", payload.as_str()),
                ttl_seconds: config.cache.ttl_seconds,
            },
        )
    } else {
        None
    };
    Ok(Job { cache, fallback: false })
}

/// The statement of a query whose grouping columns are all on the whitelist: it is posted
/// over HTTP, and the answer holds one JSON object per row.
pub open spec fn pnl_statement(query: PnlQueryView, clickhouse_url: Seq<char>) -> StatementView {
    StatementView {
        sql: pnl_sql(query),
        primary: ExecutorView::Http {
            url: clickhouse_url + "/?default_format=JSONEachRow"@,
            body: pnl_sql(query),
        },
        fallback: None,
    }
}

/// Compiles the statement of a query. No statement is compiled for a query that names a
/// grouping column off the whitelist.
pub fn statement(query: &PnlQuery, config: &Config) -> (result: Result<Statement, ApiError>)
    ensures
        match result {
            Ok(compiled) => all_allowed(columns_of(query@.group_by)) && compiled@
                == pnl_statement(query@, config.clickhouse.url@),
            Err(error) => exists|k: int|
                first_invalid(columns_of(query@.group_by), k) && error@ == invalid_group_by(
                    #[trigger] columns_of(query@.group_by)[k],
                ),
        },
{
    let columns = match checked_columns(query) {
        Ok(columns) => columns,
        Err(error) => {
            return Err(error);
        },
    };
    let list = join_strings(&columns, ", ");
    let date = quote_literal(escape_string(query.trade_date.as_str()).as_str());
    let mut sql = "SELECT ".to_owned();
    sql.append(list.as_str());
    sql.append(
        ", sum(pnl) AS total_pnl, sum(notional) AS total_notional, count() AS trade_count\n         FROM pivot.trades_1d\n         WHERE trade_date = ",
    );
    sql.append(date.as_str());
    sql.append("\n         GROUP BY ");
    sql.append(list.as_str());
    sql.append("\n         ORDER BY total_pnl DESC\n         LIMIT 100");
    let mut url = config.clickhouse.url.clone();
    url.append("/?default_format=JSONEachRow");
    Ok(Statement { sql: sql.clone(), primary: Executor::Http { url, body: sql }, fallback: None })
}

/// Assembles the response from the body of the HTTP answer: one JSON object on each line
/// that is not empty.
pub fn assemble_body(body: &str, elapsed_ms: u64) -> (response: PnlResponse)
    ensures
        response.data.deep_view() == pnl_reshaped_lines(body_lines(body@)),
        response.metadata == fresh_metadata(response.data@.len(), elapsed_ms),
        forall|k: int|
            0 <= k < response.data@.len() ==> sound_pnl_row((#[trigger] response.data@[k])@),
{
    let lines = split_lines(body);
    let data = reshape_pnl_lines(&lines);
    let metadata = QueryMetadata::fresh(data.len(), elapsed_ms);
    PnlResponse { data, metadata }
}

/// A column on the whitelist holds neither a quote nor a statement separator.
pub proof fn lemma_whitelist_is_plain(column: Seq<char>)
    requires
        allowed_group_by().contains(column),
    ensures
        plain(column),
{
    reveal_strlit("portfolio_manager_id");
    reveal_strlit("fund_id");
    reveal_strlit("desk");
    reveal_strlit("book");
    reveal_strlit("asset_class");
    reveal_strlit("symbol");
    reveal_strlit("exposure_type");
    reveal_strlit("region");
    reveal_strlit("country");
    let list = allowed_group_by();
    let k = choose|k: int| 0 <= k < list.len() && list[k] == column;
    assert(list[k] == column);
}

/// A column on the whitelist is none of the three aggregates, so a result row keeps it
/// among its groups.
pub proof fn lemma_whitelist_is_grouped(column: Seq<char>)
    requires
        allowed_group_by().contains(column),
    ensures
        !pnl_aggregate(column),
{
    reveal_strlit("portfolio_manager_id");
    reveal_strlit("fund_id");
    reveal_strlit("desk");
    reveal_strlit("book");
    reveal_strlit("asset_class");
    reveal_strlit("symbol");
    reveal_strlit("exposure_type");
    reveal_strlit("region");
    reveal_strlit("country");
    reveal_strlit("total_pnl");
    reveal_strlit("total_notional");
    reveal_strlit("trade_count");
    let list = allowed_group_by();
    let k = choose|k: int| 0 <= k < list.len() && list[k] == column;
    assert(list[k] == column);
    assert(column[0] != 't');
    assert("total_pnl"@[0] == 't' && "total_notional"@[0] == 't' && "trade_count"@[0] == 't');
}

/// The statement of a query that passed validation holds no statement separator, and every
/// single quote in it opens or closes a literal, whatever the trade date holds.
pub proof fn lemma_statement_is_well_quoted(query: PnlQueryView)
    requires
        all_allowed(columns_of(query.group_by)),
    ensures
        well_quoted(pnl_sql(query)),
{
    reveal_strlit("SELECT ");
    reveal_strlit(", ");
    reveal_strlit(
        ", sum(pnl) AS total_pnl, sum(notional) AS total_notional, count() AS trade_count\n         FROM pivot.trades_1d\n         WHERE trade_date = ",
    );
    reveal_strlit("\n         GROUP BY ");
    reveal_strlit("\n         ORDER BY total_pnl DESC\n         LIMIT 100");
    let a = "SELECT "@;
    let b = ", sum(pnl) AS total_pnl, sum(notional) AS total_notional, count() AS trade_count\n         FROM pivot.trades_1d\n         WHERE trade_date = "@;
    let c = "\n         GROUP BY "@;
    let d = "\n         ORDER BY total_pnl DESC\n         LIMIT 100"@;
    let columns = columns_of(query.group_by);
    let list = join(columns, ", "@);
    let date = quoted(escaped(query.trade_date));
    assert forall|i: int| 0 <= i < columns.len() implies well_quoted(#[trigger] columns[i]) by {
        lemma_whitelist_is_plain(columns[i]);
        lemma_plain_is_well_quoted(columns[i]);
    }
    lemma_well_quoted_join(columns, ", "@);
    lemma_retain_admitted(query.trade_date, Charset::DateLike);
    lemma_quoted_is_well_quoted(escaped(query.trade_date));
    lemma_plain_is_well_quoted(a);
    lemma_plain_is_well_quoted(b);
    lemma_plain_is_well_quoted(c);
    lemma_plain_is_well_quoted(d);
    let s1 = a + list;
    lemma_well_quoted_concat(a, list);
    let s2 = s1 + b;
    lemma_well_quoted_concat(s1, b);
    let s3 = s2 + date;
    lemma_well_quoted_concat(s2, date);
    let s4 = s3 + c;
    lemma_well_quoted_concat(s3, c);
    let s5 = s4 + list;
    lemma_well_quoted_concat(s4, list);
    lemma_well_quoted_concat(s5, d);
}

} // verus!
