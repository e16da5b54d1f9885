//! The pivot endpoint: validate, key, compile and assemble one pivot request.

use crate::cache::aside::{
    slot_for, CacheSlot, Executor, ExecutorView, Job, JobView, Statement, StatementView,
};
use crate::cache::canonical::pivot_key;
use crate::cache::key::generate_cache_key;
use crate::config::{CacheConfig, Config};
use crate::error::ApiError;
use crate::models::request::{PivotRequest, PivotRequestView};
use crate::models::response::{PivotResponse, QueryMetadata};
use crate::query::builder::{compile, plan_of, valid_request, validation_error, PivotQueryBuilder};
use crate::reshape::{body_lines, reshape_lines, reshaped_lines, sound_row, split_lines};
use vstd::prelude::*;
use vstd::string::StringExecFns;

verus! {

/// The job of a valid request: the response is cached under the hash of the canonical
/// payload unless the request or the configuration says otherwise, and a second executor
/// stands by.
pub open spec fn pivot_job(request: PivotRequestView, cache: CacheConfig) -> JobView {
    JobView {
        cache: slot_for(
            !request.cache_bypass,
            cache.enabled,
            pivot_key(request),
            cache.ttl_seconds,
        ),
        fallback: true,
    }
}

/// Validates a request and settles where its response is cached. A request without
/// dimensions or without metrics is rejected here, before anything is read, compiled, run
/// or written.
pub fn prepare(request: &PivotRequest, config: &Config) -> (result: Result<Job, ApiError>)
    ensures
        match result {
            Ok(job) => valid_request(request@) && job@ == pivot_job(request@, config.cache),
            Err(error) => Some(error@) == validation_error(request@),
        },
{
    match PivotQueryBuilder::validate(request) {
        Ok(_) => {},
        Err(error) => {
            return Err(error);
        },
    }
    let cache = if !request.cache_bypass && config.cache.enabled {
        let payload = request.canonical_payload();
        Some(
            CacheSlot {
                key: generate_cache_key("pivot:query", payload.as_str()),
                ttl_seconds: config.cache.ttl_seconds,
            },
        )
    } else {
        None
    };
    Ok(Job { cache, fallback: true })
}

/// The statement of a valid request: it is run by the client, which is asked for one JSON
/// object per row, and posted over HTTP if the client fails.
pub open spec fn pivot_statement(
    request: PivotRequestView,
    clickhouse_url: Seq<char>,
) -> StatementView {
    let sql = compile(plan_of(request));
    StatementView {
        sql,
        primary: ExecutorView::Client { statement: sql + " FORMAT JSONEachRow"@ },
        fallback: Some(
            ExecutorView::Http { url: clickhouse_url + "?default_format=JSONEachRow"@, body: sql },
        ),
    }
}

/// Compiles the statement of a request. No statement is compiled for a request without
/// dimensions or without metrics.
pub fn statement(request: &PivotRequest, config: &Config) -> (result: Result<
    Statement,
    ApiError,
>)
    ensures
        match result {
            Ok(compiled) => valid_request(request@) && compiled@ == pivot_statement(
                request@,
                config.clickhouse.url@,
            ),
            Err(error) => Some(error@) == validation_error(request@),
        },
{
    let builder = match PivotQueryBuilder::from_request(request) {
        Ok(builder) => builder,
        Err(error) => {
            return Err(error);
        },
    };
    let sql = builder.build();
    let mut text = sql.clone();
    text.append(" FORMAT JSONEachRow");
    let mut url = config.clickhouse.url.clone();
    url.append("?default_format=JSONEachRow");
    Ok(
        Statement {
            sql: sql.clone(),
            primary: Executor::Client { statement: text },
            fallback: Some(Executor::Http { url, body: sql }),
        },
    )
}

/// The metadata of a response that was computed just now.
pub open spec fn fresh_metadata(rows: nat, elapsed_ms: u64) -> QueryMetadata {
    QueryMetadata {
        total_rows: rows as u64,
        returned_rows: rows as usize,
        query_time_ms: elapsed_ms,
        cached: false,
    }
}

/// Assembles the response from the rows that the client fetched, one JSON object each.
pub fn assemble(lines: &Vec<String>, elapsed_ms: u64) -> (response: PivotResponse)
    ensures
        response.data.deep_view() == reshaped_lines(lines.deep_view()),
        response.metadata == fresh_metadata(response.data@.len(), elapsed_ms),
        forall|k: int|
            0 <= k < response.data@.len() ==> sound_row((#[trigger] response.data@[k])@),
{
    let data = reshape_lines(lines);
    let metadata = QueryMetadata::fresh(data.len(), elapsed_ms);
    PivotResponse { data, metadata }
}

/// Assembles the response from the body of the HTTP answer: one JSON object on each line
/// that is not empty.
pub fn assemble_body(body: &str, elapsed_ms: u64) -> (response: PivotResponse)
    ensures
        response.data.deep_view() == reshaped_lines(body_lines(body@)),
        response.metadata == fresh_metadata(response.data@.len(), elapsed_ms),
        forall|k: int|
            0 <= k < response.data@.len() ==> sound_row((#[trigger] response.data@[k])@),
{
    let lines = split_lines(body);
    assemble(&lines, elapsed_ms)
}

} // verus!
