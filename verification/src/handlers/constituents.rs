//! The constituent listing.

use crate::cache::aside::{Executor, ExecutorView, Job, JobView, Statement, StatementView};
use crate::db::models::ConstituentRow;
use crate::handlers::listing::{
    compile_listing, equals_filter, escape_label, escaped, lemma_listing_is_well_quoted,
    listing_slot, listing_sql, slot,
};
use crate::text::well_quoted;
use crate::models::request::ConstituentsQuery;
use crate::handlers::pivot::fresh_metadata;
use crate::models::response::{Constituent, ConstituentsResponse, QueryMetadata};
use vstd::prelude::*;

verus! {

pub fn escape_string(s: &str) -> (out: String)
    ensures
        out@ == escaped(s@),
{
    escape_label(s)
}

/// The statement of the listing: every holding that passes the filters, by parent and
/// then by falling weight.
pub open spec fn constituents_sql(
    parent_symbol: Option<Seq<char>>,
    constituent_symbol: Option<Seq<char>>,
) -> Seq<char> {
    listing_sql(
        "SELECT parent_symbol, constituent_symbol, weight, shares_per_unit, toString(effective_date) as effective_date FROM pivot.constituents"@,
        equals_filter("parent_symbol"@, parent_symbol),
        equals_filter("constituent_symbol"@, constituent_symbol),
        " ORDER BY parent_symbol, weight DESC"@,
    )
}

/// The job of a listing. Only the unfiltered listing is cached, under a key of its own and
/// for an hour.
pub open spec fn constituents_job(
    parent_symbol: Option<Seq<char>>,
    constituent_symbol: Option<Seq<char>>,
    cache_enabled: bool,
) -> JobView {
    JobView {
        cache: listing_slot(
            parent_symbol is None && constituent_symbol is None,
            cache_enabled,
            "constituents:all"@,
        ),
        fallback: false,
    }
}

/// Settles where the listing is cached. Every query is valid.
pub fn prepare(query: &ConstituentsQuery, cache_enabled: bool) -> (job: Job)
    ensures
        job@ == constituents_job(
            query.parent_symbol.deep_view(),
            query.constituent_symbol.deep_view(),
            cache_enabled,
        ),
{
    let unfiltered = query.parent_symbol.is_none() && query.constituent_symbol.is_none();
    Job { cache: slot(unfiltered, cache_enabled, "constituents:all"), fallback: false }
}

/// The statement of a listing as the client runs it.
pub open spec fn constituents_statement(
    parent_symbol: Option<Seq<char>>,
    constituent_symbol: Option<Seq<char>>,
) -> StatementView {
    StatementView {
        sql: constituents_sql(parent_symbol, constituent_symbol),
        primary: ExecutorView::Client { statement: constituents_sql(parent_symbol, constituent_symbol) },
        fallback: None,
    }
}

/// Compiles the statement of a listing.
pub fn statement(query: &ConstituentsQuery) -> (compiled: Statement)
    ensures
        compiled@ == constituents_statement(
            query.parent_symbol.deep_view(),
            query.constituent_symbol.deep_view(),
        ),
{
    let sql = compile_listing(
        "SELECT parent_symbol, constituent_symbol, weight, shares_per_unit, toString(effective_date) as effective_date FROM pivot.constituents",
        "parent_symbol",
        &query.parent_symbol,
        "constituent_symbol",
        &query.constituent_symbol,
        " ORDER BY parent_symbol, weight DESC",
    );
    Statement { sql: sql.clone(), primary: Executor::Client { statement: sql }, fallback: None }
}

/// Whether a holding holds what a row holds.
pub open spec fn same_constituent(constituent: Constituent, row: ConstituentRow) -> bool {
    &&& constituent.parent_symbol@ == row.parent_symbol@
    &&& constituent.constituent_symbol@ == row.constituent_symbol@
    &&& constituent.weight == row.weight
    &&& constituent.shares_per_unit == row.shares_per_unit
    &&& constituent.effective_date@ == row.effective_date@
}

/// Assembles the response: one holding for each row, in its order, their number, and the
/// metadata of a response that was computed just now.
pub fn assemble(rows: Vec<ConstituentRow>, elapsed_ms: u64) -> (response: ConstituentsResponse)
    ensures
        response.count == rows@.len(),
        response.metadata == fresh_metadata(rows@.len(), elapsed_ms),
        response.constituents@.len() == rows@.len(),
        forall|i: int|
            0 <= i < rows@.len() ==> same_constituent(
                #[trigger] response.constituents@[i],
                rows@[i],
            ),
{
    let mut constituents: Vec<Constituent> = Vec::new();
    let mut i: usize = 0;
    while i < rows.len()
        invariant
            i <= rows.len(),
            constituents@.len() == i,
            forall|j: int| 0 <= j < i ==> same_constituent(#[trigger] constituents@[j], rows@[j]),
        decreases rows.len() - i,
    {
        let row = &rows[i];
        constituents.push(
            Constituent {
                parent_symbol: row.parent_symbol.clone(),
                constituent_symbol: row.constituent_symbol.clone(),
                weight: row.weight,
                shares_per_unit: row.shares_per_unit,
                effective_date: row.effective_date.clone(),
            },
        );
        i += 1;
    }
    let metadata = QueryMetadata::fresh(constituents.len(), elapsed_ms);
    ConstituentsResponse { count: constituents.len(), constituents, metadata }
}

/// The statement of a listing holds no statement separator, and every single quote in it
/// opens or closes a literal, whatever the filters hold.
pub proof fn lemma_statement_is_well_quoted(
    parent_symbol: Option<Seq<char>>,
    constituent_symbol: Option<Seq<char>>,
)
    ensures
        well_quoted(constituents_sql(parent_symbol, constituent_symbol)),
{
    reveal_strlit(
        "SELECT parent_symbol, constituent_symbol, weight, shares_per_unit, toString(effective_date) as effective_date FROM pivot.constituents",
    );
    reveal_strlit("parent_symbol");
    reveal_strlit("constituent_symbol");
    reveal_strlit(" ORDER BY parent_symbol, weight DESC");
    lemma_listing_is_well_quoted(
        "SELECT parent_symbol, constituent_symbol, weight, shares_per_unit, toString(effective_date) as effective_date FROM pivot.constituents"@,
        "parent_symbol"@,
        parent_symbol,
        "constituent_symbol"@,
        constituent_symbol,
        " ORDER BY parent_symbol, weight DESC"@,
    );
}

} // verus!
