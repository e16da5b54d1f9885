//! The instrument listing.

use crate::cache::aside::{Executor, ExecutorView, Job, JobView, Statement, StatementView};
use crate::db::models::InstrumentRow;
use crate::handlers::listing::{
    compile_listing, equals_filter, escape_label, escaped, lemma_listing_is_well_quoted,
    listing_slot, listing_sql, slot,
};
use crate::text::well_quoted;
use crate::models::request::InstrumentsQuery;
use crate::handlers::pivot::fresh_metadata;
use crate::models::response::{Instrument, InstrumentsResponse, QueryMetadata};
use vstd::prelude::*;

verus! {

pub fn escape_string(s: &str) -> (out: String)
    ensures
        out@ == escaped(s@),
{
    escape_label(s)
}

/// The statement of the listing: every instrument that passes the filters, by symbol.
pub open spec fn instruments_sql(
    asset_class: Option<Seq<char>>,
    instrument_type: Option<Seq<char>>,
) -> Seq<char> {
    listing_sql(
        "SELECT symbol, name, asset_class, instrument_type, currency, exchange, sector, is_composite FROM pivot.instruments"@,
        equals_filter("asset_class"@, asset_class),
        equals_filter("instrument_type"@, instrument_type),
        " ORDER BY symbol"@,
    )
}

/// The job of a listing. Only the unfiltered listing is cached, under a key of its own and
/// for an hour.
pub open spec fn instruments_job(
    asset_class: Option<Seq<char>>,
    instrument_type: Option<Seq<char>>,
    cache_enabled: bool,
) -> JobView {
    JobView {
        cache: listing_slot(
            asset_class is None && instrument_type is None,
            cache_enabled,
            "instruments:all"@,
        ),
        fallback: false,
    }
}

/// Settles where the listing is cached. Every query is valid.
pub fn prepare(query: &InstrumentsQuery, cache_enabled: bool) -> (job: Job)
    ensures
        job@ == instruments_job(
            query.asset_class.deep_view(),
            query.instrument_type.deep_view(),
            cache_enabled,
        ),
{
    let unfiltered = query.asset_class.is_none() && query.instrument_type.is_none();
    Job { cache: slot(unfiltered, cache_enabled, "instruments:all"), fallback: false }
}

/// The statement of a listing as the client runs it.
pub open spec fn instruments_statement(
    asset_class: Option<Seq<char>>,
    instrument_type: Option<Seq<char>>,
) -> StatementView {
    StatementView {
        sql: instruments_sql(asset_class, instrument_type),
        primary: ExecutorView::Client { statement: instruments_sql(asset_class, instrument_type) },
        fallback: None,
    }
}

/// Compiles the statement of a listing.
pub fn statement(query: &InstrumentsQuery) -> (compiled: Statement)
    ensures
        compiled@ == instruments_statement(
            query.asset_class.deep_view(),
            query.instrument_type.deep_view(),
        ),
{
    let sql = compile_listing(
        "SELECT symbol, name, asset_class, instrument_type, currency, exchange, sector, is_composite FROM pivot.instruments",
        "asset_class",
        &query.asset_class,
        "instrument_type",
        &query.instrument_type,
        " ORDER BY symbol",
    );
    Statement { sql: sql.clone(), primary: Executor::Client { statement: sql }, fallback: None }
}

/// Whether an instrument holds what a row holds.
pub open spec fn same_instrument(instrument: Instrument, row: InstrumentRow) -> bool {
    &&& instrument.symbol@ == row.symbol@
    &&& instrument.name@ == row.name@
    &&& instrument.asset_class@ == row.asset_class@
    &&& instrument.instrument_type@ == row.instrument_type@
    &&& instrument.currency@ == row.currency@
    &&& instrument.exchange@ == row.exchange@
    &&& instrument.sector@ == row.sector@
    &&& instrument.is_composite == row.is_composite
}

/// Assembles the response: one instrument for each row, in its order, their number, and
/// the metadata of a response that was computed just now.
pub fn assemble(rows: Vec<InstrumentRow>, elapsed_ms: u64) -> (response: InstrumentsResponse)
    ensures
        response.count == rows@.len(),
        response.metadata == fresh_metadata(rows@.len(), elapsed_ms),
        response.instruments@.len() == rows@.len(),
        forall|i: int|
            0 <= i < rows@.len() ==> same_instrument(#[trigger] response.instruments@[i], rows@[i]),
{
    let mut instruments: Vec<Instrument> = Vec::new();
    let mut i: usize = 0;
    while i < rows.len()
        invariant
            i <= rows.len(),
            instruments@.len() == i,
            forall|j: int| 0 <= j < i ==> same_instrument(#[trigger] instruments@[j], rows@[j]),
        decreases rows.len() - i,
    {
        let row = &rows[i];
        instruments.push(
            Instrument {
                symbol: row.symbol.clone(),
                name: row.name.clone(),
                asset_class: row.asset_class.clone(),
                instrument_type: row.instrument_type.clone(),
                currency: row.currency.clone(),
                exchange: row.exchange.clone(),
                sector: row.sector.clone(),
                is_composite: row.is_composite,
            },
        );
        i += 1;
    }
    let metadata = QueryMetadata::fresh(instruments.len(), elapsed_ms);
    InstrumentsResponse { count: instruments.len(), instruments, metadata }
}

/// The statement of a listing holds no statement separator, and every single quote in it
/// opens or closes a literal, whatever the filters hold.
pub proof fn lemma_statement_is_well_quoted(
    asset_class: Option<Seq<char>>,
    instrument_type: Option<Seq<char>>,
)
    ensures
        well_quoted(instruments_sql(asset_class, instrument_type)),
{
    reveal_strlit(
        "SELECT symbol, name, asset_class, instrument_type, currency, exchange, sector, is_composite FROM pivot.instruments",
    );
    reveal_strlit("asset_class");
    reveal_strlit("instrument_type");
    reveal_strlit(" ORDER BY symbol");
    lemma_listing_is_well_quoted(
        "SELECT symbol, name, asset_class, instrument_type, currency, exchange, sector, is_composite FROM pivot.instruments"@,
        "asset_class"@,
        asset_class,
        "instrument_type"@,
        instrument_type,
        " ORDER BY symbol"@,
    );
}

} // verus!
