//! Canonical payloads: one byte-stable text for each request, with the fields in a fixed
//! order. The text is compact JSON, so that a payload reads like the request it stands for.

use crate::cache::key::{cache_key, hex_char, hex_digit};
use crate::models::request::{
    DateRange, DateRangeView, ExposureQuery, ExposureQueryView, ExposureType, ExposureView,
    PivotFilters, PivotFiltersView, PivotRequest, PivotRequestView, PnlQuery, PnlQueryView,
    SortDirection, SortSpec, SortSpecView,
};
use crate::query::builder::{exposure_name, PivotQueryBuilder};
use crate::query::{Dimension, Metric};
use crate::text::{decimal, decimal_string, join, join_strings};
use vstd::prelude::*;
use vstd::string::StringExecFns;

verus! {

/// How one character is written inside a JSON string.
pub open spec fn json_escaped(c: char) -> Seq<char> {
    if c == '"' {
        "\\\""@
    } else if c == '\\' {
        "\\\\"@
    } else if c == '\u{8}' {
        "\\b"@
    } else if c == '\t' {
        "\\t"@
    } else if c == '\n' {
        "\\n"@
    } else if c == '\u{c}' {
        "\\f"@
    } else if c == '\r' {
        "\\r"@
    } else if (c as u32) < 0x20 {
        "\\u00"@.push(hex_digit(((c as u32) / 16) as nat)).push(hex_digit(((c as u32) % 16) as nat))
    } else {
        seq![c]
    }
}

/// The characters of a text as they are written inside a JSON string.
pub open spec fn json_text(text: Seq<char>) -> Seq<char>
    decreases text.len(),
{
    if text.len() == 0 {
        Seq::empty()
    } else {
        json_text(text.drop_last()) + json_escaped(text.last())
    }
}

/// A JSON string.
pub open spec fn json_string(text: Seq<char>) -> Seq<char> {
    "\""@ + json_text(text) + "\""@
}

/// A JSON array of items that are already written out.
pub open spec fn json_array(items: Seq<Seq<char>>) -> Seq<char> {
    "["@ + join(items, ","@) + "]"@
}

pub open spec fn json_bool(flag: bool) -> Seq<char> {
    if flag {
        "true"@
    } else {
        "false"@
    }
}

/// An optional value that is already written out, or `null`.
pub open spec fn json_option(value: Option<Seq<char>>) -> Seq<char> {
    match value {
        Some(text) => text,
        None => "null"@,
    }
}

pub open spec fn json_strings(values: Seq<Seq<char>>) -> Seq<Seq<char>> {
    Seq::new(values.len(), |i: int| json_string(values[i]))
}

pub open spec fn json_numbers(values: Seq<u32>) -> Seq<Seq<char>> {
    Seq::new(values.len(), |i: int| decimal(values[i] as nat))
}

pub open spec fn dimension_names(dimensions: Seq<Dimension>) -> Seq<Seq<char>> {
    Seq::new(dimensions.len(), |i: int| json_string(dimensions[i].column()))
}

pub open spec fn metric_names(metrics: Seq<Metric>) -> Seq<Seq<char>> {
    Seq::new(metrics.len(), |i: int| json_string(metrics[i].symbol()))
}

pub open spec fn exposure_names(types: Seq<ExposureType>) -> Seq<Seq<char>> {
    Seq::new(types.len(), |i: int| json_string(exposure_name(types[i])))
}

pub open spec fn name_list(values: Option<Seq<Seq<char>>>) -> Seq<char> {
    match values {
        Some(list) => json_array(json_strings(list)),
        None => "null"@,
    }
}

pub open spec fn id_list(values: Option<Seq<u32>>) -> Seq<char> {
    match values {
        Some(list) => json_array(json_numbers(list)),
        None => "null"@,
    }
}

pub open spec fn exposure_list(values: Option<Seq<ExposureType>>) -> Seq<char> {
    match values {
        Some(list) => json_array(exposure_names(list)),
        None => "null"@,
    }
}

pub open spec fn date_payload(date: Option<Seq<char>>) -> Seq<char> {
    match date {
        Some(day) => json_string(day),
        None => "null"@,
    }
}

pub open spec fn range_payload(range: Option<DateRangeView>) -> Seq<char> {
    match range {
        Some(r) => "{\"start\":"@ + json_string(r.start) + ",\"end\":"@ + json_string(r.end)
            + "}"@,
        None => "null"@,
    }
}

/// The filters, every field in the order of the catalogue, an absent field as `null`.
pub open spec fn filters_payload(filters: PivotFiltersView) -> Seq<char> {
    "{\"trade_date\":"@ + date_payload(filters.trade_date) + ",\"trade_date_range\":"@
        + range_payload(filters.trade_date_range) + ",\"exposure_type\":"@ + exposure_list(
        filters.exposure_type,
    ) + ",\"portfolio_manager_id\":"@ + id_list(filters.portfolio_manager_id) + ",\"fund_id\":"@
        + id_list(filters.fund_id) + ",\"asset_class\":"@ + name_list(filters.asset_class)
        + ",\"symbol\":"@ + name_list(filters.symbol) + ",\"underlying_symbol\":"@ + name_list(
        filters.underlying_symbol,
    ) + ",\"desk\":"@ + name_list(filters.desk) + ",\"book\":"@ + name_list(filters.book)
        + ",\"region\":"@ + name_list(filters.region) + ",\"country\":"@ + name_list(
        filters.country,
    ) + "}"@
}

pub open spec fn direction_name(direction: SortDirection) -> Seq<char> {
    match direction {
        SortDirection::Asc => "\"asc\""@,
        SortDirection::Desc => "\"desc\""@,
    }
}

pub open spec fn sort_payload(sort: Option<SortSpecView>) -> Seq<char> {
    match sort {
        Some(s) => "{\"field\":"@ + json_string(s.field) + ",\"direction\":"@ + direction_name(
            s.direction,
        ) + "}"@,
        None => "null"@,
    }
}

/// The canonical payload of a pivot request.
pub open spec fn pivot_payload(request: PivotRequestView) -> Seq<char> {
    "{\"dimensions\":"@ + json_array(dimension_names(request.dimensions)) + ",\"metrics\":"@
        + json_array(metric_names(request.metrics)) + ",\"filters\":"@ + filters_payload(
        request.filters,
    ) + ",\"sort\":"@ + sort_payload(request.sort) + ",\"limit\":"@ + decimal(
        request.limit as nat,
    ) + ",\"offset\":"@ + decimal(request.offset as nat) + ",\"cache_bypass\":"@ + json_bool(
        request.cache_bypass,
    ) + "}"@
}

pub open spec fn view_name(view: ExposureView) -> Seq<char> {
    match view {
        ExposureView::TopLevel => "\"top_level\""@,
        ExposureView::LookThrough => "\"look_through\""@,
        ExposureView::All => "\"all\""@,
    }
}

/// The canonical payload of an exposure query.
pub open spec fn exposure_payload(query: ExposureQueryView) -> Seq<char> {
    "{\"trade_date\":"@ + json_string(query.trade_date) + ",\"group_by\":"@ + json_string(
        query.group_by,
    ) + ",\"view\":"@ + view_name(query.view) + ",\"cache_bypass\":"@ + json_bool(
        query.cache_bypass,
    ) + "}"@
}

/// The canonical payload of a profit-and-loss query.
pub open spec fn pnl_payload(query: PnlQueryView) -> Seq<char> {
    "{\"trade_date\":"@ + json_string(query.trade_date) + ",\"group_by\":"@ + json_string(
        query.group_by,
    ) + ",\"cache_bypass\":"@ + json_bool(query.cache_bypass) + "}"@
}

/// The key of a pivot request.
pub open spec fn pivot_key(request: PivotRequestView) -> Seq<char> {
    cache_key("pivot:query"@, pivot_payload(request))
}

/// Canonicalization: the payload and the key depend on what a request says and on nothing
/// else. Two requests that say the same have the same key, however each was written down.
pub proof fn lemma_same_content_same_key(a: PivotRequest, b: PivotRequest)
    requires
        a@ == b@,
    ensures
        pivot_payload(a@) == pivot_payload(b@),
        pivot_key(a@) == pivot_key(b@),
{
}

fn push_escaped(out: &mut String, c: char)
    ensures
        final(out)@ == old(out)@ + json_escaped(c),
{
    if c == '"' {
        out.append("\\\"");
    } else if c == '\\' {
        out.append("\\\\");
    } else if c == '\u{8}' {
        out.append("\\b");
    } else if c == '\t' {
        out.append("\\t");
    } else if c == '\n' {
        out.append("\\n");
    } else if c == '\u{c}' {
        out.append("\\f");
    } else if c == '\r' {
        out.append("\\r");
    } else if (c as u32) < 0x20 {
        let code = c as u32;
        let ghost before = out@;
        out.append("\\u00");
        out.push(hex_char((code / 16) as u8));
        out.push(hex_char((code % 16) as u8));
        proof {
            assert(out@ =~= before + json_escaped(c));
        }
    } else {
        let ghost before = out@;
        out.push(c);
        proof {
            assert(out@ =~= before + json_escaped(c));
        }
    }
}

/// Writes a text as a JSON string.
pub fn quote_json(text: &str) -> (out: String)
    ensures
        out@ == json_string(text@),
{
    broadcast use vstd::string::group_string_axioms;

    let mut out = "\"".to_owned();
    for c in it: text.chars()
        invariant
            it.seq() == text@,
            out@ == "\""@ + json_text(text@.take(it.index())),
    {
        proof {
            let done = text@.take(it.index());
            let next = text@.take(it.index() + 1);
            assert(next.drop_last() =~= done);
            assert(next.last() == c);
            assert("\""@ + json_text(done) + json_escaped(c) =~= "\""@ + (json_text(done)
                + json_escaped(c)));
        }
        push_escaped(&mut out, c);
    }
    proof {
        assert(text@.take(text@.len() as int) =~= text@);
    }
    out.append("\"");
    out
}

fn write_array(items: &Vec<String>) -> (out: String)
    ensures
        out@ == json_array(items.deep_view()),
{
    let list = join_strings(items, ",");
    let mut out = "[".to_owned();
    out.append(list.as_str());
    out.append("]");
    out
}

fn write_name_list(values: &Option<Vec<String>>) -> (out: String)
    ensures
        out@ == name_list(crate::models::request::names(*values)),
{
    match values {
        Some(list) => {
            let mut items: Vec<String> = Vec::new();
            let mut i: usize = 0;
            while i < list.len()
                invariant
                    i <= list.len(),
                    items@.len() == i,
                    forall|j: int| 0 <= j < i ==> items@[j]@ == json_string(list@[j]@),
                decreases list.len() - i,
            {
                items.push(quote_json(list[i].as_str()));
                i += 1;
            }
            proof {
                assert(items.deep_view() =~= json_strings(list.deep_view()));
            }
            write_array(&items)
        },
        None => "null".to_owned(),
    }
}

fn write_id_list(values: &Option<Vec<u32>>) -> (out: String)
    ensures
        out@ == id_list(crate::models::request::items(*values)),
{
    match values {
        Some(list) => {
            let mut items: Vec<String> = Vec::new();
            let mut i: usize = 0;
            while i < list.len()
                invariant
                    i <= list.len(),
                    items@.len() == i,
                    forall|j: int| 0 <= j < i ==> items@[j]@ == decimal(list@[j] as nat),
                decreases list.len() - i,
            {
                items.push(decimal_string(list[i] as u64));
                i += 1;
            }
            proof {
                assert(items.deep_view() =~= json_numbers(list@));
            }
            write_array(&items)
        },
        None => "null".to_owned(),
    }
}

fn write_exposure_list(values: &Option<Vec<ExposureType>>) -> (out: String)
    ensures
        out@ == exposure_list(crate::models::request::items(*values)),
{
    match values {
        Some(list) => {
            let mut items: Vec<String> = Vec::new();
            let mut i: usize = 0;
            while i < list.len()
                invariant
                    i <= list.len(),
                    items@.len() == i,
                    forall|j: int|
                        0 <= j < i ==> items@[j]@ == json_string(exposure_name(list@[j])),
                decreases list.len() - i,
            {
                items.push(quote_json(PivotQueryBuilder::exposure_type_to_string(&list[i])));
                i += 1;
            }
            proof {
                assert(items.deep_view() =~= exposure_names(list@));
            }
            write_array(&items)
        },
        None => "null".to_owned(),
    }
}

fn write_date(date: &Option<String>) -> (out: String)
    ensures
        out@ == date_payload(date.deep_view()),
{
    match date {
        Some(day) => quote_json(day.as_str()),
        None => "null".to_owned(),
    }
}

fn write_range(range: &Option<DateRange>) -> (out: String)
    ensures
        out@ == range_payload(range.deep_view()),
{
    match range {
        Some(r) => {
            let start = quote_json(r.start.as_str());
            let end = quote_json(r.end.as_str());
            let mut out = "{\"start\":".to_owned();
            out.append(start.as_str());
            out.append(",\"end\":");
            out.append(end.as_str());
            out.append("}");
            out
        },
        None => "null".to_owned(),
    }
}

fn write_filters(filters: &PivotFilters) -> (out: String)
    ensures
        out@ == filters_payload(filters@),
{
    let trade_date = write_date(&filters.trade_date);
    let trade_date_range = write_range(&filters.trade_date_range);
    let exposure_type = write_exposure_list(&filters.exposure_type);
    let portfolio_manager_id = write_id_list(&filters.portfolio_manager_id);
    let fund_id = write_id_list(&filters.fund_id);
    let asset_class = write_name_list(&filters.asset_class);
    let symbol = write_name_list(&filters.symbol);
    let underlying_symbol = write_name_list(&filters.underlying_symbol);
    let desk = write_name_list(&filters.desk);
    let book = write_name_list(&filters.book);
    let region = write_name_list(&filters.region);
    let country = write_name_list(&filters.country);
    let mut out = "{\"trade_date\":".to_owned();
    out.append(trade_date.as_str());
    out.append(",\"trade_date_range\":");
    out.append(trade_date_range.as_str());
    out.append(",\"exposure_type\":");
    out.append(exposure_type.as_str());
    out.append(",\"portfolio_manager_id\":");
    out.append(portfolio_manager_id.as_str());
    out.append(",\"fund_id\":");
    out.append(fund_id.as_str());
    out.append(",\"asset_class\":");
    out.append(asset_class.as_str());
    out.append(",\"symbol\":");
    out.append(symbol.as_str());
    out.append(",\"underlying_symbol\":");
    out.append(underlying_symbol.as_str());
    out.append(",\"desk\":");
    out.append(desk.as_str());
    out.append(",\"book\":");
    out.append(book.as_str());
    out.append(",\"region\":");
    out.append(region.as_str());
    out.append(",\"country\":");
    out.append(country.as_str());
    out.append("}");
    out
}

fn write_sort(sort: &Option<SortSpec>) -> (out: String)
    ensures
        out@ == sort_payload(sort.deep_view()),
{
    match sort {
        Some(s) => {
            let field = quote_json(s.field.as_str());
            let mut out = "{\"field\":".to_owned();
            out.append(field.as_str());
            out.append(",\"direction\":");
            out.append(
                match s.direction {
                    SortDirection::Asc => "\"asc\"",
                    SortDirection::Desc => "\"desc\"",
                },
            );
            out.append("}");
            out
        },
        None => "null".to_owned(),
    }
}

fn write_dimensions(dimensions: &Vec<Dimension>) -> (out: String)
    ensures
        out@ == json_array(dimension_names(dimensions@)),
{
    let mut items: Vec<String> = Vec::new();
    let mut i: usize = 0;
    while i < dimensions.len()
        invariant
            i <= dimensions.len(),
            items@.len() == i,
            forall|j: int| 0 <= j < i ==> items@[j]@ == json_string(dimensions@[j].column()),
        decreases dimensions.len() - i,
    {
        items.push(quote_json(dimensions[i].to_column()));
        i += 1;
    }
    proof {
        assert(items.deep_view() =~= dimension_names(dimensions@));
    }
    write_array(&items)
}

fn write_metrics(metrics: &Vec<Metric>) -> (out: String)
    ensures
        out@ == json_array(metric_names(metrics@)),
{
    let mut items: Vec<String> = Vec::new();
    let mut i: usize = 0;
    while i < metrics.len()
        invariant
            i <= metrics.len(),
            items@.len() == i,
            forall|j: int| 0 <= j < i ==> items@[j]@ == json_string(metrics@[j].symbol()),
        decreases metrics.len() - i,
    {
        items.push(quote_json(metrics[i].name()));
        i += 1;
    }
    proof {
        assert(items.deep_view() =~= metric_names(metrics@));
    }
    write_array(&items)
}

fn bool_word(flag: bool) -> (word: &'static str)
    ensures
        word@ == json_bool(flag),
{
    if flag {
        "true"
    } else {
        "false"
    }
}

impl PivotRequest {
    /// The canonical payload of the request: the same text for the same request, however
    /// the request was written down by its sender.
    pub fn canonical_payload(&self) -> (payload: String)
        ensures
            payload@ == pivot_payload(self@),
    {
        let dimensions = write_dimensions(&self.dimensions);
        let metrics = write_metrics(&self.metrics);
        let filters = write_filters(&self.filters);
        let sort = write_sort(&self.sort);
        let limit = decimal_string(self.limit as u64);
        let offset = decimal_string(self.offset as u64);
        let mut payload = "{\"dimensions\":".to_owned();
        payload.append(dimensions.as_str());
        payload.append(",\"metrics\":");
        payload.append(metrics.as_str());
        payload.append(",\"filters\":");
        payload.append(filters.as_str());
        payload.append(",\"sort\":");
        payload.append(sort.as_str());
        payload.append(",\"limit\":");
        payload.append(limit.as_str());
        payload.append(",\"offset\":");
        payload.append(offset.as_str());
        payload.append(",\"cache_bypass\":");
        payload.append(bool_word(self.cache_bypass));
        payload.append("}");
        payload
    }
}

impl ExposureQuery {
    /// The canonical payload of the query.
    pub fn canonical_payload(&self) -> (payload: String)
        ensures
            payload@ == exposure_payload(self@),
    {
        let trade_date = quote_json(self.trade_date.as_str());
        let group_by = quote_json(self.group_by.as_str());
        let mut payload = "{\"trade_date\":".to_owned();
        payload.append(trade_date.as_str());
        payload.append(",\"group_by\":");
        payload.append(group_by.as_str());
        payload.append(",\"view\":");
        payload.append(
            match self.view {
                ExposureView::TopLevel => "\"top_level\"",
                ExposureView::LookThrough => "\"look_through\"",
                ExposureView::All => "\"all\"",
            },
        );
        payload.append(",\"cache_bypass\":");
        payload.append(bool_word(self.cache_bypass));
        payload.append("}");
        payload
    }
}

impl PnlQuery {
    /// The canonical payload of the query.
    pub fn canonical_payload(&self) -> (payload: String)
        ensures
            payload@ == pnl_payload(self@),
    {
        let trade_date = quote_json(self.trade_date.as_str());
        let group_by = quote_json(self.group_by.as_str());
        let mut payload = "{\"trade_date\":".to_owned();
        payload.append(trade_date.as_str());
        payload.append(",\"group_by\":");
        payload.append(group_by.as_str());
        payload.append(",\"cache_bypass\":");
        payload.append(bool_word(self.cache_bypass));
        payload.append("}");
        payload
    }
}

} // verus!
