//! The query compiler: one validated request in, one aggregation statement out.

use crate::error::{ApiError, ApiErrorView};
use crate::models::request::{
    DateRange, DateRangeView, ExposureType, PivotFilters, PivotFiltersView, PivotRequest,
    PivotRequestView, SortDirection,
};
use crate::query::{Dimension, Metric};
use crate::query::safety::lemma_statement_is_well_quoted;
use crate::text::{
    all_admitted, decimal, decimal_string, join, join_strings, passes, plain, retain,
    retain_chars, well_quoted, Charset,
};
use crate::views::lemma_pushed;
use vstd::prelude::*;
use vstd::string::StringExecFns;

verus! {

/// What a builder holds: a request that passed validation, without its cache flag.
pub struct QueryPlan {
    pub dimensions: Seq<Dimension>,
    pub metrics: Seq<Metric>,
    pub filters: PivotFiltersView,
    pub sort_field: Option<Seq<char>>,
    pub sort_direction: SortDirection,
    pub limit: u32,
    pub offset: u32,
}

/// Compiles one request into one aggregation statement over the trade fact table.
pub struct PivotQueryBuilder {
    dimensions: Vec<Dimension>,
    metrics: Vec<Metric>,
    filters: PivotFilters,
    sort_field: Option<String>,
    sort_direction: SortDirection,
    limit: u32,
    offset: u32,
}

/// Whether a request names at least one dimension and at least one metric.
pub open spec fn valid_request(request: PivotRequestView) -> bool {
    request.dimensions.len() > 0 && request.metrics.len() > 0
}

/// Whether a plan names at least one dimension and at least one metric.
pub open spec fn valid_plan(plan: QueryPlan) -> bool {
    plan.dimensions.len() > 0 && plan.metrics.len() > 0
}

/// The plan of a request: its fields, with a descending sort direction where it names no sort.
pub open spec fn plan_of(request: PivotRequestView) -> QueryPlan {
    QueryPlan {
        dimensions: request.dimensions,
        metrics: request.metrics,
        filters: request.filters,
        sort_field: match request.sort {
            Some(sort) => Some(sort.field),
            None => None,
        },
        sort_direction: match request.sort {
            Some(sort) => sort.direction,
            None => SortDirection::Desc,
        },
        limit: request.limit,
        offset: request.offset,
    }
}

/// The error for a request that cannot be compiled, if it is one: the dimensions are looked
/// at first.
pub open spec fn validation_error(request: PivotRequestView) -> Option<ApiErrorView> {
    if request.dimensions.len() == 0 {
        Some(ApiErrorView::QueryValidation("at least one dimension required"@))
    } else if request.metrics.len() == 0 {
        Some(ApiErrorView::QueryValidation("at least one metric required"@))
    } else {
        None
    }
}

/// The text that stands for a trade date: its digits and hyphens, and nothing else of it.
pub open spec fn date_text(value: Seq<char>) -> Seq<char> {
    retain(value, Charset::DateLike)
}

/// The text that stands for a value of a categorical list: a value of digits and hyphens
/// as it is, any other value cut down to its letters, digits and underscores.
pub open spec fn sanitized(value: Seq<char>) -> Seq<char> {
    if all_admitted(value, Charset::DateLike) {
        value
    } else {
        retain(value, Charset::Word)
    }
}

/// A string literal.
pub open spec fn quoted(text: Seq<char>) -> Seq<char> {
    "'"@ + text + "'"@
}

/// The fixed name of an exposure type.
pub open spec fn exposure_name(t: ExposureType) -> Seq<char> {
    match t {
        ExposureType::Direct => "Direct"@,
        ExposureType::Etf => "ETF"@,
        ExposureType::Etc => "ETC"@,
        ExposureType::Constituent => "Constituent"@,
    }
}

pub open spec fn text_literals(values: Seq<Seq<char>>) -> Seq<Seq<char>> {
    Seq::new(values.len(), |i: int| quoted(sanitized(values[i])))
}

pub open spec fn id_literals(ids: Seq<u32>) -> Seq<Seq<char>> {
    Seq::new(ids.len(), |i: int| decimal(ids[i] as nat))
}

pub open spec fn exposure_literals(types: Seq<ExposureType>) -> Seq<Seq<char>> {
    Seq::new(types.len(), |i: int| quoted(exposure_name(types[i])))
}

/// `column IN (a, b, ...)`.
pub open spec fn in_clause(column: Seq<char>, literals: Seq<Seq<char>>) -> Seq<char> {
    column + " IN ("@ + join(literals, ", "@) + ")"@
}

/// The clause of an exact trade date: none where the field is absent.
pub open spec fn date_filter(date: Option<Seq<char>>) -> Seq<Seq<char>> {
    match date {
        Some(day) => seq!["trade_date = "@ + quoted(date_text(day))],
        None => Seq::empty(),
    }
}

/// The clause of a range of trade dates: none where the field is absent.
pub open spec fn range_filter(range: Option<DateRangeView>) -> Seq<Seq<char>> {
    match range {
        Some(r) => seq![
            "trade_date >= "@ + quoted(date_text(r.start)) + " AND trade_date <= "@ + quoted(
                date_text(r.end),
            ),
        ],
        None => Seq::empty(),
    }
}

/// The clause of a list of exposure types: none where the list is absent or empty.
pub open spec fn exposure_filter(types: Option<Seq<ExposureType>>) -> Seq<Seq<char>> {
    match types {
        Some(list) => if list.len() > 0 {
            seq![in_clause("exposure_type"@, exposure_literals(list))]
        } else {
            Seq::empty()
        },
        None => Seq::empty(),
    }
}

/// The clause of a list of numeric ids: none where the list is absent or empty.
pub open spec fn id_filter(column: Seq<char>, ids: Option<Seq<u32>>) -> Seq<Seq<char>> {
    match ids {
        Some(list) => if list.len() > 0 {
            seq![in_clause(column, id_literals(list))]
        } else {
            Seq::empty()
        },
        None => Seq::empty(),
    }
}

/// The clause of a list of names: none where the list is absent or empty.
pub open spec fn text_filter(column: Seq<char>, values: Option<Seq<Seq<char>>>) -> Seq<
    Seq<char>,
> {
    match values {
        Some(list) => if list.len() > 0 {
            seq![in_clause(column, text_literals(list))]
        } else {
            Seq::empty()
        },
        None => Seq::empty(),
    }
}

/// The filter clauses in their fixed order, one for each field that constrains the query.
pub open spec fn where_clauses(filters: PivotFiltersView) -> Seq<Seq<char>> {
    date_filter(filters.trade_date) + range_filter(filters.trade_date_range) + exposure_filter(
        filters.exposure_type,
    ) + id_filter("portfolio_manager_id"@, filters.portfolio_manager_id) + id_filter(
        "fund_id"@,
        filters.fund_id,
    ) + text_filter("asset_class"@, filters.asset_class) + text_filter("symbol"@, filters.symbol)
        + text_filter("underlying_symbol"@, filters.underlying_symbol) + text_filter(
        "desk"@,
        filters.desk,
    ) + text_filter("book"@, filters.book) + text_filter("region"@, filters.region)
        + text_filter("country"@, filters.country)
}

/// The columns of the dimensions, in request order.
pub open spec fn dimension_columns(dimensions: Seq<Dimension>) -> Seq<Seq<char>> {
    Seq::new(dimensions.len(), |i: int| dimensions[i].column())
}

/// The dimension columns that the statement selects.
pub open spec fn select_dimensions(plan: QueryPlan) -> Seq<Seq<char>> {
    dimension_columns(plan.dimensions)
}

/// The columns that the statement groups by.
pub open spec fn group_by_columns(plan: QueryPlan) -> Seq<Seq<char>> {
    dimension_columns(plan.dimensions)
}

/// One selected aggregate, with the comma that precedes it.
pub open spec fn metric_item(metric: Metric) -> Seq<char> {
    ", "@ + metric.aggregation() + " AS "@ + metric.output_alias()
}

/// The selected aggregates, in request order.
pub open spec fn metric_list(metrics: Seq<Metric>) -> Seq<char>
    decreases metrics.len(),
{
    if metrics.len() == 0 {
        Seq::empty()
    } else {
        metric_list(metrics.drop_last()) + metric_item(metrics.last())
    }
}

pub open spec fn where_part(filters: PivotFiltersView) -> Seq<char> {
    if where_clauses(filters).len() == 0 {
        Seq::empty()
    } else {
        " WHERE "@ + join(where_clauses(filters), " AND "@)
    }
}

pub open spec fn direction_word(direction: SortDirection) -> Seq<char> {
    match direction {
        SortDirection::Asc => " ASC"@,
        SortDirection::Desc => " DESC"@,
    }
}

/// The ordering of a plan that names no sort: by its first metric, largest first.
pub open spec fn default_order(plan: QueryPlan) -> Seq<char> {
    if plan.metrics.len() > 0 {
        " ORDER BY "@ + plan.metrics[0].output_alias() + " DESC"@
    } else {
        Seq::empty()
    }
}

/// The ordering of a plan: by the sort that the request names, and by default where it
/// names none.
pub open spec fn order_part(plan: QueryPlan) -> Seq<char> {
    match plan.sort_field {
        Some(field) => " ORDER BY "@ + field + direction_word(plan.sort_direction),
        None => default_order(plan),
    }
}

pub open spec fn limit_part(plan: QueryPlan) -> Seq<char> {
    if plan.offset > 0 {
        " LIMIT "@ + decimal(plan.limit as nat) + " OFFSET "@ + decimal(plan.offset as nat)
    } else {
        " LIMIT "@ + decimal(plan.limit as nat)
    }
}

/// The statement of a plan.
pub open spec fn compile(plan: QueryPlan) -> Seq<char> {
    "SELECT "@ + join(select_dimensions(plan), ", "@) + metric_list(plan.metrics)
        + " FROM pivot.trades_1d"@ + where_part(plan.filters) + " GROUP BY "@ + join(
        group_by_columns(plan),
        ", "@,
    ) + order_part(plan) + limit_part(plan)
}

impl View for PivotQueryBuilder {
    type V = QueryPlan;

    closed spec fn view(&self) -> QueryPlan {
        QueryPlan {
            dimensions: self.dimensions@,
            metrics: self.metrics@,
            filters: self.filters@,
            sort_field: match self.sort_field {
                Some(field) => Some(field@),
                None => None,
            },
            sort_direction: self.sort_direction,
            limit: self.limit,
            offset: self.offset,
        }
    }
}

fn copy_names(list: &Vec<String>) -> (copy: Vec<String>)
    ensures
        copy.deep_view() == list.deep_view(),
{
    let mut copy: Vec<String> = Vec::new();
    let mut i: usize = 0;
    while i < list.len()
        invariant
            i <= list.len(),
            copy@.len() == i,
            forall|j: int| 0 <= j < i ==> copy@[j]@ == list@[j]@,
        decreases list.len() - i,
    {
        copy.push(list[i].clone());
        i += 1;
    }
    proof {
        assert(copy.deep_view() =~= list.deep_view());
    }
    copy
}

fn copy_items<T: Copy>(list: &Vec<T>) -> (copy: Vec<T>)
    ensures
        copy@ == list@,
{
    let mut copy: Vec<T> = Vec::new();
    let mut i: usize = 0;
    while i < list.len()
        invariant
            i <= list.len(),
            copy@ == list@.take(i as int),
        decreases list.len() - i,
    {
        copy.push(list[i]);
        proof {
            assert(copy@ =~= list@.take(i + 1));
        }
        i += 1;
    }
    proof {
        assert(list@.take(list.len() as int) =~= list@);
    }
    copy
}

fn copy_name_list(list: &Option<Vec<String>>) -> (copy: Option<Vec<String>>)
    ensures
        crate::models::request::names(copy) == crate::models::request::names(*list),
{
    match list {
        Some(values) => Some(copy_names(values)),
        None => None,
    }
}

fn copy_item_list<T: Copy>(list: &Option<Vec<T>>) -> (copy: Option<Vec<T>>)
    ensures
        crate::models::request::items(copy) == crate::models::request::items(*list),
{
    match list {
        Some(values) => Some(copy_items(values)),
        None => None,
    }
}

fn copy_filters(filters: &PivotFilters) -> (copy: PivotFilters)
    ensures
        copy@ == filters@,
{
    PivotFilters {
        trade_date: match &filters.trade_date {
            Some(date) => Some(date.clone()),
            None => None,
        },
        trade_date_range: match &filters.trade_date_range {
            Some(range) => Some(DateRange { start: range.start.clone(), end: range.end.clone() }),
            None => None,
        },
        exposure_type: copy_item_list(&filters.exposure_type),
        portfolio_manager_id: copy_item_list(&filters.portfolio_manager_id),
        fund_id: copy_item_list(&filters.fund_id),
        asset_class: copy_name_list(&filters.asset_class),
        symbol: copy_name_list(&filters.symbol),
        underlying_symbol: copy_name_list(&filters.underlying_symbol),
        desk: copy_name_list(&filters.desk),
        book: copy_name_list(&filters.book),
        region: copy_name_list(&filters.region),
        country: copy_name_list(&filters.country),
    }
}

/// Writes a string literal around text that is already sanitized.
pub fn quote_literal(text: &str) -> (literal: String)
    ensures
        literal@ == quoted(text@),
{
    let mut literal = "'".to_owned();
    literal.append(text);
    literal.append("'");
    literal
}

/// Writes `column IN (a, b, ...)` for literals that are already written out.
pub fn render_in_clause(column: &str, literals: &Vec<String>) -> (clause: String)
    ensures
        clause@ == in_clause(column@, literals.deep_view()),
{
    let list = join_strings(literals, ", ");
    let mut clause = column.to_owned();
    clause.append(" IN (");
    clause.append(list.as_str());
    clause.append(")");
    clause
}

fn push_date_filter(clauses: &mut Vec<String>, date: &Option<String>)
    ensures
        final(clauses).deep_view() == old(clauses).deep_view() + date_filter(date.deep_view()),
{
    match date {
        Some(day) => {
            let value = PivotQueryBuilder::escape_date(day.as_str());
            let literal = quote_literal(value.as_str());
            let mut clause = "trade_date = ".to_owned();
            clause.append(literal.as_str());
            let ghost before = *clauses;
            clauses.push(clause);
            proof {
                lemma_pushed(before, *clauses, clause);
            }
        },
        None => {
            proof {
                assert(clauses.deep_view() + Seq::<Seq<char>>::empty() =~= clauses.deep_view());
            }
        },
    }
}

fn push_range_filter(clauses: &mut Vec<String>, range: &Option<DateRange>)
    ensures
        final(clauses).deep_view() == old(clauses).deep_view() + range_filter(range.deep_view()),
{
    match range {
        Some(r) => {
            let start = PivotQueryBuilder::escape_date(r.start.as_str());
            let end = PivotQueryBuilder::escape_date(r.end.as_str());
            let first = quote_literal(start.as_str());
            let last = quote_literal(end.as_str());
            let mut clause = "trade_date >= ".to_owned();
            clause.append(first.as_str());
            clause.append(" AND trade_date <= ");
            clause.append(last.as_str());
            let ghost before = *clauses;
            clauses.push(clause);
            proof {
                lemma_pushed(before, *clauses, clause);
            }
        },
        None => {
            proof {
                assert(clauses.deep_view() + Seq::<Seq<char>>::empty() =~= clauses.deep_view());
            }
        },
    }
}

fn push_exposure_filter(clauses: &mut Vec<String>, types: &Option<Vec<ExposureType>>)
    ensures
        final(clauses).deep_view() == old(clauses).deep_view() + exposure_filter(
            crate::models::request::items(*types),
        ),
{
    proof {
        assert(clauses.deep_view() + Seq::<Seq<char>>::empty() =~= clauses.deep_view());
    }
    if let Some(list) = types {
        if list.len() > 0 {
            let mut literals: Vec<String> = Vec::new();
            let mut i: usize = 0;
            while i < list.len()
                invariant
                    i <= list.len(),
                    literals@.len() == i,
                    forall|j: int| 0 <= j < i ==> literals@[j]@ == quoted(exposure_name(list@[j])),
                decreases list.len() - i,
            {
                let name = PivotQueryBuilder::exposure_type_to_string(&list[i]);
                literals.push(quote_literal(name));
                i += 1;
            }
            proof {
                assert(literals.deep_view() =~= exposure_literals(list@));
            }
            let clause = render_in_clause("exposure_type", &literals);
            let ghost before = *clauses;
            clauses.push(clause);
            proof {
                lemma_pushed(before, *clauses, clause);
            }
        }
    }
}

fn push_id_filter(clauses: &mut Vec<String>, column: &str, ids: &Option<Vec<u32>>)
    ensures
        final(clauses).deep_view() == old(clauses).deep_view() + id_filter(
            column@,
            crate::models::request::items(*ids),
        ),
{
    proof {
        assert(clauses.deep_view() + Seq::<Seq<char>>::empty() =~= clauses.deep_view());
    }
    if let Some(list) = ids {
        if list.len() > 0 {
            let mut literals: Vec<String> = Vec::new();
            let mut i: usize = 0;
            while i < list.len()
                invariant
                    i <= list.len(),
                    literals@.len() == i,
                    forall|j: int| 0 <= j < i ==> literals@[j]@ == decimal(list@[j] as nat),
                decreases list.len() - i,
            {
                literals.push(decimal_string(list[i] as u64));
                i += 1;
            }
            proof {
                assert(literals.deep_view() =~= id_literals(list@));
            }
            let clause = render_in_clause(column, &literals);
            let ghost before = *clauses;
            clauses.push(clause);
            proof {
                lemma_pushed(before, *clauses, clause);
            }
        }
    }
}

fn push_text_filter(clauses: &mut Vec<String>, column: &str, values: &Option<Vec<String>>)
    ensures
        final(clauses).deep_view() == old(clauses).deep_view() + text_filter(
            column@,
            crate::models::request::names(*values),
        ),
{
    proof {
        assert(clauses.deep_view() + Seq::<Seq<char>>::empty() =~= clauses.deep_view());
    }
    if let Some(list) = values {
        if list.len() > 0 {
            let mut literals: Vec<String> = Vec::new();
            let mut i: usize = 0;
            while i < list.len()
                invariant
                    i <= list.len(),
                    literals@.len() == i,
                    forall|j: int| 0 <= j < i ==> literals@[j]@ == quoted(sanitized(list@[j]@)),
                decreases list.len() - i,
            {
                let value = PivotQueryBuilder::escape_string(list[i].as_str());
                literals.push(quote_literal(value.as_str()));
                i += 1;
            }
            proof {
                assert(literals.deep_view() =~= text_literals(list.deep_view()));
            }
            let clause = render_in_clause(column, &literals);
            let ghost before = *clauses;
            clauses.push(clause);
            proof {
                lemma_pushed(before, *clauses, clause);
            }
        }
    }
}

impl PivotQueryBuilder {
    /// A builder never holds an empty list of dimensions or of metrics.
    #[verifier::type_invariant]
    closed spec fn well_formed(&self) -> bool {
        self.dimensions@.len() > 0 && self.metrics@.len() > 0
    }

    /// Validates a request: it needs a dimension and a metric, and the dimensions are looked
    /// at first.
    pub fn validate(req: &PivotRequest) -> (result: Result<(), ApiError>)
        ensures
            match result {
                Ok(_) => valid_request(req@),
                Err(error) => Some(error@) == validation_error(req@),
            },
    {
        if req.dimensions.len() == 0 {
            return Err(ApiError::QueryValidation("at least one dimension required".to_owned()));
        }
        if req.metrics.len() == 0 {
            return Err(ApiError::QueryValidation("at least one metric required".to_owned()));
        }
        Ok(())
    }

    /// Validates a request and keeps what the statement is compiled from.
    pub fn from_request(req: &PivotRequest) -> (result: Result<Self, ApiError>)
        ensures
            match result {
                Ok(builder) => valid_request(req@) && builder@ == plan_of(req@),
                Err(error) => Some(error@) == validation_error(req@),
            },
    {
        match PivotQueryBuilder::validate(req) {
            Ok(_) => {},
            Err(error) => {
                return Err(error);
            },
        }
        let (sort_field, sort_direction) = match &req.sort {
            Some(sort) => (Some(sort.field.clone()), sort.direction),
            None => (None, SortDirection::Desc),
        };
        Ok(
            PivotQueryBuilder {
                dimensions: copy_items(&req.dimensions),
                metrics: copy_items(&req.metrics),
                filters: copy_filters(&req.filters),
                sort_field,
                sort_direction,
                limit: req.limit,
                offset: req.offset,
            },
        )
    }

    /// The filter that a trade date passes through before it is interpolated.
    pub fn escape_date(s: &str) -> (escaped: String)
        ensures
            escaped@ == date_text(s@),
            all_admitted(escaped@, Charset::DateLike),
    {
        retain_chars(s, Charset::DateLike)
    }

    /// The filter that a value of a categorical list passes through before it is
    /// interpolated.
    pub fn escape_string(s: &str) -> (escaped: String)
        ensures
            escaped@ == sanitized(s@),
    {
        if passes(s, Charset::DateLike) {
            return s.to_owned();
        }
        retain_chars(s, Charset::Word)
    }

    /// The filter clauses, in the order in which they are joined.
    pub fn build_where_clauses(&self) -> (clauses: Vec<String>)
        ensures
            clauses.deep_view() == where_clauses(self@.filters),
    {
        let mut clauses: Vec<String> = Vec::new();
        proof {
            assert(clauses.deep_view() =~= Seq::<Seq<char>>::empty());
        }
        push_date_filter(&mut clauses, &self.filters.trade_date);
        push_range_filter(&mut clauses, &self.filters.trade_date_range);
        push_exposure_filter(&mut clauses, &self.filters.exposure_type);
        push_id_filter(&mut clauses, "portfolio_manager_id", &self.filters.portfolio_manager_id);
        push_id_filter(&mut clauses, "fund_id", &self.filters.fund_id);
        push_text_filter(&mut clauses, "asset_class", &self.filters.asset_class);
        push_text_filter(&mut clauses, "symbol", &self.filters.symbol);
        push_text_filter(&mut clauses, "underlying_symbol", &self.filters.underlying_symbol);
        push_text_filter(&mut clauses, "desk", &self.filters.desk);
        push_text_filter(&mut clauses, "book", &self.filters.book);
        push_text_filter(&mut clauses, "region", &self.filters.region);
        push_text_filter(&mut clauses, "country", &self.filters.country);
        proof {
            assert(clauses.deep_view() =~= where_clauses(self@.filters));
        }
        clauses
    }

    fn column_list(&self) -> (list: String)
        ensures
            list@ == join(dimension_columns(self@.dimensions), ", "@),
    {
        let mut columns: Vec<String> = Vec::new();
        let mut i: usize = 0;
        while i < self.dimensions.len()
            invariant
                i <= self.dimensions.len(),
                columns@.len() == i,
                forall|j: int| 0 <= j < i ==> columns@[j]@ == self.dimensions@[j].column(),
            decreases self.dimensions.len() - i,
        {
            columns.push(self.dimensions[i].to_column().to_owned());
            i += 1;
        }
        proof {
            assert(columns.deep_view() =~= dimension_columns(self@.dimensions));
        }
        join_strings(&columns, ", ")
    }

    fn metric_clause(&self) -> (text: String)
        ensures
            text@ == metric_list(self@.metrics),
    {
        let mut text = String::new();
        let mut k: usize = 0;
        while k < self.metrics.len()
            invariant
                k <= self.metrics.len(),
                text@ == metric_list(self.metrics@.take(k as int)),
            decreases self.metrics.len() - k,
        {
            let metric = self.metrics[k];
            proof {
                let done = self.metrics@.take(k as int);
                let next = self.metrics@.take(k + 1);
                assert(next.drop_last() =~= done);
                assert(next.last() == metric);
                assert(metric_list(done) + ", "@ + metric.aggregation() + " AS "@
                    + metric.output_alias() =~= metric_list(done) + metric_item(metric));
            }
            text.append(", ");
            text.append(metric.to_aggregation());
            text.append(" AS ");
            text.append(metric.alias());
            k += 1;
        }
        proof {
            assert(self.metrics@.take(self.metrics.len() as int) =~= self.metrics@);
        }
        text
    }

    fn where_clause(&self) -> (text: String)
        ensures
            text@ == where_part(self@.filters),
    {
        let clauses = self.build_where_clauses();
        if clauses.len() > 0 {
            let mut text = " WHERE ".to_owned();
            let conditions = join_strings(&clauses, " AND ");
            text.append(conditions.as_str());
            text
        } else {
            String::new()
        }
    }

    fn order_clause(&self) -> (text: String)
        ensures
            text@ == order_part(self@),
    {
        match &self.sort_field {
            Some(field) => {
                let mut text = " ORDER BY ".to_owned();
                text.append(field.as_str());
                text.append(
                    match self.sort_direction {
                        SortDirection::Asc => " ASC",
                        SortDirection::Desc => " DESC",
                    },
                );
                text
            },
            None => {
                proof {
                    use_type_invariant(self);
                }
                let mut text = " ORDER BY ".to_owned();
                text.append(self.metrics[0].alias());
                text.append(" DESC");
                text
            },
        }
    }

    fn limit_clause(&self) -> (text: String)
        ensures
            text@ == limit_part(self@),
    {
        let mut text = " LIMIT ".to_owned();
        let limit = decimal_string(self.limit as u64);
        text.append(limit.as_str());
        if self.offset > 0 {
            let offset = decimal_string(self.offset as u64);
            text.append(" OFFSET ");
            text.append(offset.as_str());
        }
        text
    }

    /// Compiles the statement. A builder only ever holds a valid plan, so the statement
    /// always has an ordering: the sort of the request, or the first metric, largest first.
    /// Unless the sort field brings one in, the statement holds no statement separator and
    /// no quote that does not open or close a literal.
    pub fn build(&self) -> (sql: String)
        ensures
            sql@ == compile(self@),
            valid_plan(self@),
            (self@.sort_field matches Some(field) ==> plain(field)) ==> well_quoted(sql@),
    {
        proof {
            use_type_invariant(self);
            if self@.sort_field matches Some(field) ==> plain(field) {
                lemma_statement_is_well_quoted(self@);
            }
        }
        let columns = self.column_list();
        let metrics = self.metric_clause();
        let conditions = self.where_clause();
        let order = self.order_clause();
        let limit = self.limit_clause();

        let mut sql = "SELECT ".to_owned();
        sql.append(columns.as_str());
        sql.append(metrics.as_str());
        sql.append(" FROM pivot.trades_1d");
        sql.append(conditions.as_str());
        sql.append(" GROUP BY ");
        sql.append(columns.as_str());
        sql.append(order.as_str());
        sql.append(limit.as_str());
        sql
    }

    pub fn exposure_type_to_string(t: &ExposureType) -> (name: &'static str)
        ensures
            name@ == exposure_name(*t),
    {
        match t {
            ExposureType::Direct => "Direct",
            ExposureType::Etf => "ETF",
            ExposureType::Etc => "ETC",
            ExposureType::Constituent => "Constituent",
        }
    }
}

} // verus!
