//! The request model: what an analytical request may say.

use crate::query::{Dimension, Metric};
use vstd::prelude::*;

verus! {

/// A closed interval of trade dates, both ends included.
#[derive(Debug, Clone)]
pub struct DateRange {
    pub start: String,
    pub end: String,
}

pub struct DateRangeView {
    pub start: Seq<char>,
    pub end: Seq<char>,
}

impl View for DateRange {
    type V = DateRangeView;

    open spec fn view(&self) -> DateRangeView {
        DateRangeView { start: self.start@, end: self.end@ }
    }
}

impl DeepView for DateRange {
    type V = DateRangeView;

    open spec fn deep_view(&self) -> DateRangeView {
        self@
    }
}

/// The direction of a sort. Descending unless the request says otherwise.
#[derive(Debug, Clone, Copy, PartialEq, Eq, Structural)]
pub enum SortDirection {
    Asc,
    Desc,
}

impl Default for SortDirection {
    fn default() -> (direction: SortDirection)
        ensures
            direction == SortDirection::Desc,
    {
        SortDirection::Desc
    }
}

/// How a trade contributes to an exposure.
#[derive(Debug, Clone, Copy, PartialEq, Eq, Structural)]
pub enum ExposureType {
    Direct,
    Etf,
    Etc,
    Constituent,
}

/// One sort key. The field is taken as the request gives it.
#[derive(Debug, Clone)]
pub struct SortSpec {
    pub field: String,
    pub direction: SortDirection,
}

pub struct SortSpecView {
    pub field: Seq<char>,
    pub direction: SortDirection,
}

impl View for SortSpec {
    type V = SortSpecView;

    open spec fn view(&self) -> SortSpecView {
        SortSpecView { field: self.field@, direction: self.direction }
    }
}

impl DeepView for SortSpec {
    type V = SortSpecView;

    open spec fn deep_view(&self) -> SortSpecView {
        self@
    }
}

/// The filterable columns. An absent field does not constrain the query, and neither does
/// an empty list.
#[derive(Debug, Clone)]
pub struct PivotFilters {
    pub trade_date: Option<String>,
    pub trade_date_range: Option<DateRange>,
    pub exposure_type: Option<Vec<ExposureType>>,
    pub portfolio_manager_id: Option<Vec<u32>>,
    pub fund_id: Option<Vec<u32>>,
    pub asset_class: Option<Vec<String>>,
    pub symbol: Option<Vec<String>>,
    pub underlying_symbol: Option<Vec<String>>,
    pub desk: Option<Vec<String>>,
    pub book: Option<Vec<String>>,
    pub region: Option<Vec<String>>,
    pub country: Option<Vec<String>>,
}

pub struct PivotFiltersView {
    pub trade_date: Option<Seq<char>>,
    pub trade_date_range: Option<DateRangeView>,
    pub exposure_type: Option<Seq<ExposureType>>,
    pub portfolio_manager_id: Option<Seq<u32>>,
    pub fund_id: Option<Seq<u32>>,
    pub asset_class: Option<Seq<Seq<char>>>,
    pub symbol: Option<Seq<Seq<char>>>,
    pub underlying_symbol: Option<Seq<Seq<char>>>,
    pub desk: Option<Seq<Seq<char>>>,
    pub book: Option<Seq<Seq<char>>>,
    pub region: Option<Seq<Seq<char>>>,
    pub country: Option<Seq<Seq<char>>>,
}

/// The view of an optional list of strings.
pub open spec fn names(list: Option<Vec<String>>) -> Option<Seq<Seq<char>>> {
    match list {
        Some(items) => Some(items.deep_view()),
        None => None,
    }
}

/// The view of an optional list of plain values.
pub open spec fn items<T>(list: Option<Vec<T>>) -> Option<Seq<T>> {
    match list {
        Some(items) => Some(items@),
        None => None,
    }
}

impl View for PivotFilters {
    type V = PivotFiltersView;

    open spec fn view(&self) -> PivotFiltersView {
        PivotFiltersView {
            trade_date: match self.trade_date {
                Some(date) => Some(date@),
                None => None,
            },
            trade_date_range: match self.trade_date_range {
                Some(range) => Some(range@),
                None => None,
            },
            exposure_type: items(self.exposure_type),
            portfolio_manager_id: items(self.portfolio_manager_id),
            fund_id: items(self.fund_id),
            asset_class: names(self.asset_class),
            symbol: names(self.symbol),
            underlying_symbol: names(self.underlying_symbol),
            desk: names(self.desk),
            book: names(self.book),
            region: names(self.region),
            country: names(self.country),
        }
    }
}

impl DeepView for PivotFilters {
    type V = PivotFiltersView;

    open spec fn deep_view(&self) -> PivotFiltersView {
        self@
    }
}

impl PivotFiltersView {
    /// No field set.
    pub open spec fn unconstrained() -> PivotFiltersView {
        PivotFiltersView {
            trade_date: None,
            trade_date_range: None,
            exposure_type: None,
            portfolio_manager_id: None,
            fund_id: None,
            asset_class: None,
            symbol: None,
            underlying_symbol: None,
            desk: None,
            book: None,
            region: None,
            country: None,
        }
    }
}

impl Default for PivotFilters {
    fn default() -> (filters: PivotFilters)
        ensures
            filters@ == PivotFiltersView::unconstrained(),
    {
        PivotFilters {
            trade_date: None,
            trade_date_range: None,
            exposure_type: None,
            portfolio_manager_id: None,
            fund_id: None,
            asset_class: None,
            symbol: None,
            underlying_symbol: None,
            desk: None,
            book: None,
            region: None,
            country: None,
        }
    }
}

/// One analytical request: what to group by, what to aggregate, and how to cut the result.
#[derive(Debug, Clone)]
pub struct PivotRequest {
    pub dimensions: Vec<Dimension>,
    pub metrics: Vec<Metric>,
    pub filters: PivotFilters,
    pub sort: Option<SortSpec>,
    pub limit: u32,
    pub offset: u32,
    pub cache_bypass: bool,
}

pub struct PivotRequestView {
    pub dimensions: Seq<Dimension>,
    pub metrics: Seq<Metric>,
    pub filters: PivotFiltersView,
    pub sort: Option<SortSpecView>,
    pub limit: u32,
    pub offset: u32,
    pub cache_bypass: bool,
}

impl View for PivotRequest {
    type V = PivotRequestView;

    open spec fn view(&self) -> PivotRequestView {
        PivotRequestView {
            dimensions: self.dimensions@,
            metrics: self.metrics@,
            filters: self.filters@,
            sort: match self.sort {
                Some(sort) => Some(sort@),
                None => None,
            },
            limit: self.limit,
            offset: self.offset,
            cache_bypass: self.cache_bypass,
        }
    }
}

impl DeepView for PivotRequest {
    type V = PivotRequestView;

    open spec fn deep_view(&self) -> PivotRequestView {
        self@
    }
}

/// The row limit of a request that names none.
pub fn default_limit() -> (limit: u32)
    ensures
        limit == 100,
{
    100
}

impl Default for PivotRequest {
    fn default() -> (request: PivotRequest)
        ensures
            request@ == (PivotRequestView {
                dimensions: Seq::empty(),
                metrics: Seq::empty(),
                filters: PivotFiltersView::unconstrained(),
                sort: None,
                limit: 100,
                offset: 0,
                cache_bypass: false,
            }),
    {
        PivotRequest {
            dimensions: Vec::new(),
            metrics: Vec::new(),
            filters: PivotFilters::default(),
            sort: None,
            limit: default_limit(),
            offset: 0,
            cache_bypass: false,
        }
    }
}

/// The filters of the instrument listing.
#[derive(Debug, Clone)]
pub struct InstrumentsQuery {
    pub asset_class: Option<String>,
    pub instrument_type: Option<String>,
}

impl Default for InstrumentsQuery {
    fn default() -> (query: InstrumentsQuery)
        ensures
            query.asset_class is None,
            query.instrument_type is None,
    {
        InstrumentsQuery { asset_class: None, instrument_type: None }
    }
}

/// The filters of the constituent listing.
#[derive(Debug, Clone)]
pub struct ConstituentsQuery {
    pub parent_symbol: Option<String>,
    pub constituent_symbol: Option<String>,
}

impl Default for ConstituentsQuery {
    fn default() -> (query: ConstituentsQuery)
        ensures
            query.parent_symbol is None,
            query.constituent_symbol is None,
    {
        ConstituentsQuery { parent_symbol: None, constituent_symbol: None }
    }
}

/// Which trades count towards an exposure.
#[derive(Debug, Clone, Copy, PartialEq, Eq, Structural)]
pub enum ExposureView {
    TopLevel,
    LookThrough,
    All,
}

impl Default for ExposureView {
    fn default() -> (view: ExposureView)
        ensures
            view == ExposureView::TopLevel,
    {
        ExposureView::TopLevel
    }
}

/// An exposure aggregation over one grouping column for one trade date.
#[derive(Debug, Clone)]
pub struct ExposureQuery {
    pub trade_date: String,
    pub group_by: String,
    pub view: ExposureView,
    pub cache_bypass: bool,
}

pub struct ExposureQueryView {
    pub trade_date: Seq<char>,
    pub group_by: Seq<char>,
    pub view: ExposureView,
    pub cache_bypass: bool,
}

impl View for ExposureQuery {
    type V = ExposureQueryView;

    open spec fn view(&self) -> ExposureQueryView {
        ExposureQueryView {
            trade_date: self.trade_date@,
            group_by: self.group_by@,
            view: self.view,
            cache_bypass: self.cache_bypass,
        }
    }
}

/// The grouping column of an exposure query that names none.
pub fn default_group_by() -> (column: String)
    ensures
        column@ == "asset_class"@,
{
    "asset_class".to_owned()
}

/// A profit-and-loss aggregation over a comma-separated list of grouping columns.
#[derive(Debug, Clone)]
pub struct PnlQuery {
    pub trade_date: String,
    pub group_by: String,
    pub cache_bypass: bool,
}

pub struct PnlQueryView {
    pub trade_date: Seq<char>,
    pub group_by: Seq<char>,
    pub cache_bypass: bool,
}

impl View for PnlQuery {
    type V = PnlQueryView;

    open spec fn view(&self) -> PnlQueryView {
        PnlQueryView {
            trade_date: self.trade_date@,
            group_by: self.group_by@,
            cache_bypass: self.cache_bypass,
        }
    }
}

/// The grouping column of a profit-and-loss query that names none.
pub fn default_pnl_group_by() -> (column: String)
    ensures
        column@ == "portfolio_manager_id"@,
{
    "portfolio_manager_id".to_owned()
}

} // verus!
