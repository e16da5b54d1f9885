//! The response model: rows as they are handed out, and what is known of how they came about.

use vstd::prelude::*;

verus! {

/// A double-precision number, held by its bit pattern. The library moves such numbers and
/// never computes with them.
#[derive(Debug, Clone, Copy, PartialEq, Eq)]
pub struct Real {
    pub bits: u64,
}

impl Real {
    /// Positive zero.
    pub fn zero() -> (zero: Real)
        ensures
            zero.bits == 0,
    {
        Real { bits: 0 }
    }
}

/// A JSON number by what it is as an unsigned integer, as a signed integer and as a double,
/// where it is one.
#[derive(Debug, Clone, Copy, PartialEq, Eq)]
pub struct Number {
    pub unsigned: Option<u64>,
    pub signed: Option<i64>,
    pub real: Option<Real>,
}

/// The value of a metric: a double, or a signed integer that is yet to be made one.
#[derive(Debug, Clone, Copy, PartialEq, Eq)]
pub enum MetricValue {
    Real(Real),
    Integer(i64),
}

impl DeepView for MetricValue {
    type V = MetricValue;

    open spec fn deep_view(&self) -> MetricValue {
        *self
    }
}

/// A number as it is written: without sign and fraction, with a sign, or as a double.
#[derive(Debug, Clone, Copy, PartialEq, Eq)]
pub enum Numeral {
    Unsigned(u64),
    Signed(i64),
    Real(Real),
}

impl Number {
    /// How a number is written out again: as the unsigned integer that it is, else as the
    /// signed integer that it is, else as the double that it is. So an integer stays an
    /// integer.
    pub open spec fn written(self) -> Option<Numeral> {
        match self.unsigned {
            Some(value) => Some(Numeral::Unsigned(value)),
            None => match self.signed {
                Some(value) => Some(Numeral::Signed(value)),
                None => match self.real {
                    Some(value) => Some(Numeral::Real(value)),
                    None => None,
                },
            },
        }
    }

    pub fn numeral(&self) -> (numeral: Option<Numeral>)
        ensures
            numeral == self.written(),
    {
        match self.unsigned {
            Some(value) => Some(Numeral::Unsigned(value)),
            None => match self.signed {
                Some(value) => Some(Numeral::Signed(value)),
                None => match self.real {
                    Some(value) => Some(Numeral::Real(value)),
                    None => None,
                },
            },
        }
    }

    /// How a number is read as a metric: as the double that it is, else as the signed
    /// integer that it is, else not at all.
    pub open spec fn metric_reading(self) -> Option<MetricValue> {
        match self.real {
            Some(value) => Some(MetricValue::Real(value)),
            None => match self.signed {
                Some(value) => Some(MetricValue::Integer(value)),
                None => None,
            },
        }
    }

    pub fn as_metric(&self) -> (reading: Option<MetricValue>)
        ensures
            reading == self.metric_reading(),
    {
        match self.real {
            Some(value) => Some(MetricValue::Real(value)),
            None => match self.signed {
                Some(value) => Some(MetricValue::Integer(value)),
                None => None,
            },
        }
    }
}

/// One value of a result row.
#[derive(Debug, Clone, PartialEq, Eq)]
pub enum CellValue {
    Null,
    Bool(bool),
    Number(Number),
    Text(String),
    /// An array or an object, as its JSON text.
    Nested(String),
}

pub enum CellView {
    Null,
    Bool(bool),
    Number(Number),
    Text(Seq<char>),
    Nested(Seq<char>),
}

impl View for CellValue {
    type V = CellView;

    open spec fn view(&self) -> CellView {
        match self {
            CellValue::Null => CellView::Null,
            CellValue::Bool(flag) => CellView::Bool(*flag),
            CellValue::Number(number) => CellView::Number(*number),
            CellValue::Text(text) => CellView::Text(text@),
            CellValue::Nested(json) => CellView::Nested(json@),
        }
    }
}

impl DeepView for CellValue {
    type V = CellView;

    open spec fn deep_view(&self) -> CellView {
        self@
    }
}

impl CellValue {
    pub fn duplicate(&self) -> (copy: CellValue)
        ensures
            copy@ == self@,
    {
        match self {
            CellValue::Null => CellValue::Null,
            CellValue::Bool(flag) => CellValue::Bool(*flag),
            CellValue::Number(number) => CellValue::Number(*number),
            CellValue::Text(text) => CellValue::Text(text.clone()),
            CellValue::Nested(json) => CellValue::Nested(json.clone()),
        }
    }
}

/// A row as the executor hands it out: column names with their values.
pub type Cells = Vec<(String, CellValue)>;

/// The view of a row.
pub type CellsView = Seq<(Seq<char>, CellView)>;

/// Row counts, latency and provenance of a response.
#[derive(Debug, Clone, Copy, PartialEq, Eq)]
pub struct QueryMetadata {
    pub total_rows: u64,
    pub returned_rows: usize,
    pub query_time_ms: u64,
    pub cached: bool,
}

impl QueryMetadata {
    /// The metadata of a response that was computed just now from `rows` rows.
    pub fn fresh(rows: usize, elapsed_ms: u64) -> (metadata: QueryMetadata)
        ensures
            metadata == (QueryMetadata {
                total_rows: rows as u64,
                returned_rows: rows,
                query_time_ms: elapsed_ms,
                cached: false,
            }),
    {
        QueryMetadata {
            total_rows: rows as u64,
            returned_rows: rows,
            query_time_ms: elapsed_ms,
            cached: false,
        }
    }

    /// The metadata of a response that is served from the cache: the row counts are what
    /// was cached, the latency is that of this request.
    pub open spec fn as_served(self, elapsed_ms: u64) -> QueryMetadata {
        QueryMetadata {
            total_rows: self.total_rows,
            returned_rows: self.returned_rows,
            query_time_ms: elapsed_ms,
            cached: true,
        }
    }

    pub fn served_from_cache(self, elapsed_ms: u64) -> (metadata: QueryMetadata)
        ensures
            metadata == self.as_served(elapsed_ms),
    {
        QueryMetadata {
            total_rows: self.total_rows,
            returned_rows: self.returned_rows,
            query_time_ms: elapsed_ms,
            cached: true,
        }
    }
}

/// A response that can be kept in the cache and served from it.
pub trait Cacheable: Sized {
    /// What a cached response becomes when it is served `elapsed_ms` into a later request.
    spec fn as_served(self, elapsed_ms: u64) -> Self;

    fn served_from_cache(self, elapsed_ms: u64) -> (served: Self)
        ensures
            served == self.as_served(elapsed_ms),
    ;
}

/// One result row, parted into what it is grouped by and what was aggregated.
#[derive(Debug, Clone, PartialEq, Eq)]
pub struct PivotRow {
    pub dimensions: Vec<(String, CellValue)>,
    pub metrics: Vec<(String, MetricValue)>,
}

pub struct PivotRowView {
    pub dimensions: CellsView,
    pub metrics: Seq<(Seq<char>, MetricValue)>,
}

impl View for PivotRow {
    type V = PivotRowView;

    open spec fn view(&self) -> PivotRowView {
        PivotRowView {
            dimensions: self.dimensions.deep_view(),
            metrics: self.metrics.deep_view(),
        }
    }
}

impl DeepView for PivotRow {
    type V = PivotRowView;

    open spec fn deep_view(&self) -> PivotRowView {
        self@
    }
}

#[derive(Debug, Clone, PartialEq, Eq)]
pub struct PivotResponse {
    pub data: Vec<PivotRow>,
    pub metadata: QueryMetadata,
}

impl Cacheable for PivotResponse {
    open spec fn as_served(self, elapsed_ms: u64) -> PivotResponse {
        PivotResponse { data: self.data, metadata: self.metadata.as_served(elapsed_ms) }
    }

    fn served_from_cache(self, elapsed_ms: u64) -> (served: PivotResponse) {
        PivotResponse { data: self.data, metadata: self.metadata.served_from_cache(elapsed_ms) }
    }
}

/// One row of the profit-and-loss aggregation.
#[derive(Debug, Clone, PartialEq, Eq)]
pub struct PnlRow {
    pub groups: Vec<(String, CellValue)>,
    pub total_pnl: Real,
    pub total_notional: Real,
    pub trade_count: u64,
}

pub struct PnlRowView {
    pub groups: CellsView,
    pub total_pnl: Real,
    pub total_notional: Real,
    pub trade_count: u64,
}

impl View for PnlRow {
    type V = PnlRowView;

    open spec fn view(&self) -> PnlRowView {
        PnlRowView {
            groups: self.groups.deep_view(),
            total_pnl: self.total_pnl,
            total_notional: self.total_notional,
            trade_count: self.trade_count,
        }
    }
}

impl DeepView for PnlRow {
    type V = PnlRowView;

    open spec fn deep_view(&self) -> PnlRowView {
        self@
    }
}

#[derive(Debug, Clone, PartialEq, Eq)]
pub struct PnlResponse {
    pub data: Vec<PnlRow>,
    pub metadata: QueryMetadata,
}

impl Cacheable for PnlResponse {
    open spec fn as_served(self, elapsed_ms: u64) -> PnlResponse {
        PnlResponse { data: self.data, metadata: self.metadata.as_served(elapsed_ms) }
    }

    fn served_from_cache(self, elapsed_ms: u64) -> (served: PnlResponse) {
        PnlResponse { data: self.data, metadata: self.metadata.served_from_cache(elapsed_ms) }
    }
}

/// One row of the exposure aggregation.
#[derive(Debug, Clone, PartialEq, Eq)]
pub struct ExposureRow {
    pub group: String,
    pub total_notional: Real,
    pub total_pnl: Real,
    pub trade_count: u64,
}

#[derive(Debug, Clone, PartialEq, Eq)]
pub struct ExposureResponse {
    pub data: Vec<ExposureRow>,
    pub metadata: QueryMetadata,
}

impl Cacheable for ExposureResponse {
    open spec fn as_served(self, elapsed_ms: u64) -> ExposureResponse {
        ExposureResponse { data: self.data, metadata: self.metadata.as_served(elapsed_ms) }
    }

    fn served_from_cache(self, elapsed_ms: u64) -> (served: ExposureResponse) {
        ExposureResponse {
            data: self.data,
            metadata: self.metadata.served_from_cache(elapsed_ms),
        }
    }
}

/// One tradable instrument of the reference data.
#[derive(Debug, Clone, PartialEq, Eq)]
pub struct Instrument {
    pub symbol: String,
    pub name: String,
    pub asset_class: String,
    pub instrument_type: String,
    pub currency: String,
    pub exchange: String,
    pub sector: String,
    pub is_composite: bool,
}

/// The instrument listing.
#[derive(Debug, Clone, PartialEq, Eq)]
pub struct InstrumentsResponse {
    pub instruments: Vec<Instrument>,
    pub count: usize,
    pub metadata: QueryMetadata,
}

impl Cacheable for InstrumentsResponse {
    open spec fn as_served(self, elapsed_ms: u64) -> InstrumentsResponse {
        InstrumentsResponse {
            instruments: self.instruments,
            count: self.count,
            metadata: self.metadata.as_served(elapsed_ms),
        }
    }

    fn served_from_cache(self, elapsed_ms: u64) -> (served: InstrumentsResponse) {
        InstrumentsResponse {
            instruments: self.instruments,
            count: self.count,
            metadata: self.metadata.served_from_cache(elapsed_ms),
        }
    }
}

/// One holding of a composite instrument.
#[derive(Debug, Clone, PartialEq, Eq)]
pub struct Constituent {
    pub parent_symbol: String,
    pub constituent_symbol: String,
    pub weight: Real,
    pub shares_per_unit: Real,
    pub effective_date: String,
}

/// The constituent listing.
#[derive(Debug, Clone, PartialEq, Eq)]
pub struct ConstituentsResponse {
    pub constituents: Vec<Constituent>,
    pub count: usize,
    pub metadata: QueryMetadata,
}

impl Cacheable for ConstituentsResponse {
    open spec fn as_served(self, elapsed_ms: u64) -> ConstituentsResponse {
        ConstituentsResponse {
            constituents: self.constituents,
            count: self.count,
            metadata: self.metadata.as_served(elapsed_ms),
        }
    }

    fn served_from_cache(self, elapsed_ms: u64) -> (served: ConstituentsResponse) {
        ConstituentsResponse {
            constituents: self.constituents,
            count: self.count,
            metadata: self.metadata.served_from_cache(elapsed_ms),
        }
    }
}

} // verus!
