//! The typed rows of the listing and exposure queries.

use crate::models::response::Real;
use vstd::prelude::*;

verus! {

/// One row of the instrument table.
#[derive(Debug, Clone, PartialEq, Eq)]
pub struct InstrumentRow {
    pub symbol: String,
    pub name: String,
    pub asset_class: String,
    pub instrument_type: String,
    pub currency: String,
    pub exchange: String,
    pub sector: String,
    pub is_composite: bool,
}

/// One row of the constituent table.
#[derive(Debug, Clone, PartialEq, Eq)]
pub struct ConstituentRow {
    pub parent_symbol: String,
    pub constituent_symbol: String,
    pub weight: Real,
    pub shares_per_unit: Real,
    pub effective_date: String,
}

/// One row of the exposure aggregation.
#[derive(Debug, Clone, PartialEq, Eq)]
pub struct ExposureDbRow {
    pub group_value: String,
    pub total_notional: Real,
    pub total_pnl: Real,
    pub trade_count: u64,
}

/// The truth value of a flag that the database stores as a small integer: zero is false,
/// everything else is true.
pub fn deserialize_bool(value: u8) -> (flag: bool)
    ensures
        flag == (value != 0),
{
    value != 0
}

} // verus!
