//! Grouping dimensions: a closed set of symbols, each bound to one physical column.

use crate::text::{ends, same_text};
use vstd::prelude::*;

verus! {

/// A categorical grouping column that a request may select.
#[derive(Debug, Clone, Copy, PartialEq, Eq, Hash, Structural)]
pub enum Dimension {
    TradeDate,
    PortfolioManagerId,
    FundId,
    PortfolioId,
    AccountId,
    Desk,
    Book,
    Strategy,
    Region,
    Country,
    Venue,
    AssetClass,
    Product,
    InstrumentType,
    Symbol,
    UnderlyingSymbol,
    ParentSymbol,
    ExposureType,
    Currency,
    Counterparty,
    RiskBucket,
    Scenario,
}

impl Dimension {
    /// The physical column expression of the dimension.
    pub open spec fn column(self) -> Seq<char> {
        match self {
            Dimension::TradeDate => "trade_date"@,
            Dimension::PortfolioManagerId => "portfolio_manager_id"@,
            Dimension::FundId => "fund_id"@,
            Dimension::PortfolioId => "portfolio_id"@,
            Dimension::AccountId => "account_id"@,
            Dimension::Desk => "desk"@,
            Dimension::Book => "book"@,
            Dimension::Strategy => "strategy"@,
            Dimension::Region => "region"@,
            Dimension::Country => "country"@,
            Dimension::Venue => "venue"@,
            Dimension::AssetClass => "asset_class"@,
            Dimension::Product => "product"@,
            Dimension::InstrumentType => "instrument_type"@,
            Dimension::Symbol => "symbol"@,
            Dimension::UnderlyingSymbol => "underlying_symbol"@,
            Dimension::ParentSymbol => "parent_symbol"@,
            Dimension::ExposureType => "exposure_type"@,
            Dimension::Currency => "currency"@,
            Dimension::Counterparty => "counterparty"@,
            Dimension::RiskBucket => "risk_bucket"@,
            Dimension::Scenario => "scenario"@,
        }
    }

    /// Every dimension, in declaration order.
    pub open spec fn catalogue() -> Seq<Dimension> {
        seq![
            Dimension::TradeDate,
            Dimension::PortfolioManagerId,
            Dimension::FundId,
            Dimension::PortfolioId,
            Dimension::AccountId,
            Dimension::Desk,
            Dimension::Book,
            Dimension::Strategy,
            Dimension::Region,
            Dimension::Country,
            Dimension::Venue,
            Dimension::AssetClass,
            Dimension::Product,
            Dimension::InstrumentType,
            Dimension::Symbol,
            Dimension::UnderlyingSymbol,
            Dimension::ParentSymbol,
            Dimension::ExposureType,
            Dimension::Currency,
            Dimension::Counterparty,
            Dimension::RiskBucket,
            Dimension::Scenario,
        ]
    }

    pub fn to_column(&self) -> (column: &'static str)
        ensures
            column@ == self.column(),
    {
        match self {
            Dimension::TradeDate => "trade_date",
            Dimension::PortfolioManagerId => "portfolio_manager_id",
            Dimension::FundId => "fund_id",
            Dimension::PortfolioId => "portfolio_id",
            Dimension::AccountId => "account_id",
            Dimension::Desk => "desk",
            Dimension::Book => "book",
            Dimension::Strategy => "strategy",
            Dimension::Region => "region",
            Dimension::Country => "country",
            Dimension::Venue => "venue",
            Dimension::AssetClass => "asset_class",
            Dimension::Product => "product",
            Dimension::InstrumentType => "instrument_type",
            Dimension::Symbol => "symbol",
            Dimension::UnderlyingSymbol => "underlying_symbol",
            Dimension::ParentSymbol => "parent_symbol",
            Dimension::ExposureType => "exposure_type",
            Dimension::Currency => "currency",
            Dimension::Counterparty => "counterparty",
            Dimension::RiskBucket => "risk_bucket",
            Dimension::Scenario => "scenario",
        }
    }

    /// The dimension that a request names, if it names one.
    pub fn from_name(name: &str) -> (found: Option<Dimension>)
        ensures
            match found {
                Some(dimension) => dimension.column() == name@,
                None => forall|dimension: Dimension| dimension.column() != name@,
            },
    {
        let all = Dimension::all();
        let mut i: usize = 0;
        while i < all.len()
            invariant
                i <= all.len(),
                all@ == Dimension::catalogue(),
                forall|j: int| 0 <= j < i ==> (#[trigger] all@[j]).column() != name@,
            decreases all.len() - i,
        {
            if same_text(all[i].to_column(), name) {
                return Some(all[i]);
            }
            i += 1;
        }
        proof {
            assert forall|dimension: Dimension| dimension.column() != name@ by {
                lemma_catalogue_complete(dimension);
                let k = choose|k: int|
                    0 <= k < Dimension::catalogue().len() && Dimension::catalogue()[k]
                        == dimension;
                assert(all@[k].column() != name@);
            }
        }
        None
    }

    pub fn all() -> (dimensions: &'static [Dimension])
        ensures
            dimensions@ == Dimension::catalogue(),
    {
        &[
            Dimension::TradeDate,
            Dimension::PortfolioManagerId,
            Dimension::FundId,
            Dimension::PortfolioId,
            Dimension::AccountId,
            Dimension::Desk,
            Dimension::Book,
            Dimension::Strategy,
            Dimension::Region,
            Dimension::Country,
            Dimension::Venue,
            Dimension::AssetClass,
            Dimension::Product,
            Dimension::InstrumentType,
            Dimension::Symbol,
            Dimension::UnderlyingSymbol,
            Dimension::ParentSymbol,
            Dimension::ExposureType,
            Dimension::Currency,
            Dimension::Counterparty,
            Dimension::RiskBucket,
            Dimension::Scenario,
        ]
    }
}

/// The catalogue is complete: every dimension is in it.
pub proof fn lemma_catalogue_complete(item: Dimension)
    ensures
        Dimension::catalogue().contains(item),
{
    match item {
        Dimension::TradeDate => {
            assert(Dimension::catalogue()[0] == item);
        },
        Dimension::PortfolioManagerId => {
            assert(Dimension::catalogue()[1] == item);
        },
        Dimension::FundId => {
            assert(Dimension::catalogue()[2] == item);
        },
        Dimension::PortfolioId => {
            assert(Dimension::catalogue()[3] == item);
        },
        Dimension::AccountId => {
            assert(Dimension::catalogue()[4] == item);
        },
        Dimension::Desk => {
            assert(Dimension::catalogue()[5] == item);
        },
        Dimension::Book => {
            assert(Dimension::catalogue()[6] == item);
        },
        Dimension::Strategy => {
            assert(Dimension::catalogue()[7] == item);
        },
        Dimension::Region => {
            assert(Dimension::catalogue()[8] == item);
        },
        Dimension::Country => {
            assert(Dimension::catalogue()[9] == item);
        },
        Dimension::Venue => {
            assert(Dimension::catalogue()[10] == item);
        },
        Dimension::AssetClass => {
            assert(Dimension::catalogue()[11] == item);
        },
        Dimension::Product => {
            assert(Dimension::catalogue()[12] == item);
        },
        Dimension::InstrumentType => {
            assert(Dimension::catalogue()[13] == item);
        },
        Dimension::Symbol => {
            assert(Dimension::catalogue()[14] == item);
        },
        Dimension::UnderlyingSymbol => {
            assert(Dimension::catalogue()[15] == item);
        },
        Dimension::ParentSymbol => {
            assert(Dimension::catalogue()[16] == item);
        },
        Dimension::ExposureType => {
            assert(Dimension::catalogue()[17] == item);
        },
        Dimension::Currency => {
            assert(Dimension::catalogue()[18] == item);
        },
        Dimension::Counterparty => {
            assert(Dimension::catalogue()[19] == item);
        },
        Dimension::RiskBucket => {
            assert(Dimension::catalogue()[20] == item);
        },
        Dimension::Scenario => {
            assert(Dimension::catalogue()[21] == item);
        },
    }
}

/// The length, the first and the last character of each column.
spec fn column_ends(dimension: Dimension) -> (nat, char, char) {
    match dimension {
        Dimension::TradeDate => (10nat, 't', 'e'),
        Dimension::PortfolioManagerId => (20nat, 'p', 'd'),
        Dimension::FundId => (7nat, 'f', 'd'),
        Dimension::PortfolioId => (12nat, 'p', 'd'),
        Dimension::AccountId => (10nat, 'a', 'd'),
        Dimension::Desk => (4nat, 'd', 'k'),
        Dimension::Book => (4nat, 'b', 'k'),
        Dimension::Strategy => (8nat, 's', 'y'),
        Dimension::Region => (6nat, 'r', 'n'),
        Dimension::Country => (7nat, 'c', 'y'),
        Dimension::Venue => (5nat, 'v', 'e'),
        Dimension::AssetClass => (11nat, 'a', 's'),
        Dimension::Product => (7nat, 'p', 't'),
        Dimension::InstrumentType => (15nat, 'i', 'e'),
        Dimension::Symbol => (6nat, 's', 'l'),
        Dimension::UnderlyingSymbol => (17nat, 'u', 'l'),
        Dimension::ParentSymbol => (13nat, 'p', 'l'),
        Dimension::ExposureType => (13nat, 'e', 'e'),
        Dimension::Currency => (8nat, 'c', 'y'),
        Dimension::Counterparty => (12nat, 'c', 'y'),
        Dimension::RiskBucket => (11nat, 'r', 't'),
        Dimension::Scenario => (8nat, 's', 'o'),
    }
}

proof fn lemma_column_ends(dimension: Dimension)
    ensures
        ends(dimension.column()) == column_ends(dimension),
{
    reveal_strlit("trade_date");
    reveal_strlit("portfolio_manager_id");
    reveal_strlit("fund_id");
    reveal_strlit("portfolio_id");
    reveal_strlit("account_id");
    reveal_strlit("desk");
    reveal_strlit("book");
    reveal_strlit("strategy");
    reveal_strlit("region");
    reveal_strlit("country");
    reveal_strlit("venue");
    reveal_strlit("asset_class");
    reveal_strlit("product");
    reveal_strlit("instrument_type");
    reveal_strlit("symbol");
    reveal_strlit("underlying_symbol");
    reveal_strlit("parent_symbol");
    reveal_strlit("exposure_type");
    reveal_strlit("currency");
    reveal_strlit("counterparty");
    reveal_strlit("risk_bucket");
    reveal_strlit("scenario");
}

/// No two dimensions share a column: the column of a selection tells which dimension was
/// selected.
pub proof fn lemma_columns_distinct(a: Dimension, b: Dimension)
    requires
        a.column() == b.column(),
    ensures
        a == b,
{
    lemma_column_ends(a);
    lemma_column_ends(b);
}

} // verus!
