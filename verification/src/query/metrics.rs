//! Aggregated metrics: a closed set of symbols, each bound to one aggregation and one alias.

use crate::text::{ends, same_text};
use vstd::prelude::*;

verus! {

/// A numeric aggregation over a fact column that a request may select.
#[derive(Debug, Clone, Copy, PartialEq, Eq, Hash, Structural)]
pub enum Metric {
    Quantity,
    Notional,
    Pnl,
    Price,
    Delta,
    Gamma,
    Vega,
    Theta,
    Rho,
    Margin,
    Fees,
    Slippage,
    Exposure,
    TradeCount,
}

impl Metric {
    /// The aggregation expression of the metric.
    pub open spec fn aggregation(self) -> Seq<char> {
        match self {
            Metric::Quantity => "sum(quantity)"@,
            Metric::Notional => "sum(notional)"@,
            Metric::Pnl => "sum(pnl)"@,
            Metric::Price => "avg(price)"@,
            Metric::Delta => "sum(delta)"@,
            Metric::Gamma => "sum(gamma)"@,
            Metric::Vega => "sum(vega)"@,
            Metric::Theta => "sum(theta)"@,
            Metric::Rho => "sum(rho)"@,
            Metric::Margin => "sum(margin)"@,
            Metric::Fees => "sum(fees)"@,
            Metric::Slippage => "sum(slippage)"@,
            Metric::Exposure => "sum(exposure)"@,
            Metric::TradeCount => "count()"@,
        }
    }

    /// The name under which the aggregate appears in the query and in the result rows.
    pub open spec fn output_alias(self) -> Seq<char> {
        match self {
            Metric::Quantity => "total_quantity"@,
            Metric::Notional => "total_notional"@,
            Metric::Pnl => "total_pnl"@,
            Metric::Price => "avg_price"@,
            Metric::Delta => "total_delta"@,
            Metric::Gamma => "total_gamma"@,
            Metric::Vega => "total_vega"@,
            Metric::Theta => "total_theta"@,
            Metric::Rho => "total_rho"@,
            Metric::Margin => "total_margin"@,
            Metric::Fees => "total_fees"@,
            Metric::Slippage => "total_slippage"@,
            Metric::Exposure => "total_exposure"@,
            Metric::TradeCount => "trade_count"@,
        }
    }

    /// The symbol by which a request names the metric.
    pub open spec fn symbol(self) -> Seq<char> {
        match self {
            Metric::Quantity => "quantity"@,
            Metric::Notional => "notional"@,
            Metric::Pnl => "pnl"@,
            Metric::Price => "price"@,
            Metric::Delta => "delta"@,
            Metric::Gamma => "gamma"@,
            Metric::Vega => "vega"@,
            Metric::Theta => "theta"@,
            Metric::Rho => "rho"@,
            Metric::Margin => "margin"@,
            Metric::Fees => "fees"@,
            Metric::Slippage => "slippage"@,
            Metric::Exposure => "exposure"@,
            Metric::TradeCount => "trade_count"@,
        }
    }

    /// Every metric, in declaration order.
    pub open spec fn catalogue() -> Seq<Metric> {
        seq![
            Metric::Quantity,
            Metric::Notional,
            Metric::Pnl,
            Metric::Price,
            Metric::Delta,
            Metric::Gamma,
            Metric::Vega,
            Metric::Theta,
            Metric::Rho,
            Metric::Margin,
            Metric::Fees,
            Metric::Slippage,
            Metric::Exposure,
            Metric::TradeCount,
        ]
    }

    pub fn to_aggregation(&self) -> (expression: &'static str)
        ensures
            expression@ == self.aggregation(),
    {
        match self {
            Metric::Quantity => "sum(quantity)",
            Metric::Notional => "sum(notional)",
            Metric::Pnl => "sum(pnl)",
            Metric::Price => "avg(price)",
            Metric::Delta => "sum(delta)",
            Metric::Gamma => "sum(gamma)",
            Metric::Vega => "sum(vega)",
            Metric::Theta => "sum(theta)",
            Metric::Rho => "sum(rho)",
            Metric::Margin => "sum(margin)",
            Metric::Fees => "sum(fees)",
            Metric::Slippage => "sum(slippage)",
            Metric::Exposure => "sum(exposure)",
            Metric::TradeCount => "count()",
        }
    }

    pub fn alias(&self) -> (name: &'static str)
        ensures
            name@ == self.output_alias(),
    {
        match self {
            Metric::Quantity => "total_quantity",
            Metric::Notional => "total_notional",
            Metric::Pnl => "total_pnl",
            Metric::Price => "avg_price",
            Metric::Delta => "total_delta",
            Metric::Gamma => "total_gamma",
            Metric::Vega => "total_vega",
            Metric::Theta => "total_theta",
            Metric::Rho => "total_rho",
            Metric::Margin => "total_margin",
            Metric::Fees => "total_fees",
            Metric::Slippage => "total_slippage",
            Metric::Exposure => "total_exposure",
            Metric::TradeCount => "trade_count",
        }
    }

    pub fn name(&self) -> (symbol: &'static str)
        ensures
            symbol@ == self.symbol(),
    {
        match self {
            Metric::Quantity => "quantity",
            Metric::Notional => "notional",
            Metric::Pnl => "pnl",
            Metric::Price => "price",
            Metric::Delta => "delta",
            Metric::Gamma => "gamma",
            Metric::Vega => "vega",
            Metric::Theta => "theta",
            Metric::Rho => "rho",
            Metric::Margin => "margin",
            Metric::Fees => "fees",
            Metric::Slippage => "slippage",
            Metric::Exposure => "exposure",
            Metric::TradeCount => "trade_count",
        }
    }

    /// The metric that a request names, if it names one.
    pub fn from_name(name: &str) -> (found: Option<Metric>)
        ensures
            match found {
                Some(metric) => metric.symbol() == name@,
                None => forall|metric: Metric| metric.symbol() != name@,
            },
    {
        let all = Metric::all();
        let mut i: usize = 0;
        while i < all.len()
            invariant
                i <= all.len(),
                all@ == Metric::catalogue(),
                forall|j: int| 0 <= j < i ==> (#[trigger] all@[j]).symbol() != name@,
            decreases all.len() - i,
        {
            if same_text(all[i].name(), name) {
                return Some(all[i]);
            }
            i += 1;
        }
        proof {
            assert forall|metric: Metric| metric.symbol() != name@ by {
                lemma_catalogue_complete(metric);
                let k = choose|k: int|
                    0 <= k < Metric::catalogue().len() && Metric::catalogue()[k] == metric;
                assert(all@[k].symbol() != name@);
            }
        }
        None
    }

    pub fn all() -> (metrics: &'static [Metric])
        ensures
            metrics@ == Metric::catalogue(),
    {
        &[
            Metric::Quantity,
            Metric::Notional,
            Metric::Pnl,
            Metric::Price,
            Metric::Delta,
            Metric::Gamma,
            Metric::Vega,
            Metric::Theta,
            Metric::Rho,
            Metric::Margin,
            Metric::Fees,
            Metric::Slippage,
            Metric::Exposure,
            Metric::TradeCount,
        ]
    }
}

/// The catalogue is complete: every metric is in it.
pub proof fn lemma_catalogue_complete(item: Metric)
    ensures
        Metric::catalogue().contains(item),
{
    match item {
        Metric::Quantity => {
            assert(Metric::catalogue()[0] == item);
        },
        Metric::Notional => {
            assert(Metric::catalogue()[1] == item);
        },
        Metric::Pnl => {
            assert(Metric::catalogue()[2] == item);
        },
        Metric::Price => {
            assert(Metric::catalogue()[3] == item);
        },
        Metric::Delta => {
            assert(Metric::catalogue()[4] == item);
        },
        Metric::Gamma => {
            assert(Metric::catalogue()[5] == item);
        },
        Metric::Vega => {
            assert(Metric::catalogue()[6] == item);
        },
        Metric::Theta => {
            assert(Metric::catalogue()[7] == item);
        },
        Metric::Rho => {
            assert(Metric::catalogue()[8] == item);
        },
        Metric::Margin => {
            assert(Metric::catalogue()[9] == item);
        },
        Metric::Fees => {
            assert(Metric::catalogue()[10] == item);
        },
        Metric::Slippage => {
            assert(Metric::catalogue()[11] == item);
        },
        Metric::Exposure => {
            assert(Metric::catalogue()[12] == item);
        },
        Metric::TradeCount => {
            assert(Metric::catalogue()[13] == item);
        },
    }
}

/// The length, the first and the last character of each symbol.
spec fn symbol_ends(metric: Metric) -> (nat, char, char) {
    match metric {
        Metric::Quantity => (8nat, 'q', 'y'),
        Metric::Notional => (8nat, 'n', 'l'),
        Metric::Pnl => (3nat, 'p', 'l'),
        Metric::Price => (5nat, 'p', 'e'),
        Metric::Delta => (5nat, 'd', 'a'),
        Metric::Gamma => (5nat, 'g', 'a'),
        Metric::Vega => (4nat, 'v', 'a'),
        Metric::Theta => (5nat, 't', 'a'),
        Metric::Rho => (3nat, 'r', 'o'),
        Metric::Margin => (6nat, 'm', 'n'),
        Metric::Fees => (4nat, 'f', 's'),
        Metric::Slippage => (8nat, 's', 'e'),
        Metric::Exposure => (8nat, 'e', 'e'),
        Metric::TradeCount => (11nat, 't', 't'),
    }
}

proof fn lemma_symbol_ends(metric: Metric)
    ensures
        ends(metric.symbol()) == symbol_ends(metric),
{
    reveal_strlit("quantity");
    reveal_strlit("notional");
    reveal_strlit("pnl");
    reveal_strlit("price");
    reveal_strlit("delta");
    reveal_strlit("gamma");
    reveal_strlit("vega");
    reveal_strlit("theta");
    reveal_strlit("rho");
    reveal_strlit("margin");
    reveal_strlit("fees");
    reveal_strlit("slippage");
    reveal_strlit("exposure");
    reveal_strlit("trade_count");
}

/// No two metrics share a symbol: the symbol in a request tells which metric is meant.
pub proof fn lemma_symbols_distinct(a: Metric, b: Metric)
    requires
        a.symbol() == b.symbol(),
    ensures
        a == b,
{
    lemma_symbol_ends(a);
    lemma_symbol_ends(b);
}

/// The length of a name with its last character and the last but two.
pub open spec fn tail(name: Seq<char>) -> (nat, char, char) {
    (name.len(), name[name.len() - 1], name[name.len() - 3])
}

/// The length, the last character and the last but two of each alias.
spec fn alias_tail(metric: Metric) -> (nat, char, char) {
    match metric {
        Metric::Quantity => (14nat, 'y', 'i'),
        Metric::Notional => (14nat, 'l', 'n'),
        Metric::Pnl => (9nat, 'l', 'p'),
        Metric::Price => (9nat, 'e', 'i'),
        Metric::Delta => (11nat, 'a', 'l'),
        Metric::Gamma => (11nat, 'a', 'm'),
        Metric::Vega => (10nat, 'a', 'e'),
        Metric::Theta => (11nat, 'a', 'e'),
        Metric::Rho => (9nat, 'o', 'r'),
        Metric::Margin => (12nat, 'n', 'g'),
        Metric::Fees => (10nat, 's', 'e'),
        Metric::Slippage => (14nat, 'e', 'a'),
        Metric::Exposure => (14nat, 'e', 'u'),
        Metric::TradeCount => (11nat, 't', 'u'),
    }
}

proof fn lemma_alias_tail(metric: Metric)
    ensures
        tail(metric.output_alias()) == alias_tail(metric),
{
    reveal_strlit("total_quantity");
    reveal_strlit("total_notional");
    reveal_strlit("total_pnl");
    reveal_strlit("avg_price");
    reveal_strlit("total_delta");
    reveal_strlit("total_gamma");
    reveal_strlit("total_vega");
    reveal_strlit("total_theta");
    reveal_strlit("total_rho");
    reveal_strlit("total_margin");
    reveal_strlit("total_fees");
    reveal_strlit("total_slippage");
    reveal_strlit("total_exposure");
    reveal_strlit("trade_count");
}

/// No two metrics share an alias: the name of a result column tells which metric it holds.
pub proof fn lemma_aliases_distinct(a: Metric, b: Metric)
    requires
        a.output_alias() == b.output_alias(),
    ensures
        a == b,
{
    lemma_alias_tail(a);
    lemma_alias_tail(b);
}

} // verus!
