//! The reference instruments of the synthetic data set.

use vstd::prelude::*;

verus! {

/// One instrument of the data set. A composite instrument, a fund that holds others, is
/// flagged with 1, every other with 0.
#[derive(Debug, Clone, PartialEq, Eq)]
pub struct Instrument {
    pub symbol: String,
    pub name: String,
    pub asset_class: String,
    pub instrument_type: String,
    pub currency: String,
    pub exchange: String,
    pub sector: String,
    pub is_composite: u8,
}

pub struct InstrumentView {
    pub symbol: Seq<char>,
    pub name: Seq<char>,
    pub asset_class: Seq<char>,
    pub instrument_type: Seq<char>,
    pub currency: Seq<char>,
    pub exchange: Seq<char>,
    pub sector: Seq<char>,
    pub is_composite: u8,
}

impl View for Instrument {
    type V = InstrumentView;

    open spec fn view(&self) -> InstrumentView {
        InstrumentView {
            symbol: self.symbol@,
            name: self.name@,
            asset_class: self.asset_class@,
            instrument_type: self.instrument_type@,
            currency: self.currency@,
            exchange: self.exchange@,
            sector: self.sector@,
            is_composite: self.is_composite,
        }
    }
}

impl DeepView for Instrument {
    type V = InstrumentView;

    open spec fn deep_view(&self) -> InstrumentView {
        self@
    }
}

pub open spec fn entry(
    symbol: Seq<char>,
    name: Seq<char>,
    asset_class: Seq<char>,
    instrument_type: Seq<char>,
    currency: Seq<char>,
    exchange: Seq<char>,
    sector: Seq<char>,
    is_composite: u8,
) -> InstrumentView {
    InstrumentView {
        symbol,
        name,
        asset_class,
        instrument_type,
        currency,
        exchange,
        sector,
        is_composite,
    }
}

/// The instruments: single stocks, commodities, and the funds that hold them.
pub open spec fn catalogue() -> Seq<InstrumentView> {
    seq![
        entry("AAPL"@, "Apple Inc"@, "Equity"@, "Stock"@, "USD"@, "NASDAQ"@, "Technology"@, 0),
        entry("MSFT"@, "Microsoft Corp"@, "Equity"@, "Stock"@, "USD"@, "NASDAQ"@, "Technology"@, 0),
        entry("GOOGL"@, "Alphabet Inc"@, "Equity"@, "Stock"@, "USD"@, "NASDAQ"@, "Technology"@, 0),
        entry("AMZN"@, "Amazon.com Inc"@, "Equity"@, "Stock"@, "USD"@, "NASDAQ"@, "Consumer"@, 0),
        entry("META"@, "Meta Platforms Inc"@, "Equity"@, "Stock"@, "USD"@, "NASDAQ"@, "Technology"@, 0),
        entry("NVDA"@, "NVIDIA Corp"@, "Equity"@, "Stock"@, "USD"@, "NASDAQ"@, "Technology"@, 0),
        entry("TSLA"@, "Tesla Inc"@, "Equity"@, "Stock"@, "USD"@, "NASDAQ"@, "Consumer"@, 0),
        entry("JPM"@, "JPMorgan Chase"@, "Equity"@, "Stock"@, "USD"@, "NYSE"@, "Financials"@, 0),
        entry("V"@, "Visa Inc"@, "Equity"@, "Stock"@, "USD"@, "NYSE"@, "Financials"@, 0),
        entry("JNJ"@, "Johnson & Johnson"@, "Equity"@, "Stock"@, "USD"@, "NYSE"@, "Healthcare"@, 0),
        entry("WMT"@, "Walmart Inc"@, "Equity"@, "Stock"@, "USD"@, "NYSE"@, "Consumer"@, 0),
        entry("XOM"@, "Exxon Mobil"@, "Equity"@, "Stock"@, "USD"@, "NYSE"@, "Energy"@, 0),
        entry("BAC"@, "Bank of America"@, "Equity"@, "Stock"@, "USD"@, "NYSE"@, "Financials"@, 0),
        entry("PG"@, "Procter & Gamble"@, "Equity"@, "Stock"@, "USD"@, "NYSE"@, "Consumer"@, 0),
        entry("HD"@, "Home Depot"@, "Equity"@, "Stock"@, "USD"@, "NYSE"@, "Consumer"@, 0),
        entry("GOLD"@, "Gold Spot"@, "Commodity"@, "Commodity"@, "USD"@, "COMEX"@, "Precious Metals"@, 0),
        entry("SILVER"@, "Silver Spot"@, "Commodity"@, "Commodity"@, "USD"@, "COMEX"@, "Precious Metals"@, 0),
        entry("PLAT"@, "Platinum Spot"@, "Commodity"@, "Commodity"@, "USD"@, "COMEX"@, "Precious Metals"@, 0),
        entry("COPPER"@, "Copper"@, "Commodity"@, "Commodity"@, "USD"@, "COMEX"@, "Industrial Metals"@, 0),
        entry("CRUDEOIL"@, "Crude Oil WTI"@, "Commodity"@, "Commodity"@, "USD"@, "NYMEX"@, "Energy"@, 0),
        entry("NATGAS"@, "Natural Gas"@, "Commodity"@, "Commodity"@, "USD"@, "NYMEX"@, "Energy"@, 0),
        entry("SPY"@, "SPDR S&P 500 ETF"@, "Equity"@, "ETF"@, "USD"@, "NYSE"@, "Broad Market"@, 1),
        entry("QQQ"@, "Invesco QQQ Trust"@, "Equity"@, "ETF"@, "USD"@, "NASDAQ"@, "Technology"@, 1),
        entry("XLF"@, "Financial Select SPDR"@, "Equity"@, "ETF"@, "USD"@, "NYSE"@, "Financials"@, 1),
        entry("XLE"@, "Energy Select SPDR"@, "Equity"@, "ETF"@, "USD"@, "NYSE"@, "Energy"@, 1),
        entry("GLD"@, "SPDR Gold Shares"@, "Commodity"@, "ETC"@, "USD"@, "NYSE"@, "Precious Metals"@, 1),
        entry("SLV"@, "iShares Silver Trust"@, "Commodity"@, "ETC"@, "USD"@, "NYSE"@, "Precious Metals"@, 1),
        entry("USO"@, "United States Oil Fund"@, "Commodity"@, "ETC"@, "USD"@, "NYSE"@, "Energy"@, 1),
        entry("PMET"@, "Precious Metals Basket ETC"@, "Commodity"@, "ETC"@, "USD"@, "NYSE"@, "Precious Metals"@, 1),
    ]
}

fn instrument(
    symbol: &str,
    name: &str,
    asset_class: &str,
    instrument_type: &str,
    currency: &str,
    exchange: &str,
    sector: &str,
    is_composite: u8,
) -> (made: Instrument)
    ensures
        made@ == entry(
            symbol@,
            name@,
            asset_class@,
            instrument_type@,
            currency@,
            exchange@,
            sector@,
            is_composite,
        ),
{
    Instrument {
        symbol: symbol.to_owned(),
        name: name.to_owned(),
        asset_class: asset_class.to_owned(),
        instrument_type: instrument_type.to_owned(),
        currency: currency.to_owned(),
        exchange: exchange.to_owned(),
        sector: sector.to_owned(),
        is_composite,
    }
}

/// Builds the instruments, in the order of the catalogue.
pub fn build_instruments() -> (instruments: Vec<Instrument>)
    ensures
        instruments.deep_view() == catalogue(),
{
    let mut instruments: Vec<Instrument> = Vec::new();
    instruments.push(instrument("AAPL", "Apple Inc", "Equity", "Stock", "USD", "NASDAQ", "Technology", 0));
    instruments.push(instrument("MSFT", "Microsoft Corp", "Equity", "Stock", "USD", "NASDAQ", "Technology", 0));
    instruments.push(instrument("GOOGL", "Alphabet Inc", "Equity", "Stock", "USD", "NASDAQ", "Technology", 0));
    instruments.push(instrument("AMZN", "Amazon.com Inc", "Equity", "Stock", "USD", "NASDAQ", "Consumer", 0));
    instruments.push(instrument("META", "Meta Platforms Inc", "Equity", "Stock", "USD", "NASDAQ", "Technology", 0));
    instruments.push(instrument("NVDA", "NVIDIA Corp", "Equity", "Stock", "USD", "NASDAQ", "Technology", 0));
    instruments.push(instrument("TSLA", "Tesla Inc", "Equity", "Stock", "USD", "NASDAQ", "Consumer", 0));
    instruments.push(instrument("JPM", "JPMorgan Chase", "Equity", "Stock", "USD", "NYSE", "Financials", 0));
    instruments.push(instrument("V", "Visa Inc", "Equity", "Stock", "USD", "NYSE", "Financials", 0));
    instruments.push(instrument("JNJ", "Johnson & Johnson", "Equity", "Stock", "USD", "NYSE", "Healthcare", 0));
    instruments.push(instrument("WMT", "Walmart Inc", "Equity", "Stock", "USD", "NYSE", "Consumer", 0));
    instruments.push(instrument("XOM", "Exxon Mobil", "Equity", "Stock", "USD", "NYSE", "Energy", 0));
    instruments.push(instrument("BAC", "Bank of America", "Equity", "Stock", "USD", "NYSE", "Financials", 0));
    instruments.push(instrument("PG", "Procter & Gamble", "Equity", "Stock", "USD", "NYSE", "Consumer", 0));
    instruments.push(instrument("HD", "Home Depot", "Equity", "Stock", "USD", "NYSE", "Consumer", 0));
    instruments.push(instrument("GOLD", "Gold Spot", "Commodity", "Commodity", "USD", "COMEX", "Precious Metals", 0));
    instruments.push(instrument("SILVER", "Silver Spot", "Commodity", "Commodity", "USD", "COMEX", "Precious Metals", 0));
    instruments.push(instrument("PLAT", "Platinum Spot", "Commodity", "Commodity", "USD", "COMEX", "Precious Metals", 0));
    instruments.push(instrument("COPPER", "Copper", "Commodity", "Commodity", "USD", "COMEX", "Industrial Metals", 0));
    instruments.push(instrument("CRUDEOIL", "Crude Oil WTI", "Commodity", "Commodity", "USD", "NYMEX", "Energy", 0));
    instruments.push(instrument("NATGAS", "Natural Gas", "Commodity", "Commodity", "USD", "NYMEX", "Energy", 0));
    instruments.push(instrument("SPY", "SPDR S&P 500 ETF", "Equity", "ETF", "USD", "NYSE", "Broad Market", 1));
    instruments.push(instrument("QQQ", "Invesco QQQ Trust", "Equity", "ETF", "USD", "NASDAQ", "Technology", 1));
    instruments.push(instrument("XLF", "Financial Select SPDR", "Equity", "ETF", "USD", "NYSE", "Financials", 1));
    instruments.push(instrument("XLE", "Energy Select SPDR", "Equity", "ETF", "USD", "NYSE", "Energy", 1));
    instruments.push(instrument("GLD", "SPDR Gold Shares", "Commodity", "ETC", "USD", "NYSE", "Precious Metals", 1));
    instruments.push(instrument("SLV", "iShares Silver Trust", "Commodity", "ETC", "USD", "NYSE", "Precious Metals", 1));
    instruments.push(instrument("USO", "United States Oil Fund", "Commodity", "ETC", "USD", "NYSE", "Energy", 1));
    instruments.push(instrument("PMET", "Precious Metals Basket ETC", "Commodity", "ETC", "USD", "NYSE", "Precious Metals", 1));
    proof {
        assert(instruments.deep_view() =~= catalogue());
    }
    instruments
}

} // verus!
