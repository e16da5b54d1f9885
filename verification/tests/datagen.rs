use pivot_api::datagen::{build_instruments, Instrument};

#[test]
fn catalogue_holds_stocks_commodities_and_funds() {
    let instruments = build_instruments();
    assert_eq!(instruments.len(), 29);
    assert_eq!(
        instruments[0],
        Instrument {
            symbol: "AAPL".to_string(),
            name: "Apple Inc".to_string(),
            asset_class: "Equity".to_string(),
            instrument_type: "Stock".to_string(),
            currency: "USD".to_string(),
            exchange: "NASDAQ".to_string(),
            sector: "Technology".to_string(),
            is_composite: 0,
        }
    );
    assert_eq!(
        instruments[28],
        Instrument {
            symbol: "PMET".to_string(),
            name: "Precious Metals Basket ETC".to_string(),
            asset_class: "Commodity".to_string(),
            instrument_type: "ETC".to_string(),
            currency: "USD".to_string(),
            exchange: "NYSE".to_string(),
            sector: "Precious Metals".to_string(),
            is_composite: 1,
        }
    );
    for instrument in &instruments {
        let fund = instrument.instrument_type == "ETF" || instrument.instrument_type == "ETC";
        assert_eq!(instrument.is_composite == 1, fund);
        assert!(instrument.is_composite <= 1);
        assert_eq!(instrument.currency, "USD");
    }
    let mut symbols: Vec<&str> = instruments.iter().map(|i| i.symbol.as_str()).collect();
    symbols.sort();
    symbols.dedup();
    assert_eq!(symbols.len(), 29);
    for symbol in ["SPY", "GLD", "AAPL", "GOLD"] {
        assert!(symbols.contains(&symbol));
    }
}
