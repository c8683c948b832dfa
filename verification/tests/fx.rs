use finql::converter::fx_rate;
use finql::currency::Currency;
use finql::error::CurrencyError;
use finql::lookup::MemoryQuoteStore;
use finql::quote::Quote;
use finql::rational::Rational;

fn usd() -> Currency {
    Currency::new([b'U', b'S', b'D'])
}

fn eur() -> Currency {
    Currency::new([b'E', b'U', b'R'])
}

fn gbp() -> Currency {
    Currency::new([b'G', b'B', b'P'])
}

fn quote_at(price: Rational, time: i64) -> Quote {
    Quote {
        id: None,
        ticker: 0,
        price,
        time,
        volume: None,
    }
}

#[test]
fn same_currency_rate_is_one() {
    let store = MemoryQuoteStore::new();
    let r = fx_rate(&store, &usd(), &usd(), 5);
    assert_eq!(r, Ok(Rational::new(1, 1)));
}

#[test]
fn same_currency_rate_is_one_with_quotes_stored() {
    let mut store = MemoryQuoteStore::new();
    store.add_quote(eur(), quote_at(Rational::new(7, 3), 1), usd());
    let r = fx_rate(&store, &eur(), &eur(), 5);
    assert_eq!(r, Ok(Rational::new(1, 1)));
}

#[test]
fn direct_quote_returns_price() {
    let mut store = MemoryQuoteStore::new();
    store.add_quote(usd(), quote_at(Rational::new(3, 2), 8), eur());
    let r = fx_rate(&store, &usd(), &eur(), 10);
    assert_eq!(r, Ok(Rational::new(3, 2)));
}

#[test]
fn reverse_quote_returns_reciprocal() {
    let mut store = MemoryQuoteStore::new();
    store.add_quote(eur(), quote_at(Rational::new(4, 5), 7), usd());
    let r = fx_rate(&store, &usd(), &eur(), 10);
    assert_eq!(r, Ok(Rational::new(5, 4)));
}

#[test]
fn no_quotes_conversion_fails() {
    let store = MemoryQuoteStore::new();
    let r = fx_rate(&store, &usd(), &eur(), 10);
    assert_eq!(r, Err(CurrencyError::ConversionFailed));
}

#[test]
fn mismatched_denominations_fail() {
    let mut store = MemoryQuoteStore::new();
    store.add_quote(usd(), quote_at(Rational::new(3, 2), 5), gbp());
    store.add_quote(eur(), quote_at(Rational::new(4, 5), 5), gbp());
    let r = fx_rate(&store, &usd(), &eur(), 10);
    assert_eq!(r, Err(CurrencyError::ConversionFailed));
}

#[test]
fn boundary_quote_exactly_at_query_time_is_eligible() {
    let mut store = MemoryQuoteStore::new();
    store.add_quote(usd(), quote_at(Rational::new(3, 2), 100), eur());
    let r = fx_rate(&store, &usd(), &eur(), 100);
    assert_eq!(r, Ok(Rational::new(3, 2)));
}

#[test]
fn future_quote_is_excluded() {
    let mut store = MemoryQuoteStore::new();
    store.add_quote(usd(), quote_at(Rational::new(3, 2), 101), eur());
    let r = fx_rate(&store, &usd(), &eur(), 100);
    assert_eq!(r, Err(CurrencyError::ConversionFailed));
}

#[test]
fn most_recent_quote_wins() {
    let mut store = MemoryQuoteStore::new();
    store.add_quote(usd(), quote_at(Rational::new(1, 1), 1), eur());
    store.add_quote(usd(), quote_at(Rational::new(2, 1), 5), eur());
    store.add_quote(usd(), quote_at(Rational::new(9, 1), 50), eur());
    let r = fx_rate(&store, &usd(), &eur(), 10);
    assert_eq!(r, Ok(Rational::new(2, 1)));
}

#[test]
fn stale_direct_quote_blocks_direct_leg() {
    // The most recent foreign-series quote is denominated in a third
    // currency, so the direct leg misses even though an older quote in the
    // domestic currency exists; the reverse leg then resolves.
    let mut store = MemoryQuoteStore::new();
    store.add_quote(usd(), quote_at(Rational::new(3, 2), 1), eur());
    store.add_quote(usd(), quote_at(Rational::new(7, 4), 5), gbp());
    store.add_quote(eur(), quote_at(Rational::new(4, 5), 3), usd());
    let r = fx_rate(&store, &usd(), &eur(), 10);
    assert_eq!(r, Ok(Rational::new(5, 4)));
}

#[test]
fn rational_recip_swaps() {
    assert_eq!(Rational::new(3, 2).recip(), Rational::new(2, 3));
}

#[test]
fn rational_one_is_one_over_one() {
    assert_eq!(Rational::one(), Rational::new(1, 1));
}

#[test]
fn currency_same_compares_codes() {
    assert!(usd().same(&usd()));
    assert!(!usd().same(&eur()));
    assert_eq!(usd().bytes(), [b'U', b'S', b'D']);
}
