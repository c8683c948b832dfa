use finql::currency::Currency;
use finql::error::DataError;
use finql::lookup::{MemoryQuoteStore, QuoteLookup};
use finql::quote::Quote;
use finql::rational::Rational;

fn usd() -> Currency {
    Currency::new([b'U', b'S', b'D'])
}

fn eur() -> Currency {
    Currency::new([b'E', b'U', b'R'])
}

fn quote_at(price: Rational, time: i64) -> Quote {
    Quote {
        id: None,
        ticker: 0,
        price,
        time,
        volume: None,
    }
}

#[test]
fn empty_store_lookup_is_not_found() {
    let store = MemoryQuoteStore::new();
    let r = store.get_last_quote_before(&usd(), 10);
    assert!(matches!(r, Err(DataError::NotFound(_))));
}

#[test]
fn lookup_returns_most_recent_eligible_quote() {
    let mut store = MemoryQuoteStore::new();
    store.add_quote(usd(), quote_at(Rational::new(1, 1), 1), eur());
    store.add_quote(usd(), quote_at(Rational::new(2, 1), 5), eur());
    store.add_quote(usd(), quote_at(Rational::new(9, 1), 50), eur());
    let (quote, denom) = store.get_last_quote_before(&usd(), 10).unwrap();
    assert_eq!(quote.price, Rational::new(2, 1));
    assert_eq!(quote.time, 5);
    assert!(denom.same(&eur()));
}

#[test]
fn lookup_boundary_is_inclusive() {
    let mut store = MemoryQuoteStore::new();
    store.add_quote(usd(), quote_at(Rational::new(7, 2), 100), eur());
    let (quote, _) = store.get_last_quote_before(&usd(), 100).unwrap();
    assert_eq!(quote.time, 100);
}

#[test]
fn lookup_ignores_other_series() {
    let mut store = MemoryQuoteStore::new();
    store.add_quote(eur(), quote_at(Rational::new(7, 2), 1), usd());
    let r = store.get_last_quote_before(&usd(), 10);
    assert!(matches!(r, Err(DataError::NotFound(_))));
}
