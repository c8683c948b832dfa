use vstd::prelude::*;

use crate::currency::Currency;
use crate::error::CurrencyError;
use crate::lookup::{eligible, has_eligible, is_latest, QuoteLookup, QuoteRecord};
use crate::rational::{rational_one, spec_recip, Rational};

verus! {

/// A direct quote resolves the pair: some most recent quote of the foreign
/// series is denominated in the domestic currency, and the rate is its
/// price.
pub open spec fn direct_quote(
    qs: Seq<QuoteRecord>,
    foreign: Currency,
    domestic: Currency,
    time: i64,
    rate: Rational,
) -> bool {
    exists|i: int|
        #[trigger] is_latest(qs, foreign, time, i) && qs[i].denom@ == domestic@ && rate
            == qs[i].quote.price
}

/// A reverse quote resolves the pair: some most recent quote of the
/// domestic series is denominated in the foreign currency, and the rate is
/// the reciprocal of its price.
pub open spec fn reverse_quote(
    qs: Seq<QuoteRecord>,
    foreign: Currency,
    domestic: Currency,
    time: i64,
    rate: Rational,
) -> bool {
    exists|i: int|
        #[trigger] is_latest(qs, domestic, time, i) && qs[i].denom@ == foreign@ && rate
            == spec_recip(qs[i].quote.price)
}

/// The foreign leg may fail to resolve: the foreign series has no eligible
/// quote, or some most recent quote of it is denominated in something other
/// than the domestic currency.  (With several equally recent quotes, which
/// one the lookup returns is not determined, so "may".)
pub open spec fn foreign_leg_may_fail(
    qs: Seq<QuoteRecord>,
    foreign: Currency,
    domestic: Currency,
    time: i64,
) -> bool {
    ||| !has_eligible(qs, foreign, time)
    ||| exists|i: int| #[trigger] is_latest(qs, foreign, time, i) && qs[i].denom@ != domestic@
}

/// The domestic leg may fail to resolve: the domestic series has no
/// eligible quote, or some most recent quote of it is denominated in
/// something other than the foreign currency.
pub open spec fn domestic_leg_may_fail(
    qs: Seq<QuoteRecord>,
    foreign: Currency,
    domestic: Currency,
    time: i64,
) -> bool {
    ||| !has_eligible(qs, domestic, time)
    ||| exists|i: int| #[trigger] is_latest(qs, domestic, time, i) && qs[i].denom@ != foreign@
}

/// Everything the contract of [`fx_rate`] states of a result `r` for the
/// given store contents and query.
///
/// - A rate of one comes back exactly when the two currencies are equal.
/// - A direct quote's price is returned as it stands; a reverse quote is
///   returned as a reciprocal, and only after the foreign leg failed to
///   resolve — the foreign-as-subject series is tried first.
/// - The conversion fails only when each leg in turn failed to resolve.
pub open spec fn fx_rate_post(
    qs: Seq<QuoteRecord>,
    foreign: Currency,
    domestic: Currency,
    time: i64,
    r: Result<Rational, CurrencyError>,
) -> bool {
    match r {
        Ok(rate) => {
            ||| (foreign@ == domestic@ && rate == rational_one())
            ||| (foreign@ != domestic@ && direct_quote(qs, foreign, domestic, time, rate))
            ||| (foreign@ != domestic@ && foreign_leg_may_fail(qs, foreign, domestic, time)
                && reverse_quote(qs, foreign, domestic, time, rate))
        },
        Err(e) => {
            &&& e == CurrencyError::ConversionFailed
            &&& foreign@ != domestic@
            &&& foreign_leg_may_fail(qs, foreign, domestic, time)
            &&& domestic_leg_may_fail(qs, foreign, domestic, time)
        },
    }
}

/// The rate such that one unit of `foreign` equals `rate` units of
/// `domestic` at `time`, resolved from stored quotes, or
/// [`CurrencyError::ConversionFailed`].
///
/// Equal currencies convert at one, with no lookup performed.  Otherwise
/// the series named by the foreign currency's code is tried first: if its
/// most recent quote at or before `time` is denominated in the domestic
/// currency, that price is the rate.  Failing that, the series named by
/// the domestic currency's code is tried: if its most recent quote is
/// denominated in the foreign currency, the rate is the reciprocal of that
/// price.  No more than two lookups are performed and no triangulation
/// through a third currency is attempted.
pub fn fx_rate<S: QuoteLookup>(
    store: &S,
    foreign: &Currency,
    domestic: &Currency,
    time: i64,
) -> (r: Result<Rational, CurrencyError>)
    requires
        store.inv(),
    ensures
        fx_rate_post(store.quotes(), *foreign, *domestic, time, r),
{
    if foreign.same(domestic) {
        return Ok(Rational::one());
    }
    match store.get_last_quote_before(foreign, time) {
        Ok((fx_quote, quote_currency)) => {
            if quote_currency.same(domestic) {
                return Ok(fx_quote.price);
            }
        },
        Err(_) => {},
    }
    match store.get_last_quote_before(domestic, time) {
        Ok((fx_quote, quote_currency)) => {
            if quote_currency.same(foreign) {
                return Ok(fx_quote.price.recip());
            }
        },
        Err(_) => {},
    }
    Err(CurrencyError::ConversionFailed)
}

/// Law: for equal currencies the contract of [`fx_rate`] admits exactly
/// the rate one, whatever the store holds — no quote is consulted.
pub proof fn lemma_identity_rate(
    qs: Seq<QuoteRecord>,
    foreign: Currency,
    domestic: Currency,
    time: i64,
    r: Result<Rational, CurrencyError>,
)
    requires
        foreign@ == domestic@,
        fx_rate_post(qs, foreign, domestic, time, r),
    ensures
        r == Result::<Rational, CurrencyError>::Ok(rational_one()),
{
}

/// Law: with exactly one eligible quote for the foreign series, denominated
/// in the domestic currency, the contract of [`fx_rate`] forces its price
/// as the rate, whatever the domestic series holds.
pub proof fn lemma_direct_quote_resolution(
    qs: Seq<QuoteRecord>,
    foreign: Currency,
    domestic: Currency,
    time: i64,
    i: int,
    r: Result<Rational, CurrencyError>,
)
    requires
        foreign@ != domestic@,
        0 <= i < qs.len(),
        eligible(qs[i], foreign, time),
        forall|j: int| 0 <= j < qs.len() && eligible(#[trigger] qs[j], foreign, time) ==> j == i,
        qs[i].denom@ == domestic@,
        fx_rate_post(qs, foreign, domestic, time, r),
    ensures
        r == Result::<Rational, CurrencyError>::Ok(qs[i].quote.price),
{
    assert(is_latest(qs, foreign, time, i));
    assert(!foreign_leg_may_fail(qs, foreign, domestic, time)) by {
        assert(has_eligible(qs, foreign, time));
        if exists|j: int| #[trigger] is_latest(qs, foreign, time, j) && qs[j].denom@ != domestic@ {
            let j = choose|j: int| #[trigger] is_latest(qs, foreign, time, j) && qs[j].denom@
                != domestic@;
            assert(eligible(qs[j], foreign, time));
            assert(j == i);
        }
    }
    match r {
        Ok(rate) => {
            let j = choose|j: int| #[trigger] is_latest(qs, foreign, time, j) && qs[j].denom@
                == domestic@ && rate == qs[j].quote.price;
            assert(eligible(qs[j], foreign, time));
            assert(j == i);
        },
        Err(_) => {
            assert(false);
        },
    }
}

/// Law: with no eligible quote for the foreign series, and exactly one
/// eligible quote for the domestic series, denominated in the foreign
/// currency, the contract of [`fx_rate`] forces the reciprocal of that
/// quote's price as the rate.
pub proof fn lemma_reverse_quote_resolution(
    qs: Seq<QuoteRecord>,
    foreign: Currency,
    domestic: Currency,
    time: i64,
    i: int,
    r: Result<Rational, CurrencyError>,
)
    requires
        foreign@ != domestic@,
        forall|j: int| 0 <= j < qs.len() ==> !eligible(#[trigger] qs[j], foreign, time),
        0 <= i < qs.len(),
        eligible(qs[i], domestic, time),
        forall|j: int| 0 <= j < qs.len() && eligible(#[trigger] qs[j], domestic, time) ==> j == i,
        qs[i].denom@ == foreign@,
        fx_rate_post(qs, foreign, domestic, time, r),
    ensures
        r == Result::<Rational, CurrencyError>::Ok(spec_recip(qs[i].quote.price)),
{
    assert(is_latest(qs, domestic, time, i));
    assert(!has_eligible(qs, foreign, time));
    assert(!domestic_leg_may_fail(qs, foreign, domestic, time)) by {
        assert(has_eligible(qs, domestic, time));
        if exists|j: int| #[trigger] is_latest(qs, domestic, time, j) && qs[j].denom@ != foreign@ {
            let j = choose|j: int| #[trigger] is_latest(qs, domestic, time, j) && qs[j].denom@
                != foreign@;
            assert(eligible(qs[j], domestic, time));
            assert(j == i);
        }
    }
    match r {
        Ok(rate) => {
            if direct_quote(qs, foreign, domestic, time, rate) {
                let j = choose|j: int| #[trigger] is_latest(qs, foreign, time, j) && qs[j].denom@
                    == domestic@ && rate == qs[j].quote.price;
                assert(eligible(qs[j], foreign, time));
                assert(false);
            }
            let j = choose|j: int| #[trigger] is_latest(qs, domestic, time, j) && qs[j].denom@
                == foreign@ && rate == spec_recip(qs[j].quote.price);
            assert(eligible(qs[j], domestic, time));
            assert(j == i);
        },
        Err(_) => {
            assert(false);
        },
    }
}

/// Law: when no eligible quote of the foreign series is denominated in the
/// domestic currency and no eligible quote of the domestic series is
/// denominated in the foreign currency — in particular when there are no
/// quotes at all — the contract of [`fx_rate`] forces the conversion to
/// fail.
pub proof fn lemma_no_pairing_fails(
    qs: Seq<QuoteRecord>,
    foreign: Currency,
    domestic: Currency,
    time: i64,
    r: Result<Rational, CurrencyError>,
)
    requires
        foreign@ != domestic@,
        forall|i: int|
            0 <= i < qs.len() && eligible(#[trigger] qs[i], foreign, time) ==> qs[i].denom@
                != domestic@,
        forall|i: int|
            0 <= i < qs.len() && eligible(#[trigger] qs[i], domestic, time) ==> qs[i].denom@
                != foreign@,
        fx_rate_post(qs, foreign, domestic, time, r),
    ensures
        r == Result::<Rational, CurrencyError>::Err(CurrencyError::ConversionFailed),
{
    match r {
        Ok(rate) => {
            if direct_quote(qs, foreign, domestic, time, rate) {
                let j = choose|j: int| #[trigger] is_latest(qs, foreign, time, j) && qs[j].denom@
                    == domestic@ && rate == qs[j].quote.price;
                assert(eligible(qs[j], foreign, time));
            }
            if reverse_quote(qs, foreign, domestic, time, rate) {
                let j = choose|j: int| #[trigger] is_latest(qs, domestic, time, j) && qs[j].denom@
                    == foreign@ && rate == spec_recip(qs[j].quote.price);
                assert(eligible(qs[j], domestic, time));
            }
            assert(false);
        },
        Err(_) => {},
    }
}

} // verus!
