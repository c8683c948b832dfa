use vstd::prelude::*;

use crate::currency::Currency;
use crate::error::DataError;
use crate::quote::Quote;

verus! {

/// One stored observation as the quote lookup sees it: the series it
/// belongs to (an FX series is named by the quoted currency's code), the
/// quote itself, and the currency the quote's price is denominated in.
#[derive(Clone, Copy, Debug)]
pub struct QuoteRecord {
    /// The currency whose quote series this observation belongs to.
    pub series: Currency,
    /// The observation.
    pub quote: Quote,
    /// The currency the observation's price is expressed in.
    pub denom: Currency,
}

/// The observation belongs to the queried series and was observed at or
/// before `time`.  The boundary is inclusive: a quote observed exactly at
/// the query time is a candidate, not excluded as "future".
pub open spec fn eligible(rec: QuoteRecord, series: Currency, time: i64) -> bool {
    rec.series@ == series@ && rec.quote.time <= time
}

/// Some observation of the queried series lies at or before `time`.
pub open spec fn has_eligible(qs: Seq<QuoteRecord>, series: Currency, time: i64) -> bool {
    exists|i: int| 0 <= i < qs.len() && eligible(#[trigger] qs[i], series, time)
}

/// The observation at `i` is eligible and no eligible observation is more
/// recent: it is a "most recent quote at or before `time`".  Several
/// observations may share that most recent time.
pub open spec fn is_latest(qs: Seq<QuoteRecord>, series: Currency, time: i64, i: int) -> bool {
    &&& 0 <= i < qs.len()
    &&& eligible(qs[i], series, time)
    &&& forall|j: int|
        0 <= j < qs.len() && eligible(#[trigger] qs[j], series, time) ==> qs[j].quote.time
            <= qs[i].quote.time
}

/// Law: a quote observed exactly at the query time is a valid candidate
/// (inclusive boundary).
pub proof fn lemma_boundary_inclusive(rec: QuoteRecord, series: Currency)
    requires
        rec.series@ == series@,
    ensures
        eligible(rec, series, rec.quote.time),
{
}

/// The quote lookup a currency converter draws from: a store of price
/// observations queried by series name and timestamp.
pub trait QuoteLookup {
    /// The observations the lookup draws from.
    spec fn quotes(&self) -> Seq<QuoteRecord>;

    /// Store validity: every stored price is a well-formed positive amount.
    spec fn inv(&self) -> bool;

    /// The most recent quote of the given series observed at or before
    /// `time`, together with its denomination currency; fails if the
    /// series has no quote at or before `time`.  With several equally
    /// recent observations, which one is returned is not determined.
    fn get_last_quote_before(&self, series: &Currency, time: i64) -> (r: Result<
        (Quote, Currency),
        DataError,
    >)
        requires
            self.inv(),
        ensures
            match r {
                Ok(found) => exists|i: int|
                    {
                        &&& #[trigger] is_latest(self.quotes(), *series, time, i)
                        &&& found.0 == self.quotes()[i].quote
                        &&& found.1 == self.quotes()[i].denom
                        &&& found.0.price.wf()
                        &&& found.0.price.is_positive()
                    },
                Err(_) => !has_eligible(self.quotes(), *series, time),
            },
    ;
}

/// An in-memory quote store: observations held in insertion order, queried
/// by a linear scan.
pub struct MemoryQuoteStore {
    rows: Vec<QuoteRecord>,
}

impl MemoryQuoteStore {
    pub fn new() -> (s: MemoryQuoteStore)
        ensures
            s.quotes().len() == 0,
            s.inv(),
    {
        MemoryQuoteStore { rows: Vec::new() }
    }

    /// Record one observation.  Prices of market quotes are strictly
    /// positive; the store holds no others, so every stored price has a
    /// reciprocal.
    pub fn add_quote(&mut self, series: Currency, quote: Quote, denom: Currency)
        requires
            old(self).inv(),
            quote.price.wf(),
            quote.price.is_positive(),
        ensures
            final(self).quotes() == old(self).quotes().push((QuoteRecord { series, quote, denom })),
            final(self).inv(),
    {
        self.rows.push(QuoteRecord { series, quote, denom });
    }
}

impl QuoteLookup for MemoryQuoteStore {
    closed spec fn quotes(&self) -> Seq<QuoteRecord> {
        self.rows@
    }

    closed spec fn inv(&self) -> bool {
        forall|i: int|
            0 <= i < self.rows@.len() ==> (#[trigger] self.rows@[i]).quote.price.wf()
                && self.rows@[i].quote.price.is_positive()
    }

    fn get_last_quote_before(&self, series: &Currency, time: i64) -> (r: Result<
        (Quote, Currency),
        DataError,
    >) {
        let n: usize = self.rows.len();
        let mut best: Option<usize> = None;
        let mut k: usize = 0;
        while k < n
            invariant
                n == self.rows@.len(),
                k <= n,
                self.inv(),
                match best {
                    None => forall|j: int|
                        0 <= j < k ==> !eligible(#[trigger] self.rows@[j], *series, time),
                    Some(b) => {
                        &&& b < k
                        &&& eligible(self.rows@[b as int], *series, time)
                        &&& forall|j: int|
                            0 <= j < k && eligible(#[trigger] self.rows@[j], *series, time)
                                ==> self.rows@[j].quote.time <= self.rows@[b as int].quote.time
                    },
                },
            decreases n - k,
        {
            let row = &self.rows[k];
            if row.series.same(series) && row.quote.time <= time {
                best = match best {
                    None => Some(k),
                    Some(b) => if self.rows[b].quote.time < row.quote.time {
                        Some(k)
                    } else {
                        Some(b)
                    },
                };
            }
            k = k + 1;
        }
        match best {
            Some(b) => {
                proof {
                    assert(is_latest(self.quotes(), *series, time, b as int));
                }
                Ok((self.rows[b].quote, self.rows[b].denom))
            },
            None => Err(DataError::NotFound("no quote found at or before the given time".to_string())),
        }
    }
}

} // verus!
