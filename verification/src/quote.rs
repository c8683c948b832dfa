use vstd::prelude::*;

use crate::currency::Currency;
use crate::data_item::DataItem;
use crate::error::DataError;
use crate::rational::Rational;

verus! {

/// A named price series for an instrument from a specific source.
#[derive(Clone, Debug)]
pub struct Ticker {
    /// Identifier, unassigned until the ticker is persisted.
    pub id: Option<usize>,
    /// Reference to the owning instrument in the backing store.
    pub asset: usize,
    /// Display name; for an FX series, the canonical code of the quoted
    /// currency.
    pub name: String,
    /// The currency the series' prices are denominated in.
    pub currency: Currency,
    /// Name of the source feed.
    pub source: String,
    /// Tie-break among multiple feeds for the same instrument.
    pub priority: i32,
    /// Scaling factor that multiplies a raw price to reach canonical
    /// units; one by default.
    pub factor: Rational,
}

/// One priced observation for a ticker at a point in time.
#[derive(Clone, Copy, Debug)]
pub struct Quote {
    /// Identifier, unassigned until the quote is persisted.
    pub id: Option<usize>,
    /// Reference to the owning ticker in the backing store.
    pub ticker: usize,
    /// Observed price, in the ticker's currency.
    pub price: Rational,
    /// Absolute, timezone-normalized observation time, in seconds.
    pub time: i64,
    /// Traded volume, if the source reports one.
    pub volume: Option<Rational>,
}

impl DataItem for Quote {
    open spec fn spec_id(&self) -> Option<usize> {
        self.id
    }

    fn get_id(&self) -> (r: Result<usize, DataError>) {
        match self.id {
            Some(id) => Ok(id),
            None => Err(
                DataError::DataAccessFailure("tried to get id of temporary quote".to_string()),
            ),
        }
    }

    fn set_id(&mut self, id: usize) -> (r: Result<(), DataError>)
        ensures
            final(self).ticker == old(self).ticker,
            final(self).price == old(self).price,
            final(self).time == old(self).time,
            final(self).volume == old(self).volume,
    {
        match self.id {
            Some(_) => Err(
                DataError::DataAccessFailure("tried to change valid quote id".to_string()),
            ),
            None => {
                self.id = Some(id);
                Ok(())
            },
        }
    }
}

impl DataItem for Ticker {
    open spec fn spec_id(&self) -> Option<usize> {
        self.id
    }

    fn get_id(&self) -> (r: Result<usize, DataError>) {
        match self.id {
            Some(id) => Ok(id),
            None => Err(
                DataError::DataAccessFailure("tried to get id of temporary ticker".to_string()),
            ),
        }
    }

    fn set_id(&mut self, id: usize) -> (r: Result<(), DataError>)
        ensures
            final(self).asset == old(self).asset,
            final(self).name == old(self).name,
            final(self).currency == old(self).currency,
            final(self).source == old(self).source,
            final(self).priority == old(self).priority,
            final(self).factor == old(self).factor,
    {
        match self.id {
            Some(_) => Err(
                DataError::DataAccessFailure("tried to change valid ticker id".to_string()),
            ),
            None => {
                self.id = Some(id);
                Ok(())
            },
        }
    }
}

} // verus!
