use vstd::prelude::*;

verus! {

/// Failures of the persistence layer and of the entity identity contract.
///
/// Store-level failures (schema or connection errors of a concrete
/// backend) are a separate kind owned by the backend and are not folded
/// into these variants.
#[derive(Debug)]
pub enum DataError {
    /// Identity-contract violation: reading an identifier that has never
    /// been assigned, or assigning an identifier a second time.  A usage
    /// error, surfaced immediately and never retried.
    DataAccessFailure(String),
    /// A lookup found no matching record.
    NotFound(String),
}

/// Failure of the currency converter.
#[derive(Clone, Copy, Debug, PartialEq, Eq, Structural)]
pub enum CurrencyError {
    /// No resolvable FX pairing for the requested currencies and time.
    /// This kind deliberately collapses several root causes — absence of
    /// any quote, a quote with an unexpected denomination, an underlying
    /// lookup error — into one signal.
    ConversionFailed,
}

} // verus!
