//! The error type that the library's operations report.
use vstd::prelude::*;

verus! {

/// What went wrong in an operation of the library.
#[derive(Debug)]
pub enum StockrsError {
    /// A failure with no more specific kind.
    General { message: String },
    /// The balance of an account could not be read.
    BalanceInquiry { reason: String },
    /// The operation is not available in the given phase or mode.
    UnsupportedFeature { feature: String, phase: String },
    /// A value could not be read from its textual form.
    Parsing { data_type: String, reason: String },
    /// A setting or an order breaks a rule.
    Validation { message: String },
    /// The prediction step could not produce a result.
    Prediction { message: String },
    /// A brokerage call failed.
    Api { message: String },
}

/// The result of an operation of the library.
pub type StockrsResult<T> = Result<T, StockrsError>;

} // verus!
