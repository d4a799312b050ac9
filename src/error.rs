use vstd::prelude::*;
use crate::text::join;

verus! {

/// The three ways an indicator operation can fail.
#[derive(Debug, Clone, PartialEq, Eq)]
pub enum IndicatorError {
    /// A construction parameter is out of range (a period below its
    /// minimum, a non-positive multiplier, inconsistent periods).
    InvalidParameter(String),
    /// The input is shorter than the indicator's minimum length.
    InsufficientData(String),
    /// Degenerate arithmetic on the data (a zero divisor).
    CalculationError(String),
}

/// The prefix that the rendered text of each kind of error starts with.
pub open spec fn error_prefix(e: IndicatorError) -> Seq<char> {
    match e {
        IndicatorError::InvalidParameter(_) => "Invalid parameter: "@,
        IndicatorError::InsufficientData(_) => "Insufficient data: "@,
        IndicatorError::CalculationError(_) => "Calculation error: "@,
    }
}

/// The detail message carried by an error.
pub open spec fn error_detail(e: IndicatorError) -> Seq<char> {
    match e {
        IndicatorError::InvalidParameter(m) => m@,
        IndicatorError::InsufficientData(m) => m@,
        IndicatorError::CalculationError(m) => m@,
    }
}

impl IndicatorError {
    /// The human-readable text of the error: its kind, then its detail.
    pub fn to_string(&self) -> (r: String)
        ensures
            r@ == error_prefix(*self) + error_detail(*self),
    {
        match self {
            IndicatorError::InvalidParameter(m) => join("Invalid parameter: ", m.as_str()),
            IndicatorError::InsufficientData(m) => join("Insufficient data: ", m.as_str()),
            IndicatorError::CalculationError(m) => join("Calculation error: ", m.as_str()),
        }
    }

    /// The detail message, without the kind.
    pub fn message(&self) -> (r: &String)
        ensures
            r@ == error_detail(*self),
    {
        match self {
            IndicatorError::InvalidParameter(m) => m,
            IndicatorError::InsufficientData(m) => m,
            IndicatorError::CalculationError(m) => m,
        }
    }
}

} // verus!
