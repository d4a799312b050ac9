use vstd::prelude::*;
use crate::error::{error_detail, IndicatorError};
use crate::text::{decimal, decimal_string, join};

verus! {

/// The detail message of a period below its minimum.
pub open spec fn period_message(min_period: nat) -> Seq<char> {
    "Period must be greater than or equal to "@ + decimal(min_period)
}

/// The detail message of an input shorter than its minimum length.
pub open spec fn length_message(min_length: nat) -> Seq<char> {
    "Input data length must be at least "@ + decimal(min_length)
}

/// Accepts `period` when it is at least `min_period`.
pub fn validate_period(period: usize, min_period: usize) -> (r: Result<(), IndicatorError>)
    ensures
        r is Ok <==> period >= min_period,
        r is Err ==> r->Err_0 is InvalidParameter && error_detail(r->Err_0) == period_message(
            min_period as nat,
        ),
{
    if period < min_period {
        let msg = join("Period must be greater than or equal to ", decimal_string(min_period).as_str());
        return Err(IndicatorError::InvalidParameter(msg));
    }
    Ok(())
}

/// Accepts `data` when it holds at least `min_length` samples.
pub fn validate_data_length<T>(data: &[T], min_length: usize) -> (r: Result<(), IndicatorError>)
    ensures
        r is Ok <==> data@.len() >= min_length,
        r is Err ==> r->Err_0 is InsufficientData && error_detail(r->Err_0) == length_message(
            min_length as nat,
        ),
{
    if data.len() < min_length {
        let msg = join("Input data length must be at least ", decimal_string(min_length).as_str());
        return Err(IndicatorError::InsufficientData(msg));
    }
    Ok(())
}

} // verus!
