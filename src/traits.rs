use vstd::prelude::*;
use crate::error::IndicatorError;

verus! {

/// The interface of every indicator, over input samples `T` and outputs `O`.
///
/// `calculate` treats its argument as the whole history: it starts from a
/// fresh state and yields, in order, the outputs that feeding each sample to
/// `next` would have produced. `next` consumes one sample and yields `None`
/// until the warm-up window is full, then `Some` on every call. `reset`
/// returns the state to that of a newly constructed indicator.
pub trait Indicator<T, O> {
    fn calculate(&mut self, data: &[T]) -> Result<Vec<O>, IndicatorError>;

    fn next(&mut self, value: T) -> Result<Option<O>, IndicatorError>;

    fn reset(&mut self);
}

} // verus!
