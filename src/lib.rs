//! Technical-analysis indicator engine: the indicator interface, the error
//! taxonomy, parameter and data-length validation, the bounded sliding window
//! behind the windowed indicators, the warm-up counter behind the smoothed
//! ones, and the series alignment used by composite indicators, together with
//! the laws that relate their batch and streaming use.

pub mod error;
pub mod series;
pub mod text;
pub mod traits;
pub mod utils;
pub mod warmup;
pub mod window;

pub use error::IndicatorError;
pub use traits::Indicator;
pub use utils::{validate_data_length, validate_period};
pub use warmup::WarmUp;
pub use window::RollingWindow;
