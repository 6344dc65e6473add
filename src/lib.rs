//! Value marshalling and statement model for a CQL client exposed to a
//! dynamically typed host.
//!
//! - `value`: typed CQL values, host values, and the codec between them.
//! - `params`: the keyed path that turns named host values into request
//!   parameters.
//! - `options`, `query`, `batch`: consistency levels, execution options,
//!   statements, prepared statements and batches.
//! - `result`: result sets and rows, decoded on access.
//! - `session`: session settings and the parameter sets of a batch.
//! - `error`: failures reported by the driver.
//! - `text`: decimal text of integers.
pub mod batch;
pub mod error;
pub mod options;
pub mod params;
pub mod query;
pub mod result;
pub mod session;
pub mod text;
pub mod value;
