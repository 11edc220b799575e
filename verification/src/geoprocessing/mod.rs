//! Geoprocessing service: job states, task parameters, task requests and
//! the polling schedule of asynchronous jobs.

pub mod types;
pub mod parameters;
pub mod client;
