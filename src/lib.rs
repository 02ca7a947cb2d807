//! Host telemetry exposed as tables that a columnar query engine pulls in
//! bounded batches.

pub mod units;
pub mod text;
pub mod table;
pub mod params;
pub mod storage;
pub mod host;
pub mod procs;
pub mod network;
pub mod gpu;
pub mod services;
pub mod registry;
