//! Sensor telemetry ingestion and query pipeline.
//!
//! The library holds the decisions of the pipeline: how upstream pages are
//! walked, how a raw reading becomes a normalized one, when the store is
//! loaded, how a timestamp-range filter is read and how the filtered read
//! query is built. The program around it performs the network and storage
//! work that those decisions ask for.
pub mod config;
pub mod fetch;
pub mod handler;
pub mod ingest;
pub mod logging;
pub mod query;
pub mod range;
pub mod reading;
pub mod text;

pub use config::{load_from_env, Config, ConfigError, ConfigVar};
pub use fetch::{PageBody, Pager};
pub use handler::{ReadingsRequest, Reply, RequestAction, RequestEvent};
pub use ingest::{GateAction, GateEvent, IngestError, IngestGate};
pub use logging::{log_settings, LogSettings, SpanEvents};
pub use query::{build_readings_query, ReadingsQuery, SqlPiece, SqlQuery, SqlValue};
pub use range::{parse_timestamp_range, TimestampRange};
pub use reading::{
    humidity_alert, temperature_alert, F32Bits, RawSensorReading, SensorReading, UtcTimestamp,
};
pub use text::trim_text;
