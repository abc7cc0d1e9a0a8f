//! Core of a long-running telemetry recorder: per-output tick scheduling,
//! the settling rule that gates rendering, the latest-record store and the
//! decisions each output makes before it touches a file or a database.

pub mod config;
pub mod csv_generator;
pub mod error;
pub mod field;
pub mod live_data_text_generator;
pub mod packet_id;
pub mod png_generator;
pub mod recorder;
pub mod settling;
pub mod snapshot;
pub mod sqlite_logger;
pub mod text;
pub mod tick_source;
pub mod timestamp_file_writer;
