//! Smart-meter telemetry: planning the daily retrieval of stored records,
//! building typed tables from them, and laying out three-panel charts.
//!
//! - `clock`: moments with a fixed offset, Tokyo time, RFC 3339 text.
//! - `numbers`: decimal cells read as integers and fixed-point readings.
//! - `record`: stored records and their tagged attribute values.
//! - `table`: the seven-column table built from a batch of records.
//! - `window`: one-day windows covering the stored time span.
//! - `retrieval`: the retrieval run's decisions and its pacing.
//! - `chart`: series, axis ranges and the shapes of each chart panel.
pub mod chart;
pub mod clock;
pub mod numbers;
pub mod record;
pub mod retrieval;
pub mod table;
pub mod window;
