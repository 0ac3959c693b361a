//! Encoders that write a record, a field or a value as text: JSON,
//! comma-separated values, key-value pairs, proto-text, SQL `INSERT`
//! statements and a plain form.
//!
//! - `model`: values, fields, objects and records, with their views.
//! - `text`, `time`: joining, quoting, decimal digits; the calendar text of a
//!   point in time.
//! - `syntax`: an encoder's rules as a table, the text a table gives a
//!   value, and the functions that compute it.
//! - `formatter`: the capabilities an encoder offers.
//! - `raw`, `proto`, `json`, `kv`, `csv`, `sql`: the encoders.
//! - `dispatch`: the choice of an encoder at run time.
//! - `laws`: what holds of every encoder.

pub mod csv;
pub mod dispatch;
pub mod formatter;
pub mod json;
pub mod kv;
pub mod laws;
pub mod model;
pub mod proto;
pub mod raw;
pub mod sql;
pub mod syntax;
pub mod text;
pub mod time;

pub use csv::Csv;
pub use dispatch::{FormatType, SqlFormat, TextFmt};
pub use formatter::{
    DataFormat, RecordFormatter, StaticDataFormatter, ValueFormatter, default_fmt_field,
};
pub use json::Json;
pub use kv::KeyValue;
pub use model::{DataRecord, DataType, FieldStorage, ObjectValue, Value};
pub use proto::ProtoTxt;
pub use raw::Raw;
pub use sql::SqlInsert;
pub use time::Timestamp;
