//! Date, time, time-zone and span functions for an SQLite extension built on
//! the `jiff` library: the decisions, name tables and argument handling of
//! each SQL function, with the calls into `jiff` behind trusted wrappers.

pub mod model;
pub mod text;
pub mod sql;
pub mod names;
pub mod jiff_civil;
pub mod jiff_span;
pub mod jiff_zone;
pub mod date;
pub mod time;
pub mod datetime;
pub mod timestamp;
pub mod span;
pub mod zoned;
pub mod vtab;
pub mod series;
pub mod transitions;
pub mod version;

pub use version::{jiff_debug, jiff_version};
