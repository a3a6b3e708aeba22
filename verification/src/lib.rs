//! Verified core of the train consist and schedule viewer.
pub mod api;
pub mod archive;
pub mod characteristics;
pub mod bplan;
pub mod cif;
pub mod corpus;
pub mod decimal;
pub mod dedup;
pub mod digest;
pub mod feed;
pub mod gzip;
pub mod lite_schema;
pub mod payload;
pub mod refresh;
pub mod schedule;
pub mod schema;
pub mod text;
