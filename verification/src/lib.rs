//! A digital tally sheet: money amounts, transactions between user groups,
//! articles with barcodes and the rules that the server and the user
//! interface apply to them.

pub mod backend;
pub mod model;
pub mod models;
pub mod routes;
pub mod text;
