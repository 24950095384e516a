pub mod config;
pub mod laws;
pub mod numeral;
pub mod opts;
