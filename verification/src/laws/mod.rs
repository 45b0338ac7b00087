//! What holds of the library as a whole.
pub mod addresses;
pub mod bodies;
pub mod endpoints;
pub mod exchanges;
pub mod records;
pub mod redaction;
pub mod settings;
pub mod text;
pub mod views;
