//! Metadata derivation for Collabeat tokens.
//!
//! Given a contract, a transaction or a decoded chain event, the functions of
//! this crate compute the ordered list of attributes that describes the token.
//! Everything here is pure: where the pipeline needs content from the content
//! store it hands the caller the command to run and takes the reply back as a
//! plain value.

pub mod beats;
pub mod data;
pub mod dataset;
pub mod decoder;
pub mod errors;
pub mod hexcode;
pub mod json;
pub mod params;
pub mod pipeline;
pub mod seek;
pub mod store;
pub mod text;
pub mod types;
