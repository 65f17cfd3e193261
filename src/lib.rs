//! Discovery-to-decode pipeline for an Aranet4-class BLE environmental sensor.
//!
//! The radio work is done by the caller; this library holds the decisions and
//! the data handling, each with a verified contract.
pub mod cli;
pub mod locate;
pub mod profile;
pub mod sample;
pub mod session;
pub mod scan;
pub mod text;
