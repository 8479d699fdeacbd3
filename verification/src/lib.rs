//! Identification of supported USB microphones.
//!
//! The crate classifies raw USB vendor/product identifiers against a fixed
//! table of recognized devices, walks a device's configuration / interface /
//! alternate-setting / endpoint descriptor tree to collect its endpoints,
//! selects the endpoint used for communication, and renders the report lines
//! that describe a recognized device.

pub mod classify;
pub mod descriptor;
pub mod report;
pub mod scan;
