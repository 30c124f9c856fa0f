//! Traffic inspection: a bounds-checked Ethernet/IPv4 frame decoder and a
//! detection engine with sliding-window port-scan and rate detectors.
pub mod text;
pub mod decoder;
pub mod tracker;
pub mod config;
pub mod detection;
pub mod error;
pub mod stats;
pub mod capture;
pub mod storage;
pub mod cli;
