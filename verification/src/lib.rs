//! Batch image compression and format conversion: quality parsing, option
//! resolution, codec dispatch and batch accounting, with the codecs themselves
//! supplied by outside crates.
pub mod adapters;
pub mod batch;
pub mod dispatch;
pub mod encoders;
pub mod error;
pub mod imaging;
pub mod naming;
pub mod options;
pub mod quality;
pub mod service;
pub mod text;
