//! The host side of a small script runtime: the table of native file
//! operations that scripts may call, the bundle that installs them into an
//! engine, and the driver that sequences one run from engine creation to the
//! final report.
//!
//! The script engine itself, the file system and the event loop are outside
//! this crate. The host performs them and reports each outcome to the
//! [`driver::Driver`], which decides what happens next.

pub mod error;
pub mod ops;
pub mod bundle;
pub mod driver;
pub mod trace;
