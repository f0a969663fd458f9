//! A safety layer around a hash-based device-detection engine.
//!
//! The engine itself is a native component that this crate never calls. The
//! crate holds everything that surrounds those calls: the catalog of property
//! and evidence names, the encoding of strings into the null-terminated form
//! the engine reads, the decoding of the buffers it fills, the mapping of
//! its status codes and exceptions into typed errors, and the order in which
//! a detection asks the engine for work. Whoever owns the native handles
//! performs each call the crate asks for and hands back what the engine
//! answered.

pub mod device_detection;
pub mod engine;
pub mod names;
pub mod utils;
