//! Screen and window capture exposed as a set of named tools.
//!
//! The library holds the parts of the server that decide: the fixed tool
//! table and the dispatcher that decodes parameters for it, the selection of
//! the monitor or window that a call targets, the lenient conversion of
//! enumerated platform attributes, and the texts and content items that each
//! call returns. Enumeration, pixel capture and the close signal are done by
//! the caller and handed in as plain values.


pub mod text;
pub mod models;
pub mod params;
pub mod encode;
pub mod handler;
pub mod router;
pub mod window_ops;
pub mod cli;
pub mod laws;
