//! A single-pass reader for INI configuration text.
//!
//! [`IniDataMap::from_bytes`] turns a byte sequence into a document: a map
//! from keys to entries, where an entry is either a scalar value or a
//! section holding its own keys and values. The reader never fails; what
//! it makes of every byte sequence is fixed by the state machine in
//! [`model`], and every executable function here is proved to compute
//! exactly what that model says.

pub mod model;
pub mod text;
pub mod data;
pub mod scanner;
pub mod laws;

pub use data::{IniData, IniDataMap, IniSection};
pub use model::Mode;
pub use scanner::Scanner;
