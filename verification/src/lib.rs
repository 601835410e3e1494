//! Request translation and output normalisation for an alignment-file
//! analysis engine.
//!
//! A request arrives as a record of optional fields. The modules `config`,
//! `window` and `seq_table` check such a record and translate it into the
//! configuration that the engine takes. What the engine writes comes back
//! as bytes: `decode` turns them into text or JSON, `report` parses the
//! text report on contigs and modifications, and `table` narrows a
//! tab-separated table to three of its columns.

pub mod config;
pub mod decode;
pub mod error;
pub mod failure;
pub mod fraction;
pub mod number;
pub mod options;
pub mod report;
pub mod seq_table;
pub mod source;
pub mod table;
pub mod text;
pub mod threshold;
pub mod window;

pub use crate::options::{PeekOptions, ReadOptions, SimulateOptions, WindowOptions};
pub use crate::report::PeekResult;
