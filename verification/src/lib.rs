//! Bridge between a host application and an embedded script engine.
//!
//! A host drives the execution of a script through a handle: it creates the
//! handle from source text, runs or starts it, serves the calls at which the
//! script suspends, and reads the result.  Values cross the boundary as JSON
//! text.

pub mod tags;
pub mod text;
pub mod value;
pub mod json;
pub mod convert;
pub mod error;
pub mod callid;
pub mod engine;
pub mod report;
pub mod replies;
pub mod handle;
pub mod boundary;
