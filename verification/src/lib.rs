//! A boundary layer between a host and the Uiua interpreter: tagged array
//! values and their wire form, the capturing output backend, the flat form
//! of diagnostics and errors, the interpreter's part of a run, and the
//! classification of result values as media.

pub mod backend;
pub mod codec;
pub mod formatting;
pub mod interp;
pub mod json;
pub mod laws;
pub mod native;
pub mod report;
pub mod runtime;
pub mod smart;
pub mod value;
pub mod wire;
