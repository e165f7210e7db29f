//! Print-job logic of the RupmPrinter client: PCL header parsing, job
//! records, request building for the printing service, and the decisions
//! that drive the print loop.
pub mod app;
pub mod client;
pub mod compress;
pub mod config;
pub mod job;
pub mod text;
pub mod parser;
pub mod prog;
pub mod server;
pub mod spooler;

use vstd::prelude::*;

verus! {

} // verus!
