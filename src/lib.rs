//! A personal store of named search recipes for grep-like tools.
//!
//! The library holds the decisions: which pattern string a record resolves
//! to, which engine runs it, how a dump line reads, which arguments the engine
//! receives, which directory entries are pattern files, and what each failure
//! says. The program around it reads and writes the files and runs the engine.
use vstd::prelude::*;

pub mod error;
pub mod record;
pub mod resolve;
pub mod dispatch;
pub mod store;
pub mod request;

verus! {

} // verus!
