//! Build-orchestration front-end for a whole-program stack-usage analyzer.
//!
//! The library holds the decision logic of the driver: validating the
//! artifact selection, parsing the compiler's configuration probe, building
//! the argument vector for the external build system, the compiler-wrapper
//! protocol that smuggles the runtime-support library paths out of the build
//! over marker lines, and the handoff decisions that follow the build.
//! All process spawning, environment access and file I/O live in the thin
//! binary around this crate.

use vstd::prelude::*;

pub mod args;
pub mod buildcmd;
pub mod errors;
pub mod handoff;
pub mod probe;
pub mod touch;
pub mod wrapper;
pub mod protocol;
pub mod strutil;

verus! {

/// Output format requested for the analyzer's report.
#[derive(Clone, Copy, Debug, PartialEq, Eq, Structural)]
pub enum OutputFormat {
    Dot,
    Top,
}

} // verus!
