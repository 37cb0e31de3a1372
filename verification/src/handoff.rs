//! What happens after the build: forward a failing build's exit code, fail
//! when the side channel never reported the runtime-support paths, or hand
//! everything the analyzer needs over in one request.

use vstd::prelude::*;
use vstd::string::StringExecFns;
use crate::OutputFormat;
use crate::errors::DriverError;
use crate::protocol::MarkerPaths;
use crate::strutil;

verus! {

/// Everything the external analyzer is invoked with.
#[derive(Debug)]
pub struct AnalyzeRequest {
    /// On-disk path of the compiled artifact.
    pub artifact_path: String,
    /// Path of the runtime-support archive, from the side channel.
    pub rlib_path: String,
    /// Path of the runtime-support intermediate representation, from the
    /// side channel.
    pub ll_path: String,
    /// The effective target triple.
    pub target: String,
    /// Symbol-name disambiguation prefix derived from the artifact's name.
    pub prefix: String,
    /// Start-node filter, if any.
    pub start: Option<String>,
    /// Requested output format.
    pub format: OutputFormat,
}

/// What the driver does once the build has finished.
#[derive(Debug)]
pub enum BuildFollowUp {
    /// The build failed: return its exit code, never invoke the analyzer.
    Forward(i32),
    /// The build succeeded but a required path is missing: fail.
    Fail(DriverError),
    /// The build succeeded and both paths were reported: run the analyzer.
    Analyze(AnalyzeRequest),
}

/// The symbol-name disambiguation prefix: the artifact's name with every
/// hyphen replaced by an underscore, and exactly one trailing separator.
pub open spec fn symbol_prefix_spec(name: Seq<char>) -> Seq<char> {
    strutil::replace_chars(name, '-', '_').push('-')
}

/// Derives the symbol-name disambiguation prefix from the artifact's name.
pub fn symbol_prefix(name: &str) -> (r: String)
    ensures
        r@ == symbol_prefix_spec(name@),
{
    let underscored = strutil::dashes_to_underscores(name);
    let r = underscored.concat("-");
    proof {
        reveal_strlit("-");
        assert(r@ =~= symbol_prefix_spec(name@));
    }
    r
}

/// Decides what follows the build.
///
/// A failing build has its exit code forwarded verbatim (1 where the child
/// reported none) and the analyzer is never invoked. A successful build
/// whose side channel never reported the runtime-support archive path, or
/// its intermediate-representation path, fails with the matching
/// missing-artifact error. Only a successful build with both paths present
/// yields an analyzer request, carrying the artifact path, the two reported
/// paths verbatim, the target triple, the derived symbol prefix, the
/// start-node filter and the output format.
pub fn follow_up(
    status_success: bool,
    status_code: Option<i32>,
    markers: MarkerPaths,
    artifact_path: String,
    artifact_name: &str,
    target: String,
    start: Option<String>,
    format: OutputFormat,
) -> (r: BuildFollowUp)
    ensures
        !status_success ==> (r matches BuildFollowUp::Forward(c) && c == (match status_code {
            Some(c0) => c0,
            None => 1,
        })),
        status_success && markers.rlib is None ==> r == BuildFollowUp::Fail(
            DriverError::RuntimeLibNotLinked,
        ),
        status_success && markers.rlib is Some && markers.ll is None ==> r == BuildFollowUp::Fail(
            DriverError::RuntimeLibIrUnavailable,
        ),
        status_success && markers.rlib is Some && markers.ll is Some ==> (r matches
            BuildFollowUp::Analyze(req) && req.artifact_path@ == artifact_path@ && req.rlib_path@
            == markers.rlib->0@ && req.ll_path@ == markers.ll->0@ && req.target@ == target@
            && req.prefix@ == symbol_prefix_spec(artifact_name@) && req.start.deep_view()
            == start.deep_view() && req.format == format),
{
    if !status_success {
        let code: i32 = match status_code {
            Some(c) => c,
            None => 1,
        };
        return BuildFollowUp::Forward(code);
    }
    let rlib_path = match markers.rlib {
        Some(p) => p,
        None => {
            return BuildFollowUp::Fail(DriverError::RuntimeLibNotLinked);
        },
    };
    let ll_path = match markers.ll {
        Some(p) => p,
        None => {
            return BuildFollowUp::Fail(DriverError::RuntimeLibIrUnavailable);
        },
    };
    let prefix = symbol_prefix(artifact_name);
    BuildFollowUp::Analyze(
        AnalyzeRequest { artifact_path, rlib_path, ll_path, target, prefix, start, format },
    )
}

} // verus!
