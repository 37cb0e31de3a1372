//! The toolchain probe: deciding from the compiler's configuration dump
//! whether the target has no hosted operating-system runtime.

use vstd::prelude::*;
use crate::strutil;

verus! {

/// The configuration line that marks a target without a hosted
/// operating-system runtime: the operating-system key set to the literal
/// absence marker.
pub open spec fn no_std_cfg_line(l: Seq<char>) -> bool {
    l == "target_os=\"none\""@
}

/// Scans the compiler's configuration dump, one line per entry: the target
/// is bare-metal exactly when some line sets the operating-system key to
/// the absence marker.
pub fn cfg_reports_no_std(lines: &Vec<String>) -> (r: bool)
    ensures
        r == exists|i: int| 0 <= i < lines@.len() && no_std_cfg_line(lines@[i]@),
{
    let mut i: usize = 0;
    while i < lines.len()
        invariant
            i <= lines@.len(),
            forall|j: int| 0 <= j < i ==> !no_std_cfg_line(lines@[j]@),
        decreases lines@.len() - i,
    {
        if strutil::str_eq(lines[i].as_str(), "target_os=\"none\"") {
            return true;
        }
        i += 1;
    }
    false
}

} // verus!
