//! The side-channel marker protocol.
//!
//! The compiler wrapper smuggles two paths out of the build by writing, on
//! the build's diagnostic stream, lines that begin with one of two fixed
//! literal prefixes. The reader on the other side classifies every line:
//! a marker line is consumed and its suffix stored, any other line is
//! echoed verbatim, in order.

use vstd::prelude::*;
use vstd::string::StrSliceExecFns;
use crate::strutil;

verus! {

/// The prefix marking the line that carries the runtime-support archive path.
pub open spec fn rlib_marker() -> Seq<char> {
    "@CARGO_CALL_STACK:compiler_builtins_rlib_path@"@
}

/// The prefix marking the line that carries the runtime-support
/// intermediate-representation path.
pub open spec fn ll_marker() -> Seq<char> {
    "@CARGO_CALL_STACK:compiler_builtins_ll_path@"@
}

/// The literal prefix marking the runtime-support archive path line.
pub fn rlib_marker_str() -> (r: &'static str)
    ensures
        r@ == rlib_marker(),
{
    "@CARGO_CALL_STACK:compiler_builtins_rlib_path@"
}

/// The literal prefix marking the runtime-support intermediate-representation
/// path line.
pub fn ll_marker_str() -> (r: &'static str)
    ensures
        r@ == ll_marker(),
{
    "@CARGO_CALL_STACK:compiler_builtins_ll_path@"
}

/// The line carries the runtime-support archive path.
pub open spec fn is_rlib_line(l: Seq<char>) -> bool {
    strutil::starts_with(l, rlib_marker())
}

/// The line carries the runtime-support intermediate-representation path.
pub open spec fn is_ll_line(l: Seq<char>) -> bool {
    strutil::starts_with(l, ll_marker())
}

/// The line is consumed by the reader rather than echoed.
pub open spec fn is_marker_line(l: Seq<char>) -> bool {
    is_rlib_line(l) || is_ll_line(l)
}

/// What follows the marker prefix: the reported path, byte for byte.
pub open spec fn marker_suffix(l: Seq<char>, marker: Seq<char>) -> Seq<char> {
    l.subrange(marker.len() as int, l.len() as int)
}

/// The two paths gathered from the diagnostic stream so far; each is the
/// suffix of the corresponding marker line, absent until such a line is seen.
#[derive(Debug)]
pub struct MarkerPaths {
    pub rlib: Option<String>,
    pub ll: Option<String>,
}

/// Spec-level picture of a `MarkerPaths` value.
pub struct MarkerPathsModel {
    pub rlib: Option<Seq<char>>,
    pub ll: Option<Seq<char>>,
}

impl MarkerPaths {
    /// The model of this value.
    pub open spec fn model(&self) -> MarkerPathsModel {
        MarkerPathsModel {
            rlib: match self.rlib {
                Some(p) => Some(p@),
                None => None,
            },
            ll: match self.ll {
                Some(p) => Some(p@),
                None => None,
            },
        }
    }

    /// Paths before any line has been read: none.
    pub fn empty() -> (r: MarkerPaths)
        ensures
            r.model() == (MarkerPathsModel { rlib: None, ll: None }),
    {
        MarkerPaths { rlib: None, ll: None }
    }
}

/// How one line changes the gathered paths: a marker line overwrites its
/// slot with the suffix after the prefix, any other line changes nothing.
pub open spec fn scan_step(m: MarkerPathsModel, l: Seq<char>) -> MarkerPathsModel {
    if is_rlib_line(l) {
        MarkerPathsModel { rlib: Some(marker_suffix(l, rlib_marker())), ll: m.ll }
    } else if is_ll_line(l) {
        MarkerPathsModel { rlib: m.rlib, ll: Some(marker_suffix(l, ll_marker())) }
    } else {
        m
    }
}

/// The paths gathered after reading `lines` from the start state `m`.
pub open spec fn scan_model(m: MarkerPathsModel, lines: Seq<Seq<char>>) -> MarkerPathsModel
    decreases lines.len(),
{
    if lines.len() == 0 {
        m
    } else {
        scan_step(scan_model(m, lines.drop_last()), lines.last())
    }
}

/// The lines the reader echoes: exactly the non-marker lines, in their
/// original order, none dropped and none duplicated.
pub open spec fn echoed_lines(lines: Seq<Seq<char>>) -> Seq<Seq<char>>
    decreases lines.len(),
{
    if lines.len() == 0 {
        Seq::empty()
    } else if is_marker_line(lines.last()) {
        echoed_lines(lines.drop_last())
    } else {
        echoed_lines(lines.drop_last()).push(lines.last())
    }
}

/// Reads one diagnostic line: a marker line is consumed and its suffix
/// stored under the matching slot; any other line leaves the state unchanged
/// and is to be echoed verbatim (the returned flag).
pub fn read_line(state: &mut MarkerPaths, line: &str) -> (echo: bool)
    ensures
        final(state).model() == scan_step(old(state).model(), line@),
        echo == !is_marker_line(line@),
{
    let rlib_m = rlib_marker_str();
    let ll_m = ll_marker_str();
    if strutil::str_starts_with(line, rlib_m) {
        let path = strutil::str_suffix_from(line, rlib_m.unicode_len());
        state.rlib = Some(path);
        false
    } else if strutil::str_starts_with(line, ll_m) {
        let path = strutil::str_suffix_from(line, ll_m.unicode_len());
        state.ll = Some(path);
        false
    } else {
        true
    }
}

/// Reads a whole diagnostic stream at once: returns the gathered marker
/// paths and the echoed lines — exactly the non-marker lines, verbatim and
/// in order.
pub fn scan_lines(lines: &Vec<String>) -> (r: (MarkerPaths, Vec<String>))
    ensures
        r.0.model() == scan_model(MarkerPathsModel { rlib: None, ll: None }, lines.deep_view()),
        r.1.deep_view() == echoed_lines(lines.deep_view()),
{
    let mut state = MarkerPaths::empty();
    let mut echoed: Vec<String> = Vec::new();
    let mut i: usize = 0;
    while i < lines.len()
        invariant
            i <= lines.len(),
            state.model() == scan_model(
                MarkerPathsModel { rlib: None, ll: None },
                lines.deep_view().subrange(0, i as int),
            ),
            echoed.deep_view() == echoed_lines(lines.deep_view().subrange(0, i as int)),
        decreases lines.len() - i,
    {
        let ghost prefix = lines.deep_view().subrange(0, i as int);
        let ghost prefix1 = lines.deep_view().subrange(0, i + 1 as int);
        proof {
            assert(prefix1.drop_last() =~= prefix);
            assert(prefix1.last() == lines.deep_view()[i as int]);
            assert(lines.deep_view()[i as int] == lines@[i as int]@);
        }
        let line = &lines[i];
        if read_line(&mut state, line.as_str()) {
            echoed.push(line.clone());
            proof {
                assert(echoed.deep_view() =~= echoed_lines(prefix1));
            }
        } else {
            proof {
                assert(echoed.deep_view() =~= echoed_lines(prefix1));
            }
        }
        i += 1;
    }
    proof {
        assert(lines.deep_view().subrange(0, lines.len() as int) =~= lines.deep_view());
    }
    (state, echoed)
}

/// No line begins with both marker prefixes: they differ where one reads
/// `rlib` and the other `ll`.
pub proof fn lemma_markers_distinct(l: Seq<char>)
    ensures
        !(is_rlib_line(l) && is_ll_line(l)),
{
    if is_rlib_line(l) && is_ll_line(l) {
        reveal_strlit("@CARGO_CALL_STACK:compiler_builtins_rlib_path@");
        reveal_strlit("@CARGO_CALL_STACK:compiler_builtins_ll_path@");
        assert(l.subrange(0, rlib_marker().len() as int)[36] == l[36]);
        assert(l.subrange(0, ll_marker().len() as int)[36] == l[36]);
        assert(false);
    }
}

/// If exactly one line of the stream carries the archive marker and exactly
/// one carries the intermediate-representation marker, the gathered paths
/// are exactly the suffixes that follow those two prefixes.
pub proof fn lemma_single_markers_extracted(lines: Seq<Seq<char>>, i: int, j: int)
    requires
        0 <= i < lines.len(),
        0 <= j < lines.len(),
        is_rlib_line(lines[i]),
        is_ll_line(lines[j]),
        forall|k: int| 0 <= k < lines.len() && k != i ==> !is_rlib_line(lines[k]),
        forall|k: int| 0 <= k < lines.len() && k != j ==> !is_ll_line(lines[k]),
    ensures
        scan_model(MarkerPathsModel { rlib: None, ll: None }, lines) == (MarkerPathsModel {
            rlib: Some(marker_suffix(lines[i], rlib_marker())),
            ll: Some(marker_suffix(lines[j], ll_marker())),
        }),
    decreases lines.len(),
{
    let init = MarkerPathsModel { rlib: None, ll: None };
    let sub = lines.drop_last();
    let n = lines.len() - 1;
    if i == n && j == n {
        lemma_markers_distinct(lines[i]);
    } else if i == n {
        lemma_scan_rlib_free(init, sub);
        lemma_single_ll_extracted(sub, j);
    } else if j == n {
        lemma_scan_ll_free(scan_model(init, sub), sub);
        lemma_single_rlib_extracted(sub, i);
    } else {
        lemma_single_markers_extracted(sub, i, j);
    }
}

/// A stream with exactly one archive-marker line yields exactly its suffix.
pub proof fn lemma_single_rlib_extracted(lines: Seq<Seq<char>>, i: int)
    requires
        0 <= i < lines.len(),
        is_rlib_line(lines[i]),
        forall|k: int| 0 <= k < lines.len() && k != i ==> !is_rlib_line(lines[k]),
    ensures
        scan_model(MarkerPathsModel { rlib: None, ll: None }, lines).rlib == Some(
            marker_suffix(lines[i], rlib_marker()),
        ),
    decreases lines.len(),
{
    if i == lines.len() - 1 {
    } else {
        lemma_single_rlib_extracted(lines.drop_last(), i);
    }
}

/// A stream with exactly one intermediate-representation-marker line yields
/// exactly its suffix.
pub proof fn lemma_single_ll_extracted(lines: Seq<Seq<char>>, j: int)
    requires
        0 <= j < lines.len(),
        is_ll_line(lines[j]),
        forall|k: int| 0 <= k < lines.len() && k != j ==> !is_ll_line(lines[k]),
    ensures
        scan_model(MarkerPathsModel { rlib: None, ll: None }, lines).ll == Some(
            marker_suffix(lines[j], ll_marker()),
        ),
    decreases lines.len(),
{
    if j == lines.len() - 1 {
        lemma_markers_distinct(lines[j]);
    } else {
        lemma_single_ll_extracted(lines.drop_last(), j);
    }
}

/// A stream without archive-marker lines leaves the archive slot unchanged.
proof fn lemma_scan_rlib_free(m: MarkerPathsModel, lines: Seq<Seq<char>>)
    requires
        forall|k: int| 0 <= k < lines.len() ==> !is_rlib_line(lines[k]),
    ensures
        scan_model(m, lines).rlib == m.rlib,
    decreases lines.len(),
{
    if lines.len() > 0 {
        lemma_scan_rlib_free(m, lines.drop_last());
    }
}

/// A stream without intermediate-representation-marker lines leaves that
/// slot unchanged.
proof fn lemma_scan_ll_free(m: MarkerPathsModel, lines: Seq<Seq<char>>)
    requires
        forall|k: int| 0 <= k < lines.len() ==> !is_ll_line(lines[k]),
    ensures
        scan_model(m, lines).ll == m.ll,
    decreases lines.len(),
{
    if lines.len() > 0 {
        lemma_scan_ll_free(m, lines.drop_last());
    }
}

} // verus!
