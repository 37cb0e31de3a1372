//! The rebuild forcer: which source file gets its modification time
//! updated so that the next build is not served from cache.
//!
//! Candidates are tried in strict order: the project's binary entry file,
//! else its library entry file, else the first file with the source
//! extension found by a directory walk. The file I/O itself lives outside
//! the library; these functions decide the candidate paths and pick the
//! walk's winner.

use vstd::prelude::*;
use vstd::string::StrSliceExecFns;
use vstd::string::StringExecFns;
use crate::strutil;

verus! {

/// The final path component: what follows the last separator.
pub open spec fn file_name_of(p: Seq<char>) -> Seq<char> {
    p.subrange(strutil::last_index_of(p, '/') + 1, p.len() as int)
}

/// The path's file name has the Rust source extension: a dot after its
/// first character, with `rs` and nothing else after the last dot.
pub open spec fn has_rs_extension(p: Seq<char>) -> bool {
    let n = file_name_of(p);
    let d = strutil::last_index_of(n, '.');
    d > 0 && n.subrange(d + 1, n.len() as int) == "rs"@
}

/// Does the path's file name carry the Rust source extension?
pub fn is_rust_source(path: &str) -> (r: bool)
    ensures
        r == has_rs_extension(path@),
{
    let len = path.unicode_len();
    let start: usize = match strutil::rfind_char(path, '/') {
        Some(i) => {
            proof {
                strutil::lemma_last_index_of(path@, '/');
            }
            i + 1
        },
        None => 0,
    };
    let name = path.substring_char(start, len);
    proof {
        strutil::lemma_last_index_of(path@, '/');
        assert(name@ =~= file_name_of(path@));
    }
    let name_len = name.unicode_len();
    match strutil::rfind_char(name, '.') {
        Some(d) => {
            proof {
                strutil::lemma_last_index_of(name@, '.');
            }
            if d == 0 {
                return false;
            }
            let ext = name.substring_char(d + 1, name_len);
            strutil::str_eq(ext, "rs")
        },
        None => false,
    }
}

/// The walk's winner: the first entry, in walk order, whose file name has
/// the Rust source extension.
pub fn first_rust_source(entries: &Vec<String>) -> (r: Option<usize>)
    ensures
        r matches Some(i) ==> i < entries@.len() && has_rs_extension(entries@[i as int]@) && (
        forall|j: int| 0 <= j < i ==> !has_rs_extension(entries@[j]@)),
        r is None ==> forall|j: int| 0 <= j < entries@.len() ==> !has_rs_extension(entries@[j]@),
{
    let mut i: usize = 0;
    while i < entries.len()
        invariant
            i <= entries@.len(),
            forall|j: int| 0 <= j < i ==> !has_rs_extension(entries@[j]@),
        decreases entries@.len() - i,
    {
        if is_rust_source(entries[i].as_str()) {
            return Some(i);
        }
        i += 1;
    }
    None
}

/// The two fixed candidate files under the project root, in the order they
/// are tried: the binary entry file, then the library entry file.
pub fn entry_file_candidates(root: &str) -> (r: (String, String))
    ensures
        r.0@ == root@ + "/src/main.rs"@,
        r.1@ == root@ + "/src/lib.rs"@,
{
    let main_entry = root.to_owned().concat("/src/main.rs");
    let lib_entry = root.to_owned().concat("/src/lib.rs");
    (main_entry, lib_entry)
}

/// Where the directory walk starts: the project's source directory when it
/// exists, else the project root itself.
pub fn walk_root(root: &str, src_dir_exists: bool) -> (r: String)
    ensures
        src_dir_exists ==> r@ == root@ + "/src"@,
        !src_dir_exists ==> r@ == root@,
{
    if src_dir_exists {
        root.to_owned().concat("/src")
    } else {
        root.to_owned()
    }
}

/// Which file the rebuild forcer touches.
#[derive(Clone, Copy, Debug, PartialEq, Eq, Structural)]
pub enum TouchTarget {
    /// The binary entry file: it was present.
    MainEntry,
    /// The library entry file: the binary entry file was absent.
    LibEntry,
    /// The walk's winner, by its index among the walked entries: both entry
    /// files were absent.
    Walked(usize),
    /// Nothing qualifies: no rebuild is forced.
    NothingFound,
}

/// Picks the one file to touch. The binary entry file wins when present;
/// only in its absence is the library entry file touched; only when both
/// are absent does the directory walk decide, and then exactly the first
/// source-extension entry is touched — or none, when the walk finds no
/// qualifying file at all.
pub fn rebuild_touch_target(main_present: bool, lib_present: bool, entries: &Vec<String>) -> (r:
    TouchTarget)
    ensures
        main_present ==> r == TouchTarget::MainEntry,
        !main_present && lib_present ==> r == TouchTarget::LibEntry,
        !main_present && !lib_present ==> (r matches TouchTarget::Walked(i) ==> i < entries@.len()
            && has_rs_extension(entries@[i as int]@) && (forall|j: int|
            0 <= j < i ==> !has_rs_extension(entries@[j]@))),
        !main_present && !lib_present ==> (r == TouchTarget::NothingFound ==> forall|j: int|
            0 <= j < entries@.len() ==> !has_rs_extension(entries@[j]@)),
        !main_present && !lib_present ==> (r matches TouchTarget::Walked(i) || r
            == TouchTarget::NothingFound),
{
    if main_present {
        TouchTarget::MainEntry
    } else if lib_present {
        TouchTarget::LibEntry
    } else {
        match first_rust_source(entries) {
            Some(i) => TouchTarget::Walked(i),
            None => TouchTarget::NothingFound,
        }
    }
}

} // verus!
