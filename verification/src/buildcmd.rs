//! The build driver: the exact argument vector and environment handed to
//! the external build system.
//!
//! The vector is deterministic in the resolved arguments: the target triple
//! is passed only when it was given explicitly, exactly one artifact
//! selector is passed, the release profile is always requested, the
//! standard-library rebuild set depends on the toolchain probe, and the
//! trailing compiler flags request a single whole-program
//! intermediate-representation module.

use vstd::prelude::*;
use vstd::string::StringExecFns;
use crate::args::ArtifactKind;
use crate::args::Selection;

verus! {

/// The flag that rebuilds the standard library from source: restricted to
/// the minimal runtime / allocator / low-level-support components on a
/// bare-metal target, the full default set otherwise.
pub open spec fn build_std_flag(no_std: bool) -> Seq<char> {
    if no_std {
        "-Zbuild-std=core,alloc,compiler_builtins"@
    } else {
        "-Zbuild-std"@
    }
}

/// The argument vector of the build invocation, after the program name.
pub open spec fn cargo_args_spec(
    kind: ArtifactKind,
    name: Seq<char>,
    target_flag: Option<Seq<char>>,
    features: Option<Seq<char>>,
    all_features: bool,
    no_std: bool,
) -> Seq<Seq<char>> {
    seq!["rustc"@] + (if target_flag is Some {
        seq!["--target"@, target_flag->0]
    } else {
        Seq::empty()
    }) + (if all_features {
        seq!["--all-features"@]
    } else if features is Some {
        seq!["--features"@, features->0]
    } else {
        Seq::empty()
    }) + (if kind is Example {
        seq!["--example"@, name]
    } else {
        seq!["--bin"@, name]
    }) + seq![
        "--release"@,
        build_std_flag(no_std),
        "--color=always"@,
        "--"@,
        "--emit=llvm-ir,obj"@,
        "-C"@,
        "embed-bitcode=yes"@,
        "-C"@,
        "lto=fat"@,
    ]
}

/// The program the build invocation runs.
pub fn build_program() -> (r: &'static str)
    ensures
        r@ == "cargo"@,
{
    "cargo"
}

/// The sentinel environment variable whose presence switches this program
/// into its compiler-substitute mode.
pub fn sentinel_var() -> (r: &'static str)
    ensures
        r@ == "CARGO_CALL_STACK_RUSTC_WRAPPER"@,
{
    "CARGO_CALL_STACK_RUSTC_WRAPPER"
}

/// The value the sentinel variable is set to on the build child.
pub fn sentinel_value() -> (r: &'static str)
    ensures
        r@ == "1"@,
{
    "1"
}

/// The build system's compiler-substitution variable, repointed at this
/// program's own executable for the duration of the build.
pub fn compiler_substitution_var() -> (r: &'static str)
    ensures
        r@ == "RUSTC_WRAPPER"@,
{
    "RUSTC_WRAPPER"
}

/// Builds the argument vector of the build invocation from the resolved
/// arguments, exactly as `cargo_args_spec` states it.
pub fn cargo_build_args(
    sel: &Selection,
    target_flag: &Option<String>,
    features: &Option<String>,
    all_features: bool,
    no_std: bool,
) -> (r: Vec<String>)
    ensures
        r.deep_view() == cargo_args_spec(
            sel.kind,
            sel.name@,
            target_flag.deep_view(),
            features.deep_view(),
            all_features,
            no_std,
        ),
{
    let mut v: Vec<String> = Vec::new();
    v.push(String::from_str("rustc"));
    if let Some(t) = target_flag {
        v.push(String::from_str("--target"));
        v.push(t.clone());
    }
    if all_features {
        v.push(String::from_str("--all-features"));
    } else if let Some(f) = features {
        v.push(String::from_str("--features"));
        v.push(f.clone());
    }
    match sel.kind {
        ArtifactKind::Example => {
            v.push(String::from_str("--example"));
        },
        ArtifactKind::Bin => {
            v.push(String::from_str("--bin"));
        },
    }
    v.push(sel.name.clone());
    v.push(String::from_str("--release"));
    if no_std {
        v.push(String::from_str("-Zbuild-std=core,alloc,compiler_builtins"));
    } else {
        v.push(String::from_str("-Zbuild-std"));
    }
    v.push(String::from_str("--color=always"));
    v.push(String::from_str("--"));
    v.push(String::from_str("--emit=llvm-ir,obj"));
    v.push(String::from_str("-C"));
    v.push(String::from_str("embed-bitcode=yes"));
    v.push(String::from_str("-C"));
    v.push(String::from_str("lto=fat"));
    proof {
        assert(v.deep_view() =~= cargo_args_spec(
            sel.kind,
            sel.name@,
            target_flag.deep_view(),
            features.deep_view(),
            all_features,
            no_std,
        ));
    }
    v
}

} // verus!
