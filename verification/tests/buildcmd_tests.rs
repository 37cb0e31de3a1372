use call_stack_driver::args::{ArtifactKind, Selection};
use call_stack_driver::buildcmd::{
    build_program, cargo_build_args, compiler_substitution_var, sentinel_value, sentinel_var,
};

fn strings(v: &[&str]) -> Vec<String> {
    v.iter().map(|s| s.to_string()).collect()
}

#[test]
fn minimal_bin_invocation() {
    let sel = Selection { kind: ArtifactKind::Bin, name: "app".to_string() };
    let args = cargo_build_args(&sel, &None, &None, false, false);
    assert_eq!(
        args,
        strings(&[
            "rustc",
            "--bin",
            "app",
            "--release",
            "-Zbuild-std",
            "--color=always",
            "--",
            "--emit=llvm-ir,obj",
            "-C",
            "embed-bitcode=yes",
            "-C",
            "lto=fat",
        ])
    );
}

#[test]
fn example_with_explicit_target_and_features_on_bare_metal() {
    let sel = Selection { kind: ArtifactKind::Example, name: "blinky".to_string() };
    let args = cargo_build_args(
        &sel,
        &Some("thumbv7m-none-eabi".to_string()),
        &Some("rt defmt".to_string()),
        false,
        true,
    );
    assert_eq!(
        args,
        strings(&[
            "rustc",
            "--target",
            "thumbv7m-none-eabi",
            "--features",
            "rt defmt",
            "--example",
            "blinky",
            "--release",
            "-Zbuild-std=core,alloc,compiler_builtins",
            "--color=always",
            "--",
            "--emit=llvm-ir,obj",
            "-C",
            "embed-bitcode=yes",
            "-C",
            "lto=fat",
        ])
    );
}

#[test]
fn all_features_suppresses_the_feature_list() {
    let sel = Selection { kind: ArtifactKind::Bin, name: "app".to_string() };
    let args = cargo_build_args(&sel, &None, &Some("unused".to_string()), true, false);
    assert_eq!(
        args,
        strings(&[
            "rustc",
            "--all-features",
            "--bin",
            "app",
            "--release",
            "-Zbuild-std",
            "--color=always",
            "--",
            "--emit=llvm-ir,obj",
            "-C",
            "embed-bitcode=yes",
            "-C",
            "lto=fat",
        ])
    );
}

#[test]
fn inferred_target_is_never_passed_to_the_build() {
    // The triple may have been resolved from the project or the host, but
    // only an explicit flag reaches the build invocation.
    let sel = Selection { kind: ArtifactKind::Bin, name: "app".to_string() };
    let args = cargo_build_args(&sel, &None, &None, false, true);
    assert!(!args.iter().any(|a| a == "--target"));
}

#[test]
fn wrapper_environment_names() {
    assert_eq!(sentinel_var(), "CARGO_CALL_STACK_RUSTC_WRAPPER");
    assert_eq!(sentinel_value(), "1");
    assert_eq!(compiler_substitution_var(), "RUSTC_WRAPPER");
    assert_eq!(build_program(), "cargo");
}
