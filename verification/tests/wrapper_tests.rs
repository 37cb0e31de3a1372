use call_stack_driver::errors::WrapperError;
use call_stack_driver::protocol::{scan_lines};
use call_stack_driver::touch::{
    entry_file_candidates, first_rust_source, is_rust_source, rebuild_touch_target, walk_root,
    TouchTarget,
};
use call_stack_driver::wrapper::{parse_rustc_args, wrapper_plan};

fn strings(v: &[&str]) -> Vec<String> {
    v.iter().map(|s| s.to_string()).collect()
}

#[test]
fn ordinary_invocation_is_parsed() {
    let args = strings(&[
        "--crate-name",
        "app",
        "--edition=2021",
        "src/main.rs",
        "--out-dir",
        "/t/out",
        "-C",
        "extra-filename=-deadbeef",
        "--extern",
        "serde=/t/deps/libserde.rlib",
    ]);
    let inv = parse_rustc_args(&args).unwrap();
    assert_eq!(inv.crate_name, "app");
    assert_eq!(inv.extra_filename, "-deadbeef");
    assert_eq!(inv.out_dir.as_deref(), Some("/t/out"));
    assert_eq!(inv.externs.len(), 1);
    assert_eq!(inv.externs[0].name, "serde");
    assert_eq!(inv.externs[0].path.as_deref(), Some("/t/deps/libserde.rlib"));
}

#[test]
fn noprelude_prefix_is_stripped_from_extern() {
    let args = strings(&[
        "--crate-name",
        "app",
        "--extern",
        "noprelude:core=/sysroot/libcore.rlib",
        "--extern",
        "alloc",
    ]);
    let inv = parse_rustc_args(&args).unwrap();
    assert_eq!(inv.externs[0].name, "core");
    assert_eq!(inv.externs[0].path.as_deref(), Some("/sysroot/libcore.rlib"));
    assert_eq!(inv.externs[1].name, "alloc");
    assert!(inv.externs[1].path.is_none());
}

#[test]
fn inline_codegen_option_is_read() {
    let args = strings(&["--crate-name", "app", "-Cextra-filename=-abc"]);
    let inv = parse_rustc_args(&args).unwrap();
    assert_eq!(inv.extra_filename, "-abc");
}

#[test]
fn missing_crate_name_is_an_error() {
    let args = strings(&["--edition=2021", "src/main.rs"]);
    assert_eq!(parse_rustc_args(&args).unwrap_err(), WrapperError::MissingCrateName);
}

#[test]
fn dangling_flags_are_errors() {
    assert_eq!(
        parse_rustc_args(&strings(&["--extern"])).unwrap_err(),
        WrapperError::MissingExternArg
    );
    assert_eq!(
        parse_rustc_args(&strings(&["--crate-name"])).unwrap_err(),
        WrapperError::MissingCrateNameArg
    );
    assert_eq!(
        parse_rustc_args(&strings(&["--out-dir"])).unwrap_err(),
        WrapperError::MissingOutDirArg
    );
    assert_eq!(
        parse_rustc_args(&strings(&["--crate-name", "app", "-C"])).unwrap_err(),
        WrapperError::MissingCodegenArg
    );
    assert_eq!(
        parse_rustc_args(&strings(&["--crate-name", "app", "-C", "extra-filename"])).unwrap_err(),
        WrapperError::MissingExtraFilenameValue
    );
}

#[test]
fn ordinary_invocation_is_forwarded_unchanged_behind_stack_sizes() {
    let args = strings(&["--crate-name", "app", "src/main.rs", "--out-dir", "/t/out"]);
    let plan = wrapper_plan(&args).unwrap();
    assert!(plan.marker_lines.is_empty());
    let mut expected = vec!["-Zemit-stack-sizes".to_string()];
    expected.extend(args.iter().cloned());
    assert_eq!(plan.forward_args, expected);
}

#[test]
fn runtime_support_invocation_emits_both_markers() {
    let args = strings(&[
        "--crate-name",
        "compiler_builtins",
        "lib.rs",
        "--out-dir",
        "/t/out",
        "-C",
        "extra-filename=-abc123",
        "--extern",
        "noprelude:core=/sysroot/libcore.rlib",
        "--extern",
        "compiler_builtins=/t/deps/libcompiler_builtins-abc123.rlib",
    ]);
    let plan = wrapper_plan(&args).unwrap();
    assert_eq!(
        plan.marker_lines,
        strings(&[
            "@CARGO_CALL_STACK:compiler_builtins_rlib_path@/t/deps/libcompiler_builtins-abc123.rlib",
            "@CARGO_CALL_STACK:compiler_builtins_ll_path@/t/out/compiler_builtins-abc123.ll",
        ])
    );
    let mut expected = strings(&["--emit=llvm-ir", "-Zemit-stack-sizes"]);
    expected.extend(args.iter().cloned());
    assert_eq!(plan.forward_args, expected);
}

#[test]
fn runtime_support_invocation_without_out_dir_is_an_error() {
    let args = strings(&["--crate-name", "compiler_builtins", "lib.rs"]);
    assert_eq!(wrapper_plan(&args).unwrap_err(), WrapperError::MissingOutDir);
}

#[test]
fn emitted_markers_round_trip_through_the_reader() {
    let args = strings(&[
        "--crate-name",
        "compiler_builtins",
        "--out-dir",
        "/t/out",
        "--extern",
        "compiler_builtins=/t/deps/libcompiler_builtins.rlib",
    ]);
    let plan = wrapper_plan(&args).unwrap();
    let (paths, echoed) = scan_lines(&plan.marker_lines);
    assert!(echoed.is_empty());
    assert_eq!(paths.rlib.as_deref(), Some("/t/deps/libcompiler_builtins.rlib"));
    assert_eq!(paths.ll.as_deref(), Some("/t/out/compiler_builtins.ll"));
}

#[test]
fn rust_source_extension_is_recognized() {
    assert!(is_rust_source("src/main.rs"));
    assert!(is_rust_source("a.rs"));
    assert!(is_rust_source("deep/ly/nested/mod.rs"));
    assert!(!is_rust_source("src/main.rs.bak"));
    assert!(!is_rust_source("README.md"));
    assert!(!is_rust_source("src/.rs"));
    assert!(!is_rust_source("rs"));
    assert!(!is_rust_source("dir.rs/file.c"));
}

#[test]
fn entry_candidates_are_ordered_main_then_lib() {
    let (main_entry, lib_entry) = entry_file_candidates("/proj");
    assert_eq!(main_entry, "/proj/src/main.rs");
    assert_eq!(lib_entry, "/proj/src/lib.rs");
}

#[test]
fn walk_starts_in_src_when_it_exists() {
    assert_eq!(walk_root("/proj", true), "/proj/src");
    assert_eq!(walk_root("/proj", false), "/proj");
}

#[test]
fn main_entry_wins_when_present() {
    let entries = strings(&["/proj/src/other.rs"]);
    assert_eq!(rebuild_touch_target(true, true, &entries), TouchTarget::MainEntry);
    assert_eq!(rebuild_touch_target(true, false, &entries), TouchTarget::MainEntry);
}

#[test]
fn lib_entry_is_touched_only_without_main() {
    let entries = strings(&["/proj/src/other.rs"]);
    assert_eq!(rebuild_touch_target(false, true, &entries), TouchTarget::LibEntry);
}

#[test]
fn walk_picks_the_first_source_file_only_when_both_entries_are_absent() {
    let entries = strings(&[
        "/proj/Cargo.toml",
        "/proj/src",
        "/proj/src/bin/tool.rs",
        "/proj/src/other.rs",
    ]);
    assert_eq!(rebuild_touch_target(false, false, &entries), TouchTarget::Walked(2));
    assert_eq!(first_rust_source(&entries), Some(2));
}

#[test]
fn no_qualifying_file_forces_nothing() {
    let entries = strings(&["/proj/Cargo.toml", "/proj/README.md"]);
    assert_eq!(rebuild_touch_target(false, false, &entries), TouchTarget::NothingFound);
    assert_eq!(first_rust_source(&entries), None);
}
