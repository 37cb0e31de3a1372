use call_stack_driver::OutputFormat;
use call_stack_driver::args::{select_artifact, resolve_target, ArtifactKind};
use call_stack_driver::errors::{DriverError, WrapperError};
use call_stack_driver::handoff::{follow_up, symbol_prefix, BuildFollowUp};
use call_stack_driver::probe::cfg_reports_no_std;
use call_stack_driver::protocol::{read_line, scan_lines, MarkerPaths};

fn strings(v: &[&str]) -> Vec<String> {
    v.iter().map(|s| s.to_string()).collect()
}

const RLIB_MARKER: &str = "@CARGO_CALL_STACK:compiler_builtins_rlib_path@";
const LL_MARKER: &str = "@CARGO_CALL_STACK:compiler_builtins_ll_path@";

#[test]
fn neither_selector_is_a_configuration_error() {
    let r = select_artifact(None, None);
    assert!(matches!(r, Err(DriverError::BothOrNeitherArtifact)));
}

#[test]
fn both_selectors_are_a_configuration_error() {
    let r = select_artifact(Some("a".to_string()), Some("b".to_string()));
    assert!(matches!(r, Err(DriverError::BothOrNeitherArtifact)));
}

#[test]
fn example_selector_alone_is_accepted() {
    let sel = select_artifact(Some("blinky".to_string()), None).unwrap();
    assert_eq!(sel.kind, ArtifactKind::Example);
    assert_eq!(sel.name, "blinky");
}

#[test]
fn bin_selector_alone_is_accepted() {
    let sel = select_artifact(None, Some("app".to_string())).unwrap();
    assert_eq!(sel.kind, ArtifactKind::Bin);
    assert_eq!(sel.name, "app");
}

#[test]
fn configuration_error_message() {
    assert_eq!(
        DriverError::BothOrNeitherArtifact.message(),
        "Please specify either --example <NAME> or --bin <NAME>."
    );
}

#[test]
fn explicit_target_flag_wins() {
    let r = resolve_target(
        &Some("thumbv7m-none-eabi".to_string()),
        &Some("riscv32i-unknown-none-elf".to_string()),
        &"x86_64-unknown-linux-gnu".to_string(),
    );
    assert_eq!(r, "thumbv7m-none-eabi");
}

#[test]
fn project_target_beats_host() {
    let r = resolve_target(
        &None,
        &Some("riscv32i-unknown-none-elf".to_string()),
        &"x86_64-unknown-linux-gnu".to_string(),
    );
    assert_eq!(r, "riscv32i-unknown-none-elf");
}

#[test]
fn host_is_the_last_resort() {
    let r = resolve_target(&None, &None, &"x86_64-unknown-linux-gnu".to_string());
    assert_eq!(r, "x86_64-unknown-linux-gnu");
}

#[test]
fn bare_metal_target_is_detected() {
    let lines = strings(&[
        "debug_assertions",
        "panic=\"abort\"",
        "target_arch=\"arm\"",
        "target_os=\"none\"",
        "target_pointer_width=\"32\"",
    ]);
    assert!(cfg_reports_no_std(&lines));
}

#[test]
fn hosted_target_is_not_bare_metal() {
    let lines = strings(&[
        "debug_assertions",
        "target_arch=\"x86_64\"",
        "target_os=\"linux\"",
        "target_pointer_width=\"64\"",
    ]);
    assert!(!cfg_reports_no_std(&lines));
}

#[test]
fn empty_cfg_dump_is_not_bare_metal() {
    assert!(!cfg_reports_no_std(&Vec::new()));
}

#[test]
fn ordinary_lines_are_echoed_in_order() {
    let lines = strings(&[
        "   Compiling app v0.1.0",
        &format!("{}/target/libcompiler_builtins.rlib", RLIB_MARKER),
        "warning: unused variable",
        &format!("{}/target/compiler_builtins.ll", LL_MARKER),
        "    Finished release",
    ]);
    let (paths, echoed) = scan_lines(&lines);
    assert_eq!(
        echoed,
        strings(&[
            "   Compiling app v0.1.0",
            "warning: unused variable",
            "    Finished release",
        ])
    );
    assert_eq!(paths.rlib.as_deref(), Some("/target/libcompiler_builtins.rlib"));
    assert_eq!(paths.ll.as_deref(), Some("/target/compiler_builtins.ll"));
}

#[test]
fn marker_suffix_is_taken_byte_for_byte() {
    let lines = strings(&[
        &format!("{}/pa th/with  spaces.rlib ", RLIB_MARKER),
        &format!("{} leading-space.ll", LL_MARKER),
    ]);
    let (paths, echoed) = scan_lines(&lines);
    assert!(echoed.is_empty());
    assert_eq!(paths.rlib.as_deref(), Some("/pa th/with  spaces.rlib "));
    assert_eq!(paths.ll.as_deref(), Some(" leading-space.ll"));
}

#[test]
fn almost_marker_lines_are_echoed() {
    let lines = strings(&[
        "@CARGO_CALL_STACK:compiler_builtins_rlib_path/x",
        "@CARGO_CALL_STACK:",
        "",
    ]);
    let (paths, echoed) = scan_lines(&lines);
    assert_eq!(echoed, lines);
    assert!(paths.rlib.is_none());
    assert!(paths.ll.is_none());
}

#[test]
fn later_marker_line_overwrites_earlier() {
    let lines = strings(&[
        &format!("{}first.rlib", RLIB_MARKER),
        &format!("{}second.rlib", RLIB_MARKER),
    ]);
    let (paths, _) = scan_lines(&lines);
    assert_eq!(paths.rlib.as_deref(), Some("second.rlib"));
}

#[test]
fn read_line_reports_what_to_echo() {
    let mut state = MarkerPaths::empty();
    assert!(read_line(&mut state, "   Compiling core v0.0.0"));
    assert!(!read_line(&mut state, &format!("{}/x.rlib", RLIB_MARKER)));
    assert!(!read_line(&mut state, &format!("{}/x.ll", LL_MARKER)));
    assert_eq!(state.rlib.as_deref(), Some("/x.rlib"));
    assert_eq!(state.ll.as_deref(), Some("/x.ll"));
}

#[test]
fn failed_build_forwards_its_exit_code() {
    let state = MarkerPaths {
        rlib: Some("/x.rlib".to_string()),
        ll: Some("/x.ll".to_string()),
    };
    let r = follow_up(
        false,
        Some(101),
        state,
        "/t/app".to_string(),
        "app",
        "x86_64-unknown-linux-gnu".to_string(),
        None,
        OutputFormat::Dot,
    );
    assert!(matches!(r, BuildFollowUp::Forward(101)));
}

#[test]
fn killed_build_forwards_code_one() {
    let r = follow_up(
        false,
        None,
        MarkerPaths::empty(),
        "/t/app".to_string(),
        "app",
        "x86_64-unknown-linux-gnu".to_string(),
        None,
        OutputFormat::Dot,
    );
    assert!(matches!(r, BuildFollowUp::Forward(1)));
}

#[test]
fn successful_build_without_markers_is_a_missing_artifact_error() {
    let r = follow_up(
        true,
        Some(0),
        MarkerPaths::empty(),
        "/t/app".to_string(),
        "app",
        "x86_64-unknown-linux-gnu".to_string(),
        None,
        OutputFormat::Dot,
    );
    assert!(matches!(r, BuildFollowUp::Fail(DriverError::RuntimeLibNotLinked)));
}

#[test]
fn missing_ir_path_is_its_own_error() {
    let state = MarkerPaths { rlib: Some("/x.rlib".to_string()), ll: None };
    let r = follow_up(
        true,
        Some(0),
        state,
        "/t/app".to_string(),
        "app",
        "x86_64-unknown-linux-gnu".to_string(),
        None,
        OutputFormat::Dot,
    );
    assert!(matches!(r, BuildFollowUp::Fail(DriverError::RuntimeLibIrUnavailable)));
}

#[test]
fn missing_artifact_error_messages() {
    assert_eq!(
        DriverError::RuntimeLibNotLinked.message(),
        "`compiler_builtins` was not linked"
    );
    assert_eq!(
        DriverError::RuntimeLibIrUnavailable.message(),
        "`compiler_builtins` LLVM IR unavailable"
    );
}

#[test]
fn successful_build_with_both_paths_yields_an_analyzer_request() {
    let state = MarkerPaths {
        rlib: Some("/x.rlib".to_string()),
        ll: Some("/x.ll".to_string()),
    };
    let r = follow_up(
        true,
        Some(0),
        state,
        "/t/release/examples/my-app".to_string(),
        "my-app",
        "thumbv7m-none-eabi".to_string(),
        Some("main".to_string()),
        OutputFormat::Top,
    );
    match r {
        BuildFollowUp::Analyze(req) => {
            assert_eq!(req.artifact_path, "/t/release/examples/my-app");
            assert_eq!(req.rlib_path, "/x.rlib");
            assert_eq!(req.ll_path, "/x.ll");
            assert_eq!(req.target, "thumbv7m-none-eabi");
            assert_eq!(req.prefix, "my_app-");
            assert_eq!(req.start.as_deref(), Some("main"));
            assert_eq!(req.format, OutputFormat::Top);
        }
        _ => panic!("expected an analyzer request"),
    }
}

#[test]
fn prefix_replaces_every_hyphen_and_appends_one_separator() {
    assert_eq!(symbol_prefix("my-cool-app"), "my_cool_app-");
    assert_eq!(symbol_prefix("app"), "app-");
    assert_eq!(symbol_prefix(""), "-");
    assert_eq!(symbol_prefix("a--b"), "a__b-");
}

#[test]
fn wrapper_error_messages() {
    assert_eq!(
        WrapperError::MissingCrateName.message(),
        "missing `--crate-name` argument"
    );
    assert_eq!(
        WrapperError::MissingOutDir.message(),
        "missing `--out-dir` argument"
    );
    assert_eq!(
        WrapperError::MissingExtraFilenameValue.message(),
        "missing value for `-Cextra-filename`"
    );
}
