use clippy_shim::compose::{compose_command_args, plan_subcommand, SubcommandPlan};
use clippy_shim::defaults::build_cargo_clippy_args;
use clippy_shim::exit::{exit_code_from_i32, exit_code_from_parts};
use clippy_shim::flags::{detect_flags, strip_workspace_if_contradictory};
use clippy_shim::split::split_args_on_double_dash;

fn count(args: &[String], needle: &str) -> usize {
    args.iter().filter(|arg| arg.as_str() == needle).count()
}

fn strings(args: &[&str]) -> Vec<String> {
    args.iter().map(|arg| (*arg).to_string()).collect()
}

#[test]
fn split_args_without_double_dash() {
    let (cargo, clippy) = split_args_on_double_dash(vec!["--workspace".to_string()]);
    assert_eq!(cargo, vec!["--workspace".to_string()]);
    assert!(clippy.is_empty());
}

#[test]
fn split_args_with_double_dash() {
    let (cargo, clippy) = split_args_on_double_dash(vec![
        "--workspace".to_string(),
        "--".to_string(),
        "-Aclippy::all".to_string(),
    ]);
    assert_eq!(cargo, vec!["--workspace".to_string()]);
    assert_eq!(clippy, vec!["-Aclippy::all".to_string()]);
}

#[test]
fn detect_flags_recognizes_package_and_manifest_path() {
    let args = vec![
        "-p".to_string(),
        "foo".to_string(),
        "--manifest-path=bar/Cargo.toml".to_string(),
    ];
    let flags = detect_flags(&args);
    assert!(flags.scope.has_package);
    assert!(flags.scope.has_manifest_path);
}

#[test]
fn strip_workspace_when_package_is_present() {
    let args = vec!["--workspace".to_string(), "-p".to_string(), "x".to_string()];
    let flags = detect_flags(&args);
    let stripped = strip_workspace_if_contradictory(args, flags);
    assert_eq!(count(&stripped, "--workspace"), 0);
}

#[test]
fn build_defaults_for_workspace_root() {
    let user_args = Vec::<String>::new();
    let flags = detect_flags(&user_args);
    let out = build_cargo_clippy_args(Vec::new(), user_args, flags, true);

    assert!(out.iter().any(|a| a == "--workspace"));
    assert!(out.iter().any(|a| a == "--all-targets"));
    assert!(out.iter().any(|a| a == "--no-deps"));
    assert!(out.iter().any(|a| a == "--all-features"));
}

#[test]
fn does_not_force_workspace_outside_root() {
    let user_args = Vec::<String>::new();
    let flags = detect_flags(&user_args);
    let out = build_cargo_clippy_args(Vec::new(), user_args, flags, false);
    assert!(!out.iter().any(|a| a == "--workspace"));
}

#[test]
fn does_not_duplicate_no_deps_if_user_provided_it() {
    let user_args = vec!["--no-deps".to_string()];
    let flags = detect_flags(&user_args);
    let out = build_cargo_clippy_args(Vec::new(), user_args, flags, true);
    assert_eq!(count(&out, "--no-deps"), 1);
}

#[test]
fn does_not_add_all_targets_if_user_selected_target() {
    let user_args = vec!["--lib".to_string()];
    let flags = detect_flags(&user_args);
    let out = build_cargo_clippy_args(Vec::new(), user_args, flags, true);
    assert_eq!(count(&out, "--all-targets"), 0);
}

#[test]
fn does_not_add_all_features_if_user_selected_features() {
    let user_args = vec!["--features".to_string(), "foo".to_string()];
    let flags = detect_flags(&user_args);
    let out = build_cargo_clippy_args(Vec::new(), user_args, flags, true);
    assert_eq!(count(&out, "--all-features"), 0);
}

#[test]
fn split_of_empty_input_yields_two_empty_lists() {
    let (cargo, clippy) = split_args_on_double_dash(Vec::new());
    assert!(cargo.is_empty());
    assert!(clippy.is_empty());
}

#[test]
fn split_treats_later_separators_as_ordinary_tokens() {
    let (cargo, clippy) = split_args_on_double_dash(strings(&["a", "--", "b", "--", "c"]));
    assert_eq!(cargo, strings(&["a"]));
    assert_eq!(clippy, strings(&["b", "--", "c"]));
}

#[test]
fn detect_flags_is_idempotent() {
    let args = strings(&["--workspace", "--features=foo", "-pbar", "--bin=baz"]);
    let first = detect_flags(&args);
    let second = detect_flags(&args);
    assert_eq!(first, second);
}

#[test]
fn detect_flags_recognizes_joined_and_attached_forms() {
    let args = strings(&["-pfoo", "--features=x", "--bin=tool"]);
    let flags = detect_flags(&args);
    assert!(flags.scope.has_package);
    assert!(flags.feature_selection.has_features);
    assert!(flags.has_target_selection);
    assert!(!flags.scope.has_workspace);
    assert!(!flags.has_no_deps);
}

#[test]
fn detect_flags_on_empty_list_sets_nothing() {
    let args = Vec::<String>::new();
    let flags = detect_flags(&args);
    assert!(!flags.scope.has_package);
    assert!(!flags.scope.has_workspace);
    assert!(!flags.scope.has_manifest_path);
    assert!(!flags.feature_selection.has_all_features);
    assert!(!flags.feature_selection.has_features);
    assert!(!flags.feature_selection.has_no_default_features);
    assert!(!flags.has_no_deps);
    assert!(!flags.has_target_selection);
}

#[test]
fn built_output_has_no_workspace_when_narrow_scope_given() {
    let args = strings(&["-p", "x", "--workspace"]);
    let flags = detect_flags(&args);
    let stripped = strip_workspace_if_contradictory(args, flags);
    let out = build_cargo_clippy_args(Vec::new(), stripped, flags, true);
    assert_eq!(count(&out, "--workspace"), 0);
}

#[test]
fn manifest_path_also_strips_workspace() {
    let args = strings(&["--manifest-path", "a/Cargo.toml", "--workspace"]);
    let flags = detect_flags(&args);
    let stripped = strip_workspace_if_contradictory(args, flags);
    assert_eq!(count(&stripped, "--workspace"), 0);
}

#[test]
fn compose_lint_invocation_end_to_end() {
    let out = compose_command_args(
        Vec::new(),
        strings(&["--workspace", "--", "-Aclippy::all"]),
        true,
    );
    assert_eq!(
        out,
        strings(&[
            "clippy",
            "--all-targets",
            "--no-deps",
            "--all-features",
            "--workspace",
            "--",
            "-Aclippy::all",
            "-Dclippy::all",
            "-Dclippy::pedantic",
        ])
    );
}

#[test]
fn compose_fixit_prefix_comes_first() {
    let prefix = match plan_subcommand(&"fixit".to_string()) {
        SubcommandPlan::Invoke { prefix } => prefix,
        _ => panic!("fixit must be an invocation"),
    };
    let out = compose_command_args(prefix, Vec::new(), true);
    assert_eq!(
        &out[..4],
        &strings(&["clippy", "--fix", "--allow-dirty", "--allow-staged"])[..]
    );
}

#[test]
fn compose_defaults_with_empty_args_at_root() {
    let out = compose_command_args(Vec::new(), Vec::new(), true);
    assert_eq!(
        out,
        strings(&[
            "clippy",
            "--workspace",
            "--all-targets",
            "--no-deps",
            "--all-features",
            "--",
            "-Dclippy::all",
            "-Dclippy::pedantic",
        ])
    );
}

#[test]
fn compose_defaults_with_empty_args_outside_root() {
    let out = compose_command_args(Vec::new(), Vec::new(), false);
    assert_eq!(count(&out, "--workspace"), 0);
    assert_eq!(count(&out, "--all-targets"), 1);
    assert_eq!(count(&out, "--no-deps"), 1);
    assert_eq!(count(&out, "--all-features"), 1);
}

#[test]
fn plan_lint_has_no_prefix() {
    let plan = plan_subcommand(&"lint".to_string());
    match plan {
        SubcommandPlan::Invoke { prefix } => assert!(prefix.is_empty()),
        _ => panic!("lint must be an invocation"),
    }
}

#[test]
fn plan_help_spellings_show_help() {
    assert!(matches!(plan_subcommand(&"help".to_string()), SubcommandPlan::ShowHelp));
    assert!(matches!(plan_subcommand(&"-h".to_string()), SubcommandPlan::ShowHelp));
    assert!(matches!(plan_subcommand(&"--help".to_string()), SubcommandPlan::ShowHelp));
}

#[test]
fn plan_unknown_subcommand_is_rejected() {
    assert!(matches!(plan_subcommand(&"frobnicate".to_string()), SubcommandPlan::Reject));
    assert!(matches!(plan_subcommand(&"".to_string()), SubcommandPlan::Reject));
}

#[test]
fn exit_code_clamps_into_byte_range() {
    assert_eq!(exit_code_from_i32(0), 0);
    assert_eq!(exit_code_from_i32(101), 101);
    assert_eq!(exit_code_from_i32(255), 255);
    assert_eq!(exit_code_from_i32(-3), 0);
    assert_eq!(exit_code_from_i32(300), 255);
}

#[test]
fn exit_code_prefers_code_then_signal_then_one() {
    assert_eq!(exit_code_from_parts(Some(7), Some(9)), 7);
    assert_eq!(exit_code_from_parts(None, Some(9)), 137);
    assert_eq!(exit_code_from_parts(None, Some(200)), 255);
    assert_eq!(exit_code_from_parts(None, Some(-200)), 0);
    assert_eq!(exit_code_from_parts(None, None), 1);
}
