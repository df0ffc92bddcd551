use cargo_linkargs::command::rewrite_command;
use cargo_linkargs::LinkArgsEngine;
use cargo_util::ProcessBuilder;

fn strings(items: &[&str]) -> Vec<String> {
    items.iter().map(|s| s.to_string()).collect()
}

fn args_of(cmd: &ProcessBuilder) -> Vec<String> {
    cmd.get_args().map(|arg| arg.to_str().unwrap().to_string()).collect()
}

fn engine(targets: &[&str], link_args: Option<&str>, print_link_args: bool) -> LinkArgsEngine {
    LinkArgsEngine::new(strings(targets), link_args.map(|s| s.to_string()), print_link_args)
}

#[test]
fn command_of_eligible_binary_is_extended_in_place() {
    let mut cmd = ProcessBuilder::new("rustc");
    cmd.args(&["--crate-name", "test_bin", "--crate-type", "bin"]);
    rewrite_command(&mut cmd, &engine(&["test_bin"], Some("-first --num 2"), true));
    assert_eq!(
        args_of(&cmd),
        strings(&[
            "--crate-name",
            "test_bin",
            "--crate-type",
            "bin",
            "-C",
            "link-args=-first --num 2",
            "-Z",
            "print-link-args",
        ])
    );
    assert_eq!(cmd.get_program().to_str(), Some("rustc"));
}

#[test]
fn command_of_other_crate_is_left_alone() {
    let mut cmd = ProcessBuilder::new("rustc");
    cmd.args(&["--crate-name", "test_bin", "--crate-type", "bin"]);
    cmd.env("RUSTFLAGS", "-g");
    rewrite_command(&mut cmd, &engine(&["test_lib"], Some("-first --num 2"), true));
    assert_eq!(args_of(&cmd), strings(&["--crate-name", "test_bin", "--crate-type", "bin"]));
    assert_eq!(cmd.get_env("RUSTFLAGS").and_then(|v| v.to_str().map(String::from)), Some("-g".to_string()));
}

#[test]
fn command_of_library_is_left_alone() {
    let mut cmd = ProcessBuilder::new("rustc");
    cmd.args(&["--crate-name", "app", "--crate-type", "lib"]);
    rewrite_command(&mut cmd, &engine(&["app"], Some("-lm"), true));
    assert_eq!(args_of(&cmd), strings(&["--crate-name", "app", "--crate-type", "lib"]));
}

#[test]
fn command_without_arguments_is_left_alone() {
    let mut cmd = ProcessBuilder::new("rustc");
    rewrite_command(&mut cmd, &engine(&["app"], Some("-lm"), true));
    assert!(args_of(&cmd).is_empty());
}

#[test]
fn wrapped_command_is_matched_by_what_it_passes_on() {
    let mut cmd = ProcessBuilder::new("rustc");
    cmd.args(&["--crate-name", "app", "--crate-type", "bin"]);
    let mut cmd = cmd.wrapped(Some("sccache"));
    let before = args_of(&cmd);
    assert_eq!(before, strings(&["rustc", "--crate-name", "app", "--crate-type", "bin"]));
    rewrite_command(&mut cmd, &engine(&["app"], None, true));
    assert_eq!(
        args_of(&cmd),
        strings(&["rustc", "--crate-name", "app", "--crate-type", "bin", "-Z", "print-link-args"])
    );
}

#[test]
fn injection_lists_what_is_appended() {
    assert_eq!(
        engine(&["app"], Some("-a -b"), true).injection(),
        strings(&["-C", "link-args=-a -b", "-Z", "print-link-args"])
    );
    assert_eq!(engine(&[], Some("-a -b"), false).injection(), strings(&["-C", "link-args=-a -b"]));
    assert_eq!(engine(&["app"], None, true).injection(), strings(&["-Z", "print-link-args"]));
    assert!(engine(&["app"], None, false).injection().is_empty());
}
