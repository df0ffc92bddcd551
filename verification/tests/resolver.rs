use cargo_linkargs::matching::{crate_name_matches, has_flag_with_value_in, is_binary};
use cargo_linkargs::plan::{
    choose_filter, eligible_example_names, exit_code, plan_build, select_examples, BuildOptions,
    CompileFilter,
};
use cargo_linkargs::{append_linkargs, Invocation};
use cargo_linkargs::resolver::{get_target_names, normalize_name, Target, TargetKind};
use cargo_linkargs::text::{clone_strings, contains_text};

fn strings(items: &[&str]) -> Vec<String> {
    items.iter().map(|s| s.to_string()).collect()
}

fn target(name: &str, kind: TargetKind) -> Target {
    Target { name: name.to_string(), kind }
}

fn options(example: Option<&str>, build_examples: bool, lib_only: bool) -> BuildOptions {
    BuildOptions {
        example: example.map(|s| s.to_string()),
        build_examples,
        lib_only,
        link_args: Some("-lm".to_string()),
        print_link_args: true,
    }
}

#[test]
fn normalize_replaces_every_hyphen() {
    assert_eq!(normalize_name("my-tool"), "my_tool");
    assert_eq!(normalize_name("a-b-c"), "a_b_c");
    assert_eq!(normalize_name("--"), "__");
    assert_eq!(normalize_name("-x-"), "_x_");
}

#[test]
fn normalize_keeps_everything_else() {
    assert_eq!(normalize_name(""), "");
    assert_eq!(normalize_name("plain"), "plain");
    assert_eq!(normalize_name("already_fine"), "already_fine");
    assert_eq!(normalize_name("Caf\u{e9}-\u{4e16}\u{754c} x"), "Caf\u{e9}_\u{4e16}\u{754c} x");
    assert_eq!(normalize_name("a\u{2010}b"), "a\u{2010}b");
}

#[test]
fn normalize_twice_is_normalize_once() {
    let once = normalize_name("my-cool-tool");
    assert_eq!(normalize_name(&once), once);
}

#[test]
fn target_names_are_split_by_kind_in_order() {
    let targets = vec![
        target("my-lib", TargetKind::Library),
        target("tool-b", TargetKind::Binary),
        target("demo-one", TargetKind::Example),
        target("it-works", TargetKind::Test),
        target("tool-a", TargetKind::Binary),
        target("speed", TargetKind::Bench),
        target("demo_two", TargetKind::Example),
        target("build-script-build", TargetKind::BuildScript),
    ];
    let (examples, bins) = get_target_names(&targets);
    assert_eq!(examples, strings(&["demo_one", "demo_two"]));
    assert_eq!(bins, strings(&["tool_b", "tool_a"]));
}

#[test]
fn library_only_package_has_no_names() {
    let targets = vec![target("my-lib", TargetKind::Library)];
    let (examples, bins) = get_target_names(&targets);
    assert!(examples.is_empty());
    assert!(bins.is_empty());
    let (examples, bins) = get_target_names(&Vec::new());
    assert!(examples.is_empty());
    assert!(bins.is_empty());
}

#[test]
fn target_kind_predicates() {
    assert!(target("a", TargetKind::Binary).is_bin());
    assert!(!target("a", TargetKind::Binary).is_example());
    assert!(target("a", TargetKind::Example).is_example());
    assert!(!target("a", TargetKind::Example).is_bin());
    for kind in [TargetKind::Library, TargetKind::Test, TargetKind::Bench, TargetKind::BuildScript] {
        assert!(!target("a", kind).is_bin());
        assert!(!target("a", kind).is_example());
    }
}

#[test]
fn named_example_wins_over_all_examples() {
    let all = strings(&["demo_one", "demo_two"]);
    assert_eq!(
        select_examples(Some("demo-one".to_string()), true, all.clone()),
        strings(&["demo-one"])
    );
    assert_eq!(
        select_examples(Some("other".to_string()), false, all.clone()),
        strings(&["other"])
    );
    assert_eq!(select_examples(None, true, all.clone()), all);
    assert!(select_examples(None, false, all).is_empty());
    assert!(select_examples(None, true, Vec::new()).is_empty());
}

#[test]
fn filter_follows_the_options() {
    let some = strings(&["demo"]);
    assert!(matches!(choose_filter(true, &some), CompileFilter::LibraryOnly));
    assert!(matches!(choose_filter(true, &Vec::new()), CompileFilter::LibraryOnly));
    assert!(matches!(choose_filter(false, &Vec::new()), CompileFilter::Everything));
    match choose_filter(false, &some) {
        CompileFilter::LibraryAndExamples(names) => assert_eq!(names, some),
        other => panic!("unexpected filter {:?}", other),
    }
}

#[test]
fn plan_puts_binaries_before_examples() {
    let plan = plan_build(
        options(None, true, false),
        strings(&["demo_one", "demo_two"]),
        strings(&["tool_a", "tool_b"]),
    );
    assert_eq!(plan.engine.targets, strings(&["tool_a", "tool_b", "demo_one", "demo_two"]));
    assert_eq!(plan.engine.link_args, Some("-lm".to_string()));
    assert!(plan.engine.print_link_args);
    match plan.filter {
        CompileFilter::LibraryAndExamples(names) => {
            assert_eq!(names, strings(&["demo_one", "demo_two"]))
        }
        other => panic!("unexpected filter {:?}", other),
    }
}

#[test]
fn named_example_is_eligible_under_its_crate_name() {
    let plan = plan_build(options(Some("my-ex"), false, false), strings(&["my_ex"]), strings(&["app"]));
    assert_eq!(plan.engine.targets, strings(&["app", "my_ex"]));
    assert!(plan.engine.targets.iter().all(|name| !name.contains('-')));
    match plan.filter {
        CompileFilter::LibraryAndExamples(names) => assert_eq!(names, strings(&["my-ex"])),
        other => panic!("unexpected filter {:?}", other),
    }
    let mut cmd = Invocation::new("rustc");
    cmd.args(&strings(&["--crate-name", "my_ex", "--crate-type", "bin"]));
    let out = append_linkargs(cmd, &plan.engine);
    assert_eq!(
        out.get_args(),
        &strings(&[
            "--crate-name",
            "my_ex",
            "--crate-type",
            "bin",
            "-C",
            "link-args=-lm",
            "-Z",
            "print-link-args",
        ])
    );
}

#[test]
fn eligible_examples_are_crate_names() {
    let all = strings(&["demo_one", "demo_two"]);
    assert_eq!(
        eligible_example_names(&Some("demo-one".to_string()), true, &all),
        strings(&["demo_one"])
    );
    assert_eq!(
        eligible_example_names(&Some("a-b-c".to_string()), false, &Vec::new()),
        strings(&["a_b_c"])
    );
    assert_eq!(eligible_example_names(&None, true, &all), all);
    assert!(eligible_example_names(&None, false, &all).is_empty());
}

#[test]
fn plan_without_examples_builds_everything() {
    let plan = plan_build(options(None, false, false), strings(&["demo"]), strings(&["tool"]));
    assert_eq!(plan.engine.targets, strings(&["tool"]));
    assert!(matches!(plan.filter, CompileFilter::Everything));
}

#[test]
fn plan_for_library_only_keeps_the_targets() {
    let plan = plan_build(options(Some("demo"), false, true), strings(&["x"]), strings(&["tool"]));
    assert_eq!(plan.engine.targets, strings(&["tool", "demo"]));
    assert!(matches!(plan.filter, CompileFilter::LibraryOnly));
}

#[test]
fn plan_for_library_only_project_has_no_targets() {
    let mut opts = options(None, true, false);
    opts.link_args = None;
    opts.print_link_args = false;
    let plan = plan_build(opts, Vec::new(), Vec::new());
    assert!(plan.engine.targets.is_empty());
    assert_eq!(plan.engine.link_args, None);
    assert!(!plan.engine.print_link_args);
    assert!(matches!(plan.filter, CompileFilter::Everything));
}

#[test]
fn exit_codes() {
    assert_eq!(exit_code(true), 101);
    assert_eq!(exit_code(false), 0);
}

#[test]
fn scanning_for_flag_and_value() {
    let args = strings(&["-a", "x", "-b", "y", "-a"]);
    assert!(has_flag_with_value_in(&args, "-a", &strings(&["z", "x"])));
    assert!(has_flag_with_value_in(&args, "-b", &strings(&["y"])));
    assert!(!has_flag_with_value_in(&args, "-a", &strings(&["y"])));
    assert!(!has_flag_with_value_in(&args, "-a", &strings(&[])));
    assert!(!has_flag_with_value_in(&args, "x", &strings(&["x"])));
    assert!(has_flag_with_value_in(&args, "x", &strings(&["-b"])));
    assert!(!has_flag_with_value_in(&strings(&["-a"]), "-a", &strings(&["-a"])));
    assert!(crate_name_matches(&strings(&["--crate-name", "app"]), &strings(&["app"])));
    assert!(!crate_name_matches(&strings(&["--crate-type", "app"]), &strings(&["app"])));
    assert!(is_binary(&strings(&["--crate-type", "bin"])));
    assert!(!is_binary(&strings(&["--crate-name", "bin"])));
    assert!(!is_binary(&strings(&["--crate-type", "lib"])));
}

#[test]
fn text_helpers() {
    let names = strings(&["a", "b", ""]);
    assert_eq!(clone_strings(&names), names);
    assert!(contains_text(&names, &"b".to_string()));
    assert!(contains_text(&names, &String::new()));
    assert!(!contains_text(&names, &"B".to_string()));
    assert!(!contains_text(&Vec::new(), &"a".to_string()));
}
