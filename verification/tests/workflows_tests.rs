use xtask_workflows::workflows::{
    run_workflows, workflow_file_contents, workflow_file_name, GenerateWorkflowArgs,
    WorkflowSource, WorkflowsError, PROJECT_ROOT_MARKER, WORKFLOWS_DIR,
};

#[test]
fn workflows_are_written_in_order_from_the_root() {
    let sources = run_workflows(GenerateWorkflowArgs {}, true).unwrap();
    assert_eq!(
        sources,
        vec![WorkflowSource::ComparePerf, WorkflowSource::RunBundling, WorkflowSource::RunTests]
    );
}

#[test]
fn workflows_are_refused_outside_the_root() {
    let err = run_workflows(GenerateWorkflowArgs {}, false).unwrap_err();
    assert_eq!(err, WorkflowsError::NotProjectRoot);
    assert_eq!(err.message(), "xtask workflows must be ran from the project root");
    assert_eq!(PROJECT_ROOT_MARKER, "crates/zed/");
    assert_eq!(WORKFLOWS_DIR, ".github/workflows");
}

#[test]
fn file_name_is_the_last_path_segment_of_the_workflow_name() {
    assert_eq!(
        workflow_file_name("xtask::tasks::workflows::run_bundling"),
        "run_bundling.yml"
    );
    assert_eq!(workflow_file_name("run_tests"), "run_tests.yml");
    assert_eq!(workflow_file_name("a:b"), "a:b.yml");
    assert_eq!(workflow_file_name("a:::b"), "b.yml");
    assert_eq!(workflow_file_name("ends::"), ".yml");
    assert_eq!(workflow_file_name(""), ".yml");
}

#[test]
fn file_name_matches_rsplit() {
    for name in ["x::y::z", "::", ":::", "a::b:c", "é::ü", "no_separator"] {
        let expected = format!("{}.yml", name.rsplit("::").next().unwrap_or(name));
        assert_eq!(workflow_file_name(name), expected);
    }
}

#[test]
fn contents_start_with_the_disclaimer() {
    let contents = workflow_file_contents("run_bundling", "name: run_bundling\n");
    assert_eq!(
        contents,
        "# Generated from xtask::workflows::run_bundling\n# Rebuild with `cargo xtask workflows`.\nname: run_bundling\n"
    );
}
