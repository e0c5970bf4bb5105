use gh_workflow::{Job, Expression};
use serde_json::Value;
use xtask_workflows::jobs::NamedJob;
use xtask_workflows::paths::file_name;
use xtask_workflows::run_bundling::{
    bundle_artifact, bundle_artifact_path, bundle_job, bundle_job_for, bundle_job_name, bundle_linux, bundle_mac,
    bundle_windows, mac_bundle_script, nix_job, remote_server_artifact,
    remote_server_artifact_path, run_bundling, run_bundling_env, upload_artifact,
    windows_bundle_script, BundleJob, BundleStep, PullRequestTrigger, ReleaseBundleJobs, Runner,
    BUNDLE_CONDITION, CONCURRENCY_GROUP, NIX_CONDITION,
};
use xtask_workflows::runners::{Arch, Platform};

fn named(name: &str) -> NamedJob {
    NamedJob { name: name.to_string(), job: Job::default() }
}

fn release_jobs() -> ReleaseBundleJobs {
    ReleaseBundleJobs {
        linux_aarch64: named("bundle_linux_aarch64"),
        linux_x86_64: named("bundle_linux_x86_64"),
        mac_aarch64: named("bundle_mac_aarch64"),
        mac_x86_64: named("bundle_mac_x86_64"),
        windows_aarch64: named("bundle_windows_aarch64"),
        windows_x86_64: named("bundle_windows_x86_64"),
    }
}

#[test]
fn into_jobs_lists_linux_mac_windows() {
    let names: Vec<String> = release_jobs().into_jobs().into_iter().map(|j| j.name).collect();
    assert_eq!(
        names,
        vec![
            "bundle_linux_aarch64",
            "bundle_linux_x86_64",
            "bundle_mac_aarch64",
            "bundle_mac_x86_64",
            "bundle_windows_aarch64",
            "bundle_windows_x86_64",
        ]
    );
}

fn carry_out(plan: BundleJob) -> Job {
    Job::new(plan.name).runs_on(format!("{:?}", plan.runner))
}

#[test]
fn run_bundling_assembles_the_workflow() {
    let w = run_bundling(&carry_out, &Job::default(), named("nix_linux"), named("nix_mac"));
    assert_eq!(w.triggers, vec![PullRequestTrigger::Labeled, PullRequestTrigger::Synchronize]);
    assert_eq!(w.concurrency_group, "${{ github.workflow }}-${{ github.head_ref || github.ref }}");
    assert_eq!(w.concurrency_group, CONCURRENCY_GROUP);
    assert!(w.cancel_in_progress);
    let names: Vec<String> = w.jobs.iter().map(|j| j.name.clone()).collect();
    assert_eq!(
        names,
        vec![
            "bundle_linux_aarch64",
            "bundle_linux_x86_64",
            "bundle_mac_aarch64",
            "bundle_mac_x86_64",
            "bundle_windows_aarch64",
            "bundle_windows_x86_64",
            "nix_linux",
            "nix_mac",
        ]
    );
    for job in &w.jobs[..6] {
        let expected = Job::new(job.name.clone())
            .runs_on(job.job.runs_on.clone().unwrap())
            .cond(Expression::new(BUNDLE_CONDITION))
            .timeout_minutes(60u32);
        assert_eq!(job.job, expected);
    }
    assert_eq!(w.jobs[0].job, carry_out(bundle_linux(Arch::AARCH64)).cond(Expression::new(BUNDLE_CONDITION)).timeout_minutes(60u32));
    assert_eq!(w.jobs[5].job, carry_out(bundle_windows(Arch::X86_64)).cond(Expression::new(BUNDLE_CONDITION)).timeout_minutes(60u32));
    for job in &w.jobs[6..] {
        assert_eq!(job.job, Job::default().cond(Expression::new(NIX_CONDITION)));
    }
    let env = w.env;
    assert_eq!(env.0.len(), 2);
    assert_eq!(env.0["CARGO_TERM_COLOR"], Value::from("always"));
    assert_eq!(env.0["RUST_BACKTRACE"], Value::from("1"));
}

#[test]
fn run_bundling_env_has_colour_and_backtraces() {
    let env = run_bundling_env();
    let keys: Vec<&String> = env.0.keys().collect();
    assert_eq!(keys, vec!["CARGO_TERM_COLOR", "RUST_BACKTRACE"]);
}

#[test]
fn bundle_job_without_dependencies_runs_on_the_label() {
    let job = bundle_job(Job::default(), &[]);
    assert_eq!(
        job,
        Job::default().cond(Expression::new(BUNDLE_CONDITION)).timeout_minutes(60u32)
    );
    assert_eq!(job.cond, Some(Expression::new(BUNDLE_CONDITION)));
    assert_eq!(job.timeout_minutes, Some(60));
    assert_eq!(
        job.cond.unwrap().0,
        "(github.event.action == 'labeled' && github.event.label.name == 'run-bundling') ||\n(github.event.action == 'synchronize' && contains(github.event.pull_request.labels.*.name, 'run-bundling'))"
    );
}

#[test]
fn bundle_job_with_dependencies_keeps_its_condition() {
    let dep = named("style");
    let base = Job::default().add_needs("style");
    let job = bundle_job(base.clone(), &[&dep]);
    assert_eq!(job, base.timeout_minutes(60u32));
    assert_eq!(job.cond, None);
    assert_eq!(job.timeout_minutes, Some(60));
    assert_eq!(job.needs, Some(vec!["style".to_string()]));
}

#[test]
fn bundle_job_for_without_dependencies_runs_on_the_label() {
    let r = bundle_job_for(&carry_out, Platform::Mac, Arch::AARCH64, &[], &Job::default());
    assert_eq!(r.name, "bundle_mac_aarch64");
    assert_eq!(
        r.job,
        carry_out(bundle_mac(Arch::AARCH64))
            .cond(Expression::new(BUNDLE_CONDITION))
            .timeout_minutes(60u32)
    );
    assert_eq!(r.job.needs, None);
    assert_eq!(r.job.runs_on, carry_out(bundle_mac(Arch::AARCH64)).runs_on);
}

#[test]
fn bundle_job_for_with_dependencies_waits_for_them() {
    let dep = named("style");
    let base = Job::default().add_needs("style");
    let r = bundle_job_for(&carry_out, Platform::Windows, Arch::X86_64, &[&dep], &base);
    assert_eq!(r.name, "bundle_windows_x86_64");
    assert_eq!(r.job.needs, Some(vec!["style".to_string()]));
    assert_eq!(r.job.cond, None);
    assert_eq!(r.job.timeout_minutes, Some(60));
    assert_eq!(
        r.job,
        carry_out(bundle_windows(Arch::X86_64)).add_needs("style").timeout_minutes(60u32)
    );
}

fn carry_out_with_own_needs(plan: BundleJob) -> Job {
    carry_out(plan).add_needs("ignored").cond(Expression::new("always()")).timeout_minutes(5u32)
}

#[test]
fn bundle_job_for_takes_needs_and_condition_from_the_base() {
    let dep = named("tests");
    let base = Job::default().add_needs("tests").cond(Expression::new("success()"));
    let r = bundle_job_for(&carry_out_with_own_needs, Platform::Linux, Arch::AARCH64, &[&dep], &base);
    assert_eq!(r.name, "bundle_linux_aarch64");
    assert_eq!(r.job.needs, Some(vec!["tests".to_string()]));
    assert_eq!(r.job.cond, Some(Expression::new("success()")));
    assert_eq!(r.job.timeout_minutes, Some(60));
    let r = bundle_job_for(&carry_out_with_own_needs, Platform::Linux, Arch::AARCH64, &[], &base);
    assert_eq!(r.job.needs, Some(vec!["tests".to_string()]));
    assert_eq!(r.job.cond, Some(Expression::new(BUNDLE_CONDITION)));
}

#[test]
fn bundle_job_for_keeps_an_empty_needs_list() {
    let mut base = Job::default();
    base.needs = Some(vec![]);
    let r = bundle_job_for(&carry_out, Platform::Linux, Arch::X86_64, &[], &base);
    assert_eq!(r.job.needs, Some(vec![]));
    let r = bundle_job_for(&carry_out, Platform::Linux, Arch::X86_64, &[], &Job::default());
    assert_eq!(r.job.needs, None);
}

#[test]
fn nix_job_runs_on_the_label() {
    let job = nix_job(named("build_nix_linux_x86_64"));
    assert_eq!(job.name, "build_nix_linux_x86_64");
    assert_eq!(job.job, Job::default().cond(Expression::new(NIX_CONDITION)));
    assert_eq!(
        job.job.cond.unwrap().0,
        "(github.event.action == 'labeled' && github.event.label.name == 'run-bundling') || (github.event.action == 'synchronize' && contains(github.event.pull_request.labels.*.name, 'run-bundling'))"
    );
    assert!(!NIX_CONDITION.contains('\n'));
}

#[test]
fn job_names_artifacts_and_paths() {
    assert_eq!(bundle_job_name(Platform::Mac, Arch::AARCH64), "bundle_mac_aarch64");
    assert_eq!(bundle_job_name(Platform::Linux, Arch::X86_64), "bundle_linux_x86_64");
    assert_eq!(bundle_job_name(Platform::Windows, Arch::X86_64), "bundle_windows_x86_64");
    assert_eq!(bundle_artifact(Platform::Mac, Arch::X86_64), "Zed-x86_64.dmg");
    assert_eq!(bundle_artifact(Platform::Windows, Arch::AARCH64), "Zed-aarch64.exe");
    assert_eq!(
        remote_server_artifact(Platform::Linux, Arch::AARCH64),
        "zed-remote-server-linux-aarch64.gz"
    );
    assert_eq!(
        bundle_artifact_path(Platform::Mac, Arch::AARCH64),
        "target/aarch64-apple-darwin/release/Zed-aarch64.dmg"
    );
    assert_eq!(
        bundle_artifact_path(Platform::Linux, Arch::X86_64),
        "target/release/zed-linux-x86_64.tar.gz"
    );
    assert_eq!(bundle_artifact_path(Platform::Windows, Arch::X86_64), "target/Zed-x86_64.exe");
    assert_eq!(
        remote_server_artifact_path(Platform::Windows, Arch::X86_64),
        "target/zed-remote-server-windows-x86_64.zip"
    );
    assert_eq!(mac_bundle_script(Arch::X86_64), "./script/bundle-mac x86_64-apple-darwin");
    assert_eq!(
        windows_bundle_script(Arch::AARCH64),
        "script/bundle-windows.ps1 -Architecture aarch64"
    );
}

#[test]
fn job_names_and_artifacts_are_distinct() {
    let targets = [
        (Platform::Linux, Arch::AARCH64),
        (Platform::Linux, Arch::X86_64),
        (Platform::Mac, Arch::AARCH64),
        (Platform::Mac, Arch::X86_64),
        (Platform::Windows, Arch::AARCH64),
        (Platform::Windows, Arch::X86_64),
    ];
    let mut names: Vec<String> = targets.iter().map(|(p, a)| bundle_job_name(*p, *a)).collect();
    let mut artifacts: Vec<&str> = targets
        .iter()
        .flat_map(|(p, a)| [bundle_artifact(*p, *a), remote_server_artifact(*p, *a)])
        .collect();
    names.sort();
    names.dedup();
    artifacts.sort();
    artifacts.dedup();
    assert_eq!(names.len(), 6);
    assert_eq!(artifacts.len(), 12);
}

#[test]
fn upload_artifact_names_the_file() {
    let u = upload_artifact("target/release/zed-linux-x86_64.tar.gz");
    assert_eq!(u.name, "zed-linux-x86_64.tar.gz");
    assert_eq!(u.step_name, "@actions/upload-artifact zed-linux-x86_64.tar.gz");
    assert_eq!(u.path, "target/release/zed-linux-x86_64.tar.gz");
    let inputs = u.inputs();
    assert_eq!(
        inputs,
        vec![
            ("name".to_string(), "zed-linux-x86_64.tar.gz".to_string()),
            ("path".to_string(), "target/release/zed-linux-x86_64.tar.gz".to_string()),
            ("if-no-files-found".to_string(), "error".to_string()),
        ]
    );
}

#[test]
fn file_name_follows_std_path() {
    let cases = [
        "target/release/zed.tar.gz",
        "zed.exe",
        "a/b/",
        "a//b",
        "a/./",
        "./a",
        "a/.",
        ".",
        "..",
        "a/..",
        "/",
        "",
        "/etc/hosts",
        "a/...",
        "dir/.hidden",
    ];
    for path in cases {
        let expected = std::path::Path::new(path)
            .file_name()
            .map(|n| n.to_str().unwrap().to_string());
        assert_eq!(file_name(path), expected, "path {:?}", path);
    }
}

fn upload_names(steps: &[BundleStep]) -> Vec<String> {
    steps
        .iter()
        .filter_map(|s| match s {
            BundleStep::Upload(u) => Some(u.name.clone()),
            _ => None,
        })
        .collect()
}

#[test]
fn mac_bundle_job_steps() {
    let job = bundle_mac(Arch::AARCH64);
    assert_eq!(job.name, "bundle_mac_aarch64");
    assert_eq!(job.runner, Runner::MacDefault);
    assert_eq!(job.steps.len(), 7);
    assert!(matches!(job.steps[0], BundleStep::CheckoutRepo));
    assert!(matches!(job.steps[1], BundleStep::SetupNode));
    assert!(matches!(job.steps[2], BundleStep::SetupSentry));
    assert!(matches!(job.steps[3], BundleStep::ClearTargetDirIfLarge(Platform::Mac)));
    match &job.steps[4] {
        BundleStep::Bash(cmd) => assert_eq!(cmd, "./script/bundle-mac aarch64-apple-darwin"),
        _ => panic!("expected the bundling command"),
    }
    assert_eq!(
        upload_names(&job.steps),
        vec!["Zed-aarch64.dmg", "zed-remote-server-macos-aarch64.gz"]
    );
    assert!(job.envs.0.contains_key("MACOS_CERTIFICATE"));
}

#[test]
fn linux_bundle_job_steps() {
    let job = bundle_linux(Arch::X86_64);
    assert_eq!(job.name, "bundle_linux_x86_64");
    assert_eq!(job.runner, Runner::LinuxBundler(Arch::X86_64));
    assert_eq!(job.steps.len(), 6);
    assert!(matches!(job.steps[1], BundleStep::SetupSentry));
    assert!(matches!(job.steps[2], BundleStep::InstallLinuxDependencies));
    match &job.steps[3] {
        BundleStep::Script(cmd) => assert_eq!(cmd, "./script/bundle-linux"),
        _ => panic!("expected the bundling script"),
    }
    assert_eq!(
        upload_names(&job.steps),
        vec!["zed-linux-x86_64.tar.gz", "zed-remote-server-linux-x86_64.gz"]
    );
    assert_eq!(job.envs.0.len(), 3);
}

#[test]
fn windows_bundle_job_steps() {
    let job = bundle_windows(Arch::X86_64);
    assert_eq!(job.name, "bundle_windows_x86_64");
    assert_eq!(job.runner, Runner::WindowsDefault);
    assert_eq!(job.steps.len(), 5);
    match &job.steps[2] {
        BundleStep::Pwsh { command, working_directory } => {
            assert_eq!(command, "script/bundle-windows.ps1 -Architecture x86_64");
            assert_eq!(working_directory, "${{ env.ZED_WORKSPACE }}");
        }
        _ => panic!("expected the PowerShell step"),
    }
    match &job.steps[3] {
        BundleStep::Upload(u) => assert_eq!(u.path, "target/Zed-x86_64.exe"),
        _ => panic!("expected an upload"),
    }
    assert_eq!(job.envs.0.len(), 12);
}
