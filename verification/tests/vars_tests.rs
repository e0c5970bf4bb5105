use gh_workflow::{Expression, Job};
use serde_json::Value;
use xtask_workflows::jobs::NamedJob;
use xtask_workflows::runners::Platform;
use xtask_workflows::vars::{
    bundle_envs, PathCondition, WorkflowInput, GITHUB_TOKEN, MACOS_CERTIFICATE,
    ZED_CLIENT_CHECKSUM_SEED, AZURE_SIGNING_ENDPOINT,
};

fn keys(platform: Platform) -> Vec<String> {
    bundle_envs(platform).0.keys().cloned().collect()
}

#[test]
fn secret_constants_read_secrets_of_the_same_name() {
    assert_eq!(GITHUB_TOKEN, "${{ secrets.GITHUB_TOKEN }}");
    assert_eq!(MACOS_CERTIFICATE, "${{ secrets.MACOS_CERTIFICATE }}");
    assert_eq!(AZURE_SIGNING_ENDPOINT, "${{ vars.AZURE_SIGNING_ENDPOINT }}");
}

#[test]
fn linux_bundle_envs_hold_only_the_common_variables() {
    let env = bundle_envs(Platform::Linux);
    assert_eq!(
        keys(Platform::Linux),
        vec!["CARGO_INCREMENTAL", "ZED_CLIENT_CHECKSUM_SEED", "ZED_MINIDUMP_ENDPOINT"]
    );
    assert_eq!(env.0["CARGO_INCREMENTAL"], Value::from(0));
    assert_eq!(env.0["ZED_CLIENT_CHECKSUM_SEED"], Value::from(ZED_CLIENT_CHECKSUM_SEED));
    assert_eq!(
        env.0["ZED_MINIDUMP_ENDPOINT"],
        Value::from("${{ secrets.ZED_SENTRY_MINIDUMP_ENDPOINT }}")
    );
}

#[test]
fn mac_bundle_envs_add_signing_and_notarization() {
    let env = bundle_envs(Platform::Mac);
    assert_eq!(
        keys(Platform::Mac),
        vec![
            "CARGO_INCREMENTAL",
            "ZED_CLIENT_CHECKSUM_SEED",
            "ZED_MINIDUMP_ENDPOINT",
            "MACOS_CERTIFICATE",
            "MACOS_CERTIFICATE_PASSWORD",
            "APPLE_NOTARIZATION_KEY",
            "APPLE_NOTARIZATION_KEY_ID",
            "APPLE_NOTARIZATION_ISSUER_ID",
        ]
    );
    assert_eq!(
        env.0["APPLE_NOTARIZATION_ISSUER_ID"],
        Value::from("${{ secrets.APPLE_NOTARIZATION_ISSUER_ID }}")
    );
}

#[test]
fn windows_bundle_envs_add_azure_signing() {
    let env = bundle_envs(Platform::Windows);
    assert_eq!(env.0.len(), 12);
    assert_eq!(env.0["AZURE_TENANT_ID"], Value::from("${{ secrets.AZURE_SIGNING_TENANT_ID }}"));
    assert_eq!(env.0["ACCOUNT_NAME"], Value::from("${{ vars.AZURE_SIGNING_ACCOUNT_NAME }}"));
    assert_eq!(env.0["FILE_DIGEST"], Value::from("SHA256"));
    assert_eq!(env.0["TIMESTAMP_DIGEST"], Value::from("SHA256"));
    assert_eq!(
        env.0["TIMESTAMP_SERVER"],
        Value::from("http://timestamp.acs.microsoft.com")
    );
    assert_eq!(env.0.get_index(11).unwrap().0, "TIMESTAMP_SERVER");
}

#[test]
fn every_bundle_env_starts_with_the_linux_one() {
    let common = keys(Platform::Linux);
    for platform in [Platform::Mac, Platform::Windows] {
        assert_eq!(keys(platform)[..3], common[..]);
    }
}

#[test]
fn path_conditions_record_their_pattern() {
    let c = PathCondition::new("run_docs", r"^docs/");
    assert_eq!(c.name, "run_docs");
    assert_eq!(c.pattern, r"^docs/");
    assert!(!c.invert);
    assert!(c.set_by_step.is_none());
    let i = PathCondition::inverted("run_tests", r"^docs/");
    assert!(i.invert);
    assert_eq!(i.name, "run_tests");
    assert!(i.set_by_step.is_none());
}

#[test]
fn guard_waits_for_the_step_and_checks_its_output() {
    let mut c = PathCondition::new("run_docs", r"^docs/");
    c.set_by_step = Some("orchestrate".to_string());
    let job = NamedJob {
        name: "check_docs".to_string(),
        job: Job::default().add_needs("style"),
    };
    let guarded = c.guard(job);
    assert_eq!(guarded.name, "check_docs");
    assert_eq!(
        guarded.job.needs,
        Some(vec!["style".to_string(), "orchestrate".to_string()])
    );
    assert_eq!(
        guarded.job.cond.unwrap().0,
        "needs.orchestrate.outputs.run_docs == 'true'"
    );
}

#[test]
fn guard_on_a_job_without_needs() {
    let mut c = PathCondition::inverted("run_tests", r"^docs/");
    c.set_by_step = Some("changes".to_string());
    let guarded = c.guard(NamedJob { name: "tests".to_string(), job: Job::default() });
    assert_eq!(
        guarded.job,
        Job::default()
            .add_needs("changes")
            .cond(Expression::new("needs.changes.outputs.run_tests == 'true'"))
    );
    assert_eq!(guarded.job.needs, Some(vec!["changes".to_string()]));
    assert_eq!(
        guarded.job.cond.unwrap().0,
        "needs.changes.outputs.run_tests == 'true'"
    );
}

#[test]
fn string_input_without_default_is_required() {
    let input = WorkflowInput::string("commit", None);
    assert_eq!(input.input_type, "string");
    let declared = input.input();
    assert!(declared.required);
    assert_eq!(declared.description, "commit");
    assert_eq!(declared.input_type, "string");
    assert_eq!(declared.default, None);
}

#[test]
fn string_input_with_default_is_optional() {
    let mut input = WorkflowInput::string("branch", Some("main".to_string()));
    input.description = Some("The branch to build".to_string());
    let declared = input.input();
    assert!(!declared.required);
    assert_eq!(declared.description, "The branch to build");
    assert_eq!(declared.default, Some("main".to_string()));
}

#[test]
fn input_expression_and_reference() {
    let input = WorkflowInput::string("base", None);
    assert_eq!(input.expr(), "inputs.base");
    assert_eq!(input.to_string(), "${{ inputs.base }}");
}

#[test]
fn guard_keeps_the_rest_of_the_job_and_ignores_pattern_and_inversion() {
    let job = Job::new("Check docs").runs_on("ubuntu-latest").timeout_minutes(30u32);
    let mut a = PathCondition::new("run_docs", r"^docs/");
    a.set_by_step = Some("orchestrate".to_string());
    let mut b = PathCondition::inverted("run_docs", r"^src/");
    b.set_by_step = Some("orchestrate".to_string());
    let ga = a.guard(NamedJob { name: "docs".to_string(), job: job.clone() });
    let gb = b.guard(NamedJob { name: "docs".to_string(), job: job.clone() });
    let expected = job
        .add_needs("orchestrate")
        .cond(Expression::new("needs.orchestrate.outputs.run_docs == 'true'"));
    assert_eq!(ga.job, expected);
    assert_eq!(gb.job, expected);
    assert_eq!(a.set_by_step, Some("orchestrate".to_string()));
}

fn values(platform: Platform) -> Vec<Value> {
    bundle_envs(platform).0.values().cloned().collect()
}

#[test]
fn signing_secrets_stay_on_their_platform() {
    let mac_secrets = [
        "MACOS_CERTIFICATE",
        "MACOS_CERTIFICATE_PASSWORD",
        "APPLE_NOTARIZATION_KEY",
        "APPLE_NOTARIZATION_KEY_ID",
        "APPLE_NOTARIZATION_ISSUER_ID",
    ];
    let azure_names = [
        "AZURE_SIGNING_TENANT_ID",
        "AZURE_SIGNING_CLIENT_ID",
        "AZURE_SIGNING_CLIENT_SECRET",
        "AZURE_SIGNING_ACCOUNT_NAME",
        "AZURE_SIGNING_CERT_PROFILE_NAME",
        "AZURE_SIGNING_ENDPOINT",
    ];
    for platform in [Platform::Linux, Platform::Mac, Platform::Windows] {
        for value in values(platform) {
            for name in mac_secrets {
                if value == Value::from(format!("${{{{ secrets.{name} }}}}")) {
                    assert_eq!(platform, Platform::Mac);
                }
            }
            for name in azure_names {
                if value == Value::from(format!("${{{{ secrets.{name} }}}}"))
                    || value == Value::from(format!("${{{{ vars.{name} }}}}"))
                {
                    assert_eq!(platform, Platform::Windows);
                }
            }
        }
    }
    let mac: Vec<Value> = values(Platform::Mac);
    assert!(mac.contains(&Value::from("${{ secrets.MACOS_CERTIFICATE }}")));
    let windows: Vec<Value> = values(Platform::Windows);
    assert!(windows.contains(&Value::from("${{ vars.AZURE_SIGNING_ENDPOINT }}")));
}

#[test]
fn bundle_env_values_are_references_or_public() {
    for platform in [Platform::Linux, Platform::Mac, Platform::Windows] {
        for value in values(platform) {
            match value {
                Value::Number(n) => assert_eq!(n.as_u64(), Some(0)),
                Value::String(s) => assert!(
                    (s.starts_with("${{ secrets.") && s.ends_with(" }}"))
                        || (s.starts_with("${{ vars.") && s.ends_with(" }}"))
                        || !s.contains('$'),
                    "{s}"
                ),
                other => panic!("unexpected value {other}"),
            }
        }
    }
}
