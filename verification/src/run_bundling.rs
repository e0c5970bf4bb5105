//! The release-bundling workflow: which jobs bundle which platform and
//! architecture, what they are called, which artifacts they upload and when
//! they run.

use crate::gh::{
    job_with_dependencies_of, env_add_text, env_default, env_entries, job_condition, job_needs, job_rest, job_set_condition,
    job_set_timeout_minutes, job_timeout_minutes, job_view, json_quoted,
};
use crate::jobs::NamedJob;
use crate::paths::{
    cur_dir, file_name, file_name_spec, is_plain_component, lemma_file_name_of_join, parent_dir,
};
use crate::runners::{arch_name_spec, Arch, Platform};
use crate::vars::{assets, bundle_envs, bundle_envs_spec};
use gh_workflow::{Env, Job};
use vstd::prelude::*;
use vstd::string::StringExecFns;

verus! {

/// The bundling jobs of a release, one per platform and architecture.
pub struct ReleaseBundleJobs {
    pub linux_aarch64: NamedJob,
    pub linux_x86_64: NamedJob,
    pub mac_aarch64: NamedJob,
    pub mac_x86_64: NamedJob,
    pub windows_aarch64: NamedJob,
    pub windows_x86_64: NamedJob,
}

impl ReleaseBundleJobs {
    /// The jobs in the order in which the workflow lists them: Linux, macOS,
    /// Windows, and for each ARM before x86.
    pub fn into_jobs(self) -> (r: Vec<NamedJob>)
        ensures
            r@ == seq![
                self.linux_aarch64,
                self.linux_x86_64,
                self.mac_aarch64,
                self.mac_x86_64,
                self.windows_aarch64,
                self.windows_x86_64,
            ],
    {
        let mut jobs = Vec::new();
        jobs.push(self.linux_aarch64);
        jobs.push(self.linux_x86_64);
        jobs.push(self.mac_aarch64);
        jobs.push(self.mac_x86_64);
        jobs.push(self.windows_aarch64);
        jobs.push(self.windows_x86_64);
        jobs
    }
}

/// The condition under which a bundling job without dependencies runs: a
/// pull request was just labelled `run-bundling`, or a pull request that
/// carries that label received new commits.
pub const BUNDLE_CONDITION: &'static str = "(github.event.action == 'labeled' && github.event.label.name == 'run-bundling') ||\n(github.event.action == 'synchronize' && contains(github.event.pull_request.labels.*.name, 'run-bundling'))";

/// The same condition, written on one line, for the Nix build jobs.
pub const NIX_CONDITION: &'static str = "(github.event.action == 'labeled' && github.event.label.name == 'run-bundling') || (github.event.action == 'synchronize' && contains(github.event.pull_request.labels.*.name, 'run-bundling'))";

/// The minutes after which a bundling job is cancelled.
pub const BUNDLE_TIMEOUT_MINUTES: u32 = 60;

/// Turns the job that waits for `deps` into a bundling job: without
/// dependencies it runs only under `BUNDLE_CONDITION`; it times out after an
/// hour either way; everything else is the job as given.
pub fn bundle_job(base: Job, deps: &[&NamedJob]) -> (r: Job)
    ensures
        job_view(r) == (
            job_needs(base),
            if deps@.len() == 0 {
                Some(BUNDLE_CONDITION@)
            } else {
                job_condition(base)
            },
            Some(BUNDLE_TIMEOUT_MINUTES),
            job_rest(base),
        ),
{
    let job = if deps.len() == 0 {
        job_set_condition(base, BUNDLE_CONDITION)
    } else {
        base
    };
    job_set_timeout_minutes(job, BUNDLE_TIMEOUT_MINUTES)
}

/// The flake output that the Nix jobs of this workflow build.
pub const NIX_FLAKE_OUTPUT: &'static str = "default";

/// The store paths that the Nix jobs of this workflow keep out of the binary
/// cache, so that pull-request builds are not pushed to it.
pub const NIX_CACHE_PUSH_FILTER: &'static str = "-zed-editor-[0-9.]*";

/// Makes a Nix build job run only under the bundling condition; the job
/// keeps its id and everything else it holds.
pub fn nix_job(build: NamedJob) -> (r: NamedJob)
    ensures
        r.name == build.name,
        job_view(r.job) == (
            job_needs(build.job),
            Some(NIX_CONDITION@),
            job_timeout_minutes(build.job),
            job_rest(build.job),
        ),
{
    NamedJob { name: build.name, job: job_set_condition(build.job, NIX_CONDITION) }
}

/// The word for a platform in job ids.
pub open spec fn platform_word_spec(platform: Platform) -> Seq<char> {
    match platform {
        Platform::Linux => "linux"@,
        Platform::Mac => "mac"@,
        Platform::Windows => "windows"@,
    }
}

/// The id of the job that bundles `platform` for `arch`.
pub open spec fn bundle_job_name_spec(platform: Platform, arch: Arch) -> Seq<char> {
    "bundle_"@ + platform_word_spec(platform) + "_"@ + arch_name_spec(arch)
}

/// The id of the job that bundles `platform` for `arch`, such as
/// `bundle_mac_aarch64`.
pub fn bundle_job_name(platform: Platform, arch: Arch) -> (r: String)
    ensures
        r@ == bundle_job_name_spec(platform, arch),
{
    let word = match platform {
        Platform::Linux => "linux",
        Platform::Mac => "mac",
        Platform::Windows => "windows",
    };
    String::from_str("bundle_").concat(word).concat("_").concat(arch.name())
}

/// The file name of the application bundle for `platform` and `arch`.
pub open spec fn bundle_artifact_spec(platform: Platform, arch: Arch) -> Seq<char> {
    match (platform, arch) {
        (Platform::Mac, Arch::X86_64) => assets::MAC_X86_64@,
        (Platform::Mac, Arch::AARCH64) => assets::MAC_AARCH64@,
        (Platform::Linux, Arch::X86_64) => assets::LINUX_X86_64@,
        (Platform::Linux, Arch::AARCH64) => assets::LINUX_AARCH64@,
        (Platform::Windows, Arch::X86_64) => assets::WINDOWS_X86_64@,
        (Platform::Windows, Arch::AARCH64) => assets::WINDOWS_AARCH64@,
    }
}

/// The file name of the remote-server bundle for `platform` and `arch`.
pub open spec fn remote_server_artifact_spec(platform: Platform, arch: Arch) -> Seq<char> {
    match (platform, arch) {
        (Platform::Mac, Arch::X86_64) => assets::REMOTE_SERVER_MAC_X86_64@,
        (Platform::Mac, Arch::AARCH64) => assets::REMOTE_SERVER_MAC_AARCH64@,
        (Platform::Linux, Arch::X86_64) => assets::REMOTE_SERVER_LINUX_X86_64@,
        (Platform::Linux, Arch::AARCH64) => assets::REMOTE_SERVER_LINUX_AARCH64@,
        (Platform::Windows, Arch::X86_64) => assets::REMOTE_SERVER_WINDOWS_X86_64@,
        (Platform::Windows, Arch::AARCH64) => assets::REMOTE_SERVER_WINDOWS_AARCH64@,
    }
}

/// The file name of the application bundle for `platform` and `arch`.
pub fn bundle_artifact(platform: Platform, arch: Arch) -> (r: &'static str)
    ensures
        r@ == bundle_artifact_spec(platform, arch),
{
    match (platform, arch) {
        (Platform::Mac, Arch::X86_64) => assets::MAC_X86_64,
        (Platform::Mac, Arch::AARCH64) => assets::MAC_AARCH64,
        (Platform::Linux, Arch::X86_64) => assets::LINUX_X86_64,
        (Platform::Linux, Arch::AARCH64) => assets::LINUX_AARCH64,
        (Platform::Windows, Arch::X86_64) => assets::WINDOWS_X86_64,
        (Platform::Windows, Arch::AARCH64) => assets::WINDOWS_AARCH64,
    }
}

/// The file name of the remote-server bundle for `platform` and `arch`.
pub fn remote_server_artifact(platform: Platform, arch: Arch) -> (r: &'static str)
    ensures
        r@ == remote_server_artifact_spec(platform, arch),
{
    match (platform, arch) {
        (Platform::Mac, Arch::X86_64) => assets::REMOTE_SERVER_MAC_X86_64,
        (Platform::Mac, Arch::AARCH64) => assets::REMOTE_SERVER_MAC_AARCH64,
        (Platform::Linux, Arch::X86_64) => assets::REMOTE_SERVER_LINUX_X86_64,
        (Platform::Linux, Arch::AARCH64) => assets::REMOTE_SERVER_LINUX_AARCH64,
        (Platform::Windows, Arch::X86_64) => assets::REMOTE_SERVER_WINDOWS_X86_64,
        (Platform::Windows, Arch::AARCH64) => assets::REMOTE_SERVER_WINDOWS_AARCH64,
    }
}

/// Where the bundling job for `platform` and `arch` finds the application
/// bundle that it uploads.
pub open spec fn bundle_artifact_path_spec(platform: Platform, arch: Arch) -> Seq<char> {
    match platform {
        Platform::Mac => "target/"@ + arch_name_spec(arch) + "-apple-darwin/release/"@
            + bundle_artifact_spec(platform, arch),
        Platform::Linux => "target/release/"@ + bundle_artifact_spec(platform, arch),
        Platform::Windows => "target/"@ + bundle_artifact_spec(platform, arch),
    }
}

/// Where the bundling job for `platform` and `arch` finds the remote-server
/// bundle that it uploads.
pub open spec fn remote_server_artifact_path_spec(platform: Platform, arch: Arch) -> Seq<char> {
    "target/"@ + remote_server_artifact_spec(platform, arch)
}

/// The path of the application bundle that the bundling job for `platform`
/// and `arch` uploads.
pub fn bundle_artifact_path(platform: Platform, arch: Arch) -> (r: String)
    ensures
        r@ == bundle_artifact_path_spec(platform, arch),
{
    let artifact = bundle_artifact(platform, arch);
    match platform {
        Platform::Mac => String::from_str("target/").concat(arch.name()).concat(
            "-apple-darwin/release/",
        ).concat(artifact),
        Platform::Linux => String::from_str("target/release/").concat(artifact),
        Platform::Windows => String::from_str("target/").concat(artifact),
    }
}

/// The path of the remote-server bundle that the bundling job for `platform`
/// and `arch` uploads.
pub fn remote_server_artifact_path(platform: Platform, arch: Arch) -> (r: String)
    ensures
        r@ == remote_server_artifact_path_spec(platform, arch),
{
    String::from_str("target/").concat(remote_server_artifact(platform, arch))
}

/// The command that bundles the macOS application for `arch`.
pub open spec fn mac_bundle_script_spec(arch: Arch) -> Seq<char> {
    "./script/bundle-mac "@ + arch_name_spec(arch) + "-apple-darwin"@
}

/// The command that bundles the macOS application for `arch`.
pub fn mac_bundle_script(arch: Arch) -> (r: String)
    ensures
        r@ == mac_bundle_script_spec(arch),
{
    String::from_str("./script/bundle-mac ").concat(arch.name()).concat("-apple-darwin")
}

/// The command that bundles the Linux application.
pub const LINUX_BUNDLE_SCRIPT: &'static str = "./script/bundle-linux";

/// The PowerShell command that bundles the Windows application for `arch`.
pub open spec fn windows_bundle_script_spec(arch: Arch) -> Seq<char> {
    match arch {
        Arch::X86_64 => "script/bundle-windows.ps1 -Architecture x86_64"@,
        Arch::AARCH64 => "script/bundle-windows.ps1 -Architecture aarch64"@,
    }
}

/// The PowerShell command that bundles the Windows application for `arch`.
pub fn windows_bundle_script(arch: Arch) -> (r: &'static str)
    ensures
        r@ == windows_bundle_script_spec(arch),
{
    match arch {
        Arch::X86_64 => "script/bundle-windows.ps1 -Architecture x86_64",
        Arch::AARCH64 => "script/bundle-windows.ps1 -Architecture aarch64",
    }
}

/// The directory in which the Windows bundling command runs.
pub const WINDOWS_BUNDLE_WORKING_DIRECTORY: &'static str = "${{ env.ZED_WORKSPACE }}";

/// The owner of the action that uploads artifacts.
pub const UPLOAD_ARTIFACT_OWNER: &'static str = "actions";

/// The repository of the action that uploads artifacts.
pub const UPLOAD_ARTIFACT_REPO: &'static str = "upload-artifact";

/// The pinned commit of the action that uploads artifacts (its v5).
pub const UPLOAD_ARTIFACT_VERSION: &'static str = "330a01c490aca151604b8cf639adc76d48f6c5d4";

/// A step that uploads one file as a workflow artifact.
pub struct ArtifactUpload {
    /// The name under which the step appears in the run.
    pub step_name: String,
    /// The name of the artifact: the file's name.
    pub name: String,
    /// The path of the file that is uploaded.
    pub path: String,
}

impl ArtifactUpload {
    /// The inputs handed to the upload action: the artifact's name, the
    /// file's path, and that a missing file fails the step.
    pub fn inputs(&self) -> (r: Vec<(String, String)>)
        ensures
            r@.len() == 3,
            r@[0].0@ == "name"@ && r@[0].1@ == self.name@,
            r@[1].0@ == "path"@ && r@[1].1@ == self.path@,
            r@[2].0@ == "if-no-files-found"@ && r@[2].1@ == "error"@,
    {
        let mut inputs = Vec::new();
        inputs.push((String::from_str("name"), self.name.clone()));
        inputs.push((String::from_str("path"), self.path.clone()));
        inputs.push((String::from_str("if-no-files-found"), String::from_str("error")));
        inputs
    }
}

/// The name under which the upload of the artifact `name` appears in a run.
pub open spec fn upload_step_name_spec(name: Seq<char>) -> Seq<char> {
    "@actions/upload-artifact "@ + name
}

/// The step that uploads the file at `path` as an artifact named after the
/// file.
pub fn upload_artifact(path: &str) -> (r: ArtifactUpload)
    requires
        file_name_spec(path@) is Some,
    ensures
        r.name@ == file_name_spec(path@)->Some_0,
        r.step_name@ == upload_step_name_spec(r.name@),
        r.path@ == path@,
{
    let name = match file_name(path) {
        Some(name) => name,
        None => {
            proof {
                assert(false);
            }
            String::new()
        },
    };
    let step_name = String::from_str("@actions/upload-artifact ").concat(name.as_str());
    ArtifactUpload { step_name, name, path: String::from_str(path) }
}

/// The group that keeps one bundling run per pull request: a new run
/// cancels the one in progress.
pub const CONCURRENCY_GROUP: &'static str = "${{ github.workflow }}-${{ github.head_ref || github.ref }}";

/// The environment of the bundling workflow, entry by entry.
pub open spec fn run_bundling_env_spec() -> Seq<(Seq<char>, Seq<char>)> {
    seq![("CARGO_TERM_COLOR"@, json_quoted("always"@)), ("RUST_BACKTRACE"@, json_quoted("1"@))]
}

/// The environment of the bundling workflow: coloured cargo output and
/// backtraces on panics.
pub fn run_bundling_env() -> (env: Env)
    ensures
        env_entries(env) == run_bundling_env_spec(),
{
    proof {
        reveal_strlit("CARGO_TERM_COLOR");
        reveal_strlit("RUST_BACKTRACE");
        reveal_strlit("always");
        reveal_strlit("1");
    }
    let env = env_default();
    let env = env_add_text(env, "CARGO_TERM_COLOR", "always");
    assert(env_entries(env) == seq![("CARGO_TERM_COLOR"@, json_quoted("always"@))]);
    assert("CARGO_TERM_COLOR"@.len() != "RUST_BACKTRACE"@.len());
    let env = env_add_text(env, "RUST_BACKTRACE", "1");
    env
}

/// How a pull request must change for the bundling workflow to start.
#[derive(Clone, Copy, Debug, PartialEq, Eq, Structural)]
pub enum PullRequestTrigger {
    Labeled,
    Synchronize,
}

/// The bundling workflow: when it starts, how runs of it exclude each other,
/// its environment and its jobs.
pub struct BundlingWorkflow {
    pub triggers: Vec<PullRequestTrigger>,
    pub concurrency_group: &'static str,
    pub cancel_in_progress: bool,
    pub env: Env,
    pub jobs: Vec<NamedJob>,
}

/// The machines that bundling jobs run on.
#[derive(Clone, Copy, Debug, PartialEq, Eq, Structural)]
pub enum Runner {
    /// The default macOS runner.
    MacDefault,
    /// The default Windows runner.
    WindowsDefault,
    /// The Linux runner that bundles for the given architecture.
    LinuxBundler(Arch),
}

/// A step of a bundling job.
pub enum BundleStep {
    /// Check out the repository.
    CheckoutRepo,
    /// Install Node.js.
    SetupNode,
    /// Install the Sentry command-line tool.
    SetupSentry,
    /// Clear the build directory when it has grown too large on `Platform`.
    ClearTargetDirIfLarge(Platform),
    /// Install the system libraries that Linux builds need.
    InstallLinuxDependencies,
    /// Run a command in bash.
    Bash(String),
    /// Run a script of the repository.
    Script(String),
    /// Run a PowerShell command in a working directory.
    Pwsh { command: String, working_directory: String },
    /// Upload a file as an artifact.
    Upload(ArtifactUpload),
}

/// An artifact upload, as text.
pub struct ArtifactUploadView {
    pub step_name: Seq<char>,
    pub name: Seq<char>,
    pub path: Seq<char>,
}

impl View for ArtifactUpload {
    type V = ArtifactUploadView;

    open spec fn view(&self) -> ArtifactUploadView {
        ArtifactUploadView { step_name: self.step_name@, name: self.name@, path: self.path@ }
    }
}

/// A step of a bundling job, as text.
pub enum BundleStepView {
    CheckoutRepo,
    SetupNode,
    SetupSentry,
    ClearTargetDirIfLarge(Platform),
    InstallLinuxDependencies,
    Bash(Seq<char>),
    Script(Seq<char>),
    Pwsh(Seq<char>, Seq<char>),
    Upload(ArtifactUploadView),
}

impl View for BundleStep {
    type V = BundleStepView;

    open spec fn view(&self) -> BundleStepView {
        match self {
            BundleStep::CheckoutRepo => BundleStepView::CheckoutRepo,
            BundleStep::SetupNode => BundleStepView::SetupNode,
            BundleStep::SetupSentry => BundleStepView::SetupSentry,
            BundleStep::ClearTargetDirIfLarge(p) => BundleStepView::ClearTargetDirIfLarge(*p),
            BundleStep::InstallLinuxDependencies => BundleStepView::InstallLinuxDependencies,
            BundleStep::Bash(c) => BundleStepView::Bash(c@),
            BundleStep::Script(c) => BundleStepView::Script(c@),
            BundleStep::Pwsh { command, working_directory } => BundleStepView::Pwsh(
                command@,
                working_directory@,
            ),
            BundleStep::Upload(u) => BundleStepView::Upload(u@),
        }
    }
}

/// The steps of a list, as text.
pub open spec fn steps_view(steps: Seq<BundleStep>) -> Seq<BundleStepView> {
    steps.map_values(|s: BundleStep| s@)
}

/// A bundling job: its id, its runner, its environment and its steps.
pub struct BundleJob {
    pub name: String,
    pub runner: Runner,
    pub envs: Env,
    pub steps: Vec<BundleStep>,
}

/// The upload of the file at `path`, whose name is `name`.
pub open spec fn upload_view(path: Seq<char>, name: Seq<char>) -> ArtifactUploadView {
    ArtifactUploadView { step_name: upload_step_name_spec(name), name, path }
}

/// The two uploads that end every bundling job: the application bundle,
/// then the remote-server bundle.
pub open spec fn bundle_uploads_spec(platform: Platform, arch: Arch) -> Seq<BundleStepView> {
    seq![
        BundleStepView::Upload(
            upload_view(
                bundle_artifact_path_spec(platform, arch),
                bundle_artifact_spec(platform, arch),
            ),
        ),
        BundleStepView::Upload(
            upload_view(
                remote_server_artifact_path_spec(platform, arch),
                remote_server_artifact_spec(platform, arch),
            ),
        ),
    ]
}

/// The steps of the bundling job for `platform` and `arch`.
pub open spec fn bundle_steps_spec(platform: Platform, arch: Arch) -> Seq<BundleStepView> {
    match platform {
        Platform::Mac => seq![
            BundleStepView::CheckoutRepo,
            BundleStepView::SetupNode,
            BundleStepView::SetupSentry,
            BundleStepView::ClearTargetDirIfLarge(Platform::Mac),
            BundleStepView::Bash(mac_bundle_script_spec(arch)),
        ] + bundle_uploads_spec(platform, arch),
        Platform::Linux => seq![
            BundleStepView::CheckoutRepo,
            BundleStepView::SetupSentry,
            BundleStepView::InstallLinuxDependencies,
            BundleStepView::Script(LINUX_BUNDLE_SCRIPT@),
        ] + bundle_uploads_spec(platform, arch),
        Platform::Windows => seq![
            BundleStepView::CheckoutRepo,
            BundleStepView::SetupSentry,
            BundleStepView::Pwsh(
                windows_bundle_script_spec(arch),
                WINDOWS_BUNDLE_WORKING_DIRECTORY@,
            ),
        ] + bundle_uploads_spec(platform, arch),
    }
}

/// The runner of the bundling job for `platform` and `arch`.
pub open spec fn bundle_runner_spec(platform: Platform, arch: Arch) -> Runner {
    match platform {
        Platform::Mac => Runner::MacDefault,
        Platform::Linux => Runner::LinuxBundler(arch),
        Platform::Windows => Runner::WindowsDefault,
    }
}

/// What the bundling job for `platform` and `arch` is.
pub open spec fn is_bundle_job(job: BundleJob, platform: Platform, arch: Arch) -> bool {
    &&& job.name@ == bundle_job_name_spec(platform, arch)
    &&& job.runner == bundle_runner_spec(platform, arch)
    &&& env_entries(job.envs) == bundle_envs_spec(platform)
    &&& steps_view(job.steps@) == bundle_steps_spec(platform, arch)
}

proof fn lemma_literal_is_plain(s: &str)
    requires
        s@.len() > 2,
        forall|i: int| 0 <= i < s@.len() ==> s@[i] != '/',
    ensures
        is_plain_component(s@),
{
    assert(s@.len() != cur_dir().len());
    assert(s@.len() != parent_dir().len());
}

proof fn lemma_artifacts_are_plain(platform: Platform, arch: Arch)
    ensures
        is_plain_component(bundle_artifact_spec(platform, arch)),
        is_plain_component(remote_server_artifact_spec(platform, arch)),
{
    reveal_strlit("Zed-aarch64.dmg");
    lemma_literal_is_plain("Zed-aarch64.dmg");
    reveal_strlit("Zed-x86_64.dmg");
    lemma_literal_is_plain("Zed-x86_64.dmg");
    reveal_strlit("zed-linux-aarch64.tar.gz");
    lemma_literal_is_plain("zed-linux-aarch64.tar.gz");
    reveal_strlit("zed-linux-x86_64.tar.gz");
    lemma_literal_is_plain("zed-linux-x86_64.tar.gz");
    reveal_strlit("Zed-x86_64.exe");
    lemma_literal_is_plain("Zed-x86_64.exe");
    reveal_strlit("Zed-aarch64.exe");
    lemma_literal_is_plain("Zed-aarch64.exe");
    reveal_strlit("zed-remote-server-macos-aarch64.gz");
    lemma_literal_is_plain("zed-remote-server-macos-aarch64.gz");
    reveal_strlit("zed-remote-server-macos-x86_64.gz");
    lemma_literal_is_plain("zed-remote-server-macos-x86_64.gz");
    reveal_strlit("zed-remote-server-linux-aarch64.gz");
    lemma_literal_is_plain("zed-remote-server-linux-aarch64.gz");
    reveal_strlit("zed-remote-server-linux-x86_64.gz");
    lemma_literal_is_plain("zed-remote-server-linux-x86_64.gz");
    reveal_strlit("zed-remote-server-windows-aarch64.zip");
    lemma_literal_is_plain("zed-remote-server-windows-aarch64.zip");
    reveal_strlit("zed-remote-server-windows-x86_64.zip");
    lemma_literal_is_plain("zed-remote-server-windows-x86_64.zip");
}

/// Appends the uploads of the application and remote-server bundles of
/// `platform` and `arch`.
fn push_bundle_uploads(steps: &mut Vec<BundleStep>, platform: Platform, arch: Arch)
    ensures
        steps_view(final(steps)@) == steps_view(old(steps)@) + bundle_uploads_spec(platform, arch),
{
    proof {
        lemma_artifacts_are_plain(platform, arch);
        reveal_strlit("target/");
        reveal_strlit("target/release/");
        reveal_strlit("-apple-darwin/release/");
    }
    let ghost before = steps@;
    let bundle_path = bundle_artifact_path(platform, arch);
    proof {
        let name = bundle_artifact_spec(platform, arch);
        match platform {
            Platform::Mac => {
                let dir = "target/"@ + arch_name_spec(arch) + "-apple-darwin/release/"@;
                assert(dir.last() == '/');
                lemma_file_name_of_join(dir, name);
            },
            Platform::Linux => {
                lemma_file_name_of_join("target/release/"@, name);
            },
            Platform::Windows => {
                lemma_file_name_of_join("target/"@, name);
            },
        }
    }
    steps.push(BundleStep::Upload(upload_artifact(bundle_path.as_str())));
    let remote_path = remote_server_artifact_path(platform, arch);
    proof {
        lemma_file_name_of_join("target/"@, remote_server_artifact_spec(platform, arch));
    }
    steps.push(BundleStep::Upload(upload_artifact(remote_path.as_str())));
    assert(steps_view(steps@) =~= steps_view(before) + bundle_uploads_spec(platform, arch));
}

/// The job that bundles the macOS application for `arch`: check out, set up
/// Node.js and Sentry, clear an oversized build directory, bundle, and
/// upload both bundles.
pub fn bundle_mac(arch: Arch) -> (r: BundleJob)
    ensures
        is_bundle_job(r, Platform::Mac, arch),
{
    let mut steps = Vec::new();
    steps.push(BundleStep::CheckoutRepo);
    steps.push(BundleStep::SetupNode);
    steps.push(BundleStep::SetupSentry);
    steps.push(BundleStep::ClearTargetDirIfLarge(Platform::Mac));
    steps.push(BundleStep::Bash(mac_bundle_script(arch)));
    assert(steps_view(steps@) =~= seq![
        BundleStepView::CheckoutRepo,
        BundleStepView::SetupNode,
        BundleStepView::SetupSentry,
        BundleStepView::ClearTargetDirIfLarge(Platform::Mac),
        BundleStepView::Bash(mac_bundle_script_spec(arch)),
    ]);
    push_bundle_uploads(&mut steps, Platform::Mac, arch);
    BundleJob {
        name: bundle_job_name(Platform::Mac, arch),
        runner: Runner::MacDefault,
        envs: bundle_envs(Platform::Mac),
        steps,
    }
}

/// The job that bundles the Linux application for `arch`: check out, set up
/// Sentry, install the system libraries, bundle, and upload both bundles.
pub fn bundle_linux(arch: Arch) -> (r: BundleJob)
    ensures
        is_bundle_job(r, Platform::Linux, arch),
{
    let mut steps = Vec::new();
    steps.push(BundleStep::CheckoutRepo);
    steps.push(BundleStep::SetupSentry);
    steps.push(BundleStep::InstallLinuxDependencies);
    steps.push(BundleStep::Script(String::from_str(LINUX_BUNDLE_SCRIPT)));
    assert(steps_view(steps@) =~= seq![
        BundleStepView::CheckoutRepo,
        BundleStepView::SetupSentry,
        BundleStepView::InstallLinuxDependencies,
        BundleStepView::Script(LINUX_BUNDLE_SCRIPT@),
    ]);
    push_bundle_uploads(&mut steps, Platform::Linux, arch);
    BundleJob {
        name: bundle_job_name(Platform::Linux, arch),
        runner: Runner::LinuxBundler(arch),
        envs: bundle_envs(Platform::Linux),
        steps,
    }
}

/// The job that bundles the Windows application for `arch`: check out, set
/// up Sentry, bundle in PowerShell from the workspace directory, and upload
/// both bundles.
pub fn bundle_windows(arch: Arch) -> (r: BundleJob)
    ensures
        is_bundle_job(r, Platform::Windows, arch),
{
    let mut steps = Vec::new();
    steps.push(BundleStep::CheckoutRepo);
    steps.push(BundleStep::SetupSentry);
    steps.push(
        BundleStep::Pwsh {
            command: String::from_str(windows_bundle_script(arch)),
            working_directory: String::from_str(WINDOWS_BUNDLE_WORKING_DIRECTORY),
        },
    );
    assert(steps_view(steps@) =~= seq![
        BundleStepView::CheckoutRepo,
        BundleStepView::SetupSentry,
        BundleStepView::Pwsh(windows_bundle_script_spec(arch), WINDOWS_BUNDLE_WORKING_DIRECTORY@),
    ]);
    push_bundle_uploads(&mut steps, Platform::Windows, arch);
    BundleJob {
        name: bundle_job_name(Platform::Windows, arch),
        runner: Runner::WindowsDefault,
        envs: bundle_envs(Platform::Windows),
        steps,
    }
}

/// Different platform and architecture pairs get different job ids, so no
/// bundling job replaces another in the workflow's map of jobs.
pub proof fn lemma_bundle_job_names_distinct(p1: Platform, a1: Arch, p2: Platform, a2: Arch)
    requires
        p1 != p2 || a1 != a2,
    ensures
        bundle_job_name_spec(p1, a1) != bundle_job_name_spec(p2, a2),
{
    reveal_strlit("bundle_");
    reveal_strlit("_");
    reveal_strlit("linux");
    reveal_strlit("mac");
    reveal_strlit("windows");
    reveal_strlit("x86_64");
    reveal_strlit("aarch64");
    assert(bundle_job_name_spec(p1, a1).len() != bundle_job_name_spec(p2, a2).len());
}

/// Different platform and architecture pairs upload differently named
/// artifacts, and no application bundle is named like a remote-server
/// bundle, so no upload replaces another.
pub proof fn lemma_bundle_artifacts_distinct(p1: Platform, a1: Arch, p2: Platform, a2: Arch)
    ensures
        (p1 != p2 || a1 != a2) ==> bundle_artifact_spec(p1, a1) != bundle_artifact_spec(p2, a2),
        (p1 != p2 || a1 != a2) ==> remote_server_artifact_spec(p1, a1)
            != remote_server_artifact_spec(p2, a2),
        bundle_artifact_spec(p1, a1) != remote_server_artifact_spec(p2, a2),
{
    reveal_strlit("Zed-aarch64.dmg");
    reveal_strlit("Zed-x86_64.dmg");
    reveal_strlit("zed-linux-aarch64.tar.gz");
    reveal_strlit("zed-linux-x86_64.tar.gz");
    reveal_strlit("Zed-x86_64.exe");
    reveal_strlit("Zed-aarch64.exe");
    reveal_strlit("zed-remote-server-macos-aarch64.gz");
    reveal_strlit("zed-remote-server-macos-x86_64.gz");
    reveal_strlit("zed-remote-server-linux-aarch64.gz");
    reveal_strlit("zed-remote-server-linux-x86_64.gz");
    reveal_strlit("zed-remote-server-windows-aarch64.zip");
    reveal_strlit("zed-remote-server-windows-x86_64.zip");
    let b1 = bundle_artifact_spec(p1, a1);
    let b2 = bundle_artifact_spec(p2, a2);
    let r1 = remote_server_artifact_spec(p1, a1);
    let r2 = remote_server_artifact_spec(p2, a2);
    assert(b1[b1.len() - 2] != b2[b2.len() - 2] || b1.len() != b2.len() || (p1 == p2 && a1 == a2));
    assert(r1[18] != r2[18] || r1.len() != r2.len() || (p1 == p2 && a1 == a2));
    assert(b1.len() != r2.len());
}

/// A Linux bundling job runs on the Linux bundler of its own architecture,
/// so the jobs for the two architectures run on different machines; macOS
/// and Windows bundling jobs run on the default runner of their platform.
pub proof fn lemma_bundle_runner_matches_target(plan: BundleJob, platform: Platform, arch: Arch)
    requires
        is_bundle_job(plan, platform, arch),
    ensures
        platform == Platform::Linux ==> plan.runner == Runner::LinuxBundler(arch),
        platform == Platform::Mac ==> plan.runner == Runner::MacDefault,
        platform == Platform::Windows ==> plan.runner == Runner::WindowsDefault,
        forall|other: BundleJob, other_arch: Arch|
            platform == Platform::Linux && arch != other_arch && #[trigger] is_bundle_job(
                other,
                Platform::Linux,
                other_arch,
            ) ==> other.runner != plan.runner,
{
}

/// Every bundling job checks out the repository first, on every platform and
/// for every architecture.
pub proof fn lemma_bundle_jobs_check_out_first(plan: BundleJob, platform: Platform, arch: Arch)
    requires
        is_bundle_job(plan, platform, arch),
    ensures
        plan.steps@.len() > 0,
        plan.steps@[0]@ == BundleStepView::CheckoutRepo,
{
    assert(steps_view(plan.steps@).len() == plan.steps@.len());
    assert(steps_view(plan.steps@)[0] == plan.steps@[0]@);
}

/// The macOS bundling job uploads the application bundle from the release
/// directory of the very target triple that its bundling command builds:
/// `./script/bundle-mac <triple>` and `target/<triple>/release/<bundle>`,
/// where the triple is the architecture's name followed by `-apple-darwin`.
pub proof fn lemma_mac_upload_reads_the_built_triple(plan: BundleJob, arch: Arch)
    requires
        is_bundle_job(plan, Platform::Mac, arch),
    ensures
        ({
            let triple = arch_name_spec(arch) + "-apple-darwin"@;
            &&& plan.steps@[4]@ == BundleStepView::Bash("./script/bundle-mac "@ + triple)
            &&& plan.steps@[5]@ == BundleStepView::Upload(
                upload_view(
                    "target/"@ + triple + "/release/"@ + bundle_artifact_spec(Platform::Mac, arch),
                    bundle_artifact_spec(Platform::Mac, arch),
                ),
            )
        }),
{
    reveal_strlit("./script/bundle-mac ");
    reveal_strlit("-apple-darwin");
    reveal_strlit("-apple-darwin/release/");
    reveal_strlit("/release/");
    reveal_strlit("target/");
    reveal_strlit("x86_64");
    reveal_strlit("aarch64");
    let triple = arch_name_spec(arch) + "-apple-darwin"@;
    assert(steps_view(plan.steps@).len() == plan.steps@.len());
    assert(bundle_steps_spec(Platform::Mac, arch).len() == 7);
    assert(steps_view(plan.steps@)[4] == plan.steps@[4]@);
    assert(steps_view(plan.steps@)[5] == plan.steps@[5]@);
    assert(mac_bundle_script_spec(arch) =~= "./script/bundle-mac "@ + triple);
    assert(bundle_artifact_path_spec(Platform::Mac, arch) =~= "target/"@ + triple + "/release/"@
        + bundle_artifact_spec(Platform::Mac, arch));
}

/// Every bundling job ends by uploading, under their file names, first the
/// application bundle and then the remote-server bundle of its own platform
/// and architecture; the Windows job bundles for its own architecture.
pub proof fn lemma_bundle_jobs_upload_their_own_bundles(plan: BundleJob, platform: Platform, arch: Arch)
    requires
        is_bundle_job(plan, platform, arch),
    ensures
        plan.steps@.len() >= 2,
        ({
            let n = plan.steps@.len() as int;
            &&& plan.steps@[n - 2]@ matches BundleStepView::Upload(u) && u.name
                == bundle_artifact_spec(platform, arch) && file_name_spec(u.path) == Some(u.name)
            &&& plan.steps@[n - 1]@ matches BundleStepView::Upload(u) && u.name
                == remote_server_artifact_spec(platform, arch) && file_name_spec(u.path) == Some(
                u.name,
            )
        }),
        platform == Platform::Windows ==> plan.steps@[2]@ == BundleStepView::Pwsh(
            "script/bundle-windows.ps1 -Architecture "@ + arch_name_spec(arch),
            WINDOWS_BUNDLE_WORKING_DIRECTORY@,
        ),
{
    reveal_strlit("script/bundle-windows.ps1 -Architecture ");
    reveal_strlit("script/bundle-windows.ps1 -Architecture x86_64");
    reveal_strlit("script/bundle-windows.ps1 -Architecture aarch64");
    reveal_strlit("x86_64");
    reveal_strlit("aarch64");
    reveal_strlit("target/");
    reveal_strlit("target/release/");
    reveal_strlit("-apple-darwin/release/");
    lemma_artifacts_are_plain(platform, arch);
    let steps = plan.steps@;
    let n = steps.len() as int;
    assert(steps_view(steps).len() == n);
    assert(n >= 2);
    assert(steps_view(steps)[n - 2] == steps[n - 2]@);
    assert(steps_view(steps)[n - 1] == steps[n - 1]@);
    assert(steps_view(steps)[2] == steps[2]@);
    let name = bundle_artifact_spec(platform, arch);
    match platform {
        Platform::Mac => {
            let dir = "target/"@ + arch_name_spec(arch) + "-apple-darwin/release/"@;
            assert(dir.last() == '/');
            lemma_file_name_of_join(dir, name);
            assert(bundle_artifact_path_spec(platform, arch) =~= dir + name);
        },
        Platform::Linux => {
            lemma_file_name_of_join("target/release/"@, name);
        },
        Platform::Windows => {
            lemma_file_name_of_join("target/"@, name);
            assert(windows_bundle_script_spec(arch) =~= "script/bundle-windows.ps1 -Architecture "@
                + arch_name_spec(arch));
        },
    }
    lemma_file_name_of_join("target/"@, remote_server_artifact_spec(platform, arch));
}

/// The plan of the bundling job for `platform` and `arch`.
pub fn bundle_plan(platform: Platform, arch: Arch) -> (r: BundleJob)
    ensures
        is_bundle_job(r, platform, arch),
{
    match platform {
        Platform::Mac => bundle_mac(arch),
        Platform::Linux => bundle_linux(arch),
        Platform::Windows => bundle_windows(arch),
    }
}

/// `job` is the bundling job for `platform` and `arch` that waits for what
/// `base` waits for: named after the target, with the `needs` of `base`, the
/// label condition when it has no dependencies (`independent`) and the
/// condition of `base` otherwise, an hour's timeout, and everything else as
/// `carry_out` made it of the plan for the target.
pub open spec fn is_bundle_job_for<F: Fn(BundleJob) -> Job>(
    carry_out: F,
    job: NamedJob,
    platform: Platform,
    arch: Arch,
    independent: bool,
    base: Job,
) -> bool {
    &&& job.name@ == bundle_job_name_spec(platform, arch)
    &&& job_needs(job.job) == job_needs(base)
    &&& job_condition(job.job) == if independent {
        Some(BUNDLE_CONDITION@)
    } else {
        job_condition(base)
    }
    &&& job_timeout_minutes(job.job) == Some(BUNDLE_TIMEOUT_MINUTES)
    &&& exists|plan: BundleJob, body: Job|
        #![trigger call_ensures(carry_out, (plan,), body)]
        is_bundle_job(plan, platform, arch) && call_ensures(carry_out, (plan,), body)
            && job_rest(job.job) == job_rest(body)
}

/// `job` is the Nix build `build` run under the bundling condition.
pub open spec fn is_gated_nix_job(job: NamedJob, build: NamedJob) -> bool {
    &&& job.name == build.name
    &&& job_view(job.job) == (
        job_needs(build.job),
        Some(NIX_CONDITION@),
        job_timeout_minutes(build.job),
        job_rest(build.job),
    )
}

/// The job that bundles `platform` for `arch` once `deps` are done: the plan
/// for the target, carried out by `carry_out`, named after the target, made
/// to wait for what `base` (the job that waits for `deps`) waits for, gated by
/// the label condition when `deps` is empty, and cancelled after an hour.
pub fn bundle_job_for<F: Fn(BundleJob) -> Job>(
    carry_out: &F,
    platform: Platform,
    arch: Arch,
    deps: &[&NamedJob],
    base: &Job,
) -> (r: NamedJob)
    requires
        forall|plan: BundleJob| #[trigger] carry_out.requires((plan,)),
    ensures
        is_bundle_job_for(*carry_out, r, platform, arch, deps@.len() == 0, *base),
{
    let plan = bundle_plan(platform, arch);
    let ghost planned = plan;
    let body = carry_out(plan);
    let ghost carried = body;
    let job = bundle_job(job_with_dependencies_of(body, base), deps);
    let r = NamedJob { name: bundle_job_name(platform, arch), job };
    assert(is_bundle_job(planned, platform, arch) && call_ensures(*carry_out, (planned,), carried));
    r
}

/// What a bundling plan says: its id, its runner, its environment and its
/// steps.
pub open spec fn bundle_plan_view(plan: BundleJob) -> (
    Seq<char>,
    Runner,
    Seq<(Seq<char>, Seq<char>)>,
    Seq<BundleStepView>,
) {
    (plan.name@, plan.runner, env_entries(plan.envs), steps_view(plan.steps@))
}

/// `carry_out` makes jobs that agree in everything but `needs`, condition
/// and timeout of two plans that say the same.
pub open spec fn carries_out_by_view<F: Fn(BundleJob) -> Job>(carry_out: F) -> bool {
    forall|p1: BundleJob, p2: BundleJob, b1: Job, b2: Job|
        #![trigger call_ensures(carry_out, (p1,), b1), call_ensures(carry_out, (p2,), b2)]
        bundle_plan_view(p1) == bundle_plan_view(p2) && call_ensures(carry_out, (p1,), b1)
            && call_ensures(carry_out, (p2,), b2) ==> job_rest(b1) == job_rest(b2)
}

/// A bundling job is determined by its target, by whether it has
/// dependencies and by the job whose `needs` it takes, as long as the
/// conversion of plans depends on what a plan says alone. So each bundling
/// job that `run_bundling` lists is, in every part, the one that
/// `bundle_job_for` makes for its target without dependencies.
pub proof fn lemma_bundle_job_for_is_determined<F: Fn(BundleJob) -> Job>(
    carry_out: F,
    j1: NamedJob,
    j2: NamedJob,
    platform: Platform,
    arch: Arch,
    independent: bool,
    base: Job,
)
    requires
        carries_out_by_view(carry_out),
        is_bundle_job_for(carry_out, j1, platform, arch, independent, base),
        is_bundle_job_for(carry_out, j2, platform, arch, independent, base),
    ensures
        j1.name@ == j2.name@,
        job_view(j1.job) == job_view(j2.job),
{
    let (p1, b1) = choose|plan: BundleJob, body: Job|
        #![trigger call_ensures(carry_out, (plan,), body)]
        is_bundle_job(plan, platform, arch) && call_ensures(carry_out, (plan,), body)
            && job_rest(j1.job) == job_rest(body);
    let (p2, b2) = choose|plan: BundleJob, body: Job|
        #![trigger call_ensures(carry_out, (plan,), body)]
        is_bundle_job(plan, platform, arch) && call_ensures(carry_out, (plan,), body)
            && job_rest(j2.job) == job_rest(body);
    assert(bundle_plan_view(p1) == bundle_plan_view(p2));
    assert(job_rest(b1) == job_rest(b2));
}

/// The ids of the jobs of the bundling workflow, in order: the six bundling
/// jobs, then the two Nix builds.
pub open spec fn bundling_job_names_spec(nix_linux: Seq<char>, nix_mac: Seq<char>) -> Seq<Seq<char>> {
    seq![
        bundle_job_name_spec(Platform::Linux, Arch::AARCH64),
        bundle_job_name_spec(Platform::Linux, Arch::X86_64),
        bundle_job_name_spec(Platform::Mac, Arch::AARCH64),
        bundle_job_name_spec(Platform::Mac, Arch::X86_64),
        bundle_job_name_spec(Platform::Windows, Arch::AARCH64),
        bundle_job_name_spec(Platform::Windows, Arch::X86_64),
        nix_linux,
        nix_mac,
    ]
}

/// The ids of a list of jobs.
pub open spec fn job_names(jobs: Seq<NamedJob>) -> Seq<Seq<char>> {
    jobs.map_values(|j: NamedJob| j.name@)
}

/// The bundling workflow: it starts when a pull request is labelled or
/// receives commits, and a new run cancels the one in progress for the same
/// pull request. Its jobs are the bundling jobs for Linux, macOS and Windows
/// (ARM before x86), each what `bundle_job_for` makes for its target without
/// dependencies from `base` (the job that waits for nothing), followed by the
/// Nix builds for x86 Linux and ARM macOS, gated by the same condition. No
/// job runs without the `run-bundling` label.
pub fn run_bundling<F: Fn(BundleJob) -> Job>(
    carry_out: &F,
    base: &Job,
    nix_linux_x86_64: NamedJob,
    nix_mac_aarch64: NamedJob,
) -> (r: BundlingWorkflow)
    requires
        forall|plan: BundleJob| #[trigger] carry_out.requires((plan,)),
    ensures
        r.triggers@ == seq![PullRequestTrigger::Labeled, PullRequestTrigger::Synchronize],
        r.concurrency_group@ == CONCURRENCY_GROUP@,
        r.cancel_in_progress,
        env_entries(r.env) == run_bundling_env_spec(),
        r.jobs@.len() == 8,
        job_names(r.jobs@) == bundling_job_names_spec(nix_linux_x86_64.name@, nix_mac_aarch64.name@),
        forall|i: int, j: int| 0 <= i < j < 6 ==> r.jobs@[i].name@ != r.jobs@[j].name@,
        is_bundle_job_for(*carry_out, r.jobs@[0], Platform::Linux, Arch::AARCH64, true, *base),
        is_bundle_job_for(*carry_out, r.jobs@[1], Platform::Linux, Arch::X86_64, true, *base),
        is_bundle_job_for(*carry_out, r.jobs@[2], Platform::Mac, Arch::AARCH64, true, *base),
        is_bundle_job_for(*carry_out, r.jobs@[3], Platform::Mac, Arch::X86_64, true, *base),
        is_bundle_job_for(*carry_out, r.jobs@[4], Platform::Windows, Arch::AARCH64, true, *base),
        is_bundle_job_for(*carry_out, r.jobs@[5], Platform::Windows, Arch::X86_64, true, *base),
        is_gated_nix_job(r.jobs@[6], nix_linux_x86_64),
        is_gated_nix_job(r.jobs@[7], nix_mac_aarch64),
        forall|i: int| 0 <= i < r.jobs@.len() ==> (job_condition(#[trigger] r.jobs@[i].job)
            == Some(BUNDLE_CONDITION@) || job_condition(r.jobs@[i].job) == Some(NIX_CONDITION@)),
{
    let mut triggers = Vec::new();
    triggers.push(PullRequestTrigger::Labeled);
    triggers.push(PullRequestTrigger::Synchronize);
    let no_deps: Vec<&NamedJob> = Vec::new();
    let bundle = ReleaseBundleJobs {
        linux_aarch64: bundle_job_for(carry_out, Platform::Linux, Arch::AARCH64, no_deps.as_slice(), base),
        linux_x86_64: bundle_job_for(carry_out, Platform::Linux, Arch::X86_64, no_deps.as_slice(), base),
        mac_aarch64: bundle_job_for(carry_out, Platform::Mac, Arch::AARCH64, no_deps.as_slice(), base),
        mac_x86_64: bundle_job_for(carry_out, Platform::Mac, Arch::X86_64, no_deps.as_slice(), base),
        windows_aarch64: bundle_job_for(carry_out, Platform::Windows, Arch::AARCH64, no_deps.as_slice(), base),
        windows_x86_64: bundle_job_for(carry_out, Platform::Windows, Arch::X86_64, no_deps.as_slice(), base),
    };
    let ghost nix_linux_build = nix_linux_x86_64;
    let ghost nix_mac_build = nix_mac_aarch64;
    let mut jobs = bundle.into_jobs();
    jobs.push(nix_job(nix_linux_x86_64));
    jobs.push(nix_job(nix_mac_aarch64));
    proof {
        assert(job_names(jobs@) =~= bundling_job_names_spec(
            nix_linux_build.name@,
            nix_mac_build.name@,
        ));
        assert forall|i: int, j: int| 0 <= i < j < 6 implies jobs@[i].name@ != jobs@[j].name@ by {
            let targets = seq![
                (Platform::Linux, Arch::AARCH64),
                (Platform::Linux, Arch::X86_64),
                (Platform::Mac, Arch::AARCH64),
                (Platform::Mac, Arch::X86_64),
                (Platform::Windows, Arch::AARCH64),
                (Platform::Windows, Arch::X86_64),
            ];
            assert(job_names(jobs@)[i] == jobs@[i].name@);
            assert(job_names(jobs@)[j] == jobs@[j].name@);
            assert(jobs@[i].name@ == bundle_job_name_spec(targets[i].0, targets[i].1));
            assert(jobs@[j].name@ == bundle_job_name_spec(targets[j].0, targets[j].1));
            lemma_bundle_job_names_distinct(targets[i].0, targets[i].1, targets[j].0, targets[j].1);
        }
    }
    BundlingWorkflow {
        triggers,
        concurrency_group: CONCURRENCY_GROUP,
        cancel_in_progress: true,
        env: run_bundling_env(),
        jobs,
    }
}

} // verus!
