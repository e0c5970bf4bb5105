//! The workflow files that the generator writes: which workflows there are,
//! where each one is written, and what its file holds.

use vstd::prelude::*;
use vstd::string::{StrSliceExecFns, StringExecFns};

verus! {

/// The arguments of the `workflows` command (it takes none).
pub struct GenerateWorkflowArgs {}

/// The workflows that the generator writes, each built by its own module.
#[derive(Clone, Copy, Debug, PartialEq, Eq, Structural)]
pub enum WorkflowSource {
    ComparePerf,
    RunBundling,
    RunTests,
}

/// Why the workflows could not be generated.
#[derive(Clone, Copy, Debug, PartialEq, Eq, Structural)]
pub enum WorkflowsError {
    /// The generator was started outside the repository root.
    NotProjectRoot,
}

impl WorkflowsError {
    /// The message reported for this error.
    pub fn message(&self) -> (r: String)
        ensures
            r@ == "xtask workflows must be ran from the project root"@,
    {
        String::from_str("xtask workflows must be ran from the project root")
    }
}

/// A directory that exists only at the root of the repository; the generator
/// refuses to run where it is missing.
pub const PROJECT_ROOT_MARKER: &'static str = "crates/zed/";

/// The directory, relative to the repository root, that receives the files.
pub const WORKFLOWS_DIR: &'static str = ".github/workflows";

/// The workflows to write, in the order in which they are written.
pub open spec fn workflow_sources_spec() -> Seq<WorkflowSource> {
    seq![WorkflowSource::ComparePerf, WorkflowSource::RunBundling, WorkflowSource::RunTests]
}

/// Decides what the `workflows` command does: refuse to run outside the
/// repository root, and otherwise write every workflow, in order.
pub fn run_workflows(_args: GenerateWorkflowArgs, in_project_root: bool) -> (r: Result<
    Vec<WorkflowSource>,
    WorkflowsError,
>)
    ensures
        in_project_root ==> (r matches Ok(sources) && sources@ == workflow_sources_spec()),
        !in_project_root ==> r == Err::<Vec<WorkflowSource>, WorkflowsError>(
            WorkflowsError::NotProjectRoot,
        ),
{
    if !in_project_root {
        return Err(WorkflowsError::NotProjectRoot);
    }
    let mut sources = Vec::new();
    sources.push(WorkflowSource::ComparePerf);
    sources.push(WorkflowSource::RunBundling);
    sources.push(WorkflowSource::RunTests);
    Ok(sources)
}

/// The position just after the last `::` that ends at or before position
/// `n` of `s`, or 0 when there is none: the search runs from the end, as
/// `str::rsplit` does.
pub open spec fn sep_end_before(s: Seq<char>, n: int) -> int
    decreases n,
{
    if n < 2 {
        0
    } else if s[n - 2] == ':' && s[n - 1] == ':' {
        n
    } else {
        sep_end_before(s, n - 1)
    }
}

/// The last `::`-separated segment of a workflow's name (the whole name when
/// it has no `::`).
pub open spec fn workflow_stem(name: Seq<char>) -> Seq<char> {
    name.skip(sep_end_before(name, name.len() as int))
}

/// The name of the file that holds the workflow `name`.
pub open spec fn workflow_file_name_spec(name: Seq<char>) -> Seq<char> {
    workflow_stem(name) + ".yml"@
}

/// The comment at the top of every generated file.
pub open spec fn disclaimer_spec(name: Seq<char>) -> Seq<char> {
    "# Generated from xtask::workflows::"@ + name + "\n# Rebuild with `cargo xtask workflows`."@
}

/// The text of the file for the workflow `name` whose YAML is `yaml`.
pub open spec fn workflow_file_contents_spec(name: Seq<char>, yaml: Seq<char>) -> Seq<char> {
    disclaimer_spec(name) + "\n"@ + yaml
}

/// The name of the file for the workflow `name`: the last `::`-separated
/// segment of the name followed by `.yml`.
pub fn workflow_file_name(name: &str) -> (r: String)
    ensures
        r@ == workflow_file_name_spec(name@),
{
    let len = name.unicode_len();
    let mut n = len;
    let mut found = false;
    while n >= 2 && !found
        invariant
            len == name@.len(),
            n <= len,
            sep_end_before(name@, len as int) == if found {
                n as int
            } else {
                sep_end_before(name@, n as int)
            },
        decreases n + if found { 0int } else { 1int },
    {
        if name.get_char(n - 2) == ':' && name.get_char(n - 1) == ':' {
            found = true;
        } else {
            n = n - 1;
        }
    }
    let start = if found { n } else { 0 };
    let stem = name.substring_char(start, len);
    assert(stem@ == workflow_stem(name@));
    String::from_str(stem).concat(".yml")
}

/// The text of the file for the workflow `name` whose YAML is `yaml`: a
/// comment that names the workflow and the command that rebuilds it,
/// followed by the YAML.
pub fn workflow_file_contents(name: &str, yaml: &str) -> (r: String)
    ensures
        r@ == workflow_file_contents_spec(name@, yaml@),
{
    String::from_str("# Generated from xtask::workflows::").concat(name).concat(
        "\n# Rebuild with `cargo xtask workflows`.",
    ).concat("\n").concat(yaml)
}

/// A workflow file holds the whole YAML it is given, whatever it is: its text
/// is the text that an empty YAML gives, followed by the YAML unchanged. That
/// text starts with the generator's notice for the workflow's name and ends
/// with a line break, so the YAML starts on a line of its own.
pub proof fn lemma_workflow_file_keeps_the_whole_yaml(name: Seq<char>, yaml: Seq<char>)
    ensures
        workflow_file_contents_spec(name, yaml) == workflow_file_contents_spec(name, Seq::empty())
            + yaml,
        ("# Generated from xtask::workflows::"@ + name).is_prefix_of(
            workflow_file_contents_spec(name, yaml),
        ),
        workflow_file_contents_spec(name, Seq::empty()).last() == '\n',
{
    reveal_strlit("\n");
    assert(workflow_file_contents_spec(name, yaml) =~= workflow_file_contents_spec(
        name,
        Seq::empty(),
    ) + yaml);
    let contents = workflow_file_contents_spec(name, yaml);
    let prefix = "# Generated from xtask::workflows::"@ + name;
    assert(contents.take(prefix.len() as int) =~= prefix);
}

/// Whether a `::` starts at position `i` of `s`.
pub open spec fn separator_at(s: Seq<char>, i: int) -> bool {
    0 <= i && i + 1 < s.len() && s[i] == ':' && s[i + 1] == ':'
}

proof fn lemma_sep_end_before(s: Seq<char>, n: int)
    requires
        0 <= n <= s.len(),
    ensures
        0 <= sep_end_before(s, n) <= n,
        sep_end_before(s, n) == 0 || sep_end_before(s, n) >= 2,
        sep_end_before(s, n) >= 2 ==> separator_at(s, sep_end_before(s, n) - 2),
        forall|j: int| sep_end_before(s, n) <= j && j + 2 <= n ==> !separator_at(s, j),
    decreases n,
{
    if n >= 2 && !(s[n - 2] == ':' && s[n - 1] == ':') {
        lemma_sep_end_before(s, n - 1);
    }
}

/// The file stem of a workflow holds no `::`: it is the part of the name
/// after the last one.
pub proof fn lemma_workflow_stem_has_no_separator(name: Seq<char>)
    ensures
        forall|i: int| !separator_at(workflow_stem(name), i),
        sep_end_before(name, name.len() as int) >= 2 ==> separator_at(
            name,
            sep_end_before(name, name.len() as int) - 2,
        ),
        name =~= name.take(sep_end_before(name, name.len() as int)) + workflow_stem(name),
{
    let k = sep_end_before(name, name.len() as int);
    lemma_sep_end_before(name, name.len() as int);
    let stem = workflow_stem(name);
    assert forall|i: int| !separator_at(stem, i) by {
        if separator_at(stem, i) {
            assert(stem[i] == name[k + i]);
            assert(stem[i + 1] == name[k + i + 1]);
            assert(separator_at(name, k + i));
        }
    }
}

/// A workflow whose name has no `::` is written to a file named after the
/// whole name.
pub proof fn lemma_workflow_stem_of_plain_name(name: Seq<char>)
    requires
        forall|i: int| !separator_at(name, i),
    ensures
        workflow_stem(name) == name,
{
    lemma_sep_end_before(name, name.len() as int);
    let k = sep_end_before(name, name.len() as int);
    if k >= 2 {
        assert(separator_at(name, k - 2));
    }
    assert(name.skip(0) =~= name);
}

} // verus!
