# xtask_workflows

The verified core of a generator of GitHub Actions workflow files.

- `src/` is the library, verified with Verus:
  - `workflows.rs`: which workflow files are written, their file names and contents;
  - `vars.rs` (and `vars/assets.rs`): secrets and variables, the environment of the
    bundling jobs, path conditions that guard jobs, inputs of manually triggered workflows;
  - `run_bundling.rs`: the release-bundling workflow and its jobs;
  - `paths.rs`: the file name of a path;
  - `runners.rs`, `jobs.rs`: platforms, architectures and named jobs;
  - `gh.rs`: the trusted declarations of the `gh_workflow` items that the library calls.
- `app/` holds the file-system side and turns the library's plans into `gh_workflow` values.
- `tests/` runs the library on concrete values.
