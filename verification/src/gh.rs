//! Trusted declarations of the `gh_workflow` items that the verified code
//! uses. Each contract below is believed, not proved; the doc comment of each
//! item says what it claims of the outside code.

use gh_workflow::{Env, Expression, Job};
use vstd::prelude::*;

verus! {

/// `gh_workflow::Env`: an ordered map (an `IndexMap<String, serde_json::Value>`)
/// from variable names to values.
#[verifier::external_type_specification]
#[verifier::external_body]
pub struct ExEnv(Env);

/// `gh_workflow::Job`: one job of a workflow.
#[verifier::external_type_specification]
#[verifier::external_body]
pub struct ExJob(Job);

/// What an `Env` holds, in insertion order: each entry as its key and the
/// JSON text of its value (a string value appears quoted, a number as its
/// decimal digits).
pub uninterp spec fn env_entries(env: Env) -> Seq<(Seq<char>, Seq<char>)>;

/// The job ids listed under `needs` of a job, in order; `None` when the job
/// has no `needs` entry at all (an empty list is written, `None` is not).
pub uninterp spec fn job_needs(job: Job) -> Option<Seq<Seq<char>>>;

/// The text of the `if` condition of a job, if it has one.
pub uninterp spec fn job_condition(job: Job) -> Option<Seq<char>>;

/// The `timeout-minutes` setting of a job, if it has one.
pub uninterp spec fn job_timeout_minutes(job: Job) -> Option<u32>;

/// Everything else a job holds: its JSON text (as `serde_json` writes it)
/// with the entries `needs`, `if` and `timeout-minutes` left out.
pub uninterp spec fn job_rest(job: Job) -> Seq<char>;

/// A job as the four parts above: needs, condition, timeout and the rest.
/// Together they are the whole JSON text of the job.
pub open spec fn job_view(job: Job) -> (Option<Seq<Seq<char>>>, Option<Seq<char>>, Option<u32>, Seq<char>) {
    (job_needs(job), job_condition(job), job_timeout_minutes(job), job_rest(job))
}

/// The `needs` of a job after adding `need`: appended to the list, or a list
/// of its own when the job had none.
pub open spec fn needs_after_add(needs: Option<Seq<Seq<char>>>, need: Seq<char>) -> Option<Seq<Seq<char>>> {
    match needs {
        Some(list) => Some(list.push(need)),
        None => Some(seq![need]),
    }
}

/// The entries of an ordered map after inserting `key` with `value`: an
/// existing entry for `key` keeps its position and takes the new value,
/// otherwise the entry is appended.
pub open spec fn entries_insert(
    entries: Seq<(Seq<char>, Seq<char>)>,
    key: Seq<char>,
    value: Seq<char>,
) -> Seq<(Seq<char>, Seq<char>)> {
    if exists|i: int| 0 <= i < entries.len() && #[trigger] entries[i].0 == key {
        let i = choose|i: int| 0 <= i < entries.len() && #[trigger] entries[i].0 == key;
        entries.update(i, (key, value))
    } else {
        entries.push((key, value))
    }
}

/// A string that JSON writes without escapes: no quote, no backslash and no
/// control character.
pub open spec fn json_plain(s: Seq<char>) -> bool {
    forall|i: int| 0 <= i < s.len() ==> #[trigger] s[i] != '"' && s[i] != '\\' && s[i] >= ' '
}

/// The JSON text of a string that needs no escapes.
pub open spec fn json_quoted(s: Seq<char>) -> Seq<char> {
    seq!['"'] + s + seq!['"']
}

/// The decimal digits of a natural number.
pub open spec fn decimal_text(n: nat) -> Seq<char>
    decreases n,
{
    if n < 10 {
        seq![digit_char(n)]
    } else {
        decimal_text(n / 10) + seq![digit_char(n % 10)]
    }
}

/// The ASCII digit for a number below ten.
pub open spec fn digit_char(d: nat) -> char {
    if d == 0 { '0' }
    else if d == 1 { '1' }
    else if d == 2 { '2' }
    else if d == 3 { '3' }
    else if d == 4 { '4' }
    else if d == 5 { '5' }
    else if d == 6 { '6' }
    else if d == 7 { '7' }
    else if d == 8 { '8' }
    else { '9' }
}

/// `Env::default()`: an empty map.
#[verifier::external_body]
pub(crate) fn env_default() -> (env: Env)
    ensures
        env_entries(env) == Seq::<(Seq<char>, Seq<char>)>::empty(),
{
    Env::default()
}

/// `Env::add(key, value)` with a string value: inserts `key` with the JSON
/// string `value` into the map. For a value that JSON writes with escapes the
/// contract states only that `key` ends up in the map.
#[verifier::external_body]
pub(crate) fn env_add_text(env: Env, key: &str, value: &str) -> (r: Env)
    ensures
        json_plain(value@) ==> env_entries(r) == entries_insert(
            env_entries(env),
            key@,
            json_quoted(value@),
        ),
        exists|i: int| 0 <= i < env_entries(r).len() && #[trigger] env_entries(r)[i].0 == key@,
{
    env.add(key, value)
}

/// `Env::add(key, value)` with a number value: inserts `key` with the JSON
/// number `value` into the map.
#[verifier::external_body]
pub(crate) fn env_add_number(env: Env, key: &str, value: u32) -> (r: Env)
    ensures
        env_entries(r) == entries_insert(env_entries(env), key@, decimal_text(value as nat)),
{
    env.add(key, value)
}

/// `Job::add_needs(need)`: appends `need` to the job's `needs` (starting a
/// list when there is none) and leaves every other field as it was.
#[verifier::external_body]
pub(crate) fn job_add_needs(job: Job, need: &str) -> (r: Job)
    ensures
        job_needs(r) == needs_after_add(job_needs(job), need@),
        job_condition(r) == job_condition(job),
        job_timeout_minutes(r) == job_timeout_minutes(job),
        job_rest(r) == job_rest(job),
{
    job.add_needs(need)
}

/// `Job::cond(Expression::new(cond))`: sets the job's `if` condition to the
/// text `cond` and leaves every other field as it was.
#[verifier::external_body]
pub(crate) fn job_set_condition(job: Job, cond: &str) -> (r: Job)
    ensures
        job_condition(r) == Some(cond@),
        job_needs(r) == job_needs(job),
        job_timeout_minutes(r) == job_timeout_minutes(job),
        job_rest(r) == job_rest(job),
{
    job.cond(Expression::new(cond))
}

/// `Job::timeout_minutes(minutes)`: sets the job's timeout and leaves every
/// other field as it was.
#[verifier::external_body]
pub(crate) fn job_set_timeout_minutes(job: Job, minutes: u32) -> (r: Job)
    ensures
        job_timeout_minutes(r) == Some(minutes),
        job_needs(r) == job_needs(job),
        job_condition(r) == job_condition(job),
        job_rest(r) == job_rest(job),
{
    job.timeout_minutes(minutes)
}

/// `body` with the `needs` and the `if` condition of `base` in place of its
/// own (the public fields `Job::needs` and `Job::cond`, cloned from `base`);
/// every other field is that of `body`.
#[verifier::external_body]
pub(crate) fn job_with_dependencies_of(body: Job, base: &Job) -> (r: Job)
    ensures
        job_needs(r) == job_needs(*base),
        job_condition(r) == job_condition(*base),
        job_timeout_minutes(r) == job_timeout_minutes(body),
        job_rest(r) == job_rest(body),
{
    Job { needs: base.needs.clone(), cond: base.cond.clone(), ..body }
}

} // verus!
