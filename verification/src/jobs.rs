//! A workflow job together with the id under which it is added to a workflow.

use gh_workflow::Job;
use vstd::prelude::*;

verus! {

/// A job and its id in the workflow's `jobs` map.
pub struct NamedJob {
    pub name: String,
    pub job: Job,
}

} // verus!
