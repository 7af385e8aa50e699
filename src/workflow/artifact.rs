//! Artifacts from GitHub REST API, and the address they are listed at.

use vstd::prelude::*;

use crate::workflow::WorkflowRun;

verus! {

/// Represents artifacts from GitHub REST API.
#[derive(Debug, Clone)]
pub struct Artifacts {
    pub total_count: u8,
    pub artifacts: Vec<Artifact>,
}

/// Represents an artifact from GitHub REST API.
#[derive(Debug, Clone)]
pub struct Artifact {
    pub id: u64,
    pub node_id: String,
    pub name: String,
    pub size_in_bytes: u64,
    pub url: String,
    pub archive_download_url: String,
    pub expired: bool,
    pub created_at: Option<String>,
    pub expires_at: Option<String>,
    pub updated_at: Option<String>,
    pub digest: Option<String>,
    pub workflow_run: Option<WorkflowRun>,
}

/// The address that lists the artifacts of a workflow run.
pub open spec fn artifacts_url_of(owner: Seq<char>, repo: Seq<char>, run_id: Seq<char>) -> Seq<char> {
    "https://api.github.com/repos/"@ + owner + "/"@ + repo + "/actions/runs/"@ + run_id
        + "/artifacts"@
}

/// Builds the GitHub REST API address that lists the artifacts of a workflow run.
pub fn artifacts_url(owner: &str, repo: &str, run_id: &str) -> (r: String)
    ensures
        r@ == artifacts_url_of(owner@, repo@, run_id@),
{
    let mut url = String::from_str("https://api.github.com/repos/");
    url.append(owner);
    url.append("/");
    url.append(repo);
    url.append("/actions/runs/");
    url.append(run_id);
    url.append("/artifacts");
    url
}

} // verus!
