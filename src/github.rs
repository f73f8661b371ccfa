//! GitHub as a forge: its status payloads, and the requests the agent makes.

use vstd::prelude::*;
use vstd::string::StringExecFns;
use crate::forge::{CreateStatus, ForgeError, Status, StatusState};

verus! {

pub struct GithubStatusResponse {
    pub state: String,
    pub statuses: Vec<GithubStatus>,
    pub sha: String,
    pub total_count: u32,
}

#[derive(Clone, Copy, Debug, PartialEq, Eq, Structural)]
pub enum GithubStatusState {
    Pending,
    Success,
    Failure,
    Error,
}

pub struct GithubStatus {
    pub id: u64,
    pub node_id: String,
    pub state: GithubStatusState,
    pub description: Option<String>,
    pub target_url: Option<String>,
    pub context: Option<String>,
    pub created_at: String,
    pub updated_at: String,
}

pub struct GithubCreateStatus {
    pub state: GithubStatusState,
    pub target_url: Option<String>,
    pub description: Option<String>,
    pub context: Option<String>,
}

/// A repository on GitHub, and the token that the agent acts with.
pub struct GitHub {
    owner: String,
    repo: String,
    pat: String,
}

pub open spec fn github_state_of(s: StatusState) -> GithubStatusState {
    match s {
        StatusState::Pending => GithubStatusState::Pending,
        StatusState::Success => GithubStatusState::Success,
        StatusState::Failure => GithubStatusState::Failure,
        StatusState::Error => GithubStatusState::Error,
    }
}

pub open spec fn status_state_of(s: GithubStatusState) -> StatusState {
    match s {
        GithubStatusState::Pending => StatusState::Pending,
        GithubStatusState::Success => StatusState::Success,
        GithubStatusState::Failure => StatusState::Failure,
        GithubStatusState::Error => StatusState::Error,
    }
}

impl From<StatusState> for GithubStatusState {
    fn from(status: StatusState) -> (r: Self)
        ensures
            r == github_state_of(status),
    {
        match status {
            StatusState::Pending => GithubStatusState::Pending,
            StatusState::Success => GithubStatusState::Success,
            StatusState::Error => GithubStatusState::Error,
            StatusState::Failure => GithubStatusState::Failure,
        }
    }
}

impl vstd::std_specs::convert::FromSpecImpl<StatusState> for GithubStatusState {
    open spec fn obeys_from_spec() -> bool {
        true
    }

    open spec fn from_spec(v: StatusState) -> GithubStatusState {
        github_state_of(v)
    }
}

impl From<GithubStatusState> for StatusState {
    fn from(status: GithubStatusState) -> (r: Self)
        ensures
            r == status_state_of(status),
    {
        match status {
            GithubStatusState::Pending => StatusState::Pending,
            GithubStatusState::Success => StatusState::Success,
            GithubStatusState::Error => StatusState::Error,
            GithubStatusState::Failure => StatusState::Failure,
        }
    }
}

impl vstd::std_specs::convert::FromSpecImpl<GithubStatusState> for StatusState {
    open spec fn obeys_from_spec() -> bool {
        true
    }

    open spec fn from_spec(v: GithubStatusState) -> StatusState {
        status_state_of(v)
    }
}

pub open spec fn status_of(g: GithubStatus) -> Status {
    Status {
        state: status_state_of(g.state),
        description: g.description,
        target_url: g.target_url,
        context: g.context,
    }
}

impl From<GithubStatus> for Status {
    fn from(g: GithubStatus) -> (r: Self)
        ensures
            r == status_of(g),
    {
        Status {
            state: StatusState::from(g.state),
            description: g.description,
            target_url: g.target_url,
            context: g.context,
        }
    }
}

impl vstd::std_specs::convert::FromSpecImpl<GithubStatus> for Status {
    open spec fn obeys_from_spec() -> bool {
        true
    }

    open spec fn from_spec(v: GithubStatus) -> Status {
        status_of(v)
    }
}

pub open spec fn api_repo_prefix(owner: Seq<char>, repo: Seq<char>) -> Seq<char> {
    "https://api.github.com/repos/"@ + owner + "/"@ + repo
}

impl GitHub {
    pub closed spec fn owner(&self) -> Seq<char> {
        self.owner@
    }

    pub closed spec fn repo(&self) -> Seq<char> {
        self.repo@
    }

    pub closed spec fn pat(&self) -> Seq<char> {
        self.pat@
    }

    pub fn new(owner: &str, repo: &str, pat: &str) -> (r: Result<GitHub, ForgeError>)
        ensures
            r matches Ok(g) && g.owner() == owner@ && g.repo() == repo@ && g.pat() == pat@,
    {
        Ok(GitHub { owner: owner.to_owned(), repo: repo.to_owned(), pat: pat.to_owned() })
    }

    /// The SSH clone URL of the repository.
    pub fn git_ssh_url(&self) -> (r: String)
        ensures
            r@ == "git@github.com:"@ + self.owner() + "/"@ + self.repo() + ".git"@,
    {
        let mut url = String::from_str("git@github.com:");
        url.append(self.owner.as_str());
        url.append("/");
        url.append(self.repo.as_str());
        url.append(".git");
        url
    }

    fn repo_prefix(&self) -> (r: String)
        ensures
            r@ == api_repo_prefix(self.owner(), self.repo()),
    {
        let mut url = String::from_str("https://api.github.com/repos/");
        url.append(self.owner.as_str());
        url.append("/");
        url.append(self.repo.as_str());
        url
    }

    /// Where the combined status of commit `sha` is read.
    pub fn commit_status_url(&self, sha: &str) -> (r: String)
        ensures
            r@ == api_repo_prefix(self.owner(), self.repo()) + "/commits/"@ + sha@ + "/status"@,
    {
        let mut url = self.repo_prefix();
        url.append("/commits/");
        url.append(sha);
        url.append("/status");
        url
    }

    /// Where a status of commit `sha` is written.
    pub fn create_status_url(&self, sha: &str) -> (r: String)
        ensures
            r@ == api_repo_prefix(self.owner(), self.repo()) + "/statuses/"@ + sha@,
    {
        let mut url = self.repo_prefix();
        url.append("/statuses/");
        url.append(sha);
        url
    }

    /// The value of the `Authorization` header.
    pub fn authorization(&self) -> (r: String)
        ensures
            r@ == "Bearer "@ + self.pat(),
    {
        let mut value = String::from_str("Bearer ");
        value.append(self.pat.as_str());
        value
    }
}

/// The body of the request that writes `status`.
pub fn create_status_body(status: CreateStatus) -> (r: GithubCreateStatus)
    ensures
        r.state == github_state_of(status.state),
        r.target_url == status.target_url,
        r.description == status.description,
        r.context == Some(status.context),
{
    GithubCreateStatus {
        state: GithubStatusState::from(status.state),
        target_url: status.target_url,
        description: status.description,
        context: Some(status.context),
    }
}

/// The statuses of a combined-status answer, in the order GitHub gave them.
pub fn statuses_of_response(res: GithubStatusResponse) -> (r: Vec<Status>)
    ensures
        r@ == res.statuses@.map_values(|g: GithubStatus| status_of(g)),
{
    let mut statuses = res.statuses;
    let ghost all = statuses@;
    let mut out: Vec<Status> = Vec::new();
    let mut done: usize = 0;
    assert(all.len() == statuses.len());
    while statuses.len() > 0
        invariant
            done <= all.len(),
            all.len() == done + statuses.len(),
            all.len() <= usize::MAX,
            statuses@ == all.subrange(done as int, all.len() as int),
            out@ == all.subrange(0, done as int).map_values(|g: GithubStatus| status_of(g)),
        decreases statuses.len(),
    {
        let g = statuses.remove(0);
        assert(all.subrange(0, done + 1) =~= all.subrange(0, done as int).push(g));
        out.push(Status::from(g));
        done = done + 1;
        assert(statuses@ =~= all.subrange(done as int, all.len() as int));
    }
    assert(all.subrange(0, done as int) =~= all);
    out
}

/// Whether writing a status succeeded, from the HTTP status code of the answer.
pub fn check_status_code(code: u16) -> (r: Result<(), ForgeError>)
    ensures
        r is Ok <==> 200 <= code <= 299,
        r matches Err(e) ==> e == ForgeError::Rejected(code),
{
    if 200 <= code && code <= 299 {
        Ok(())
    } else {
        Err(ForgeError::Rejected(code))
    }
}

} // verus!
