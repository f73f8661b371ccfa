//! Commit statuses, as the agent reports them to a forge.

use vstd::prelude::*;

verus! {

#[derive(Clone, Copy, Debug, PartialEq, Eq, Structural)]
pub enum StatusState {
    Pending,
    Success,
    Failure,
    Error,
}

/// A status row as the forge reports it.
pub struct Status {
    pub state: StatusState,
    pub description: Option<String>,
    pub target_url: Option<String>,
    pub context: Option<String>,
}

/// A status row to write for a commit; `context` names the row.
pub struct CreateStatus {
    pub state: StatusState,
    pub description: Option<String>,
    pub target_url: Option<String>,
    pub context: String,
}

pub struct CreateStatusView {
    pub state: StatusState,
    pub description: Option<Seq<char>>,
    pub target_url: Option<Seq<char>>,
    pub context: Seq<char>,
}

impl View for CreateStatus {
    type V = CreateStatusView;

    open spec fn view(&self) -> CreateStatusView {
        CreateStatusView {
            state: self.state,
            description: self.description.deep_view(),
            target_url: self.target_url.deep_view(),
            context: self.context@,
        }
    }
}

pub enum ForgeError {
    /// The forge could not be reached, or its answer could not be read.
    Transport(String),
    /// The forge answered with this HTTP status code, which is not a success.
    Rejected(u16),
}

/// A forge that keeps per-commit status rows.
pub trait Forge {
    fn get_commit_statuses(&self, sha: &str) -> Result<Vec<Status>, ForgeError>;

    /// Writes the row `status.context` of commit `sha`, replacing what it held.
    fn set_commit_status(&self, sha: &str, status: CreateStatus) -> Result<(), ForgeError>;

    fn git_ssh_url(&self) -> String;
}

} // verus!
