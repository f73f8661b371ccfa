//! The poller's decisions: what to do with the branch tip that a fetch found.

use vstd::prelude::*;
use crate::runner::{GitError, Runner};

verus! {

pub enum PollAction {
    /// Nothing changed, or the fetch failed: wait for the next poll.
    Idle,
    /// Start a run for this commit.
    Start(String),
    /// Cancel the run in flight, wait for it to end, then start a run for this commit.
    CancelThenStart(String),
}

pub struct Poller {
    /// The last commit seen on the branch.
    pub current_commit_id: String,
    pub host_identifier: String,
    /// Seconds between polls.
    pub poll_interval: u64,
}

impl Poller {
    /// A poller that has seen `current_commit_id`, the commit checked out when it starts.
    pub fn new(current_commit_id: String, host_identifier: String, poll_interval: u64) -> (r: Poller)
        ensures
            r.current_commit_id == current_commit_id,
            r.host_identifier == host_identifier,
            r.poll_interval == poll_interval,
    {
        Poller { current_commit_id, host_identifier, poll_interval }
    }

    /// Takes the result of fetching the branch tip. A failed fetch, or the tip
    /// already seen, changes nothing; a new tip is recorded and a run is started
    /// for it, after the run in flight (if any) is cancelled.
    pub fn poll(&mut self, fetched: Result<String, GitError>, runner: &Runner) -> (a: PollAction)
        ensures
            final(self).host_identifier == old(self).host_identifier,
            final(self).poll_interval == old(self).poll_interval,
            match fetched {
                Err(_) => a is Idle && final(self).current_commit_id == old(self).current_commit_id,
                Ok(tip) => if tip@ == old(self).current_commit_id@ {
                    a is Idle && final(self).current_commit_id == old(self).current_commit_id
                } else {
                    &&& final(self).current_commit_id@ == tip@
                    &&& runner.spec_is_running() ==> (a matches PollAction::CancelThenStart(c)
                        && c@ == tip@)
                    &&& !runner.spec_is_running() ==> (a matches PollAction::Start(c) && c@
                        == tip@)
                },
            },
    {
        match fetched {
            Err(_) => PollAction::Idle,
            Ok(tip) => {
                if tip == self.current_commit_id {
                    PollAction::Idle
                } else {
                    self.current_commit_id = tip.as_str().to_owned();
                    if runner.is_running() {
                        PollAction::CancelThenStart(tip)
                    } else {
                        PollAction::Start(tip)
                    }
                }
            },
        }
    }
}

} // verus!
