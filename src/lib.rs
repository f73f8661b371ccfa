//! A host-local deployment agent: it watches one branch of a forge repository,
//! runs the jobs of the workflow that apply to this host for every new commit,
//! and reports each job's progress as a commit status.

pub mod names;
pub mod workflow;
pub mod forge;
pub mod script;
pub mod runner;
pub mod lifecycle;
pub mod poller;
pub mod github;
pub mod cli;
pub mod checkout;
