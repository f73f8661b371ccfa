//! Names of the git references that the checkout of the watched branch uses.

use vstd::prelude::*;
use vstd::string::StringExecFns;

verus! {

/// The remote-tracking branch of `branch` on `origin`, as a branch name.
pub fn remote_branch_name(branch: &str) -> (r: String)
    ensures
        r@ == "origin/"@ + branch@,
{
    let mut name = String::from_str("origin/");
    name.append(branch);
    name
}

/// The full name of the local branch `branch`, which HEAD is set to before a reset.
pub fn local_branch_ref(branch: &str) -> (r: String)
    ensures
        r@ == "refs/heads/"@ + branch@,
{
    let mut name = String::from_str("refs/heads/");
    name.append(branch);
    name
}

} // verus!
