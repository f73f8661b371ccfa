use pulld::checkout::{local_branch_ref, remote_branch_name};

#[test]
fn reference_names() {
    assert_eq!(remote_branch_name("main"), "origin/main");
    assert_eq!(local_branch_ref("main"), "refs/heads/main");
    assert_eq!(local_branch_ref("release/1.2"), "refs/heads/release/1.2");
}
