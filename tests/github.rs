use pulld::forge::{CreateStatus, ForgeError, Status, StatusState};
use pulld::github::{
    check_status_code, create_status_body, statuses_of_response, GitHub, GithubStatus,
    GithubStatusResponse, GithubStatusState,
};

fn github() -> GitHub {
    GitHub::new("acme", "site", "SECRET-REDACTED").ok().unwrap()
}

#[test]
fn ssh_url() {
    assert_eq!(github().git_ssh_url(), "git@github.com:acme/site.git");
}

#[test]
fn api_urls_and_header() {
    let g = github();
    assert_eq!(g.commit_status_url("abc"), "https://api.github.com/repos/acme/site/commits/abc/status");
    assert_eq!(g.create_status_url("abc"), "https://api.github.com/repos/acme/site/statuses/abc");
    assert_eq!(g.authorization(), "Bearer SECRET-REDACTED");
}

#[test]
fn status_codes() {
    assert!(check_status_code(200).is_ok());
    assert!(check_status_code(201).is_ok());
    assert!(check_status_code(299).is_ok());
    assert!(matches!(check_status_code(199), Err(ForgeError::Rejected(199))));
    assert!(matches!(check_status_code(422), Err(ForgeError::Rejected(422))));
}

#[test]
fn state_conversions() {
    for (s, g) in [
        (StatusState::Pending, GithubStatusState::Pending),
        (StatusState::Success, GithubStatusState::Success),
        (StatusState::Failure, GithubStatusState::Failure),
        (StatusState::Error, GithubStatusState::Error),
    ] {
        assert_eq!(GithubStatusState::from(s), g);
        assert_eq!(StatusState::from(g), s);
    }
}

#[test]
fn create_body_carries_context() {
    let body = create_status_body(CreateStatus {
        state: StatusState::Failure,
        description: Some("Job a on host h1 failed".to_string()),
        target_url: None,
        context: "pulld/a/h1".to_string(),
    });
    assert_eq!(body.state, GithubStatusState::Failure);
    assert_eq!(body.context.as_deref(), Some("pulld/a/h1"));
    assert_eq!(body.description.as_deref(), Some("Job a on host h1 failed"));
    assert_eq!(body.target_url, None);
}

#[test]
fn response_statuses_keep_order() {
    let status = |id: u64, state: GithubStatusState, ctx: &str| GithubStatus {
        id,
        node_id: format!("n{id}"),
        state,
        description: None,
        target_url: Some("https://example.com".to_string()),
        context: Some(ctx.to_string()),
        created_at: "2024-01-01T00:00:00Z".to_string(),
        updated_at: "2024-01-01T00:00:00Z".to_string(),
    };
    let res = GithubStatusResponse {
        state: "pending".to_string(),
        statuses: vec![
            status(1, GithubStatusState::Success, "pulld/a/h1"),
            status(2, GithubStatusState::Pending, "pulld/b/h1"),
        ],
        sha: "abc".to_string(),
        total_count: 2,
    };
    let out: Vec<Status> = statuses_of_response(res);
    assert_eq!(out.len(), 2);
    assert_eq!(out[0].state, StatusState::Success);
    assert_eq!(out[0].context.as_deref(), Some("pulld/a/h1"));
    assert_eq!(out[0].target_url.as_deref(), Some("https://example.com"));
    assert_eq!(out[1].state, StatusState::Pending);
    assert_eq!(out[1].context.as_deref(), Some("pulld/b/h1"));
}
