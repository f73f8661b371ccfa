use pulld::cli::{Backend, Cli, StartupError};

fn cli(token: Option<&str>, host: Option<&str>) -> Cli {
    Cli {
        backend: Backend::Github,
        owner: "acme".to_string(),
        repo: "site".to_string(),
        branch: "main".to_string(),
        checkout_path: "/srv/site".to_string(),
        ssh_key_path: "/etc/pulld/key".to_string(),
        poll_interval: 10,
        github_token: token.map(|s| s.to_string()),
        github_token_file: None,
        host_identifier: host.map(|s| s.to_string()),
    }
}

#[test]
fn token_file_content_is_trimmed() {
    let c = cli(Some("direct"), None);
    assert_eq!(c.resolve_token(Some("  from-file\n".to_string())).ok().unwrap(), "from-file");
}

#[test]
fn direct_token_used_without_file() {
    let c = cli(Some("direct"), None);
    assert_eq!(c.resolve_token(None).ok().unwrap(), "direct");
}

#[test]
fn missing_token_is_an_error() {
    let c = cli(None, None);
    assert!(matches!(c.resolve_token(None), Err(StartupError::MissingToken)));
}

#[test]
fn host_identifier_given_or_hostname() {
    assert_eq!(cli(None, Some("h1")).resolve_host_identifier(Some("box".to_string())).ok().unwrap(), "h1");
    assert_eq!(cli(None, None).resolve_host_identifier(Some("box".to_string())).ok().unwrap(), "box");
    assert!(matches!(cli(None, None).resolve_host_identifier(None), Err(StartupError::UnknownHost)));
}

#[test]
fn trimming_keeps_inner_space_and_drops_unicode_space() {
    let c = cli(None, None);
    assert_eq!(c.resolve_token(Some("\u{a0}\ta b\u{3000}\r\n".to_string())).ok().unwrap(), "a b");
    assert_eq!(c.resolve_token(Some(" \n\t ".to_string())).ok().unwrap(), "");
    assert_eq!(c.resolve_token(Some("tok".to_string())).ok().unwrap(), "tok");
}
