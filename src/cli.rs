//! The agent's settings, and the choices made from them at startup.

use vstd::prelude::*;

verus! {

#[derive(Clone, Copy, Debug, PartialEq, Eq, Structural)]
pub enum Backend {
    Github,
}

pub struct Cli {
    pub backend: Backend,
    pub owner: String,
    pub repo: String,
    /// The branch to watch.
    pub branch: String,
    /// Where the repository is checked out.
    pub checkout_path: String,
    /// The SSH private key used for git.
    pub ssh_key_path: String,
    /// Seconds between polls.
    pub poll_interval: u64,
    pub github_token: Option<String>,
    pub github_token_file: Option<String>,
    pub host_identifier: Option<String>,
}

pub enum StartupError {
    /// Neither a token nor a token file was given.
    MissingToken,
    /// No host identifier was given and the hostname is not usable.
    UnknownHost,
}

/// Unicode's White_Space property, which `char::is_whitespace` follows.
pub open spec fn is_white_space(c: char) -> bool {
    let u = c as u32;
    ||| 0x9 <= u <= 0xd
    ||| u == 0x20 || u == 0x85 || u == 0xa0 || u == 0x1680
    ||| 0x2000 <= u <= 0x200a
    ||| u == 0x2028 || u == 0x2029 || u == 0x202f || u == 0x205f || u == 0x3000
}

/// `t` is `s` with its leading and trailing white space removed.
pub open spec fn is_trimmed(s: Seq<char>, t: Seq<char>) -> bool {
    exists|i: int, j: int|
        0 <= i <= j <= s.len() && t == s.subrange(i, j) && (forall|k: int|
            0 <= k < i ==> is_white_space(#[trigger] s[k])) && (forall|k: int|
            j <= k < s.len() ==> is_white_space(#[trigger] s[k])) && (t.len() > 0 ==> !is_white_space(
            t[0],
        ) && !is_white_space(t.last()))
}

/// Relies on str::trim, which removes leading and trailing characters that
/// have Unicode's White_Space property.
#[verifier::external_body]
fn trim(s: &str) -> (r: String)
    ensures
        is_trimmed(s@, r@),
{
    s.trim().to_owned()
}

impl Cli {
    /// The token to authenticate with: the trimmed content of the token file
    /// where one was read, else the token given directly.
    pub fn resolve_token(&self, token_file_content: Option<String>) -> (r: Result<String, StartupError>)
        ensures
            match token_file_content {
                Some(c) => r matches Ok(t) && is_trimmed(c@, t@),
                None => match self.github_token {
                    Some(t) => r matches Ok(u) && u@ == t@,
                    None => r matches Err(StartupError::MissingToken),
                },
            },
    {
        match token_file_content {
            Some(c) => Ok(trim(c.as_str())),
            None => match &self.github_token {
                Some(t) => Ok(t.as_str().to_owned()),
                None => Err(StartupError::MissingToken),
            },
        }
    }

    /// The identifier of this host: the one given, else the machine's hostname
    /// (`None` where it could not be read as text).
    pub fn resolve_host_identifier(&self, hostname: Option<String>) -> (r: Result<String, StartupError>)
        ensures
            match self.host_identifier {
                Some(h) => r matches Ok(u) && u@ == h@,
                None => match hostname {
                    Some(h) => r matches Ok(u) && u@ == h@,
                    None => r matches Err(StartupError::UnknownHost),
                },
            },
    {
        match &self.host_identifier {
            Some(h) => Ok(h.as_str().to_owned()),
            None => match hostname {
                Some(h) => Ok(h),
                None => Err(StartupError::UnknownHost),
            },
        }
    }
}

} // verus!
