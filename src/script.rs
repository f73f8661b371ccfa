//! Rendering of a job's commands into one shell script.

use vstd::prelude::*;
use vstd::string::StringExecFns;

verus! {

/// Characters that `sh` reads as themselves wherever they stand in a word.
pub open spec fn is_plain_shell_char(c: char) -> bool {
    ||| ('a' <= c && c <= 'z')
    ||| ('A' <= c && c <= 'Z')
    ||| ('0' <= c && c <= '9')
    ||| c == '-' || c == '_' || c == '=' || c == '/' || c == ',' || c == '.' || c == '+'
}

pub open spec fn quoted_char(c: char) -> Seq<char> {
    if c == '\'' || c == '!' {
        seq!['\'', '\\', c, '\'']
    } else {
        seq![c]
    }
}

pub open spec fn quoted_body(s: Seq<char>) -> Seq<char>
    decreases s.len(),
{
    if s.len() == 0 {
        Seq::empty()
    } else {
        quoted_body(s.drop_last()) + quoted_char(s.last())
    }
}

/// `s` as one shell word: unchanged if it is non-empty and all plain, else in
/// single quotes, with each `'` and `!` stepped out of the quotes.
pub open spec fn shell_quoted(s: Seq<char>) -> Seq<char> {
    if s.len() > 0 && forall|i: int| 0 <= i < s.len() ==> is_plain_shell_char(#[trigger] s[i]) {
        s
    } else {
        seq!['\''] + quoted_body(s) + seq!['\'']
    }
}

/// Relies on shell_escape::unix::escape, which returns a non-empty string of
/// plain characters (`a-z A-Z 0-9 - _ = / , . +`) as it is, and otherwise wraps
/// it in single quotes, writing each `'` and `!` as `'\'` and `'\!'`.
#[verifier::external_body]
fn shell_quote(s: &str) -> (r: String)
    ensures
        r@ == shell_quoted(s@),
{
    shell_escape::unix::escape(std::borrow::Cow::Borrowed(s)).into_owned()
}

/// The lines that run one command: an `echo` of `+ <command>`, then the command.
pub open spec fn command_block(cmd: Seq<char>) -> Seq<char> {
    "echo "@ + shell_quoted("+ "@ + cmd) + "\n"@ + cmd + "\n"@
}

pub open spec fn script_of(cmds: Seq<Seq<char>>) -> Seq<char>
    decreases cmds.len(),
{
    if cmds.len() == 0 {
        Seq::empty()
    } else {
        script_of(cmds.drop_last()) + command_block(cmds.last())
    }
}

/// The script that `sh -e -c` runs for a job with these commands.
pub fn render_script(commands: &Vec<String>) -> (r: String)
    ensures
        r@ == script_of(commands.deep_view()),
{
    let mut out = String::new();
    let mut i: usize = 0;
    while i < commands.len()
        invariant
            i <= commands.len(),
            out@ == script_of(commands.deep_view().subrange(0, i as int)),
        decreases commands.len() - i,
    {
        let cmd = commands[i].as_str();
        let mut echoed = String::from_str("+ ");
        echoed.append(cmd);
        let quoted = shell_quote(echoed.as_str());
        out.append("echo ");
        out.append(quoted.as_str());
        out.append("\n");
        out.append(cmd);
        out.append("\n");
        let ghost done = commands.deep_view().subrange(0, i + 1);
        assert(done.drop_last() =~= commands.deep_view().subrange(0, i as int));
        assert(out@ =~= script_of(done));
        i = i + 1;
    }
    assert(commands.deep_view().subrange(0, i as int) =~= commands.deep_view());
    out
}

/// The script of a job; a job without commands runs an empty script.
pub fn job_script(script: &Option<Vec<String>>) -> (r: String)
    ensures
        r@ == script_of(
            match script.deep_view() {
                Some(c) => c,
                None => Seq::empty(),
            },
        ),
{
    match script {
        Some(c) => render_script(c),
        None => {
            let empty: Vec<String> = Vec::new();
            assert(empty.deep_view() =~= Seq::<Seq<char>>::empty());
            render_script(&empty)
        },
    }
}

} // verus!
