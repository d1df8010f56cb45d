//! Decisions around the `gh` command-line client: the error taxonomy, the
//! classification of a finished command's output, and the argument lists of
//! the commands the orchestrator issues. Spawning the client and collecting
//! its output happen outside this crate; this module turns the collected
//! output into values and errors the rotation logic acts on.

use vstd::prelude::*;

verus! {

/// A failure of one client command. An authorization failure condemns the
/// account for the rest of the rotation; any other failure is treated as
/// transient.
#[derive(Debug)]
pub enum GHError {
    CommandError(String),
    AuthError(String),
}

/// What a finished client command left behind: whether it exited
/// successfully, and its two output streams decoded to text.
pub struct CommandOutput {
    pub success: bool,
    pub stdout: String,
    pub stderr: String,
}

/// Whether an error stream shows a rejected credential.
pub open spec fn spec_auth_failure(stderr: Seq<char>) -> bool {
    ||| crate::text::spec_contains(stderr, "Bad credentials"@)
    ||| crate::text::spec_contains(stderr, "authentication required"@)
    ||| crate::text::spec_contains(stderr, "HTTP 401"@)
}

/// Whether a failed listing merely found nothing: the client reports no
/// matching sessions, or printed nothing at all.
pub open spec fn spec_benign_empty(stdout: Seq<char>, stderr: Seq<char>) -> bool {
    ||| crate::text::spec_contains(stderr, "no codespaces found"@)
    ||| crate::text::spec_trim(stdout).len() == 0
}

impl GHError {
    /// Whether this failure condemns the account's credential.
    pub fn is_auth(&self) -> (r: bool)
        ensures
            r == (self is AuthError),
    {
        match self {
            GHError::AuthError(_) => true,
            GHError::CommandError(_) => false,
        }
    }

    /// A line describing the failure, for logs.
    pub fn describe(&self) -> (m: String)
        ensures
            self matches GHError::CommandError(d) ==> m@ == "Command failed: "@ + d@,
            self matches GHError::AuthError(d) ==> m@ == "Auth error: "@ + d@,
    {
        match self {
            GHError::CommandError(d) => String::from_str("Command failed: ").concat(d.as_str()),
            GHError::AuthError(d) => String::from_str("Auth error: ").concat(d.as_str()),
        }
    }
}

/// Turns a finished command into the value or error the caller acts on: a
/// successful exit yields the trimmed output; a failure whose error stream
/// shows a rejected credential is an authorization failure; a failed listing
/// that merely found nothing yields an empty value; everything else is a
/// transient command failure carrying the error stream.
pub fn classify_gh_output(out: &CommandOutput) -> (r: Result<String, GHError>)
    ensures
        out.success ==> (r matches Ok(s) && s@ == crate::text::spec_trim(out.stdout@)),
        !out.success && spec_auth_failure(out.stderr@) ==> (r matches Err(
            GHError::AuthError(m),
        ) && m@ == out.stderr@),
        !out.success && !spec_auth_failure(out.stderr@) && spec_benign_empty(
            out.stdout@,
            out.stderr@,
        ) ==> (r matches Ok(s) && s@ == Seq::<char>::empty()),
        !out.success && !spec_auth_failure(out.stderr@) && !spec_benign_empty(
            out.stdout@,
            out.stderr@,
        ) ==> (r matches Err(GHError::CommandError(m)) && m@ == out.stderr@),
{
    if out.success {
        return Ok(crate::text::str_trim(out.stdout.as_str()));
    }
    let auth = crate::text::str_contains(out.stderr.as_str(), "Bad credentials")
        || crate::text::str_contains(out.stderr.as_str(), "authentication required")
        || crate::text::str_contains(out.stderr.as_str(), "HTTP 401");
    if auth {
        return Err(GHError::AuthError(out.stderr.clone()));
    }
    let trimmed_stdout = crate::text::str_trim(out.stdout.as_str());
    if crate::text::str_contains(out.stderr.as_str(), "no codespaces found")
        || trimmed_stdout.as_str().unicode_len() == 0 {
        return Ok(String::new());
    }
    Err(GHError::CommandError(out.stderr.clone()))
}

/// Reads the username out of the identity query's finished command. The
/// query asks the client for the bare login, so the classified, trimmed
/// output is the username itself.
pub fn get_username(out: &CommandOutput) -> (r: Result<String, GHError>)
    ensures
        out.success ==> (r matches Ok(s) && s@ == crate::text::spec_trim(out.stdout@)),
        !out.success && spec_auth_failure(out.stderr@) ==> (r matches Err(
            GHError::AuthError(m),
        ) && m@ == out.stderr@),
        !out.success && !spec_auth_failure(out.stderr@) && spec_benign_empty(
            out.stdout@,
            out.stderr@,
        ) ==> (r matches Ok(s) && s@ == Seq::<char>::empty()),
        !out.success && !spec_auth_failure(out.stderr@) && !spec_benign_empty(
            out.stdout@,
            out.stderr@,
        ) ==> (r matches Err(GHError::CommandError(m)) && m@ == out.stderr@),
{
    classify_gh_output(out)
}

/// Decides whether a session is live from the answer to its state query: it
/// is exactly when the query succeeded and reported the available state. A
/// failed probe never raises an error; it reports the session as not live.
pub fn verify_codespace(state: &Result<String, GHError>) -> (r: Result<bool, GHError>)
    ensures
        r matches Ok(b) && (b <==> (state matches Ok(s) && s@ == "Available"@)),
{
    match state {
        Ok(s) => Ok(crate::text::str_eq(s.as_str(), "Available")),
        Err(_) => Ok(false),
    }
}

/// The argument list that runs one remote command on a named session.
pub fn ssh_command(codespace_name: &str, cmd: &str) -> (args: Vec<String>)
    ensures
        args@.len() == 6,
        args@[0]@ == "codespace"@,
        args@[1]@ == "ssh"@,
        args@[2]@ == "-c"@,
        args@[3]@ == codespace_name@,
        args@[4]@ == "--"@,
        args@[5]@ == cmd@,
{
    let mut args: Vec<String> = Vec::new();
    args.push(String::from_str("codespace"));
    args.push(String::from_str("ssh"));
    args.push(String::from_str("-c"));
    args.push(String::from_str(codespace_name));
    args.push(String::from_str("--"));
    args.push(String::from_str(cmd));
    args
}

/// The argument list of the identity query whose answer `get_username` reads.
pub fn user_args() -> (args: Vec<String>)
    ensures
        args@.len() == 4,
        args@[0]@ == "api"@,
        args@[1]@ == "user"@,
        args@[2]@ == "--jq"@,
        args@[3]@ == ".login"@,
{
    let mut args: Vec<String> = Vec::new();
    args.push(String::from_str("api"));
    args.push(String::from_str("user"));
    args.push(String::from_str("--jq"));
    args.push(String::from_str(".login"));
    args
}

/// The argument list of the state query whose answer `verify_codespace`
/// reads.
pub fn view_state_args(codespace_name: &str) -> (args: Vec<String>)
    ensures
        args@.len() == 8,
        args@[0]@ == "codespace"@,
        args@[1]@ == "view"@,
        args@[2]@ == "-c"@,
        args@[3]@ == codespace_name@,
        args@[4]@ == "--json"@,
        args@[5]@ == "state"@,
        args@[6]@ == "-q"@,
        args@[7]@ == ".state"@,
{
    let mut args: Vec<String> = Vec::new();
    args.push(String::from_str("codespace"));
    args.push(String::from_str("view"));
    args.push(String::from_str("-c"));
    args.push(String::from_str(codespace_name));
    args.push(String::from_str("--json"));
    args.push(String::from_str("state"));
    args.push(String::from_str("-q"));
    args.push(String::from_str(".state"));
    args
}

/// The argument list that lists a repository's sessions with their states.
pub fn list_args(repo: &str) -> (args: Vec<String>)
    ensures
        args@.len() == 8,
        args@[0]@ == "codespace"@,
        args@[1]@ == "list"@,
        args@[2]@ == "-r"@,
        args@[3]@ == repo@,
        args@[4]@ == "--json"@,
        args@[5]@ == "name,displayName,state"@,
        args@[6]@ == "-q"@,
        args@[7]@ == ".[]"@,
{
    let mut args: Vec<String> = Vec::new();
    args.push(String::from_str("codespace"));
    args.push(String::from_str("list"));
    args.push(String::from_str("-r"));
    args.push(String::from_str(repo));
    args.push(String::from_str("--json"));
    args.push(String::from_str("name,displayName,state"));
    args.push(String::from_str("-q"));
    args.push(String::from_str(".[]"));
    args
}

/// The argument list that creates one session of a given machine class under
/// a given display name.
pub fn create_args(repo: &str, machine: &str, display_name: &str) -> (args: Vec<String>)
    ensures
        args@.len() == 12,
        args@[0]@ == "codespace"@,
        args@[1]@ == "create"@,
        args@[2]@ == "-r"@,
        args@[3]@ == repo@,
        args@[4]@ == "-m"@,
        args@[5]@ == machine@,
        args@[6]@ == "--display-name"@,
        args@[7]@ == display_name@,
        args@[8]@ == "--idle-timeout"@,
        args@[9]@ == "240m"@,
        args@[10]@ == "--retention-period"@,
        args@[11]@ == "24h"@,
{
    let mut args: Vec<String> = Vec::new();
    args.push(String::from_str("codespace"));
    args.push(String::from_str("create"));
    args.push(String::from_str("-r"));
    args.push(String::from_str(repo));
    args.push(String::from_str("-m"));
    args.push(String::from_str(machine));
    args.push(String::from_str("--display-name"));
    args.push(String::from_str(display_name));
    args.push(String::from_str("--idle-timeout"));
    args.push(String::from_str("240m"));
    args.push(String::from_str("--retention-period"));
    args.push(String::from_str("24h"));
    args
}

/// The remote command that runs a session's startup routine in a login
/// shell.
pub fn startup_command() -> (cmd: String)
    ensures
        cmd@ == "bash -l -c 'bash /workspaces/mawari-nexus-blueprint/auto-start.sh'"@,
{
    String::from_str("bash -l -c 'bash /workspaces/mawari-nexus-blueprint/auto-start.sh'")
}

} // verus!
