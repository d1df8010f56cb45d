use rotator::github::{
    classify_gh_output, create_args, get_username, list_args, ssh_command, startup_command,
    user_args, verify_codespace, view_state_args, CommandOutput, GHError,
};

fn out(success: bool, stdout: &str, stderr: &str) -> CommandOutput {
    CommandOutput {
        success,
        stdout: String::from(stdout),
        stderr: String::from(stderr),
    }
}

#[test]
fn successful_output_is_trimmed() {
    let r = classify_gh_output(&out(true, "  octocat\n", ""));
    assert_eq!(r.unwrap(), "octocat");
}

#[test]
fn bad_credentials_is_auth_error() {
    let r = classify_gh_output(&out(false, "", "HTTP 401: Bad credentials"));
    match r {
        Err(GHError::AuthError(m)) => assert_eq!(m, "HTTP 401: Bad credentials"),
        _ => panic!("expected an auth error"),
    }
}

#[test]
fn authentication_required_is_auth_error() {
    let r = classify_gh_output(&out(false, "", "error: authentication required"));
    assert!(matches!(r, Err(GHError::AuthError(_))));
}

#[test]
fn empty_listing_failure_is_benign() {
    let r = classify_gh_output(&out(false, "   ", "no codespaces found"));
    assert_eq!(r.unwrap(), "");
    let r2 = classify_gh_output(&out(false, "\n", "boom"));
    assert_eq!(r2.unwrap(), "");
}

#[test]
fn other_failure_is_command_error() {
    let r = classify_gh_output(&out(false, "partial output", "network unreachable"));
    match r {
        Err(GHError::CommandError(m)) => assert_eq!(m, "network unreachable"),
        _ => panic!("expected a command error"),
    }
}

#[test]
fn username_comes_from_trimmed_login() {
    let r = get_username(&out(true, "octocat\n", ""));
    assert_eq!(r.unwrap(), "octocat");
}

#[test]
fn username_rejected_credential() {
    let r = get_username(&out(false, "", "Bad credentials"));
    match r {
        Err(e) => assert!(e.is_auth()),
        Ok(_) => panic!("expected an error"),
    }
}

#[test]
fn verify_codespace_only_available_counts() {
    assert!(verify_codespace(&Ok(String::from("Available"))).unwrap());
    assert!(!verify_codespace(&Ok(String::from("Stopped"))).unwrap());
    assert!(!verify_codespace(&Ok(String::from("Starting"))).unwrap());
    let failed: Result<String, GHError> = Err(GHError::CommandError(String::from("x")));
    assert!(!verify_codespace(&failed).unwrap());
}

#[test]
fn error_descriptions_name_the_kind() {
    let c = GHError::CommandError(String::from("boom"));
    assert_eq!(c.describe(), "Command failed: boom");
    let a = GHError::AuthError(String::from("nope"));
    assert_eq!(a.describe(), "Auth error: nope");
    assert!(a.is_auth());
    assert!(!c.is_auth());
}

#[test]
fn ssh_command_argument_list() {
    let args = ssh_command("mycs-123", "echo 'ready'");
    assert_eq!(
        args,
        vec!["codespace", "ssh", "-c", "mycs-123", "--", "echo 'ready'"]
    );
}

#[test]
fn user_query_argument_list() {
    assert_eq!(user_args(), vec!["api", "user", "--jq", ".login"]);
}

#[test]
fn view_state_argument_list() {
    assert_eq!(
        view_state_args("mycs-123"),
        vec!["codespace", "view", "-c", "mycs-123", "--json", "state", "-q", ".state"]
    );
}

#[test]
fn list_argument_list() {
    assert_eq!(
        list_args("octo/repo"),
        vec![
            "codespace",
            "list",
            "-r",
            "octo/repo",
            "--json",
            "name,displayName,state",
            "-q",
            ".[]"
        ]
    );
}

#[test]
fn create_argument_list() {
    assert_eq!(
        create_args("octo/repo", "basicLinux32gb", "mawari-node"),
        vec![
            "codespace",
            "create",
            "-r",
            "octo/repo",
            "-m",
            "basicLinux32gb",
            "--display-name",
            "mawari-node",
            "--idle-timeout",
            "240m",
            "--retention-period",
            "24h"
        ]
    );
}

#[test]
fn startup_command_runs_login_shell() {
    assert_eq!(
        startup_command(),
        "bash -l -c 'bash /workspaces/mawari-nexus-blueprint/auto-start.sh'"
    );
}
