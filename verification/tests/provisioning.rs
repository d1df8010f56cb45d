use rotator::credentials::{ConfigError, CredentialStore};
use rotator::github::GHError;
use rotator::provision::{
    ensure_pair, primary_role, secondary_role, session_running, SessionRecord,
};
use rotator::retry::{readiness_policy, retryable, should_retry, ssh_ready};

fn session(name: &str, display: &str) -> SessionRecord {
    SessionRecord {
        name: String::from(name),
        display_name: String::from(display),
    }
}

#[test]
fn empty_listing_creates_both_roles() {
    let (list, primary, secondary) = ensure_pair(Vec::new(), "fresh-m", "fresh-n");
    assert_eq!(primary, "fresh-m");
    assert_eq!(secondary, "fresh-n");
    assert_eq!(list.len(), 2);
    assert_eq!(list[0].name, "fresh-m");
    assert_eq!(list[0].display_name, "mawari-node");
    assert_eq!(list[1].name, "fresh-n");
    assert_eq!(list[1].display_name, "nexus-node");
}

#[test]
fn existing_pair_is_reused() {
    let listing = vec![
        session("old-n", "nexus-node"),
        session("old-m", "mawari-node"),
        session("stray", "other"),
    ];
    let (list, primary, secondary) = ensure_pair(listing, "fresh-m", "fresh-n");
    assert_eq!(primary, "old-m");
    assert_eq!(secondary, "old-n");
    assert_eq!(list.len(), 3);
}

#[test]
fn missing_secondary_is_created_primary_reused() {
    let listing = vec![session("old-m", "mawari-node")];
    let (list, primary, secondary) = ensure_pair(listing, "fresh-m", "fresh-n");
    assert_eq!(primary, "old-m");
    assert_eq!(secondary, "fresh-n");
    assert_eq!(list.len(), 2);
}

#[test]
fn ensuring_twice_yields_the_same_pair_and_no_duplicates() {
    // Idempotence: a second ensuring with different fresh names finds the
    // pair the first one made and creates nothing.
    let (once, p1, s1) = ensure_pair(Vec::new(), "fresh-m", "fresh-n");
    let (twice, p2, s2) = ensure_pair(once, "other-m", "other-n");
    assert_eq!(p2, p1);
    assert_eq!(s2, s1);
    assert_eq!(twice.len(), 2);
    assert_eq!(twice[0].name, "fresh-m");
    assert_eq!(twice[1].name, "fresh-n");
}

#[test]
fn roles_have_fixed_display_names_and_machine_classes() {
    let p = primary_role();
    assert_eq!(p.display_name, "mawari-node");
    assert_eq!(p.machine, "basicLinux32gb");
    let s = secondary_role();
    assert_eq!(s.display_name, "nexus-node");
    assert_eq!(s.machine, "standardLinux32gb");
}

#[test]
fn running_states() {
    assert!(session_running("Available"));
    assert!(session_running("Running"));
    assert!(!session_running("Stopped"));
    assert!(!session_running("Provisioning"));
    assert!(!session_running(""));
}

#[test]
fn credential_store_rejects_emptiness() {
    assert!(matches!(
        CredentialStore::load(Vec::new()),
        Err(ConfigError::NoCredentials)
    ));
}

#[test]
fn credential_store_keeps_order() {
    let store =
        CredentialStore::load(vec![String::from("tok-a"), String::from("tok-b")]).unwrap();
    assert_eq!(store.count(), 2);
    assert_eq!(store.token(0), "tok-a");
    assert_eq!(store.token(1), "tok-b");
}

#[test]
fn readiness_retry_policy_is_bounded() {
    let p = readiness_policy();
    assert_eq!(p.max_attempts, 10);
    assert_eq!(p.delay_secs, 30);
    assert!(should_retry(&p, 0));
    assert!(should_retry(&p, 9));
    assert!(!should_retry(&p, 10));
}

#[test]
fn only_transient_failures_are_retryable() {
    assert!(retryable(&GHError::CommandError(String::from("x"))));
    assert!(!retryable(&GHError::AuthError(String::from("x"))));
}

#[test]
fn readiness_probe_answer() {
    assert!(ssh_ready("ready\n"));
    assert!(ssh_ready("the node is ready"));
    assert!(!ssh_ready("starting"));
    assert!(!ssh_ready(""));
}
