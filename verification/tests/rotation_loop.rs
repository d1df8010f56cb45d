use rotator::github::GHError;
use rotator::keepalive::{fire_times, next_sleep, should_fire, KEEP_ALIVE_INTERVAL_SECS};
use rotator::progress::{decode_record, encode_record, ProgressRecord};
use rotator::quota::{fallback_snapshot, snapshot_from_usage, INCLUDED_CORE_MINUTES};
use rotator::rotation::{Controller, Phase, Step, ADVANCE_PAUSE_SECS, PROVISION_BACKOFF_SECS};

#[test]
fn new_controller_normalizes_a_stale_index() {
    let c = Controller::new(3, 7);
    assert_eq!(c.index, 1);
    assert_eq!(c.phase, Phase::Authenticate);
    let c2 = Controller::new(4, 2);
    assert_eq!(c2.index, 2);
}

#[test]
fn auth_ok_proceeds_to_quota_check() {
    let mut c = Controller::new(3, 0);
    let step = c.on_auth(&Ok(String::from("octocat")));
    assert_eq!(step, Step::Proceed);
    assert_eq!(c.index, 0);
    assert_eq!(c.phase, Phase::CheckQuota);
}

#[test]
fn rejected_credential_skips_to_next_account() {
    // Three credentials; the second is rejected: the controller moves
    // straight past it, provisioning is never reached, and the index to be
    // persisted is two.
    let mut c = Controller::new(3, 1);
    let step = c.on_auth(&Err(GHError::AuthError(String::from("Bad credentials"))));
    assert_eq!(step, Step::AdvanceAuthRejected);
    assert_eq!(c.index, 2);
    assert_eq!(c.phase, Phase::Authenticate);
    let persisted = ProgressRecord {
        current_account_index: c.index as u64,
        current_mawari_name: String::new(),
        current_nexus_name: String::new(),
    };
    let reloaded = decode_record(encode_record(&persisted).as_str()).unwrap();
    assert_eq!(reloaded.current_account_index, 2);
}

#[test]
fn transient_auth_failure_also_advances_but_is_distinguished() {
    let mut c = Controller::new(3, 1);
    let step = c.on_auth(&Err(GHError::CommandError(String::from("timeout"))));
    assert_eq!(step, Step::AdvanceTransient);
    assert_eq!(c.index, 2);
}

#[test]
fn exhausted_quota_advances() {
    let mut c = Controller::new(2, 0);
    c.on_auth(&Ok(String::from("octocat")));
    let step = c.on_quota(&snapshot_from_usage(INCLUDED_CORE_MINUTES, INCLUDED_CORE_MINUTES));
    assert_eq!(step, Step::AdvanceNoQuota);
    assert_eq!(c.index, 1);
    assert_eq!(c.phase, Phase::Authenticate);
}

#[test]
fn admitted_quota_grants_budget_and_provisions() {
    let mut c = Controller::new(2, 0);
    c.on_auth(&Ok(String::from("octocat")));
    let step = c.on_quota(&snapshot_from_usage(0, INCLUDED_CORE_MINUTES));
    assert_eq!(step, Step::Proceed);
    assert_eq!(c.phase, Phase::Provision);
    assert_eq!(c.budget_minutes, 1200);
}

#[test]
fn unreachable_oracle_fail_open_proceeds_with_fallback_hours() {
    // The oracle is unreachable: the fallback snapshot is what the
    // controller sees. Configured fail-open, it proceeds to provisioning
    // with the fallback's remaining-runtime figure.
    let fallback = fallback_snapshot(true);
    assert_eq!(fallback.remaining_runtime_minutes, 3600);
    let mut c = Controller::new(2, 0);
    c.on_auth(&Ok(String::from("octocat")));
    let step = c.on_quota(&fallback);
    assert_eq!(step, Step::Proceed);
    assert_eq!(c.phase, Phase::Provision);
    // min(20 h ceiling, 3600 - 30) caps at the ceiling.
    assert_eq!(c.budget_minutes, 1200);
}

#[test]
fn unreachable_oracle_fail_closed_advances() {
    let fallback = fallback_snapshot(false);
    let mut c = Controller::new(2, 0);
    c.on_auth(&Ok(String::from("octocat")));
    let step = c.on_quota(&fallback);
    assert_eq!(step, Step::AdvanceNoQuota);
    assert_eq!(c.index, 1);
}

#[test]
fn provisioning_failure_backs_off_without_advancing() {
    let mut c = Controller::new(3, 1);
    c.on_auth(&Ok(String::from("octocat")));
    c.on_quota(&snapshot_from_usage(0, INCLUDED_CORE_MINUTES));
    let failed: Result<(String, String), GHError> =
        Err(GHError::CommandError(String::from("create failed")));
    let step = c.on_provision(&failed);
    assert_eq!(step, Step::RetryProvision { backoff_secs: PROVISION_BACKOFF_SECS });
    assert_eq!(c.index, 1);
    assert_eq!(c.phase, Phase::Provision);
}

#[test]
fn provisioning_success_begins_the_run() {
    let mut c = Controller::new(3, 1);
    c.on_auth(&Ok(String::from("octocat")));
    c.on_quota(&snapshot_from_usage(4800, INCLUDED_CORE_MINUTES));
    let pair: Result<(String, String), GHError> =
        Ok((String::from("mawari-abc"), String::from("nexus-def")));
    let step = c.on_provision(&pair);
    assert_eq!(step, Step::BeginRun { budget_minutes: 1170 });
    assert_eq!(c.phase, Phase::Run);
    assert_eq!(c.cycle_count, 0);
}

#[test]
fn run_completion_advances_and_reports_wrap() {
    let mut c = Controller::new(2, 1);
    c.on_auth(&Ok(String::from("octocat")));
    c.on_quota(&snapshot_from_usage(0, INCLUDED_CORE_MINUTES));
    let pair: Result<(String, String), GHError> =
        Ok((String::from("m"), String::from("n")));
    c.on_provision(&pair);
    c.on_keepalive_fired();
    c.on_keepalive_fired();
    assert_eq!(c.cycle_count, 2);
    let step = c.on_run_complete();
    assert_eq!(step, Step::AdvanceRunComplete { wrapped: true });
    assert_eq!(c.index, 0);
    assert_eq!(c.phase, Phase::Authenticate);
}

#[test]
fn advancing_account_count_times_returns_to_start() {
    // Pure modulo rotation: with three accounts, three consecutive
    // advances land back on the starting index.
    let mut c = Controller::new(3, 2);
    for _ in 0..3 {
        c.on_auth(&Err(GHError::AuthError(String::from("no"))));
    }
    assert_eq!(c.index, 2);
}

#[test]
fn advance_pause_is_short() {
    assert_eq!(ADVANCE_PAUSE_SECS, 3);
}

#[test]
fn keepalive_schedule_for_eight_hours() {
    // Budget 8 h, cadence 3.5 h: fires at 3.5 h and 7 h; the last hour
    // falls below nothing — the final sleep of 1 h ends the run with no
    // third fire at 8 h.
    let budget: u64 = 8 * 3600;
    assert_eq!(fire_times(budget), vec![12600, 25200]);
    // The decisions along the way:
    assert_eq!(next_sleep(budget, 0), Some(KEEP_ALIVE_INTERVAL_SECS));
    assert!(should_fire(budget, 12600));
    assert_eq!(next_sleep(budget, 12600), Some(KEEP_ALIVE_INTERVAL_SECS));
    assert!(should_fire(budget, 25200));
    assert_eq!(next_sleep(budget, 25200), Some(3600));
    assert!(!should_fire(budget, 28800));
    assert_eq!(next_sleep(budget, 28800), None);
}

#[test]
fn keepalive_short_leftovers_end_the_run() {
    // Below the minimum meaningful sleep the loop ends at once.
    assert_eq!(next_sleep(100, 50), None);
    assert_eq!(next_sleep(59, 0), None);
    assert_eq!(fire_times(59), Vec::<u64>::new());
    // Exactly the minimum still sleeps, but the budget then elapses with
    // no fire.
    assert_eq!(next_sleep(60, 0), Some(60));
    assert_eq!(fire_times(60), Vec::<u64>::new());
}

#[test]
fn keepalive_single_fire_before_budget_runs_out() {
    assert_eq!(fire_times(12700), vec![12600]);
}
