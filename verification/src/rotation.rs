//! The rotation controller: a state machine that walks the credential list,
//! admits or skips each account, and hands the surrounding loop the next
//! action to carry out. The loop performs the remote work — identifying the
//! credential, reading the quota oracle, provisioning, sleeping — and feeds
//! each outcome back in; every decision is taken here.

use vstd::prelude::*;
use crate::github::GHError;
use crate::quota::QuotaSnapshot;
use crate::quota::spec_run_budget_minutes;
use crate::quota::run_budget_minutes;
use crate::quota::MAX_CONTINUOUS_RUN_MINUTES;

verus! {

/// How long the loop waits before retrying provisioning on the same
/// account: 5 minutes.
pub const PROVISION_BACKOFF_SECS: u64 = 300;

/// Short pause after advancing past an unusable account.
pub const ADVANCE_PAUSE_SECS: u64 = 3;

/// Where the controller stands with the current account.
#[derive(PartialEq, Eq, Structural, Clone, Copy, Debug)]
pub enum Phase {
    /// About to identify the current account's credential.
    Authenticate,
    /// Credential accepted; about to consult the quota oracle.
    CheckQuota,
    /// Admitted; about to ensure the session pair exists and runs.
    Provision,
    /// Provisioned; the keep-alive loop is spending the run budget.
    Run,
}

/// The next action the surrounding loop must carry out. Every `Advance`
/// step and `BeginRun` also instructs the loop to persist the progress
/// record before anything else happens.
#[derive(PartialEq, Eq, Structural, Clone, Copy, Debug)]
pub enum Step {
    /// Keep going with the current account: perform the next phase's work.
    Proceed,
    /// The credential was rejected; the index has advanced. Persist it.
    AdvanceAuthRejected,
    /// A transient failure stopped identification; the index has advanced.
    /// Persist it.
    AdvanceTransient,
    /// The account was not admitted; the index has advanced. Persist it.
    AdvanceNoQuota,
    /// Provisioning failed; the index has not moved. Wait out the backoff
    /// and provision the same account again.
    RetryProvision { backoff_secs: u64 },
    /// The pair is up: persist index and session names, then run the
    /// keep-alive loop for the budget.
    BeginRun { budget_minutes: u64 },
    /// The run budget elapsed; the index has advanced. Persist it. A wrap
    /// to the first account marks a full rotation, for the logs only.
    AdvanceRunComplete { wrapped: bool },
}

/// The index that follows `i` in a cyclic list of `n` accounts.
pub open spec fn spec_advance(i: int, n: int) -> int
    recommends
        0 < n,
{
    (i + 1) % n
}

/// `k` consecutive advances from `i` in a cyclic list of `n` accounts.
pub open spec fn spec_advance_many(i: int, n: int, k: nat) -> int
    decreases k,
{
    if k == 0 {
        i
    } else {
        spec_advance_many(spec_advance(i, n), n, (k - 1) as nat)
    }
}

/// The rotation controller's entire state.
#[derive(PartialEq, Eq, Structural, Clone, Copy, Debug)]
pub struct Controller {
    /// How many credentials the rotation cycles through.
    pub account_count: usize,
    /// The current account, always below `account_count`.
    pub index: usize,
    /// Where the controller stands with the current account.
    pub phase: Phase,
    /// The run budget granted at admission, in minutes; meaningful from
    /// admission until the run completes.
    pub budget_minutes: u64,
    /// Keep-alive cycles fired during the current run.
    pub cycle_count: u64,
}

impl Controller {
    /// The controller's invariant: at least one account, the index in
    /// range, and the budget within the continuous-run ceiling.
    pub open spec fn wf(self) -> bool {
        &&& self.account_count >= 1
        &&& self.index < self.account_count
        &&& self.budget_minutes <= MAX_CONTINUOUS_RUN_MINUTES
    }

    /// Starts a rotation over `account_count` credentials from a persisted
    /// position, which is taken modulo the count so that a stale record
    /// still lands on a real account.
    pub fn new(account_count: usize, persisted_index: u64) -> (c: Controller)
        requires
            account_count >= 1,
        ensures
            c.wf(),
            c.account_count == account_count,
            c.index == persisted_index as int % account_count as int,
            c.phase is Authenticate,
            c.budget_minutes == 0,
            c.cycle_count == 0,
    {
        let idx64: u64 = persisted_index % (account_count as u64);
        Controller {
            account_count,
            index: idx64 as usize,
            phase: Phase::Authenticate,
            budget_minutes: 0,
            cycle_count: 0,
        }
    }

    /// Moves to the next account and returns to authentication.
    fn advance(&mut self)
        requires
            old(self).wf(),
        ensures
            final(self).wf(),
            final(self).account_count == old(self).account_count,
            final(self).index == spec_advance(
                old(self).index as int,
                old(self).account_count as int,
            ),
            final(self).phase is Authenticate,
            final(self).budget_minutes == 0,
            final(self).cycle_count == 0,
    {
        let next: usize = if self.index + 1 == self.account_count {
            0
        } else {
            self.index + 1
        };
        proof {
            if old(self).index + 1 == old(self).account_count {
                vstd::arithmetic::div_mod::lemma_mod_self_0(old(self).account_count as int);
            } else {
                vstd::arithmetic::div_mod::lemma_small_mod(
                    (old(self).index + 1) as nat,
                    old(self).account_count as nat,
                );
            }
        }
        self.index = next;
        self.phase = Phase::Authenticate;
        self.budget_minutes = 0;
        self.cycle_count = 0;
    }

    /// Feeds in the outcome of identifying the current credential. A valid
    /// credential proceeds to the quota check; a rejected credential or a
    /// transient failure advances past the account, the two distinguished
    /// for the logs.
    pub fn on_auth(&mut self, outcome: &Result<String, GHError>) -> (step: Step)
        requires
            old(self).wf(),
            old(self).phase is Authenticate,
        ensures
            final(self).wf(),
            final(self).account_count == old(self).account_count,
            outcome is Ok ==> {
                &&& *final(self) == (Controller { phase: Phase::CheckQuota, ..*old(self) })
                &&& step == Step::Proceed
            },
            (outcome matches Err(e) && e is AuthError) ==> {
                &&& final(self).index == spec_advance(
                    old(self).index as int,
                    old(self).account_count as int,
                )
                &&& final(self).phase is Authenticate
                &&& step == Step::AdvanceAuthRejected
            },
            (outcome matches Err(e) && e is CommandError) ==> {
                &&& final(self).index == spec_advance(
                    old(self).index as int,
                    old(self).account_count as int,
                )
                &&& final(self).phase is Authenticate
                &&& step == Step::AdvanceTransient
            },
    {
        match outcome {
            Ok(_) => {
                self.phase = Phase::CheckQuota;
                Step::Proceed
            },
            Err(GHError::AuthError(_)) => {
                self.advance();
                Step::AdvanceAuthRejected
            },
            Err(GHError::CommandError(_)) => {
                self.advance();
                Step::AdvanceTransient
            },
        }
    }

    /// Feeds in the quota oracle's snapshot. An admitted account is granted
    /// its run budget and proceeds to provisioning; anything else advances
    /// past the account.
    pub fn on_quota(&mut self, snapshot: &QuotaSnapshot) -> (step: Step)
        requires
            old(self).wf(),
            old(self).phase is CheckQuota,
            snapshot.wf(),
        ensures
            final(self).wf(),
            final(self).account_count == old(self).account_count,
            snapshot.admitted ==> {
                &&& *final(self) == (Controller {
                    phase: Phase::Provision,
                    budget_minutes: spec_run_budget_minutes(snapshot.remaining_runtime_minutes),
                    ..*old(self)
                })
                &&& step == Step::Proceed
            },
            !snapshot.admitted ==> {
                &&& final(self).index == spec_advance(
                    old(self).index as int,
                    old(self).account_count as int,
                )
                &&& final(self).phase is Authenticate
                &&& step == Step::AdvanceNoQuota
            },
    {
        if snapshot.admitted {
            self.budget_minutes = run_budget_minutes(snapshot);
            self.phase = Phase::Provision;
            Step::Proceed
        } else {
            self.advance();
            Step::AdvanceNoQuota
        }
    }

    /// Feeds in the outcome of ensuring the session pair. Success begins
    /// the run; failure keeps the same account and asks the loop to retry
    /// provisioning after a fixed backoff.
    pub fn on_provision(&mut self, outcome: &Result<(String, String), GHError>) -> (step: Step)
        requires
            old(self).wf(),
            old(self).phase is Provision,
        ensures
            final(self).wf(),
            final(self).account_count == old(self).account_count,
            outcome is Ok ==> {
                &&& *final(self) == (Controller {
                    phase: Phase::Run,
                    cycle_count: 0,
                    ..*old(self)
                })
                &&& step == (Step::BeginRun { budget_minutes: old(self).budget_minutes })
            },
            outcome is Err ==> {
                &&& *final(self) == *old(self)
                &&& step == (Step::RetryProvision { backoff_secs: PROVISION_BACKOFF_SECS })
            },
    {
        match outcome {
            Ok(_) => {
                self.phase = Phase::Run;
                self.cycle_count = 0;
                Step::BeginRun { budget_minutes: self.budget_minutes }
            },
            Err(_) => Step::RetryProvision { backoff_secs: PROVISION_BACKOFF_SECS },
        }
    }

    /// Records one fired keep-alive cycle during the current run.
    pub fn on_keepalive_fired(&mut self)
        requires
            old(self).wf(),
            old(self).phase is Run,
        ensures
            final(self).wf(),
            *final(self) == (Controller {
                cycle_count: if old(self).cycle_count < u64::MAX {
                    (old(self).cycle_count + 1) as u64
                } else {
                    u64::MAX
                },
                ..*old(self)
            }),
    {
        self.cycle_count = self.cycle_count.saturating_add(1);
    }

    /// The run budget has elapsed: the rotation advances unconditionally,
    /// reporting whether the index wrapped around to the first account.
    pub fn on_run_complete(&mut self) -> (step: Step)
        requires
            old(self).wf(),
            old(self).phase is Run,
        ensures
            final(self).wf(),
            final(self).account_count == old(self).account_count,
            final(self).index == spec_advance(
                old(self).index as int,
                old(self).account_count as int,
            ),
            final(self).phase is Authenticate,
            step == (Step::AdvanceRunComplete {
                wrapped: spec_advance(old(self).index as int, old(self).account_count as int)
                    == 0,
            }),
    {
        self.advance();
        Step::AdvanceRunComplete { wrapped: self.index == 0 }
    }
}

/// Law: consecutive advances walk the cyclic list one step at a time, so
/// `k` advances from `i` land on `(i + k)` modulo the count.
pub proof fn lemma_advance_many_mod(i: int, n: int, k: nat)
    requires
        0 < n,
        0 <= i < n,
    ensures
        spec_advance_many(i, n, k) == (i + k) % n,
    decreases k,
{
    if k == 0 {
        vstd::arithmetic::div_mod::lemma_small_mod(i as nat, n as nat);
    } else {
        let a = spec_advance(i, n);
        vstd::arithmetic::div_mod::lemma_mod_bound(i + 1, n);
        lemma_advance_many_mod(a, n, (k - 1) as nat);
        assert((((i + 1) % n) + (k - 1)) % n == ((i + 1) + (k - 1)) % n) by {
            vstd::arithmetic::div_mod::lemma_add_mod_noop_right(k - 1, i + 1, n);
        }
    }
}

/// Law: with `n` accounts, `n` consecutive advances return the rotation to
/// the account it started from.
pub proof fn lemma_full_rotation(i: int, n: int)
    requires
        0 < n,
        0 <= i < n,
    ensures
        spec_advance_many(i, n, n as nat) == i,
{
    lemma_advance_many_mod(i, n, n as nat);
    vstd::arithmetic::div_mod::lemma_mod_multiples_vanish(1, i, n);
    vstd::arithmetic::div_mod::lemma_small_mod(i as nat, n as nat);
}

} // verus!
