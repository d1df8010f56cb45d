//! The keep-alive schedule: one cooperative loop that, while a run budget
//! lasts, sleeps up to a fixed cadence and then re-invokes the startup
//! routine on both sessions. The decisions — how long to sleep next, whether
//! to fire at all — live here; the sleeping and the remote invocations are
//! the surrounding loop's work.

use vstd::prelude::*;

verus! {

/// The keep-alive cadence: 3.5 hours.
pub const KEEP_ALIVE_INTERVAL_SECS: u64 = 12600;

/// Sleeps shorter than this end the run instead of firing a near-zero
/// keep-alive: 60 seconds.
pub const MIN_KEEP_ALIVE_SLEEP_SECS: u64 = 60;

/// Short fixed gap between the invocation on the primary session and the
/// one on the secondary.
pub const FIRE_GAP_SECS: u64 = 2;

/// The next sleep: the cadence, shortened to whatever is left of the
/// budget.
pub open spec fn spec_next_sleep(budget_secs: u64, elapsed_secs: u64) -> u64 {
    let remaining: u64 = if elapsed_secs <= budget_secs {
        (budget_secs - elapsed_secs) as u64
    } else {
        0
    };
    if KEEP_ALIVE_INTERVAL_SECS <= remaining {
        KEEP_ALIVE_INTERVAL_SECS
    } else {
        remaining
    }
}

/// Decides the next pause of the keep-alive loop: `None` once what is left
/// of the budget is below the minimum meaningful sleep, else how long to
/// sleep before considering a fire.
pub fn next_sleep(budget_secs: u64, elapsed_secs: u64) -> (r: Option<u64>)
    ensures
        spec_next_sleep(budget_secs, elapsed_secs) < MIN_KEEP_ALIVE_SLEEP_SECS ==> r is None,
        spec_next_sleep(budget_secs, elapsed_secs) >= MIN_KEEP_ALIVE_SLEEP_SECS ==> r == Some(
            spec_next_sleep(budget_secs, elapsed_secs),
        ),
{
    let remaining: u64 = if elapsed_secs <= budget_secs {
        budget_secs - elapsed_secs
    } else {
        0
    };
    let sleep: u64 = if KEEP_ALIVE_INTERVAL_SECS <= remaining {
        KEEP_ALIVE_INTERVAL_SECS
    } else {
        remaining
    };
    if sleep < MIN_KEEP_ALIVE_SLEEP_SECS {
        None
    } else {
        Some(sleep)
    }
}

/// Decides whether a keep-alive still fires after a sleep: only while the
/// full budget has not yet elapsed. The schedule is time-driven; nothing
/// else enters the decision.
pub fn should_fire(budget_secs: u64, elapsed_secs: u64) -> (r: bool)
    ensures
        r == (elapsed_secs < budget_secs),
{
    elapsed_secs < budget_secs
}

/// The elapsed times, from the start of the run, at which keep-alives fire
/// when every sleep lasts exactly as planned.
pub open spec fn spec_fire_times(budget_secs: u64, elapsed_secs: u64) -> Seq<u64>
    decreases budget_secs - elapsed_secs,
{
    let sleep = spec_next_sleep(budget_secs, elapsed_secs);
    if sleep < MIN_KEEP_ALIVE_SLEEP_SECS {
        Seq::empty()
    } else if elapsed_secs + sleep >= budget_secs {
        Seq::empty()
    } else {
        seq![(elapsed_secs + sleep) as u64] + spec_fire_times(
            budget_secs,
            (elapsed_secs + sleep) as u64,
        )
    }
}

/// Law: keep-alives fire only strictly inside the budget. Once the budget
/// has elapsed — or what is left of it falls below the minimum meaningful
/// sleep — the schedule holds no further fire, none at the budget's very
/// end either.
pub proof fn lemma_fires_within_budget(budget_secs: u64, elapsed_secs: u64)
    ensures
        forall|i: int|
            0 <= i < spec_fire_times(budget_secs, elapsed_secs).len() ==> elapsed_secs
                < #[trigger] spec_fire_times(budget_secs, elapsed_secs)[i] < budget_secs,
    decreases budget_secs - elapsed_secs,
{
    let sleep = spec_next_sleep(budget_secs, elapsed_secs);
    if sleep >= MIN_KEEP_ALIVE_SLEEP_SECS && elapsed_secs + sleep < budget_secs {
        let next: u64 = (elapsed_secs + sleep) as u64;
        lemma_fires_within_budget(budget_secs, next);
        let ts = spec_fire_times(budget_secs, elapsed_secs);
        assert forall|i: int| 0 <= i < ts.len() implies elapsed_secs < #[trigger] ts[i]
            < budget_secs by {
            if i > 0 {
                assert(ts[i] == spec_fire_times(budget_secs, next)[i - 1]);
            }
        }
    }
}

/// The planned keep-alive schedule of a whole run: each entry is an elapsed
/// time at which the startup routine is re-invoked on both sessions.
pub fn fire_times(budget_secs: u64) -> (ts: Vec<u64>)
    ensures
        ts@ == spec_fire_times(budget_secs, 0),
{
    let mut ts: Vec<u64> = Vec::new();
    let mut elapsed: u64 = 0;
    proof {
        assert(ts@ + spec_fire_times(budget_secs, 0) =~= spec_fire_times(budget_secs, 0));
    }
    loop
        invariant
            spec_fire_times(budget_secs, 0) == ts@ + spec_fire_times(budget_secs, elapsed),
        ensures
            ts@ == spec_fire_times(budget_secs, 0),
        decreases budget_secs - elapsed,
    {
        match next_sleep(budget_secs, elapsed) {
            None => {
                proof {
                    assert(ts@ + spec_fire_times(budget_secs, elapsed) =~= ts@);
                }
                break;
            },
            Some(sleep) => {
                assert(elapsed + sleep <= budget_secs);
                if elapsed + sleep >= budget_secs {
                    proof {
                        assert(ts@ + spec_fire_times(budget_secs, elapsed) =~= ts@);
                    }
                    break;
                }
                let ghost prev_ts = ts@;
                let ghost prev_elapsed = elapsed;
                elapsed = elapsed + sleep;
                ts.push(elapsed);
                proof {
                    assert(spec_fire_times(budget_secs, prev_elapsed) == seq![elapsed]
                        + spec_fire_times(budget_secs, elapsed));
                    assert(prev_ts + (seq![elapsed] + spec_fire_times(budget_secs, elapsed)) =~= ts@
                        + spec_fire_times(budget_secs, elapsed));
                }
            },
        }
    }
    ts
}

/// The two sessions a keep-alive touches, in the fixed order of
/// invocation: the primary first, then the secondary.
pub fn fire_order(primary: &str, secondary: &str) -> (v: Vec<String>)
    ensures
        v@.len() == 2,
        v@[0]@ == primary@,
        v@[1]@ == secondary@,
{
    let mut v: Vec<String> = Vec::new();
    v.push(String::from_str(primary));
    v.push(String::from_str(secondary));
    v
}

} // verus!
