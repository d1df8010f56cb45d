//! Quota accounting: converting a billing usage report into a quota snapshot,
//! the admission decision, and the run budget granted to an admitted account.
//!
//! All arithmetic is integer minute arithmetic. Usage is measured in
//! core-minutes (wall-clock minutes weighted by the machine class's core
//! count); the derived remaining runtime divides the remaining core-minutes by
//! a fixed cost multiplier for the machine class that dominates keep-alive
//! accounting.

use vstd::prelude::*;

verus! {

/// Minimum derived remaining runtime, in minutes, for an account to be
/// admitted: 20 hours.
pub const MIN_ADMIT_RUNTIME_MINUTES: u64 = 1200;

/// The admission threshold read in whole hours.
pub const MIN_ADMIT_RUNTIME_HOURS: u64 = 20;

/// Safety buffer, in minutes, withheld from the remaining runtime when a run
/// budget is granted: 30 minutes.
pub const SAFETY_BUFFER_MINUTES: u64 = 30;

/// Ceiling on a single continuous run, in minutes: 20 hours. Even an account
/// with more quota left is re-evaluated after this long.
pub const MAX_CONTINUOUS_RUN_MINUTES: u64 = 1200;

/// Core-minutes included in one account's allowance: 120 core-hours.
pub const INCLUDED_CORE_MINUTES: u64 = 7200;

/// Cost multiplier of the machine class used for keep-alive accounting: the
/// heavier session burns core-minutes at twice the wall-clock rate.
pub const RUNTIME_COST_MULTIPLIER: u64 = 2;

/// Policy applied when the quota oracle is unreachable or unreadable: the
/// fallback snapshot fails closed, treating the allowance as exhausted.
pub const FALLBACK_FAIL_OPEN: bool = false;

/// The oracle's answer for one account at one instant: how much of the
/// allowance is consumed, what remains as runtime, and whether the account is
/// admitted for a run.
pub struct QuotaSnapshot {
    /// Weighted usage so far, in core-minutes.
    pub consumed_core_minutes: u64,
    /// The allowance, in core-minutes.
    pub included_core_minutes: u64,
    /// Derived safe remaining runtime, in wall-clock minutes.
    pub remaining_runtime_minutes: u64,
    /// Whether the account is admitted for a run.
    pub admitted: bool,
}

/// Core-minutes left of the allowance: saturating subtraction, never negative.
pub open spec fn spec_remaining_core_minutes(consumed: u64, included: u64) -> u64 {
    if consumed <= included {
        (included - consumed) as u64
    } else {
        0
    }
}

/// Wall-clock minutes of runtime left once the cost multiplier is paid.
pub open spec fn spec_remaining_runtime_minutes(consumed: u64, included: u64) -> u64 {
    spec_remaining_core_minutes(consumed, included) / RUNTIME_COST_MULTIPLIER
}

/// The admission rule: at least the minimum remaining runtime is left.
pub open spec fn spec_admitted(consumed: u64, included: u64) -> bool {
    spec_remaining_runtime_minutes(consumed, included) >= MIN_ADMIT_RUNTIME_MINUTES
}

impl QuotaSnapshot {
    /// A snapshot is well formed when its derived fields follow from its
    /// consumed and included figures by the rules above.
    pub open spec fn wf(self) -> bool {
        &&& self.remaining_runtime_minutes == spec_remaining_runtime_minutes(
            self.consumed_core_minutes,
            self.included_core_minutes,
        )
        &&& self.admitted == spec_admitted(self.consumed_core_minutes, self.included_core_minutes)
    }

    /// Derived remaining runtime in whole hours.
    pub open spec fn spec_remaining_hours(self) -> u64 {
        self.remaining_runtime_minutes / 60
    }

    /// Remaining runtime in whole hours, as reported to logs.
    pub fn remaining_hours(&self) -> (h: u64)
        ensures
            h == self.spec_remaining_hours(),
    {
        self.remaining_runtime_minutes / 60
    }
}

/// One line of the billing usage report, already normalized to plain values:
/// the product being billed, its SKU label, and the metered quantity in
/// machine-minutes.
pub struct UsageItem {
    pub product: String,
    pub sku: String,
    pub minutes: u64,
}

/// Core-minute weight of one usage line: compute SKUs of the two machine
/// classes burn two and four core-minutes per machine-minute; any other line
/// does not count against the allowance.
pub open spec fn spec_sku_weight(product: Seq<char>, sku: Seq<char>) -> u64 {
    if product == "codespaces"@ {
        if crate::text::spec_contains(sku, "compute 2-core"@) {
            2
        } else if crate::text::spec_contains(sku, "compute 4-core"@) {
            4
        } else {
            0
        }
    } else {
        0
    }
}

/// Weighted core-minutes of the first `n` usage lines, as an unbounded sum.
pub open spec fn spec_weighted_core_minutes(items: Seq<UsageItem>, n: int) -> int
    decreases n,
{
    if n <= 0 {
        0
    } else {
        spec_weighted_core_minutes(items, n - 1) + spec_sku_weight(
            items[n - 1].product@,
            items[n - 1].sku@,
        ) * items[n - 1].minutes
    }
}

/// Weighted core-minutes of a whole usage report, as an unbounded sum.
pub open spec fn spec_consumed_core_minutes(items: Seq<UsageItem>) -> int {
    spec_weighted_core_minutes(items, items.len() as int)
}

proof fn lemma_weighted_nonneg(items: Seq<UsageItem>, n: int)
    ensures
        spec_weighted_core_minutes(items, n) >= 0,
    decreases n,
{
    if n > 0 {
        lemma_weighted_nonneg(items, n - 1);
        vstd::arithmetic::mul::lemma_mul_nonnegative(
            spec_sku_weight(items[n - 1].product@, items[n - 1].sku@) as int,
            items[n - 1].minutes as int,
        );
    }
}

/// Core-minute weight of one usage line.
pub fn sku_weight(item: &UsageItem) -> (w: u64)
    ensures
        w == spec_sku_weight(item.product@, item.sku@),
{
    if crate::text::str_eq(item.product.as_str(), "codespaces") {
        if crate::text::str_contains(item.sku.as_str(), "compute 2-core") {
            2
        } else if crate::text::str_contains(item.sku.as_str(), "compute 4-core") {
            4
        } else {
            0
        }
    } else {
        0
    }
}

/// Sums the weighted core-minutes of a usage report, saturating at the
/// largest representable figure.
pub fn consumed_core_minutes(items: &Vec<UsageItem>) -> (r: u64)
    ensures
        spec_consumed_core_minutes(items@) <= u64::MAX ==> r == spec_consumed_core_minutes(
            items@,
        ),
        spec_consumed_core_minutes(items@) > u64::MAX ==> r == u64::MAX,
{
    let mut total: u64 = 0;
    let mut i: usize = 0;
    while i < items.len()
        invariant
            0 <= i <= items@.len(),
            spec_weighted_core_minutes(items@, i as int) <= u64::MAX ==> total
                == spec_weighted_core_minutes(items@, i as int),
            spec_weighted_core_minutes(items@, i as int) > u64::MAX ==> total == u64::MAX,
        decreases items@.len() - i,
    {
        let w = sku_weight(&items[i]);
        let term = match w.checked_mul(items[i].minutes) {
            Some(t) => t,
            None => u64::MAX,
        };
        proof {
            lemma_weighted_nonneg(items@, i as int);
            vstd::arithmetic::mul::lemma_mul_nonnegative(
                spec_sku_weight(items@[i as int].product@, items@[i as int].sku@) as int,
                items@[i as int].minutes as int,
            );
        }
        total = total.saturating_add(term);
        i = i + 1;
    }
    total
}

/// The oracle's success path: a read usage report becomes a snapshot against
/// the standard allowance.
pub fn snapshot_from_report(items: &Vec<UsageItem>) -> (s: QuotaSnapshot)
    ensures
        s.wf(),
        s.included_core_minutes == INCLUDED_CORE_MINUTES,
        spec_consumed_core_minutes(items@) <= u64::MAX ==> s.consumed_core_minutes
            == spec_consumed_core_minutes(items@),
        spec_consumed_core_minutes(items@) > u64::MAX ==> s.consumed_core_minutes == u64::MAX,
{
    let consumed = consumed_core_minutes(items);
    snapshot_from_usage(consumed, INCLUDED_CORE_MINUTES)
}

/// Core-minutes left of the allowance; saturates at zero when consumption
/// exceeds the allowance.
pub fn remaining_core_minutes(consumed: u64, included: u64) -> (r: u64)
    ensures
        r == spec_remaining_core_minutes(consumed, included),
        consumed <= included ==> r == included - consumed,
        consumed > included ==> r == 0,
{
    if consumed <= included {
        included - consumed
    } else {
        0
    }
}

/// Builds the snapshot for a successfully read usage figure.
pub fn snapshot_from_usage(consumed_core_minutes: u64, included_core_minutes: u64) -> (s:
    QuotaSnapshot)
    ensures
        s.wf(),
        s.consumed_core_minutes == consumed_core_minutes,
        s.included_core_minutes == included_core_minutes,
        s.admitted <==> s.remaining_runtime_minutes >= MIN_ADMIT_RUNTIME_MINUTES,
{
    let remaining_core = remaining_core_minutes(consumed_core_minutes, included_core_minutes);
    let remaining_runtime = remaining_core / RUNTIME_COST_MULTIPLIER;
    QuotaSnapshot {
        consumed_core_minutes,
        included_core_minutes,
        remaining_runtime_minutes: remaining_runtime,
        admitted: remaining_runtime >= MIN_ADMIT_RUNTIME_MINUTES,
    }
}

/// The snapshot used when the oracle cannot be read. Failing open treats the
/// allowance as untouched; failing closed treats it as exhausted. The policy
/// this crate applies is the constant [`FALLBACK_FAIL_OPEN`].
pub fn fallback_snapshot(fail_open: bool) -> (s: QuotaSnapshot)
    ensures
        s.wf(),
        s.included_core_minutes == INCLUDED_CORE_MINUTES,
        fail_open ==> s.consumed_core_minutes == 0,
        !fail_open ==> s.consumed_core_minutes == INCLUDED_CORE_MINUTES,
        fail_open ==> s.admitted,
        !fail_open ==> !s.admitted,
{
    let s = if fail_open {
        snapshot_from_usage(0, INCLUDED_CORE_MINUTES)
    } else {
        snapshot_from_usage(INCLUDED_CORE_MINUTES, INCLUDED_CORE_MINUTES)
    };
    s
}

/// The run budget granted to an admitted snapshot, in minutes.
pub open spec fn spec_run_budget_minutes(remaining_runtime_minutes: u64) -> u64
    recommends
        remaining_runtime_minutes >= SAFETY_BUFFER_MINUTES,
{
    if remaining_runtime_minutes - SAFETY_BUFFER_MINUTES < MAX_CONTINUOUS_RUN_MINUTES {
        (remaining_runtime_minutes - SAFETY_BUFFER_MINUTES) as u64
    } else {
        MAX_CONTINUOUS_RUN_MINUTES
    }
}

/// Grants the run budget for an admitted account: the remaining runtime at
/// admission minus the safety buffer, capped at the continuous-run ceiling,
/// and always positive.
pub fn run_budget_minutes(snapshot: &QuotaSnapshot) -> (b: u64)
    requires
        snapshot.wf(),
        snapshot.admitted,
    ensures
        b == spec_run_budget_minutes(snapshot.remaining_runtime_minutes),
        b <= MAX_CONTINUOUS_RUN_MINUTES,
        b <= snapshot.remaining_runtime_minutes - SAFETY_BUFFER_MINUTES,
        b > 0,
{
    let headroom = snapshot.remaining_runtime_minutes - SAFETY_BUFFER_MINUTES;
    if headroom < MAX_CONTINUOUS_RUN_MINUTES {
        headroom
    } else {
        MAX_CONTINUOUS_RUN_MINUTES
    }
}

/// Law: admission reads in hours. The flag is set exactly when the derived
/// remaining runtime, in whole hours, reaches the minimum threshold: it holds
/// at the boundary and fails just below it.
pub proof fn lemma_admission_by_hours(consumed: u64, included: u64)
    ensures
        spec_admitted(consumed, included) <==> spec_remaining_runtime_minutes(consumed, included)
            / 60 >= MIN_ADMIT_RUNTIME_HOURS,
{
}

/// Law: whatever consumed and included figures the oracle reports, the budget
/// granted to an admitted snapshot is positive and stays within both the
/// continuous-run ceiling and the remaining runtime less the safety buffer.
pub proof fn lemma_admitted_budget_positive(consumed: u64, included: u64)
    requires
        spec_admitted(consumed, included),
    ensures
        spec_run_budget_minutes(spec_remaining_runtime_minutes(consumed, included)) > 0,
        spec_run_budget_minutes(spec_remaining_runtime_minutes(consumed, included))
            <= MAX_CONTINUOUS_RUN_MINUTES,
        spec_run_budget_minutes(spec_remaining_runtime_minutes(consumed, included))
            <= spec_remaining_runtime_minutes(consumed, included) - SAFETY_BUFFER_MINUTES,
{
}

} // verus!
