//! Existence probe retrier: the bounded-retry discipline around the one
//! idempotent call — "does this database exist?".
//!
//! The surrounding program performs each underlying check and hands its
//! outcome to [`retry_step`] together with the retries that remain under the
//! external policy's bound; the retrier decides whether to try again or to
//! finish. Only this probe is ever retried: a transient failure during a
//! create or drop call leaves unknown side effects, so those calls are
//! attempted exactly once, elsewhere.

use vstd::prelude::*;

verus! {

/// What one underlying existence check reported.
#[derive(Clone, Copy, PartialEq, Eq, Debug)]
pub enum CheckOutcome {
    /// The check succeeded: the database exists.
    Exists,
    /// The check succeeded: the database does not exist.
    DoesNotExist,
    /// The check failed with a transient connection error — retriable.
    ConnectionError,
    /// The check failed with any other error — never retried.
    OtherError,
}

/// The probe's final report to the lifecycle operation that asked.
#[derive(Clone, Copy, PartialEq, Eq, Debug)]
pub enum ProbeOutcome {
    Exists,
    DoesNotExist,
    /// The retry bound was exhausted, or the check failed fatally; the
    /// underlying error is propagated by the surrounding program.
    Failed,
}

/// What to do after one check: try again, or finish with a report.
#[derive(Clone, Copy, PartialEq, Eq, Debug)]
pub enum RetryDecision {
    /// Perform the check once more; this many further retries remain after it.
    Retry { remaining: u64 },
    Done(ProbeOutcome),
}

/// The retrier's transition on one check outcome: a definite answer or a
/// non-connection error finishes at once; a connection error is retried
/// only while retries remain.
pub open spec fn spec_retry_step(remaining: u64, check: CheckOutcome) -> RetryDecision {
    match check {
        CheckOutcome::Exists => RetryDecision::Done(ProbeOutcome::Exists),
        CheckOutcome::DoesNotExist => RetryDecision::Done(ProbeOutcome::DoesNotExist),
        CheckOutcome::OtherError => RetryDecision::Done(ProbeOutcome::Failed),
        CheckOutcome::ConnectionError => if remaining > 0 {
            RetryDecision::Retry { remaining: (remaining - 1) as u64 }
        } else {
            RetryDecision::Done(ProbeOutcome::Failed)
        },
    }
}

/// Advance the probe by one underlying check, with `remaining` retries still
/// allowed by the external policy's bound.
pub fn retry_step(remaining: u64, check: CheckOutcome) -> (d: RetryDecision)
    ensures
        d == spec_retry_step(remaining, check),
{
    match check {
        CheckOutcome::Exists => RetryDecision::Done(ProbeOutcome::Exists),
        CheckOutcome::DoesNotExist => RetryDecision::Done(ProbeOutcome::DoesNotExist),
        CheckOutcome::OtherError => RetryDecision::Done(ProbeOutcome::Failed),
        CheckOutcome::ConnectionError => if remaining > 0 {
            RetryDecision::Retry { remaining: remaining - 1 }
        } else {
            RetryDecision::Done(ProbeOutcome::Failed)
        },
    }
}

/// The report a whole probe session reaches on a sequence of check
/// outcomes, starting with `remaining` retries allowed; `None` if the
/// sequence ends while the retrier still wanted another check.
pub open spec fn probe_run(remaining: u64, checks: Seq<CheckOutcome>) -> Option<ProbeOutcome>
    decreases checks.len(),
{
    if checks.len() == 0 {
        None
    } else {
        match spec_retry_step(remaining, checks[0]) {
            RetryDecision::Done(p) => Some(p),
            RetryDecision::Retry { remaining: r } => probe_run(r, checks.skip(1)),
        }
    }
}

/// How many underlying checks a probe session performs on a sequence of
/// check outcomes before it finishes (or runs out of outcomes).
pub open spec fn probe_checks_used(remaining: u64, checks: Seq<CheckOutcome>) -> nat
    decreases checks.len(),
{
    if checks.len() == 0 {
        0
    } else {
        match spec_retry_step(remaining, checks[0]) {
            RetryDecision::Done(_) => 1,
            RetryDecision::Retry { remaining: r } => 1 + probe_checks_used(r, checks.skip(1)),
        }
    }
}

/// Retry bound respected, success side: `k` transient connection failures
/// followed by a definite answer, with at least `k` retries allowed, yield
/// exactly that answer — as if the first check had succeeded — after `k + 1`
/// checks.
pub proof fn lemma_retry_bound_success(remaining: u64, checks: Seq<CheckOutcome>, k: int)
    requires
        0 <= k < checks.len(),
        forall|i: int| 0 <= i < k ==> checks[i] == CheckOutcome::ConnectionError,
        checks[k] == CheckOutcome::Exists || checks[k] == CheckOutcome::DoesNotExist,
        remaining >= k,
    ensures
        checks[k] == CheckOutcome::Exists ==> probe_run(remaining, checks) == Some(
            ProbeOutcome::Exists,
        ),
        checks[k] == CheckOutcome::DoesNotExist ==> probe_run(remaining, checks) == Some(
            ProbeOutcome::DoesNotExist,
        ),
        probe_checks_used(remaining, checks) == k + 1,
    decreases k,
{
    if k == 0 {
    } else {
        assert(checks[0] == CheckOutcome::ConnectionError);
        let rest = checks.skip(1);
        assert(forall|i: int| 0 <= i < k - 1 ==> rest[i] == checks[i + 1]);
        assert(rest[k - 1] == checks[k]);
        lemma_retry_bound_success((remaining - 1) as u64, rest, k - 1);
    }
}

/// Retry bound respected, exhaustion side: when the check hits a transient
/// connection failure on every allowed attempt, the probe fails after
/// exactly `remaining + 1` checks — the initial attempt plus each retry.
pub proof fn lemma_retry_bound_exhausted(remaining: u64, checks: Seq<CheckOutcome>)
    requires
        checks.len() > remaining,
        forall|i: int| 0 <= i <= remaining ==> checks[i] == CheckOutcome::ConnectionError,
    ensures
        probe_run(remaining, checks) == Some(ProbeOutcome::Failed),
        probe_checks_used(remaining, checks) == remaining + 1,
    decreases remaining,
{
    assert(checks[0] == CheckOutcome::ConnectionError);
    if remaining == 0 {
    } else {
        let rest = checks.skip(1);
        assert(forall|i: int| 0 <= i <= remaining - 1 ==> rest[i] == checks[i + 1]);
        lemma_retry_bound_exhausted((remaining - 1) as u64, rest);
    }
}

/// A non-connection error from the underlying check is propagated at once:
/// one check, no retry, whatever the remaining budget.
pub proof fn lemma_non_connection_error_not_retried(remaining: u64, checks: Seq<CheckOutcome>)
    requires
        checks.len() >= 1,
        checks[0] == CheckOutcome::OtherError,
    ensures
        probe_run(remaining, checks) == Some(ProbeOutcome::Failed),
        probe_checks_used(remaining, checks) == 1,
{
}

} // verus!
