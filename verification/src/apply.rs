//! Sequencing the application of a change sequence. The file-system effects
//! themselves are performed by the surrounding program; this module decides,
//! after each attempt, which change (if any) is attempted next, so that the
//! changes run in original-list order and the first failure halts the run
//! with the failing index. Already-applied changes are never rolled back.
use vstd::prelude::*;

verus! {

/// Where a run over a change sequence of length `n` stands: the index of the
/// change to attempt next, the index of the change that failed, or done.
#[derive(Clone, Copy, Debug, PartialEq, Eq, Structural)]
pub enum ApplyStatus {
    InProgress { next: usize },
    Failed { at: usize },
    Done,
}

/// A status talks about indices of a change sequence of length `n`.
pub open spec fn status_wf(s: ApplyStatus, n: nat) -> bool {
    match s {
        ApplyStatus::InProgress { next } => next < n,
        ApplyStatus::Failed { at } => at < n,
        ApplyStatus::Done => true,
    }
}

/// The status after one attempt: a failure halts at the attempted index and
/// a success moves on to the following change, finishing after the last one.
pub open spec fn spec_apply_step(s: ApplyStatus, n: nat, succeeded: bool) -> ApplyStatus {
    match s {
        ApplyStatus::InProgress { next } => if !succeeded {
            ApplyStatus::Failed { at: next }
        } else if next + 1 < n {
            ApplyStatus::InProgress { next: (next + 1) as usize }
        } else {
            ApplyStatus::Done
        },
        _ => s,
    }
}

/// Starts a run over a change sequence of length `n` at its first change.
pub fn apply_init(n: usize) -> (s: ApplyStatus)
    ensures
        s == if n == 0 {
            ApplyStatus::Done
        } else {
            ApplyStatus::InProgress { next: 0usize }
        },
        status_wf(s, n as nat),
{
    if n == 0 {
        ApplyStatus::Done
    } else {
        ApplyStatus::InProgress { next: 0 }
    }
}

/// Records the outcome of attempting the change the status points at.
pub fn apply_step(s: ApplyStatus, n: usize, succeeded: bool) -> (t: ApplyStatus)
    requires
        status_wf(s, n as nat),
        s is InProgress,
    ensures
        t == spec_apply_step(s, n as nat, succeeded),
        status_wf(t, n as nat),
{
    match s {
        ApplyStatus::InProgress { next } => {
            if !succeeded {
                ApplyStatus::Failed { at: next }
            } else if next + 1 < n {
                ApplyStatus::InProgress { next: next + 1 }
            } else {
                ApplyStatus::Done
            }
        },
        _ => s,
    }
}

/// The applier halts on the first failure: a failed attempt at index `i`
/// leaves the run failed at `i`, and no later attempt changes a failed or
/// finished run — the changes after the failing one are never asked for.
pub proof fn lemma_halts_on_first_failure(i: usize, n: nat, succeeded: bool)
    requires
        i < n,
    ensures
        spec_apply_step(ApplyStatus::InProgress { next: i }, n, false) == (ApplyStatus::Failed {
            at: i,
        }),
        spec_apply_step(ApplyStatus::Failed { at: i }, n, succeeded) == (ApplyStatus::Failed {
            at: i,
        }),
        spec_apply_step(ApplyStatus::Done, n, succeeded) == ApplyStatus::Done,
{
}

/// A run that only ever succeeds walks the indices in original-list order:
/// after `k` successful attempts it stands at index `k`, until the sequence
/// is exhausted.
pub proof fn lemma_in_order(k: usize, n: nat)
    requires
        k < n,
    ensures
        spec_apply_step(ApplyStatus::InProgress { next: k }, n, true) == if k + 1 < n {
            ApplyStatus::InProgress { next: (k + 1) as usize }
        } else {
            ApplyStatus::Done
        },
{
}

} // verus!
