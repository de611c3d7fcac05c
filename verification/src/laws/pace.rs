//! Of how a wait paces its tries, and of how a step's outcome is read.

use vstd::prelude::*;

use crate::turn::{OutcomeV, failure, failure_or_empty, found_in, learned_by, passed, passed_by, passed_with};
use crate::wait::{WaitV, gives_up_after, rests_for, starts_until};

verus! {

/// A wait rests between two tries as long as its kind does: the read of a document a quarter of a second, the longest ten seconds.
pub proof fn law_a_wait_rests_as_its_kind_does(w: WaitV)
    ensures
        w is Doc ==> rests_for(w) == 250,
        w is Gone || w is Landed || w is Policy || w is Departed || w is Unlisted || w is Detached || w is Vanished ==> rests_for(w) == 500,
        w is Which || w is Health || w is Cloned || w is Denied || w is Replicas || w is Pong || w is ToolToken || w is BackUp || w is Agents
            ==> rests_for(w) == 2_000,
        w is Away ==> rests_for(w) == 3_000,
        w is RefusedEverywhere || w is Drained || w is Draining || w is Marked || w is Usage ==> rests_for(w) == 5_000,
        w is SeedFailed || w is Cleaned ==> rests_for(w) == 10_000,
        w is Collected ==> rests_for(w) == 0,
{
}

/// Every wait has one bound and not two: the time after which a failed try is its last, or the time at which it starts none.
pub proof fn law_a_wait_is_bounded_one_way(w: WaitV)
    ensures
        gives_up_after(w) is Some <==> starts_until(w) is None,
        starts_until(w) is Some <==> w is Health || w is SeedFailed || w is Away,
        w matches WaitV::Doc { cap_ms, .. } ==> gives_up_after(w) == Some(if cap_ms >= 2_000 { (cap_ms - 2_000) as u64 } else { 0 }),
        w matches WaitV::Which { cap_ms, .. } ==> gives_up_after(w) == Some(if cap_ms >= 10_000 { (cap_ms - 10_000) as u64 } else { 0 }),
        w matches WaitV::Cloned { cap_ms, .. } ==> gives_up_after(w) == Some(cap_ms),
        w matches WaitV::Denied { cap_ms, .. } ==> gives_up_after(w) == Some(cap_ms),
        w matches WaitV::Landed { cap_ms, .. } ==> gives_up_after(w) == Some(cap_ms),
        w matches WaitV::ToolToken { cap_ms, .. } ==> gives_up_after(w) == Some(cap_ms),
        w matches WaitV::RefusedEverywhere { cap_ms, .. } ==> gives_up_after(w) == Some(cap_ms),
        w matches WaitV::Collected { cap_ms, .. } ==> gives_up_after(w) == Some(cap_ms),
        w matches WaitV::Cleaned { cap_ms, .. } ==> gives_up_after(w) == Some(cap_ms),
        w matches WaitV::Usage { secs, .. } ==> gives_up_after(w) == Some(if secs * 1_000 <= u64::MAX { (secs * 1_000) as u64 } else { u64::MAX }),
{
}

/// A step has passed, or failed, or was skipped; what it learned is known of it either way, but counts only where it passed.
pub proof fn law_an_outcome_is_read_as_it_is(o: OutcomeV, found: Option<Seq<char>>, why: Seq<char>, os: Seq<OutcomeV>, k: int)
    ensures
        passed(o) <==> o is Passed,
        found_in(OutcomeV::Passed { found }) == found && passed_with(OutcomeV::Passed { found }) == found,
        found_in(OutcomeV::Failed { found, why }) == found && passed_with(OutcomeV::Failed { found, why }) is None,
        found_in(OutcomeV::Skipped) is None && passed_with(OutcomeV::Skipped) is None,
        failure(OutcomeV::Failed { found, why }) == Some(why) && failure_or_empty(OutcomeV::Failed { found, why }) == why,
        !(o is Failed) ==> failure(o) is None && failure_or_empty(o).len() == 0,
        0 <= k < os.len() ==> learned_by(os, k) == found_in(os[k]) && passed_by(os, k) == passed(os[k]),
        k >= os.len() ==> learned_by(os, k) is None && !passed_by(os, k),
{
}

} // verus!
