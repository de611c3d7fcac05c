//! A team's life, its shared repository, and what a paused member loses.
//!
//! Every journey derives its names from the run's prefix and reads back from the platform what the
//! one before it left: a step that passed and wrote nothing fails the next.

pub mod membership;
pub mod paused;
pub mod repos;
pub mod untimed;

use vstd::prelude::*;

use crate::reply::{codes3, not_answered, not_answered_by};
use crate::run::{Run, RunV, law_names_carry_the_prefix, name, named, prefix_of};
use crate::text::{clipped, first_chars, starts};
use crate::wire::{Reply, ReplyV, opt};

verus! {

pub const QUICK_MS: u64 = 20_000;

/// A body with a compensation has a time of its own, and the step is given more: the step's own
/// end would take the compensation with it.
pub const TEAM_REPO_BODY_MS: u64 = 90_000;

pub const TEAM_WS_MS: u64 = 120_000;

pub const PROTECTION_BODY_MS: u64 = 150_000;

pub const PULL_MS: u64 = 30_000;

/// A wait is given its target: one that runs out is the target missed.
pub const LOG_CAP_MS: u64 = 5_000;

pub const MERGE_CAP_MS: u64 = 60_000;

pub const QUOTA_GB: i64 = 1;

/// The team's handle.
pub open spec fn team_slug_of(c: RunV) -> Seq<char> {
    named(c, "-team"@)
}

pub fn team_slug(c: &Run) -> (r: String)
    ensures
        r@ == team_slug_of(c@),
{
    name(c, "-team")
}

/// The repository the team owns and its member clones.
pub open spec fn shared_repo_of(c: RunV) -> Seq<char> {
    named(c, "-shared"@)
}

pub fn shared_repo(c: &Run) -> (r: String)
    ensures
        r@ == shared_repo_of(c@),
{
    name(c, "-shared")
}

/// The branch a change into a protected branch is opened from.
pub open spec fn prot_branch_of(c: RunV) -> Seq<char> {
    named(c, "-prot"@)
}

pub fn prot_branch(c: &Run) -> (r: String)
    ensures
        r@ == prot_branch_of(c@),
{
    name(c, "-prot")
}

/// The branch the web's edit makes.
pub open spec fn patch_branch_of(c: RunV) -> Seq<char> {
    named(c, "-patch"@)
}

pub fn patch_branch(c: &Run) -> (r: String)
    ensures
        r@ == patch_branch_of(c@),
{
    name(c, "-patch")
}

/// The branch of the change that is closed.
pub open spec fn closed_branch_of(c: RunV) -> Seq<char> {
    named(c, "-closed"@)
}

pub fn closed_branch(c: &Run) -> (r: String)
    ensures
        r@ == closed_branch_of(c@),
{
    name(c, "-closed")
}

/// Every name these journeys make carries the run's prefix, which is what the sweep finds it by,
/// and no two of them are one name.
pub proof fn law_every_name_carries_the_prefix(c: RunV)
    ensures
        starts(team_slug_of(c), prefix_of(c)),
        starts(shared_repo_of(c), prefix_of(c)),
        starts(prot_branch_of(c), prefix_of(c)),
        starts(patch_branch_of(c), prefix_of(c)),
        starts(closed_branch_of(c), prefix_of(c)),
        team_slug_of(c) != shared_repo_of(c),
        team_slug_of(c) != prot_branch_of(c),
        team_slug_of(c) != patch_branch_of(c),
        team_slug_of(c) != closed_branch_of(c),
        shared_repo_of(c) != prot_branch_of(c),
        shared_repo_of(c) != patch_branch_of(c),
        shared_repo_of(c) != closed_branch_of(c),
        prot_branch_of(c) != patch_branch_of(c),
        prot_branch_of(c) != closed_branch_of(c),
        patch_branch_of(c) != closed_branch_of(c),
{
    law_names_carry_the_prefix(c, "-team"@);
    law_names_carry_the_prefix(c, "-shared"@);
    law_names_carry_the_prefix(c, "-prot"@);
    law_names_carry_the_prefix(c, "-patch"@);
    law_names_carry_the_prefix(c, "-closed"@);
    reveal_strlit("-team");
    reveal_strlit("-shared");
    reveal_strlit("-prot");
    reveal_strlit("-patch");
    reveal_strlit("-closed");
    let n = prefix_of(c).len() as int;
    assert(team_slug_of(c)[n + 2] == 'e');
    assert(shared_repo_of(c)[n + 2] == 'h');
    assert(prot_branch_of(c)[n + 2] == 'r');
    assert(patch_branch_of(c)[n + 2] == 'a');
    assert(closed_branch_of(c)[n + 2] == 'l');
}

/// The start of an answer's text, as a failure tells it.
pub fn clip(body: &str) -> (r: String)
    ensures
        r@ == clipped(body@, 200),
{
    first_chars(body, 200)
}

/// Why an answer is no refusal. A tier that fell over refused nothing.
pub open spec fn unrefused(what: Seq<char>, r: ReplyV) -> Option<Seq<char>> {
    not_answered(what, seq![401u16, 403u16, 404u16], r)
}

/// A refusal, and only a refusal.
pub fn refused(what: &str, r: &Reply) -> (o: Option<String>)
    ensures
        opt(o) == unrefused(what@, r@),
{
    not_answered_by(what, &codes3(401, 403, 404), r)
}

/// An answer is a refusal exactly when its status says so; nothing that could not be asked is one.
pub proof fn law_only_a_refusal_is_a_refusal(what: Seq<char>, r: ReplyV)
    ensures
        unrefused(what, r) is None <==> (r matches ReplyV::Answer { status, .. } && (status == 401 || status == 403 || status == 404)),
{
    let allowed = seq![401u16, 403u16, 404u16];
    assert(allowed[0] == 401 && allowed[1] == 403 && allowed[2] == 404);
    if let ReplyV::Answer { status, .. } = r {
        if status == 401 {
            assert(allowed.contains(status));
        }
        if status == 403 {
            assert(allowed.contains(status));
        }
        if status == 404 {
            assert(allowed.contains(status));
        }
    }
}

} // verus!
