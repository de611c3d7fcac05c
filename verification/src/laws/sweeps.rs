//! Of what a sweep counts and hides, and of what the older feed and fleet tell.

use vstd::prelude::*;

use crate::json::{Doc, member, rows_of, text_of};
use crate::laws::went_well;
use crate::reply::doc_of;
use crate::run::{RunV, StateV, api_at, prefix_of};
use crate::stages::monthly::older;
use crate::stages::sweep;
use crate::stages::sweep::ClaimV;
use crate::turn::{MoveV, OutcomeV};
use crate::wire::{AskV, LogV, NextV, ReplyV, patching, posting};

verus! {

/// What one sweep of one kind takes is read off that kind's listing, by the kind's own two fields.
pub proof fn law_a_listing_is_read_by_its_own_fields(m: ClaimV, r: ReplyV)
    ensures
        sweep::ours(0, m, r) == (match doc_of(r) { Ok(d) => sweep::claimed(rows_of(Some(d)), "name"@, "id"@, m), Err(_) => seq![] }),
        sweep::ours(1, m, r) == sweep::ours(0, m, r),
        sweep::ours(2, m, r) == (match doc_of(r) { Ok(d) => sweep::claimed(rows_of(Some(d)), "display_name"@, "name"@, m), Err(_) => seq![] }),
        sweep::ours(3, m, r) == (match doc_of(r) { Ok(d) => sweep::claimed(rows_of(Some(d)), "name"@, "name"@, m), Err(_) => seq![] }),
        sweep::ours(4, m, r) == (match doc_of(r) { Ok(d) => sweep::claimed(rows_of(Some(d)), "name"@, "_id"@, m), Err(_) => seq![] }),
        sweep::ours(5, m, r) == sweep::ours(4, m, r),
        sweep::ours(6, m, r) == sweep::ours(0, m, r),
        sweep::ours(7, m, r) == (match doc_of(r) { Ok(d) => sweep::claimed(rows_of(Some(d)), "reason"@, "id"@, m), Err(_) => seq![] }),
        sweep::ours(8, m, r) == sweep::ours(3, m, r),
{
}

/// What came of a sweep is the number of its deletes that went well: no listing counts, nor a delete that was refused.
pub proof fn law_a_sweep_counts_what_went_well(m: ClaimV, rs: Seq<ReplyV>, r: ReplyV)
    ensures
        sweep::done(seq![]) == 0,
        sweep::done(rs.push(r)) == sweep::done(rs) + (if went_well(r) { 1nat } else { 0nat }),
        sweep::swept_from(m, 0, seq![]) == 0,
        sweep::swept_from(m, 0, seq![r]) == 0,
{
    assert(rs.push(r).drop_last() =~= rs);
    assert(seq![r].skip(1) =~= Seq::<ReplyV>::empty());
    assert(seq![r].subrange(1, 1) =~= Seq::<ReplyV>::empty());
    reveal_with_fuel(sweep::swept_from, 3);
    assert(seq![r].len() == 1 && seq![r][0] == r);
}

/// A sweep never counts more than was asked for.
pub proof fn law_a_sweep_counts_no_more_than_it_asked(m: ClaimV, k: nat, rs: Seq<ReplyV>)
    ensures
        sweep::swept_from(m, k, rs) <= rs.len(),
        rs.len() > 0 ==> sweep::swept_from(m, k, rs) < rs.len(),
    decreases 9 - k,
{
    if k < 9 && rs.len() > 0 {
        let mine = sweep::ours(k as int, m, rs[0]);
        if rs.len() <= mine.len() {
            lemma_done_is_bounded(rs.skip(1));
        } else {
            lemma_done_is_bounded(rs.subrange(1, mine.len() as int + 1));
            law_a_sweep_counts_no_more_than_it_asked(m, k + 1, rs.skip(mine.len() as int + 1));
        }
    }
}

proof fn lemma_done_is_bounded(rs: Seq<ReplyV>)
    ensures
        sweep::done(rs) <= rs.len(),
    decreases rs.len(),
{
    if rs.len() > 0 {
        lemma_done_is_bounded(rs.drop_last());
    }
}

/// Hiding makes the repo private, if there is one, and then each image of this run, and is over once each was asked for.
pub proof fn law_hiding_reaches_every_image_of_the_run(c: RunV, repo: Option<Seq<char>>, log: LogV)
    ensures
        ({
            let n = sweep::body_next(c, sweep::BodyV::Hide { repo }, log);
            let from: int = if repo is Some { 1 } else { 0 };
            let at = log.rs.len() - from;
            let images = sweep::ours(8, ClaimV::Prefix { prefix: prefix_of(c) }, log.rs[from]);
            &&& at == 0 ==> n == NextV::Ask(sweep::listing(c, 8))
            &&& 0 < at <= images.len() ==> n == NextV::Ask(
                posting(
                    api_at(c, "/api/"@ + c.tenant + "/"@ + images[at - 1].1 + "/imagevisibility?visibility=private"@), c.probe_jwt, Doc::Null,
                ),
            )
            &&& n is Pass <==> at > images.len() && at > 0
            &&& repo is Some && log.rs.len() == 0 ==> n == NextV::Ask(
                patching(
                    api_at(c, "/v1/repos/"@ + c.tenant + "/"@ + repo->0), c.probe_jwt, Doc::Obj(seq![("visibility"@, Doc::Str("private"@))]),
                ),
            )
        }),
{
    if repo is Some && log.rs.len() > 0 {
        assert(log.rs.skip(1).len() == log.rs.len() - 1);
        if log.rs.len() > 1 {
            assert(log.rs.skip(1)[0] == log.rs[1]);
        }
    }
}

/// A teardown undoes the drills first, then hides, then sweeps, and what is remembered by its id goes last; a boot makes the
/// tree and sweeps.
pub proof fn law_a_teardown_goes_in_order(c: RunV, s: StateV, now: i64, os: Seq<OutcomeV>, log: LogV)
    ensures
        ({
            let m = sweep::teardown_move(c, s, os);
            let last: nat = if s.env_volume is Some { 4 } else { 3 };
            &&& os.len() == 0 ==> m == (MoveV::Look { body: sweep::BodyV::UndoDrills })
            &&& os.len() == 1 ==> m == (MoveV::Look { body: sweep::BodyV::Hide { repo: s.repo } })
            &&& os.len() == 2 ==> m == (MoveV::Look { body: sweep::BodyV::Sweep { claim: ClaimV::Prefix { prefix: "run-"@ + c.run_id } } })
            &&& os.len() == 3 && s.env_volume is Some ==> m == (MoveV::Look {
                body: sweep::BodyV::Volume { volume: s.env_volume->0, snapshot: s.env_snapshot },
            })
            &&& os.len() == last ==> m == (MoveV::Look {
                body: sweep::BodyV::Named { token: s.token, cli_token: s.cli_token, volumes: s.extra_volumes },
            })
            &&& os.len() > last ==> m is End
        }),
        os.len() == 0 ==> sweep::boot_move(now, os) == (MoveV::Look { body: sweep::BodyV::Tree }),
        os.len() == 1 ==> sweep::boot_move(now, os) == (MoveV::Look { body: sweep::BodyV::Sweep { claim: ClaimV::Stale { now } } }),
        os.len() > 1 ==> sweep::boot_move(now, os) is End,
        ({
            let n = sweep::body_next(c, sweep::BodyV::Tree, log);
            &&& log.rs.len() == 0 ==> n == NextV::Ask(AskV::Mkdir { path: c.tmp })
            &&& log.rs.len() > 0 ==> n is Pass
        }),
{
    assert(seq![AskV::Mkdir { path: c.tmp }].len() == 1);
}

/// A feed tells of a repo's creation when one of its rows is of that kind and names that repo, and else not.
pub proof fn law_a_feed_tells_of_the_repo_it_names(rows: Seq<Doc>, events: Doc, repo: Seq<char>, i: int)
    requires
        member(events, "events"@) == Some(Doc::Arr(rows)),
    ensures
        0 <= i < rows.len() && text_of(rows[i], "kind"@) == Some("repo_created"@) && text_of(rows[i], "repo"@) == Some(repo)
            ==> older::created_in(events, repo),
        older::created_in(events, repo) ==> exists|j: int|
            0 <= j < rows.len() && text_of(#[trigger] rows[j], "kind"@) == Some("repo_created"@) && text_of(rows[j], "repo"@) == Some(repo),
{
    if 0 <= i < rows.len() {
        assert(older::creates(rows[i], repo) ==> older::some_creates(rows, repo));
    }
    if older::created_in(events, repo) {
        let j = choose|j: int| 0 <= j < rows.len() && older::creates(#[trigger] rows[j], repo);
        assert(0 <= j < rows.len() && text_of(rows[j], "kind"@) == Some("repo_created"@));
    }
}

} // verus!
