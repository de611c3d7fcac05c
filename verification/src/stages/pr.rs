//! Stage 3 · Pull request: the one journey that leaves this tier entirely.
//!
//! The merge is a job a worker picks up, so whether it happened is read off the refs, which is
//! also what a person watching the page sees change.

use vstd::prelude::*;

use crate::json::{Doc, Json, any_row, array_of, doc_i64, i64_of, items, member, obj3, rows_of, some_row, txt};
use crate::reply::{call_failed, doc, doc_of, failed, lost, lost_of};
use crate::run::{Run, RunV, State, StateV, api, api_at};
use crate::stages::git::{browse_at, browse_url, oid_in, oid_of, repo_at, repo_url, BASE_BRANCH, HEAD_BRANCH};
use crate::text::{cat2, cat3, cat5, dec_int, decimal_int, same};
use crate::turn::{
    Move, MoveV, Outcome, OutcomeV, failure, failure_or_empty, look, outcomes, passed, passed_with, reports, reports_exactly,
    skip, step,
};
use crate::wait::{Wait, WaitV};
use crate::want::{Want, WantV};
use crate::wire::{Ask, AskV, Log, LogV, Next, NextV, Reply, ReplyV, end, err_of, get, getting, link, opt, post, posting};

verus! {

/// The target of `pr.merge.p95`, used as the wait: a merge that has not landed inside its target
/// has failed whether the probe waits longer or not.
pub const MERGE_CAP_MS: u64 = 60_000;

pub const FEED_CAP_MS: u64 = 30_000;

/// The rows of a feed: the list in its `events`, or the feed itself.
pub open spec fn events_of(feed: Doc) -> Seq<Doc> {
    match items(member(feed, "events"@)) {
        Some(v) => v,
        None => rows_of(Some(feed)),
    }
}

/// The feed has the merge of exactly this repo: a name that this one only ends in is another.
pub open spec fn merge_in(feed: Doc, repo: Seq<char>) -> bool {
    some_row(events_of(feed), "kind"@, "pull_merged"@, "repo"@, repo)
}

pub fn merge_event(feed: &Json, repo: &str) -> (r: bool)
    ensures
        r == merge_in(feed@, repo@),
{
    match array_of(feed.get("events")) {
        Some(rows) => any_row(rows, "kind", "pull_merged", "repo", repo),
        None => match array_of(Some(feed)) {
            Some(rows) => any_row(rows, "kind", "pull_merged", "repo", repo),
            None => false,
        },
    }
}

// ── the bodies ──────────────────────────────────────────────────────────────

pub enum Body {
    /// The commit the change is at, before the merge.
    HeadOid { name: String },
    Open { name: String },
    Merge { name: String, number: String, target: String },
    Feed { name: String },
}

pub enum BodyV {
    HeadOid { name: Seq<char> },
    Open { name: Seq<char> },
    Merge { name: Seq<char>, number: Seq<char>, target: Seq<char> },
    Feed { name: Seq<char> },
}

impl View for Body {
    type V = BodyV;

    open spec fn view(&self) -> BodyV {
        match self {
            Body::HeadOid { name } => BodyV::HeadOid { name: name@ },
            Body::Open { name } => BodyV::Open { name: name@ },
            Body::Merge { name, number, target } => BodyV::Merge { name: name@, number: number@, target: target@ },
            Body::Feed { name } => BodyV::Feed { name: name@ },
        }
    }
}

/// The number of a change that was opened.
pub open spec fn opened_number(r: ReplyV) -> Result<Seq<char>, Seq<char>> {
    match doc_of(r) {
        Err(why) => Err(why),
        Ok(d) => match doc_i64(member(d, "number"@)) {
            Some(n) => Ok(dec_int(n)),
            None => Err("the answer carried no number"@),
        },
    }
}

pub fn number_of(r: &Reply) -> (o: Result<String, String>)
    ensures
        (match o { Ok(t) => Ok(t@), Err(e) => Err(e@) }) == opened_number(r@),
{
    match doc(r) {
        Err(why) => Err(why),
        Ok(d) => match i64_of(d.get("number")) {
            Some(n) => Ok(decimal_int(n)),
            None => Err("the answer carried no number".to_owned()),
        },
    }
}

pub open spec fn open_next(c: RunV, name: Seq<char>, rs: Seq<ReplyV>) -> NextV {
    link(
        rs, 0,
        posting(
            repo_at(c, c.probe_user, name, "/pulls"@),
            c.probe_jwt,
            Doc::Obj(seq![
                ("title"@, Doc::Str("slo probe "@ + c.run_id)),
                ("base"@, Doc::Str(BASE_BRANCH@)),
                ("head"@, Doc::Str(HEAD_BRANCH@)),
            ]),
        ),
        err_of(opened_number(rs[0])),
        NextV::Pass,
    )
}

fn open_body(c: &Run, name: &str, log: &Log) -> (n: Next)
    ensures
        n@ == open_next(c@, name@, log@.rs),
{
    if log.rs.len() <= 0 {
        let body = obj3(
            "title", txt(cat2("slo probe ", c.run_id.as_str()).as_str()), "base", txt(BASE_BRANCH), "head", txt(HEAD_BRANCH),
        );
        return Next::Ask(post(repo_url(c, c.probe_user.as_str(), name, "/pulls"), c.probe_jwt.as_str(), body));
    }
    match number_of(&log.rs[0]) {
        Ok(_) => Next::Pass,
        Err(why) => Next::Fail(why),
    }
}

/// The path that asks for a merge.
pub open spec fn merge_path(number: Seq<char>) -> Seq<char> {
    "/pulls/"@ + number + "/merge?strategy=fast-forward"@
}

pub open spec fn merge_next(c: RunV, name: Seq<char>, number: Seq<char>, target: Seq<char>, rs: Seq<ReplyV>) -> NextV {
    link(
        rs, 0, posting(repo_at(c, c.probe_user, name, merge_path(number)), c.probe_jwt, Doc::Null),
        call_failed("could not ask for the merge"@, rs[0]),
        link(
            rs, 1,
            AskV::Wait(WaitV::Doc {
                url: browse_at(c, c.probe_user, name, "/refs"@),
                token: c.probe_jwt,
                want: WantV::Branch { branch: BASE_BRANCH@, oid: target },
                cap_ms: MERGE_CAP_MS,
            }),
            lost_of(rs[1]),
            NextV::Pass,
        ),
    )
}

fn merge_body(c: &Run, name: &str, number: &str, target: &str, log: &Log) -> (n: Next)
    ensures
        n@ == merge_next(c@, name@, number@, target@, log@.rs),
{
    if log.rs.len() <= 0 {
        let path = cat3("/pulls/", number, "/merge?strategy=fast-forward");
        return Next::Ask(post(repo_url(c, c.probe_user.as_str(), name, path.as_str()), c.probe_jwt.as_str(), Json::Null));
    }
    if let Some(why) = failed("could not ask for the merge", &log.rs[0]) {
        return Next::Fail(why);
    }
    if log.rs.len() <= 1 {
        return Next::Ask(Ask::Wait(Wait::Doc {
            url: browse_url(c, c.probe_user.as_str(), name, "/refs"),
            token: c.probe_jwt.clone(),
            want: Want::Branch { branch: BASE_BRANCH.to_owned(), oid: target.to_owned() },
            cap_ms: MERGE_CAP_MS,
        }));
    }
    end(lost(&log.rs[1]))
}

pub open spec fn feed_next(c: RunV, name: Seq<char>, rs: Seq<ReplyV>) -> NextV {
    link(
        rs, 0,
        AskV::Wait(WaitV::Doc {
            url: api_at(c, "/v1/activity?owner="@ + c.probe_user),
            token: c.probe_jwt,
            want: WantV::Merged { repo: name },
            cap_ms: FEED_CAP_MS,
        }),
        lost_of(rs[0]),
        NextV::Pass,
    )
}

fn feed_body(c: &Run, name: &str, log: &Log) -> (n: Next)
    ensures
        n@ == feed_next(c@, name@, log@.rs),
{
    if log.rs.len() <= 0 {
        return Next::Ask(Ask::Wait(Wait::Doc {
            url: api(c, cat2("/v1/activity?owner=", c.probe_user.as_str()).as_str()),
            token: c.probe_jwt.clone(),
            want: Want::Merged { repo: name.to_owned() },
            cap_ms: FEED_CAP_MS,
        }));
    }
    end(lost(&log.rs[0]))
}

/// Why there is nothing to merge: the base is at the change's own commit before anything was asked, and
/// would be so at once afterwards.
pub open spec fn merged_already(r: ReplyV) -> Option<Seq<char>> {
    match doc_of(r) {
        Err(_) => None,
        Ok(d) => if oid_in(d, HEAD_BRANCH@) is Some && oid_in(d, HEAD_BRANCH@) == oid_in(d, BASE_BRANCH@) {
            Some("`"@ + BASE_BRANCH@ + "` was at `"@ + HEAD_BRANCH@ + "` before the merge"@)
        } else {
            None
        },
    }
}

fn already(r: &Reply) -> (o: Option<String>)
    ensures
        opt(o) == merged_already(r@),
{
    match doc(r) {
        Err(_) => None,
        Ok(d) => match (oid_of(&d, HEAD_BRANCH), oid_of(&d, BASE_BRANCH)) {
            (Some(head), Some(base)) => {
                if same(head.as_str(), base.as_str()) {
                    Some(cat5("`", BASE_BRANCH, "` was at `", HEAD_BRANCH, "` before the merge"))
                } else {
                    None
                }
            },
            _ => None,
        },
    }
}

/// Where both branches are before the merge.
pub open spec fn refs_next(c: RunV, name: Seq<char>, rs: Seq<ReplyV>) -> NextV {
    link(rs, 0, getting(browse_at(c, c.probe_user, name, "/refs"@), c.probe_jwt), merged_already(rs[0]), NextV::Pass)
}

fn refs_body(c: &Run, name: &str, log: &Log) -> (n: Next)
    ensures
        n@ == refs_next(c@, name@, log@.rs),
{
    if log.rs.len() <= 0 {
        return Next::Ask(get(browse_url(c, c.probe_user.as_str(), name, "/refs"), c.probe_jwt.as_str()));
    }
    end(already(&log.rs[0]))
}

pub open spec fn body_next(c: RunV, b: BodyV, log: LogV) -> NextV {
    match b {
        BodyV::HeadOid { name } => refs_next(c, name, log.rs),
        BodyV::Open { name } => open_next(c, name, log.rs),
        BodyV::Merge { name, number, target } => merge_next(c, name, number, target, log.rs),
        BodyV::Feed { name } => feed_next(c, name, log.rs),
    }
}

/// What a body has learned: the commit the change is at, or the number it was opened under.
pub open spec fn body_found(b: BodyV, log: LogV) -> Option<Seq<char>> {
    if log.rs.len() == 0 {
        None
    } else {
        match b {
            BodyV::HeadOid { .. } => match doc_of(log.rs[0]) {
                Ok(d) => oid_in(d, HEAD_BRANCH@),
                Err(_) => None,
            },
            BodyV::Open { .. } => match opened_number(log.rs[0]) {
                Ok(n) => Some(n),
                Err(_) => None,
            },
            _ => None,
        }
    }
}

impl Body {
    pub fn next(&self, c: &Run, log: &Log) -> (n: Next)
        ensures
            n@ == body_next(c@, self@, log@),
    {
        match self {
            Body::HeadOid { name } => refs_body(c, name.as_str(), log),
            Body::Open { name } => open_body(c, name.as_str(), log),
            Body::Merge { name, number, target } => merge_body(c, name.as_str(), number.as_str(), target.as_str(), log),
            Body::Feed { name } => feed_body(c, name.as_str(), log),
        }
    }

    pub fn found(&self, log: &Log) -> (r: Option<String>)
        ensures
            opt(r) == body_found(self@, log@),
    {
        if log.rs.len() == 0 {
            return None;
        }
        match self {
            Body::HeadOid { .. } => match doc(&log.rs[0]) {
                Ok(d) => oid_of(&d, HEAD_BRANCH),
                Err(_) => None,
            },
            Body::Open { .. } => match number_of(&log.rs[0]) {
                Ok(n) => Some(n),
                Err(_) => None,
            },
            _ => None,
        }
    }
}

// ── the stage ───────────────────────────────────────────────────────────────

pub const IDS: [&'static str; 2] = ["pr.merge.p95", "feed.latency"];

/// Both ids skipped for one reason, beginning with the move `first`.
pub open spec fn both_skipped(first: nat, why: Seq<char>, os: Seq<OutcomeV>) -> MoveV<BodyV> {
    if os.len() == first {
        MoveV::Skip { id: IDS[0]@, why }
    } else if os.len() == first + 1 {
        MoveV::Skip { id: IDS[1]@, why }
    } else {
        MoveV::End
    }
}

fn skip_both(first: usize, why: &str, os: &Vec<Outcome>) -> (m: Move<Body>)
    requires
        first < 10,
    ensures
        m@ == both_skipped(first as nat, why@, outcomes(os@)),
{
    if os.len() == first {
        skip(IDS[0], why)
    } else if os.len() == first + 1 {
        skip(IDS[1], why)
    } else {
        Move::End
    }
}

/// Why no change is opened: there is no commit to wait for, or the base is at it already.
pub open spec fn no_target(o: OutcomeV) -> Seq<char> {
    match failure(o) {
        Some(why) => why,
        None => "`"@ + HEAD_BRANCH@ + "` was never pushed"@,
    }
}

fn targetless(o: &Outcome) -> (r: String)
    ensures
        r@ == no_target(o@),
{
    match o.failure() {
        Some(why) => why,
        None => cat3("`", HEAD_BRANCH, "` was never pushed"),
    }
}

pub open spec fn run_move(s: StateV, os: Seq<OutcomeV>) -> MoveV<BodyV> {
    match s.repo {
        None => both_skipped(0, "no repo"@, os),
        Some(name) => if os.len() == 0 {
            MoveV::Look { body: BodyV::HeadOid { name } }
        } else {
            match passed_with(os[0]) {
                None => both_skipped(1, no_target(os[0]), os),
                Some(target) => if os.len() == 1 {
                    MoveV::Look { body: BodyV::Open { name } }
                } else {
                    match passed_with(os[1]) {
                        None => both_skipped(2, "no change to merge: "@ + failure_or_empty(os[1]), os),
                        Some(number) => if os.len() == 2 {
                            MoveV::Step {
                                id: IDS[0]@,
                                ceiling_ms: (MERGE_CAP_MS + 30_000) as u64,
                                body: BodyV::Merge { name, number, target },
                            }
                        } else if os.len() == 3 {
                            if passed(os[2]) {
                                MoveV::Step { id: IDS[1]@, ceiling_ms: (FEED_CAP_MS + 10_000) as u64, body: BodyV::Feed { name } }
                            } else {
                                MoveV::Skip { id: IDS[1]@, why: "the merge never landed"@ }
                            }
                        } else {
                            MoveV::End
                        },
                    }
                },
            }
        },
    }
}

/// `pr.merge.p95` and `feed.latency`. Both branches are read before the merge, so the wait is for the
/// base to move to the change, and no merge is timed where it is there already. With no merge there is
/// no event to wait for.
pub fn run(s: &State, os: &Vec<Outcome>) -> (m: Move<Body>)
    ensures
        m@ == run_move(s@, outcomes(os@)),
{
    match &s.repo {
        None => skip_both(0, "no repo", os),
        Some(name) => {
            if os.len() == 0 {
                return look(Body::HeadOid { name: name.clone() });
            }
            let target = match os[0].passed_with() {
                None => {
                    return skip_both(1, targetless(&os[0]).as_str(), os);
                },
                Some(t) => t,
            };
            if os.len() == 1 {
                return look(Body::Open { name: name.clone() });
            }
            let number = match os[1].passed_with() {
                None => {
                    return skip_both(2, cat2("no change to merge: ", os[1].failure_or_empty().as_str()).as_str(), os);
                },
                Some(n) => n,
            };
            if os.len() == 2 {
                step(IDS[0], MERGE_CAP_MS + 30_000, Body::Merge { name: name.clone(), number, target })
            } else if os.len() == 3 {
                if os[2].passed() {
                    step(IDS[1], FEED_CAP_MS + 10_000, Body::Feed { name: name.clone() })
                } else {
                    skip(IDS[1], "the merge never landed")
                }
            } else {
                Move::End
            }
        },
    }
}

/// No merge is timed where the base was at the change's commit before it: whatever the refs answered, a
/// look at them that passes has found another commit on the base, or none.
pub proof fn law_no_merge_is_timed_that_never_happened(c: RunV, s: StateV, name: Seq<char>, log: LogV, os: Seq<OutcomeV>)
    requires
        log.rs.len() == 1,
    ensures
        body_next(c, BodyV::HeadOid { name }, log) is Pass && body_found(BodyV::HeadOid { name }, log) is Some
            ==> oid_in(doc_of(log.rs[0])->Ok_0, BASE_BRANCH@) != body_found(BodyV::HeadOid { name }, log),
        os.len() > 0 && !passed(os[0]) ==> !(run_move(s, os) is Step),
{
}

/// Whatever comes back, both ids are reported exactly once, in order.
pub proof fn law_both_ids_are_reported_once(s: StateV, os: Seq<OutcomeV>)
    ensures
        reports_exactly(|o: Seq<OutcomeV>| run_move(s, o), os, seq![IDS[0]@, IDS[1]@], 4),
    decreases os.len(),
{
    reveal_with_fuel(reports, 5);
    if os.len() > 4 {
        law_both_ids_are_reported_once(s, os.drop_last());
    }
}

} // verus!
