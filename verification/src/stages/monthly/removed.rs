//! What the removal of a member deletes, what it keeps, and that they can come back.
//!
//! The bench's folder is not to be seen from here. The bench itself is gone only once its folder is, so
//! that is read off the bench.

use vstd::prelude::*;

use crate::json::{
    Doc, Json, arr0, array_of, bool_of, doc_bool, doc_str, docs, int_doc, lemma_docs, member, member2, obj1, obj2, obj3, obj5,
    opt_doc, rows_of, str_of, text_of, txt,
};
use crate::outside::{instant_error, instant_of, instant_shown, parse_instant, show_instant, status_line, status_text, why_no_instant};
use crate::probes::{Tried, TriedV};
use crate::reply::{
    call_error, call_failed, doc, doc_of, error, failed, lost, lost_in, lost_of, lost_within, made, made_of, object, object_of,
    raw, raw_of,
};
use crate::run::{Run, RunV, admin, admin_at, api, api_at, name, named};
use crate::stages::teams::clip;
use crate::text::{cat2, cat3, cat4, cat5, cat6, clipped, contains, holds, same};
use crate::turn::{Move, MoveV, Outcome, OutcomeV, failure_or_empty, look, outcomes, passed_with, reports, reports_exactly, skip, step};
use crate::wait::{Wait, WaitV};
use crate::want::{Want, WantV};
use crate::wire::{
    Ask, AskV, Cluster, Kind, Log, LogV, Next, NextV, Reply, ReplyV, also, deleting, end, erase, err_of, get, getting, inside,
    link, opt, post, posting, seen, within,
};

verus! {

pub const CLEANUP_ID: &'static str = "team.member.removed.cleanup";

pub const DIR_DOWN_ID: &'static str = "team.member.removed.dir_down";

/// Nothing in the drills makes the directory unreadable.
pub const NO_DIR_HOOK: &'static str = "no directory fault hook in the drills suite: nothing points the api's directory address at a black hole for one beat";

/// Two beats of the membership.
pub const TWO_BEATS_MS: u64 = 600_000;

pub const READY_MS: u64 = 300_000;

/// How long the workspace is given before the snapshot it was based on is deleted.
pub const WS_GONE_MS: u64 = 60_000;

/// What the collection lets pass after a mark is due.
pub const GC_DELETE_SLACK_SECS: u64 = 240;

pub const GC_TICK_SECS: u64 = 120;

/// What the finalizers are given after the delete.
pub const FINALIZER_HEADROOM_SECS: u64 = 180;

/// The slack, two ticks (one to land in, and one for a pass that listed just before), and the finalizers.
pub const GC_BOUND_SECS: u64 = 660;

pub const GC_BOUND_MS: u64 = 660_000;

pub const CLEANUP_MS: u64 = 780_000;

pub const AUDIT_MS: u64 = 30_000;

/// The bound is what it is made of.
pub proof fn law_the_bound_is_the_collection_and_its_finalizers()
    ensures
        GC_BOUND_SECS == GC_DELETE_SLACK_SECS + 2 * GC_TICK_SECS + FINALIZER_HEADROOM_SECS,
        GC_BOUND_MS == GC_BOUND_SECS * 1_000,
        CLEANUP_MS == GC_BOUND_MS + 120_000,
{
}

/// The team of its own: removing a member of it touches nothing another drill stands on.
pub open spec fn team_of(c: RunV) -> Seq<char> {
    named(c, "-rmv"@)
}

pub fn team(c: &Run) -> (r: String)
    ensures
        r@ == team_of(c@),
{
    name(c, "-rmv")
}

/// Whether the cluster can be read.
pub fn kube(c: &Run) -> (r: Result<(), String>)
    ensures
        r is Ok <==> c@.has_kube,
        r matches Err(why) ==> why@ == "no kubeconfig"@,
{
    if c.has_kube { Ok(()) } else { Err("no kubeconfig".to_owned()) }
}

// ── before the removal ──────────────────────────────────────────────────────

/// The token of an invitation, which is none where it is empty.
pub open spec fn invited(r: ReplyV) -> Result<Seq<char>, Seq<char>> {
    match doc_of(r) {
        Err(why) => Err(within("could not invite"@, why)),
        Ok(d) => match text_of(d, "token"@) {
            Some(t) if t.len() > 0 => Ok(t),
            _ => Err("no invite token"@),
        },
    }
}

fn invited_of(r: &Reply) -> (o: Result<String, String>)
    ensures
        (match o { Ok(t) => Ok(t@), Err(e) => Err(e@) }) == invited(r@),
{
    match doc(r) {
        Err(why) => Err(inside("could not invite", why.as_str())),
        Ok(d) => match d.text_at("token") {
            Some(t) => {
                if t.as_str().is_empty() { Err("no invite token".to_owned()) } else { Ok(t) }
            },
            None => Err("no invite token".to_owned()),
        },
    }
}

/// The volume a workspace is on: it has the workspace's own name until something else is said.
pub open spec fn volume_in(ws: Seq<char>, r: ReplyV) -> Seq<char> {
    match raw_of(r) {
        Ok((404, _)) => ws,
        _ => match object_of(r) {
            Ok(d) => match doc_str(member2(d, "status"@, "volumeRef"@)) {
                Some(v) if v.len() > 0 => v,
                _ => ws,
            },
            Err(_) => ws,
        },
    }
}

fn volume_of(ws: &str, r: &Reply) -> (t: String)
    ensures
        t@ == volume_in(ws@, r@),
{
    if let Ok((status, _)) = raw(r) {
        if status == 404 {
            return ws.to_owned();
        }
    }
    match object(r) {
        Ok(d) => match str_of(d.get2("status", "volumeRef")) {
            Some(v) => {
                if v.as_str().is_empty() { ws.to_owned() } else { v }
            },
            None => ws.to_owned(),
        },
        Err(_) => ws.to_owned(),
    }
}

/// A team with the member in it, their bench ready, and a team workspace with a push that is ready.
pub open spec fn prepare_next(c: RunV, team: Seq<char>, rs: Seq<ReplyV>) -> NextV {
    let token = invited(rs[1])->Ok_0;
    let ws = made("could not create the team workspace"@, "id"@, "the answer carried no workspace id"@, rs[5])->Ok_0;
    let volume = volume_in(ws, rs[7]);
    let snap = made("could not push"@, "id"@, "the push answered no snapshot id"@, rs[8])->Ok_0;
    link(
        rs, 0,
        posting(
            api_at(c, "/v1/teams"@), c.probe_jwt,
            Doc::Obj(seq![
                ("slug"@, Doc::Str(team)),
                ("name"@, Doc::Str("kloudlite slo removal"@)),
                ("region"@, Doc::Str(c.region)),
            ]),
        ),
        call_failed("could not create the removal team"@, rs[0]),
        link(
            rs, 1,
            posting(
                api_at(c, "/v1/teams/"@ + team + "/invites"@), c.probe_jwt,
                Doc::Obj(seq![("email"@, Doc::Str(c.other_email)), ("role"@, Doc::Str("member"@))]),
            ),
            err_of(invited(rs[1])),
            link(
                rs, 2,
                posting(api_at(c, "/v1/invites/"@ + token + "/accept"@), c.other_jwt, Doc::Null),
                call_failed("the member could not join"@, rs[2]),
                link(
                    rs, 3,
                    posting(
                        api_at(c, "/v1/bench"@), c.other_jwt,
                        Doc::Obj(seq![("team"@, Doc::Str(team)), ("region"@, Doc::Str(c.region))]),
                    ),
                    call_failed("could not create the member's bench"@, rs[3]),
                    link(
                        rs, 4,
                        AskV::Wait(WaitV::Doc {
                            url: api_at(c, "/v1/bench?team="@ + team),
                            token: c.other_jwt,
                            want: WantV::Field { key: "phase"@, value: "ready"@ },
                            cap_ms: READY_MS,
                        }),
                        lost_in("the member's bench never became ready"@, rs[4]),
                        link(
                            rs, 5,
                            posting(
                                api_at(c, "/v1/workspaces"@), c.other_jwt,
                                Doc::Obj(seq![
                                    ("team"@, Doc::Str(team)),
                                    ("name"@, Doc::Str(team + "-ws"@)),
                                    ("region"@, Doc::Str(c.region)),
                                    ("quota_gb"@, Doc::Int(1)),
                                    ("packages"@, Doc::Arr(seq![])),
                                ]),
                            ),
                            err_of(made(
                                "could not create the team workspace"@, "id"@, "the answer carried no workspace id"@, rs[5],
                            )),
                            link(
                                rs, 6,
                                AskV::Wait(WaitV::Doc {
                                    url: api_at(c, "/v1/workspaces/"@ + ws),
                                    token: c.other_jwt,
                                    want: WantV::Field { key: "state"@, value: "ready"@ },
                                    cap_ms: READY_MS,
                                }),
                                lost_in("the team workspace never became ready"@, rs[6]),
                                also(
                                    rs, 7,
                                    AskV::Read { cluster: Cluster::Fleet, kind: Kind::Workspace, ns: ""@, name: ws },
                                    link(
                                        rs, 8,
                                        posting(
                                            api_at(c, "/v1/workspaces/"@ + ws) + "/push"@, c.other_jwt,
                                            Doc::Obj(seq![("message"@, Doc::Str(team))]),
                                        ),
                                        err_of(made("could not push"@, "id"@, "the push answered no snapshot id"@, rs[8])),
                                        link(
                                            rs, 9,
                                            AskV::Wait(WaitV::Doc {
                                                url: api_at(c, "/v1/volumes/"@ + volume + "/history"@),
                                                token: c.other_jwt,
                                                want: WantV::RowReady { id: snap },
                                                cap_ms: READY_MS,
                                            }),
                                            lost_in("the snapshot never turned ready"@, rs[9]), NextV::Pass,
                                        ),
                                    ),
                                ),
                            ),
                        ),
                    ),
                ),
            ),
        ),
    )
}

fn prepare_body(c: &Run, team: &str, log: &Log) -> (n: Next)
    ensures
        n@ == prepare_next(c@, team@, log@.rs),
{
    if log.rs.len() <= 0 {
        return Next::Ask(post(
            api(c, "/v1/teams"), c.probe_jwt.as_str(),
            obj3("slug", txt(team), "name", txt("kloudlite slo removal"), "region", txt(c.region.as_str())),
        ));
    }
    if let Some(why) = failed("could not create the removal team", &log.rs[0]) {
        return Next::Fail(why);
    }
    if log.rs.len() <= 1 {
        return Next::Ask(post(
            api(c, cat3("/v1/teams/", team, "/invites").as_str()), c.probe_jwt.as_str(),
            obj2("email", txt(c.other_email.as_str()), "role", txt("member")),
        ));
    }
    let token = match invited_of(&log.rs[1]) {
        Err(why) => {
            return Next::Fail(why);
        },
        Ok(t) => t,
    };
    if log.rs.len() <= 2 {
        return Next::Ask(post(
            api(c, cat3("/v1/invites/", token.as_str(), "/accept").as_str()), c.other_jwt.as_str(), Json::Null,
        ));
    }
    if let Some(why) = failed("the member could not join", &log.rs[2]) {
        return Next::Fail(why);
    }
    if log.rs.len() <= 3 {
        return Next::Ask(post(
            api(c, "/v1/bench"), c.other_jwt.as_str(), obj2("team", txt(team), "region", txt(c.region.as_str())),
        ));
    }
    if let Some(why) = failed("could not create the member's bench", &log.rs[3]) {
        return Next::Fail(why);
    }
    if log.rs.len() <= 4 {
        return Next::Ask(Ask::Wait(Wait::Doc {
            url: api(c, cat2("/v1/bench?team=", team).as_str()),
            token: c.other_jwt.clone(),
            want: Want::Field { key: "phase".to_owned(), value: "ready".to_owned() },
            cap_ms: READY_MS,
        }));
    }
    if let Some(why) = lost_within("the member's bench never became ready", &log.rs[4]) {
        return Next::Fail(why);
    }
    if log.rs.len() <= 5 {
        return Next::Ask(post(
            api(c, "/v1/workspaces"), c.other_jwt.as_str(),
            obj5(
                "team", txt(team), "name", txt(cat2(team, "-ws").as_str()), "region", txt(c.region.as_str()), "quota_gb",
                int_doc(1), "packages", arr0(),
            ),
        ));
    }
    let ws = match made_of("could not create the team workspace", "id", "the answer carried no workspace id", &log.rs[5]) {
        Err(why) => {
            return Next::Fail(why);
        },
        Ok(t) => t,
    };
    if log.rs.len() <= 6 {
        return Next::Ask(Ask::Wait(Wait::Doc {
            url: api(c, cat2("/v1/workspaces/", ws.as_str()).as_str()),
            token: c.other_jwt.clone(),
            want: Want::Field { key: "state".to_owned(), value: "ready".to_owned() },
            cap_ms: READY_MS,
        }));
    }
    if let Some(why) = lost_within("the team workspace never became ready", &log.rs[6]) {
        return Next::Fail(why);
    }
    if log.rs.len() <= 7 {
        return Next::Ask(Ask::Read { cluster: Cluster::Fleet, kind: Kind::Workspace, ns: "".to_owned(), name: ws.clone() });
    }
    let volume = volume_of(ws.as_str(), &log.rs[7]);
    if log.rs.len() <= 8 {
        return Next::Ask(post(
            cat2(api(c, cat2("/v1/workspaces/", ws.as_str()).as_str()).as_str(), "/push"), c.other_jwt.as_str(),
            obj1("message", txt(team)),
        ));
    }
    let snap = match made_of("could not push", "id", "the push answered no snapshot id", &log.rs[8]) {
        Err(why) => {
            return Next::Fail(why);
        },
        Ok(t) => t,
    };
    if log.rs.len() <= 9 {
        return Next::Ask(Ask::Wait(Wait::Doc {
            url: api(c, cat3("/v1/volumes/", volume.as_str(), "/history").as_str()),
            token: c.other_jwt.clone(),
            want: Want::RowReady { id: snap.clone() },
            cap_ms: READY_MS,
        }));
    }
    end(lost_within("the snapshot never turned ready", &log.rs[9]))
}

/// What was prepared: the workspace, its volume and its snapshot.
pub struct Prep {
    pub ws: String,
    pub volume: String,
    pub snap: String,
}

pub struct PrepV {
    pub ws: Seq<char>,
    pub volume: Seq<char>,
    pub snap: Seq<char>,
}

impl View for Prep {
    type V = PrepV;

    open spec fn view(&self) -> PrepV {
        PrepV { ws: self.ws@, volume: self.volume@, snap: self.snap@ }
    }
}

/// What the preparation made, once it is done.
pub open spec fn prep_in(rs: Seq<ReplyV>) -> Option<PrepV> {
    if rs.len() <= 8 {
        None
    } else {
        match (made("could not create the team workspace"@, "id"@, "the answer carried no workspace id"@, rs[5]), made("could not push"@, "id"@, "the push answered no snapshot id"@, rs[8])) {
            (Ok(ws), Ok(snap)) => Some(PrepV { ws, volume: volume_in(ws, rs[7]), snap }),
            _ => None,
        }
    }
}

pub open spec fn opt_prep(p: Option<Prep>) -> Option<PrepV> {
    match p {
        Some(p) => Some(p@),
        None => None,
    }
}

pub fn prepared(log: &Log) -> (r: Option<Prep>)
    ensures
        opt_prep(r) == prep_in(log@.rs),
{
    if log.rs.len() <= 8 {
        return None;
    }
    let ws = made_of("could not create the team workspace", "id", "the answer carried no workspace id", &log.rs[5]);
    let snap = made_of("could not push", "id", "the push answered no snapshot id", &log.rs[8]);
    match (ws, snap) {
        (Ok(ws), Ok(snap)) => {
            let volume = volume_of(ws.as_str(), &log.rs[7]);
            Some(Prep { ws, volume, snap })
        },
        _ => None,
    }
}

// ── the removal ─────────────────────────────────────────────────────────────

/// The mark on the member's bench that they were removed. A bench that cannot be read is no answer.
pub open spec fn marked_tried(key: Seq<char>, r: ReplyV) -> TriedV {
    match node_in_context("could not read the member's Bench"@, r) {
        Err(why) => TriedV::Broken(why),
        Ok(d) => match member2(d, "metadata"@, "annotations"@) {
            Some(m) if member(m, key) is Some => TriedV::Yes,
            _ => TriedV::Still,
        },
    }
}

/// An object that has to be there, read in a context.
pub open spec fn node_in_context(context: Seq<char>, r: ReplyV) -> Result<Doc, Seq<char>> {
    match raw_of(r) {
        Err(why) => Err(within(context, why)),
        Ok((404, text)) => Err(within(context, text)),
        Ok(_) => match object_of(r) {
            Err(why) => Err(within(context, why)),
            Ok(d) => Ok(d),
        },
    }
}

fn object_in(context: &str, r: &Reply) -> (o: Result<Json, String>)
    ensures
        (match o { Ok(d) => Ok(d@), Err(e) => Err(e@) }) == node_in_context(context@, r@),
{
    match raw(r) {
        Err(why) => {
            return Err(inside(context, why.as_str()));
        },
        Ok((status, text)) => {
            if status == 404 {
                return Err(inside(context, text.as_str()));
            }
        },
    }
    match object(r) {
        Err(why) => Err(inside(context, why.as_str())),
        Ok(d) => Ok(d),
    }
}

pub fn try_marked(key: &str, r: &Reply) -> (t: Tried)
    ensures
        t@ == marked_tried(key@, r@),
{
    match object_in("could not read the member's Bench", r) {
        Err(why) => Tried::Broken(why),
        Ok(d) => match d.get2("metadata", "annotations") {
            Some(m) => {
                if m.get(key).is_some() { Tried::Yes } else { Tried::Still }
            },
            None => Tried::Still,
        },
    }
}

/// Whether deletes are on: only to be told that they are off means that they are.
pub open spec fn deletes_in(r: ReplyV) -> Result<bool, Seq<char>> {
    match doc_of(r) {
        Err(why) => Err(within("delete-now failed"@, why)),
        Ok(d) => Ok(doc_bool(member(d, "deletes_enabled"@)) != Some(false)),
    }
}

fn deletes_of(r: &Reply) -> (o: Result<bool, String>)
    ensures
        (match o { Ok(b) => Ok(b), Err(e) => Err(e@) }) == deletes_in(r@),
{
    match doc(r) {
        Err(why) => Err(inside("delete-now failed", why.as_str())),
        Ok(d) => match bool_of(d.get("deletes_enabled")) {
            Some(b) => Ok(b),
            None => Ok(true),
        },
    }
}

/// The member is removed, their bench is marked, and the deletion is asked for now.
pub open spec fn remove_next(c: RunV, team: Seq<char>, bench: Seq<char>, rs: Seq<ReplyV>) -> NextV {
    link(
        rs, 0,
        deleting(api_at(c, "/v1/teams/"@ + team + "/members/"@ + c.other_email), c.probe_jwt),
        call_failed("could not remove the member"@, rs[0]),
        link(
            rs, 1,
            AskV::Wait(WaitV::Marked { bench, key: c.removed_at, cap_ms: TWO_BEATS_MS }), lost_of(rs[1]),
            link(
                rs, 2,
                posting(
                    api_at(c, "/v1/teams/"@ + team + "/members/"@ + c.other_user + "/delete-now"@), c.admin_jwt,
                    Doc::Obj(seq![("person"@, Doc::Str(c.other_user)), ("team"@, Doc::Str(team))]),
                ),
                err_of(deletes_in(rs[2])), NextV::Pass,
            ),
        ),
    )
}

fn remove_body(c: &Run, team: &str, bench: &str, log: &Log) -> (n: Next)
    ensures
        n@ == remove_next(c@, team@, bench@, log@.rs),
{
    if log.rs.len() <= 0 {
        return Next::Ask(erase(
            api(c, cat4("/v1/teams/", team, "/members/", c.other_email.as_str()).as_str()), c.probe_jwt.as_str(),
        ));
    }
    if let Some(why) = failed("could not remove the member", &log.rs[0]) {
        return Next::Fail(why);
    }
    if log.rs.len() <= 1 {
        return Next::Ask(Ask::Wait(Wait::Marked { bench: bench.to_owned(), key: c.removed_at.clone(), cap_ms: TWO_BEATS_MS }));
    }
    if let Some(why) = lost(&log.rs[1]) {
        return Next::Fail(why);
    }
    if log.rs.len() <= 2 {
        return Next::Ask(post(
            api(c, cat5("/v1/teams/", team, "/members/", c.other_user.as_str(), "/delete-now").as_str()), c.admin_jwt.as_str(),
            obj2("person", txt(c.other_user.as_str()), "team", txt(team)),
        ));
    }
    match deletes_of(&log.rs[2]) {
        Ok(_) => Next::Pass,
        Err(why) => Next::Fail(why),
    }
}

// ── what is left ────────────────────────────────────────────────────────────

/// Whether an object is there, or why that cannot be told.
pub open spec fn there(r: ReplyV) -> Result<bool, Seq<char>> {
    match raw_of(r) {
        Err(why) => Err(why),
        Ok((404, _)) => Ok(false),
        Ok(_) => match object_of(r) {
            Err(why) => Err(why),
            Ok(_) => Ok(true),
        },
    }
}

fn is_there(r: &Reply) -> (o: Result<bool, String>)
    ensures
        (match o { Ok(b) => Ok(b), Err(e) => Err(e@) }) == there(r@),
{
    match raw(r) {
        Err(why) => {
            return Err(why);
        },
        Ok((status, _)) => {
            if status == 404 {
                return Ok(false);
            }
        },
    }
    match object(r) {
        Err(why) => Err(why),
        Ok(_) => Ok(true),
    }
}

pub open spec fn is_space_of(row: Doc, owner: Seq<char>, team: Seq<char>) -> bool {
    doc_str(member2(row, "spec"@, "owner"@)) == Some(owner) && doc_str(member2(row, "spec"@, "team"@)) == Some(team)
}

/// Whether some environment of the pair's is left.
pub open spec fn some_space(rows: Seq<Doc>, owner: Seq<char>, team: Seq<char>) -> bool {
    exists|i: int| 0 <= i < rows.len() && is_space_of(#[trigger] rows[i], owner, team)
}

fn any_space(rows: &Vec<Json>, owner: &str, team: &str) -> (r: bool)
    ensures
        r == some_space(docs(rows@), owner@, team@),
{
    proof {
        lemma_docs(rows@);
    }
    let mut i: usize = 0;
    while i < rows.len()
        invariant
            i <= rows@.len(),
            docs(rows@).len() == rows@.len(),
            forall|k: int| 0 <= k < rows@.len() ==> #[trigger] docs(rows@)[k] == rows@[k]@,
            forall|k: int| 0 <= k < i ==> !is_space_of(#[trigger] docs(rows@)[k], owner@, team@),
        decreases rows.len() - i,
    {
        proof {
            assert(docs(rows@)[i as int] == rows@[i as int]@);
        }
        let owned = match str_of(rows[i].get2("spec", "owner")) {
            Some(t) => same(t.as_str(), owner),
            None => false,
        };
        let teamed = match str_of(rows[i].get2("spec", "team")) {
            Some(t) => same(t.as_str(), team),
            None => false,
        };
        if owned && teamed {
            return true;
        }
        i = i + 1;
    }
    false
}

pub open spec fn is_sync_of(row: Doc, ws: Seq<char>) -> bool {
    doc_str(member2(row, "spec"@, "worktree"@)) == Some(ws) && doc_bool(member2(row, "spec"@, "transient"@)) == Some(true)
}

/// The first sync point of a workspace that is left.
pub open spec fn first_sync_of(rows: Seq<Doc>, ws: Seq<char>) -> Option<Doc>
    decreases rows.len(),
{
    if rows.len() == 0 {
        None
    } else if is_sync_of(rows[0], ws) {
        Some(rows[0])
    } else {
        first_sync_of(rows.drop_first(), ws)
    }
}

fn sync_of<'a>(rows: &'a Vec<Json>, ws: &str) -> (r: Option<&'a Json>)
    ensures
        opt_doc(r) == first_sync_of(docs(rows@), ws@),
{
    let ghost all = docs(rows@);
    proof {
        lemma_docs(rows@);
        assert(all.skip(0) =~= all);
    }
    let mut i: usize = 0;
    while i < rows.len()
        invariant
            i <= rows@.len(),
            all == docs(rows@),
            all.len() == rows@.len(),
            forall|k: int| 0 <= k < rows@.len() ==> all[k] == (#[trigger] rows@[k])@,
            first_sync_of(all, ws@) == first_sync_of(all.skip(i as int), ws@),
        decreases rows.len() - i,
    {
        proof {
            assert(all.skip(i as int)[0] == rows@[i as int]@);
            assert(all.skip(i as int).drop_first() =~= all.skip(i + 1));
        }
        let ours = match str_of(rows[i].get2("spec", "worktree")) {
            Some(t) => same(t.as_str(), ws),
            None => false,
        };
        let transient = match bool_of(rows[i].get2("spec", "transient")) {
            Some(b) => b,
            None => false,
        };
        if ours && transient {
            return Some(&rows[i]);
        }
        i = i + 1;
    }
    None
}

pub open spec fn own_name(d: Doc) -> Option<Seq<char>> {
    doc_str(member2(d, "metadata"@, "name"@))
}

/// Whether a row has a name.
pub open spec fn some_named(rows: Seq<Doc>, name: Seq<char>) -> bool {
    exists|i: int| 0 <= i < rows.len() && own_name(#[trigger] rows[i]) == Some(name)
}

fn any_named(rows: &Vec<Json>, name: &str) -> (r: bool)
    ensures
        r == some_named(docs(rows@), name@),
{
    proof {
        lemma_docs(rows@);
    }
    let mut i: usize = 0;
    while i < rows.len()
        invariant
            i <= rows@.len(),
            docs(rows@).len() == rows@.len(),
            forall|k: int| 0 <= k < rows@.len() ==> #[trigger] docs(rows@)[k] == rows@[k]@,
            forall|k: int| 0 <= k < i ==> own_name(#[trigger] docs(rows@)[k]) != Some(name@),
        decreases rows.len() - i,
    {
        proof {
            assert(docs(rows@)[i as int] == rows@[i as int]@);
        }
        let here = match str_of(rows[i].get2("metadata", "name")) {
            Some(t) => same(t.as_str(), name),
            None => false,
        };
        if here {
            return true;
        }
        i = i + 1;
    }
    false
}

/// What is wrong with the snapshots: a sync point is left, or the push is gone.
pub open spec fn snapshots_wrong(rows: Seq<Doc>, ws: Seq<char>, snap: Seq<char>) -> Option<Seq<char>> {
    match first_sync_of(rows, ws) {
        Some(s) => Some("sync point "@ + (match own_name(s) { Some(n) => n, None => "?"@ }) + " is still there"@),
        None => if some_named(rows, snap) { None } else { Some("the pushed snapshot "@ + snap + " was deleted, not kept"@) },
    }
}

fn wrong_snapshots(rows: &Vec<Json>, ws: &str, snap: &str) -> (o: Option<String>)
    ensures
        opt(o) == snapshots_wrong(docs(rows@), ws@, snap@),
{
    match sync_of(rows, ws) {
        Some(s) => {
            let n = match str_of(s.get2("metadata", "name")) {
                Some(n) => n,
                None => "?".to_owned(),
            };
            Some(cat3("sync point ", n.as_str(), " is still there"))
        },
        None => {
            if any_named(rows, snap) { None } else { Some(cat3("the pushed snapshot ", snap, " was deleted, not kept")) }
        },
    }
}

/// A look at what is left of the pair: everything of theirs goes, and what they pushed stays, detached.
/// The first thing that is not yet so is told.
pub open spec fn cleaned_probe(
    bench: Seq<char>, ws: Seq<char>, volume: Seq<char>, snap: Seq<char>, owner: Seq<char>, team: Seq<char>, rs: Seq<ReplyV>,
) -> TriedV {
    if rs.len() == 0 {
        TriedV::Ask(AskV::Read { cluster: Cluster::Fleet, kind: Kind::Bench, ns: ""@, name: bench })
    } else {
        match there(rs[0]) {
            Err(why) => TriedV::NotYet(why),
            Ok(true) => TriedV::NotYet("the Bench is still there (its bench-folder finalizer has not cleared)"@),
            Ok(false) => if rs.len() == 1 {
                TriedV::Ask(AskV::Read { cluster: Cluster::Fleet, kind: Kind::Workspace, ns: ""@, name: ws })
            } else {
                match there(rs[1]) {
                    Err(why) => TriedV::NotYet(why),
                    Ok(true) => TriedV::NotYet("the team Workspace "@ + ws + " is still there"@),
                    Ok(false) => cleaned_more(ws, volume, snap, owner, team, rs),
                }
            },
        }
    }
}

pub open spec fn cleaned_more(
    ws: Seq<char>, volume: Seq<char>, snap: Seq<char>, owner: Seq<char>, team: Seq<char>, rs: Seq<ReplyV>,
) -> TriedV {
    if rs.len() == 2 {
        TriedV::Ask(AskV::List { cluster: Cluster::Fleet, kind: Kind::Space, ns: ""@ })
    } else {
        match object_of(rs[2]) {
            Err(why) => TriedV::NotYet(why),
            Ok(d) => if some_space(rows_of(Some(d)), owner, team) {
                TriedV::NotYet("a SpaceEnvironment of the pair is still there"@)
            } else if rs.len() == 3 {
                TriedV::Ask(AskV::List { cluster: Cluster::Fleet, kind: Kind::Snapshot, ns: ""@ })
            } else {
                match object_of(rs[3]) {
                    Err(why) => TriedV::NotYet(why),
                    Ok(s) => match snapshots_wrong(rows_of(Some(s)), ws, snap) {
                        Some(why) => TriedV::NotYet(why),
                        None => if rs.len() == 4 {
                            TriedV::Ask(AskV::Read { cluster: Cluster::Fleet, kind: Kind::Volume, ns: ""@, name: volume })
                        } else {
                            match there(rs[4]) {
                                Err(why) => TriedV::NotYet(why),
                                Ok(true) => TriedV::Yes,
                                Ok(false) => TriedV::NotYet(
                                    "the pushed snapshot's volume "@ + volume + " was deleted, not kept detached"@,
                                ),
                            }
                        },
                    },
                }
            },
        }
    }
}

fn more_cleaned(ws: &str, volume: &str, snap: &str, owner: &str, team: &str, rs: &Vec<Reply>) -> (t: Tried)
    requires
        rs@.len() >= 2,
    ensures
        t@ == cleaned_more(ws@, volume@, snap@, owner@, team@, seen(rs@)),
{
    let none: Vec<Json> = Vec::new();
    proof {
        lemma_docs(none@);
        assert(docs(none@) =~= Seq::<Doc>::empty());
    }
    if rs.len() == 2 {
        return Tried::Ask(Ask::List { cluster: Cluster::Fleet, kind: Kind::Space, ns: "".to_owned() });
    }
    match object(&rs[2]) {
        Err(why) => {
            return Tried::NotYet(why);
        },
        Ok(d) => {
            let left = match array_of(Some(&d)) {
                Some(rows) => any_space(rows, owner, team),
                None => any_space(&none, owner, team),
            };
            if left {
                return Tried::NotYet("a SpaceEnvironment of the pair is still there".to_owned());
            }
        },
    }
    if rs.len() == 3 {
        return Tried::Ask(Ask::List { cluster: Cluster::Fleet, kind: Kind::Snapshot, ns: "".to_owned() });
    }
    match object(&rs[3]) {
        Err(why) => {
            return Tried::NotYet(why);
        },
        Ok(d) => {
            let wrong = match array_of(Some(&d)) {
                Some(rows) => wrong_snapshots(rows, ws, snap),
                None => wrong_snapshots(&none, ws, snap),
            };
            if let Some(why) = wrong {
                return Tried::NotYet(why);
            }
        },
    }
    if rs.len() == 4 {
        return Tried::Ask(Ask::Read { cluster: Cluster::Fleet, kind: Kind::Volume, ns: "".to_owned(), name: volume.to_owned() });
    }
    match is_there(&rs[4]) {
        Err(why) => Tried::NotYet(why),
        Ok(kept) => {
            if kept {
                Tried::Yes
            } else {
                Tried::NotYet(cat3("the pushed snapshot's volume ", volume, " was deleted, not kept detached"))
            }
        },
    }
}

pub fn cleaned(bench: &str, ws: &str, volume: &str, snap: &str, owner: &str, team: &str, rs: &Vec<Reply>) -> (t: Tried)
    ensures
        t@ == cleaned_probe(bench@, ws@, volume@, snap@, owner@, team@, seen(rs@)),
{
    if rs.len() == 0 {
        return Tried::Ask(Ask::Read { cluster: Cluster::Fleet, kind: Kind::Bench, ns: "".to_owned(), name: bench.to_owned() });
    }
    match is_there(&rs[0]) {
        Err(why) => {
            return Tried::NotYet(why);
        },
        Ok(b) => {
            if b {
                return Tried::NotYet("the Bench is still there (its bench-folder finalizer has not cleared)".to_owned());
            }
        },
    }
    if rs.len() == 1 {
        return Tried::Ask(Ask::Read { cluster: Cluster::Fleet, kind: Kind::Workspace, ns: "".to_owned(), name: ws.to_owned() });
    }
    match is_there(&rs[1]) {
        Err(why) => {
            return Tried::NotYet(why);
        },
        Ok(b) => {
            if b {
                return Tried::NotYet(cat3("the team Workspace ", ws, " is still there"));
            }
        },
    }
    more_cleaned(ws, volume, snap, owner, team, rs)
}

/// Why an object's mark is missing, is no time, or is not due.
pub open spec fn undue(what: Seq<char>, key: Seq<char>, d: Doc, now_secs: i64, now_nanos: u32) -> Option<Seq<char>> {
    match doc_str(member2(d, "systemAnnotations"@, key)) {
        None => Some(what + " carries no api-written "@ + key),
        Some(at) => match instant_of(at) {
            None => Some(
                within(
                    what + "'s "@ + key + " "@ + at + " is not RFC 3339"@, (match instant_error(at) { Some(e) => e, None => seq![] }),
                ),
            ),
            Some((secs, nanos)) => if secs > now_secs || (secs == now_secs && nanos > now_nanos) {
                Some(
                    what + "'s "@ + key + " "@ + (match instant_shown(at) { Some(t) => t, None => seq![] })
                        + " is not due after delete-now"@,
                )
            } else {
                None
            },
        },
    }
}

fn not_due(what: &str, key: &str, d: &Json, now_secs: i64, now_nanos: u32) -> (o: Option<String>)
    ensures
        opt(o) == undue(what@, key@, d@, now_secs, now_nanos),
{
    match str_of(d.get2("systemAnnotations", key)) {
        None => Some(cat3(what, " carries no api-written ", key)),
        Some(at) => match parse_instant(at.as_str()) {
            None => {
                let e = match why_no_instant(at.as_str()) {
                    Some(e) => e,
                    None => String::new(),
                };
                Some(inside(cat6(what, "'s ", key, " ", at.as_str(), " is not RFC 3339").as_str(), e.as_str()))
            },
            Some((secs, nanos)) => {
                if secs > now_secs || (secs == now_secs && nanos > now_nanos) {
                    let t = match show_instant(at.as_str()) {
                        Some(t) => t,
                        None => String::new(),
                    };
                    Some(cat6(what, "'s ", key, " ", t.as_str(), " is not due after delete-now"))
                } else {
                    None
                }
            },
        },
    }
}

/// Why something of the pair's was deleted with deletes off, or is not marked for it.
pub open spec fn unmarked(
    what: Seq<char>, key: Seq<char>, now_secs: i64, now_nanos: u32, r: ReplyV,
) -> Option<Seq<char>> {
    match there(r) {
        Err(why) => Some(why),
        Ok(false) => Some(what + " was deleted with deletes off"@),
        Ok(true) => match object_of(r) {
            Err(why) => Some(why),
            Ok(d) => undue(what, key, d, now_secs, now_nanos),
        },
    }
}

fn not_marked(what: &str, key: &str, now_secs: i64, now_nanos: u32, r: &Reply) -> (o: Option<String>)
    ensures
        opt(o) == unmarked(what@, key@, now_secs, now_nanos, r@),
{
    match is_there(r) {
        Err(why) => Some(why),
        Ok(b) => {
            if !b {
                return Some(cat2(what, " was deleted with deletes off"));
            }
            match object(r) {
                Err(why) => Some(why),
                Ok(d) => not_due(what, key, &d, now_secs, now_nanos),
            }
        },
    }
}

/// Why the person who came back finds a bench.
pub open spec fn bench_found(r: ReplyV) -> Option<Seq<char>> {
    match raw_of(r) {
        Err(why) => Some(why),
        Ok((status, text)) => if status != 404 || !holds(text, "no bench"@) {
            Some("the re-added person finds a bench ("@ + status_line(status) + "): "@ + clipped(text, 200))
        } else {
            None
        },
    }
}

fn found_bench(r: &Reply) -> (o: Option<String>)
    ensures
        opt(o) == bench_found(r@),
{
    match raw(r) {
        Err(why) => Some(why),
        Ok((status, text)) => {
            if status != 404 || !contains(text.as_str(), "no bench") {
                Some(cat4(
                    "the re-added person finds a bench (", status_text(status).as_str(), "): ", clip(text.as_str()).as_str(),
                ))
            } else {
                None
            }
        },
    }
}

/// Why joining again came to nothing.
pub open spec fn rejoin_failed(why: Option<Seq<char>>) -> Option<Seq<char>> {
    match why {
        Some(why) => Some(within("could not re-add the person"@, why)),
        None => None,
    }
}

fn failed_rejoin(why: Option<String>) -> (o: Option<String>)
    ensures
        opt(o) == rejoin_failed(opt(why)),
{
    match why {
        Some(why) => Some(inside("could not re-add the person", why.as_str())),
        None => None,
    }
}

/// The token of the second invitation.
pub open spec fn reinvited(r: ReplyV) -> Result<Seq<char>, Seq<char>> {
    match invited(r) {
        Ok(t) => Ok(t),
        Err(why) => Err(within("could not re-add the person"@, why)),
    }
}

fn reinvited_of(r: &Reply) -> (o: Result<String, String>)
    ensures
        (match o { Ok(t) => Ok(t@), Err(e) => Err(e@) }) == reinvited(r@),
{
    match invited_of(r) {
        Ok(t) => Ok(t),
        Err(why) => Err(inside("could not re-add the person", why.as_str())),
    }
}

/// With deletes off, everything of the pair's is still there, and is marked as due.
pub open spec fn marked_due_next(c: RunV, team: Seq<char>, bench: Seq<char>, ws: Seq<char>, now_secs: i64, now_nanos: u32, rs: Seq<ReplyV>) -> NextV {
    link(
        rs, 0,
        AskV::Read { cluster: Cluster::Fleet, kind: Kind::Bench, ns: ""@, name: bench },
        unmarked("the Bench"@, c.delete_after, now_secs, now_nanos, rs[0]),
        link(
            rs, 1,
            AskV::Read { cluster: Cluster::Fleet, kind: Kind::Workspace, ns: ""@, name: ws },
            unmarked("the team Workspace"@, c.delete_after, now_secs, now_nanos, rs[1]),
            link(
                rs, 2,
                AskV::Wait(WaitV::Doc {
                    url: admin_at(
                        c,
                        "/admin/audit?action="@ + "member.removed.judged"@ + "&target="@ + team + "%2F"@ + c.other_user,
                    ),
                    token: c.admin_jwt,
                    want: WantV::Rows,
                    cap_ms: AUDIT_MS,
                }),
                lost_in("no member.removed.judged audit row"@, rs[2]),
                link(
                    rs, 3,
                    AskV::Wait(WaitV::Doc {
                        url: admin_at(
                            c,
                            "/admin/audit?action="@ + "member.removed.delete_now"@ + "&target="@ + team + "%2F"@ + c.other_user,
                        ),
                        token: c.admin_jwt,
                        want: WantV::Rows,
                        cap_ms: AUDIT_MS,
                    }),
                    lost_in("no member.removed.delete_now audit row"@, rs[3]), NextV::Pass,
                ),
            ),
        ),
    )
}

fn marked_due_body(c: &Run, team: &str, bench: &str, ws: &str, now_secs: i64, now_nanos: u32, log: &Log) -> (n: Next)
    ensures
        n@ == marked_due_next(c@, team@, bench@, ws@, now_secs, now_nanos, log@.rs),
{
    if log.rs.len() <= 0 {
        return Next::Ask(Ask::Read { cluster: Cluster::Fleet, kind: Kind::Bench, ns: "".to_owned(), name: bench.to_owned() });
    }
    if let Some(why) = not_marked("the Bench", c.delete_after.as_str(), now_secs, now_nanos, &log.rs[0]) {
        return Next::Fail(why);
    }
    if log.rs.len() <= 1 {
        return Next::Ask(Ask::Read { cluster: Cluster::Fleet, kind: Kind::Workspace, ns: "".to_owned(), name: ws.to_owned() });
    }
    if let Some(why) = not_marked("the team Workspace", c.delete_after.as_str(), now_secs, now_nanos, &log.rs[1]) {
        return Next::Fail(why);
    }
    if log.rs.len() <= 2 {
        return Next::Ask(Ask::Wait(Wait::Doc {
            url: admin(
                c,
                cat6("/admin/audit?action=", "member.removed.judged", "&target=", team, "%2F", c.other_user.as_str()).as_str(),
            ),
            token: c.admin_jwt.clone(),
            want: Want::Rows,
            cap_ms: AUDIT_MS,
        }));
    }
    if let Some(why) = lost_within("no member.removed.judged audit row", &log.rs[2]) {
        return Next::Fail(why);
    }
    if log.rs.len() <= 3 {
        return Next::Ask(Ask::Wait(Wait::Doc {
            url: admin(
                c,
                cat6(
                    "/admin/audit?action=", "member.removed.delete_now", "&target=", team, "%2F", c.other_user.as_str(),
                ).as_str(),
            ),
            token: c.admin_jwt.clone(),
            want: Want::Rows,
            cap_ms: AUDIT_MS,
        }));
    }
    end(lost_within("no member.removed.delete_now audit row", &log.rs[3]))
}

/// With deletes on, what is the pair's goes within the bound, what was pushed stays, and a person
/// who comes back starts anew.
pub open spec fn collected_next(c: RunV, team: Seq<char>, bench: Seq<char>, ws: Seq<char>, volume: Seq<char>, snap: Seq<char>, rs: Seq<ReplyV>) -> NextV {
    let token = reinvited(rs[3])->Ok_0;
    link(
        rs, 0,
        AskV::Wait(WaitV::Cleaned { bench, ws, volume, snap, owner: c.other_user, team, cap_ms: GC_BOUND_MS }),
        lost_of(rs[0]),
        link(
            rs, 1,
            AskV::Wait(WaitV::Doc {
                url: admin_at(
                    c,
                    "/admin/audit?action="@ + "member.removed.judged"@ + "&target="@ + team + "%2F"@ + c.other_user,
                ),
                token: c.admin_jwt,
                want: WantV::Rows,
                cap_ms: AUDIT_MS,
            }),
            lost_in("no member.removed.judged audit row"@, rs[1]),
            link(
                rs, 2,
                AskV::Wait(WaitV::Doc {
                    url: admin_at(
                        c,
                        "/admin/audit?action="@ + "member.removed.delete_now"@ + "&target="@ + team + "%2F"@ + c.other_user,
                    ),
                    token: c.admin_jwt,
                    want: WantV::Rows,
                    cap_ms: AUDIT_MS,
                }),
                lost_in("no member.removed.delete_now audit row"@, rs[2]),
                link(
                    rs, 3,
                    posting(
                        api_at(c, "/v1/teams/"@ + team + "/invites"@), c.probe_jwt,
                        Doc::Obj(seq![("email"@, Doc::Str(c.other_email)), ("role"@, Doc::Str("member"@))]),
                    ),
                    err_of(reinvited(rs[3])),
                    link(
                        rs, 4,
                        posting(api_at(c, "/v1/invites/"@ + token + "/accept"@), c.other_jwt, Doc::Null),
                        rejoin_failed(call_failed("the member could not join"@, rs[4])),
                        link(rs, 5, getting(api_at(c, "/v1/bench?team="@ + team), c.other_jwt), bench_found(rs[5]), NextV::Pass),
                    ),
                ),
            ),
        ),
    )
}

fn collected_body(c: &Run, team: &str, bench: &str, ws: &str, volume: &str, snap: &str, log: &Log) -> (n: Next)
    ensures
        n@ == collected_next(c@, team@, bench@, ws@, volume@, snap@, log@.rs),
{
    if log.rs.len() <= 0 {
        return Next::Ask(Ask::Wait(Wait::Cleaned {
            bench: bench.to_owned(),
            ws: ws.to_owned(),
            volume: volume.to_owned(),
            snap: snap.to_owned(),
            owner: c.other_user.clone(),
            team: team.to_owned(),
            cap_ms: GC_BOUND_MS,
        }));
    }
    if let Some(why) = lost(&log.rs[0]) {
        return Next::Fail(why);
    }
    if log.rs.len() <= 1 {
        return Next::Ask(Ask::Wait(Wait::Doc {
            url: admin(
                c,
                cat6("/admin/audit?action=", "member.removed.judged", "&target=", team, "%2F", c.other_user.as_str()).as_str(),
            ),
            token: c.admin_jwt.clone(),
            want: Want::Rows,
            cap_ms: AUDIT_MS,
        }));
    }
    if let Some(why) = lost_within("no member.removed.judged audit row", &log.rs[1]) {
        return Next::Fail(why);
    }
    if log.rs.len() <= 2 {
        return Next::Ask(Ask::Wait(Wait::Doc {
            url: admin(
                c,
                cat6(
                    "/admin/audit?action=", "member.removed.delete_now", "&target=", team, "%2F", c.other_user.as_str(),
                ).as_str(),
            ),
            token: c.admin_jwt.clone(),
            want: Want::Rows,
            cap_ms: AUDIT_MS,
        }));
    }
    if let Some(why) = lost_within("no member.removed.delete_now audit row", &log.rs[2]) {
        return Next::Fail(why);
    }
    if log.rs.len() <= 3 {
        return Next::Ask(post(
            api(c, cat3("/v1/teams/", team, "/invites").as_str()), c.probe_jwt.as_str(),
            obj2("email", txt(c.other_email.as_str()), "role", txt("member")),
        ));
    }
    let token = match reinvited_of(&log.rs[3]) {
        Err(why) => {
            return Next::Fail(why);
        },
        Ok(t) => t,
    };
    if log.rs.len() <= 4 {
        return Next::Ask(post(
            api(c, cat3("/v1/invites/", token.as_str(), "/accept").as_str()), c.other_jwt.as_str(), Json::Null,
        ));
    }
    if let Some(why) = failed_rejoin(failed("the member could not join", &log.rs[4])) {
        return Next::Fail(why);
    }
    if log.rs.len() <= 5 {
        return Next::Ask(get(api(c, cat2("/v1/bench?team=", team).as_str()), c.other_jwt.as_str()));
    }
    end(found_bench(&log.rs[5]))
}

/// A step whose preparation came to nothing: it fails with that.
pub open spec fn doomed_next(why: Seq<char>, rs: Seq<ReplyV>) -> NextV {
    NextV::Fail(why)
}

fn doomed_body(why: &str, log: &Log) -> (n: Next)
    ensures
        n@ == doomed_next(why@, log@.rs),
{
    Next::Fail(why.to_owned())
}

/// The member's own objects, taken away as the member: the snapshot only once the workspace that
/// stands on it is gone.
pub open spec fn teardown_prep_next(c: RunV, ws: Seq<char>, volume: Seq<char>, snap: Seq<char>, rs: Seq<ReplyV>) -> NextV {
    also(
        rs, 0, deleting(api_at(c, "/v1/workspaces/"@ + ws), c.other_jwt),
        also(
            rs, 1,
            AskV::Wait(WaitV::Away { url: api_at(c, "/v1/workspaces/"@ + ws), token: c.other_jwt, cap_ms: WS_GONE_MS }),
            also(rs, 2, deleting(api_at(c, "/v1/volumes/"@ + volume + "/snapshots/"@ + snap), c.other_jwt), NextV::Pass),
        ),
    )
}

fn teardown_prep_body(c: &Run, ws: &str, volume: &str, snap: &str, log: &Log) -> (n: Next)
    ensures
        n@ == teardown_prep_next(c@, ws@, volume@, snap@, log@.rs),
{
    if log.rs.len() <= 0 {
        return Next::Ask(erase(api(c, cat2("/v1/workspaces/", ws).as_str()), c.other_jwt.as_str()));
    }
    if log.rs.len() <= 1 {
        return Next::Ask(Ask::Wait(Wait::Away {
            url: api(c, cat2("/v1/workspaces/", ws).as_str()),
            token: c.other_jwt.clone(),
            cap_ms: WS_GONE_MS,
        }));
    }
    if log.rs.len() <= 2 {
        return Next::Ask(erase(api(c, cat4("/v1/volumes/", volume, "/snapshots/", snap).as_str()), c.other_jwt.as_str()));
    }
    Next::Pass
}

/// The membership and the team, as far as they can be; and once the team is gone, what is kept of its
/// members.
pub open spec fn teardown_team_next(c: RunV, team: Seq<char>, rs: Seq<ReplyV>) -> NextV {
    also(
        rs, 0,
        deleting(api_at(c, "/v1/teams/"@ + team + "/members/"@ + c.other_email), c.probe_jwt),
        link(
            rs, 1, deleting(api_at(c, "/v1/teams/"@ + team), c.probe_jwt), call_error(rs[1]),
            also(rs, 2, AskV::DropMembers { team }, NextV::Pass),
        ),
    )
}

fn teardown_team_body(c: &Run, team: &str, log: &Log) -> (n: Next)
    ensures
        n@ == teardown_team_next(c@, team@, log@.rs),
{
    if log.rs.len() <= 0 {
        return Next::Ask(erase(
            api(c, cat4("/v1/teams/", team, "/members/", c.other_email.as_str()).as_str()), c.probe_jwt.as_str(),
        ));
    }
    if log.rs.len() <= 1 {
        return Next::Ask(erase(api(c, cat2("/v1/teams/", team).as_str()), c.probe_jwt.as_str()));
    }
    if let Some(why) = error(&log.rs[1]) {
        return Next::Fail(why);
    }
    if log.rs.len() <= 2 {
        return Next::Ask(Ask::DropMembers { team: team.to_owned() });
    }
    Next::Pass
}

// ── the bodies ──────────────────────────────────────────────────────────────

pub enum Body {
    Prepare { team: String },
    Remove { team: String, bench: String },
    MarkedDue { team: String, bench: String, ws: String, now_secs: i64, now_nanos: u32 },
    Collected { team: String, bench: String, ws: String, volume: String, snap: String },
    Doomed { why: String },
    TeardownPrep { ws: String, volume: String, snap: String },
    TeardownTeam { team: String },
}

pub enum BodyV {
    Prepare { team: Seq<char> },
    Remove { team: Seq<char>, bench: Seq<char> },
    MarkedDue { team: Seq<char>, bench: Seq<char>, ws: Seq<char>, now_secs: i64, now_nanos: u32 },
    Collected { team: Seq<char>, bench: Seq<char>, ws: Seq<char>, volume: Seq<char>, snap: Seq<char> },
    Doomed { why: Seq<char> },
    TeardownPrep { ws: Seq<char>, volume: Seq<char>, snap: Seq<char> },
    TeardownTeam { team: Seq<char> },
}

impl View for Body {
    type V = BodyV;

    open spec fn view(&self) -> BodyV {
        match self {
            Body::Prepare { team } => BodyV::Prepare { team: team@ },
            Body::Remove { team, bench } => BodyV::Remove { team: team@, bench: bench@ },
            Body::MarkedDue { team, bench, ws, now_secs, now_nanos } => BodyV::MarkedDue {
                team: team@,
                bench: bench@,
                ws: ws@,
                now_secs: *now_secs,
                now_nanos: *now_nanos,
            },
            Body::Collected { team, bench, ws, volume, snap } => BodyV::Collected {
                team: team@,
                bench: bench@,
                ws: ws@,
                volume: volume@,
                snap: snap@,
            },
            Body::Doomed { why } => BodyV::Doomed { why: why@ },
            Body::TeardownPrep { ws, volume, snap } => BodyV::TeardownPrep { ws: ws@, volume: volume@, snap: snap@ },
            Body::TeardownTeam { team } => BodyV::TeardownTeam { team: team@ },
        }
    }
}

/// What a body does next.
pub open spec fn body_next(c: RunV, b: BodyV, log: LogV) -> NextV {
    match b {
        BodyV::Prepare { team } => prepare_next(c, team, log.rs),
        BodyV::Remove { team, bench } => remove_next(c, team, bench, log.rs),
        BodyV::MarkedDue { team, bench, ws, now_secs, now_nanos } => marked_due_next(c, team, bench, ws, now_secs, now_nanos, log.rs),
        BodyV::Collected { team, bench, ws, volume, snap } => collected_next(c, team, bench, ws, volume, snap, log.rs),
        BodyV::Doomed { why } => doomed_next(why, log.rs),
        BodyV::TeardownPrep { ws, volume, snap } => teardown_prep_next(c, ws, volume, snap, log.rs),
        BodyV::TeardownTeam { team } => teardown_team_next(c, team, log.rs),
    }
}

/// What a body has learned: whether deletes are on.
pub open spec fn body_found(b: BodyV, log: LogV) -> Option<Seq<char>> {
    match b {
        BodyV::Remove { .. } => if log.rs.len() > 2 {
            match deletes_in(log.rs[2]) {
                Ok(on) => Some(if on { "on"@ } else { "off"@ }),
                Err(_) => None,
            }
        } else {
            None
        },
        _ => None,
    }
}

impl Body {
    pub fn next(&self, c: &Run, log: &Log) -> (n: Next)
        ensures
            n@ == body_next(c@, self@, log@),
    {
        match self {
            Body::Prepare { team } => prepare_body(c, team.as_str(), log),
            Body::Remove { team, bench } => remove_body(c, team.as_str(), bench.as_str(), log),
            Body::MarkedDue { team, bench, ws, now_secs, now_nanos } => marked_due_body(
                c, team.as_str(), bench.as_str(), ws.as_str(), *now_secs, *now_nanos, log,
            ),
            Body::Collected { team, bench, ws, volume, snap } => collected_body(
                c, team.as_str(), bench.as_str(), ws.as_str(), volume.as_str(), snap.as_str(), log,
            ),
            Body::Doomed { why } => doomed_body(why.as_str(), log),
            Body::TeardownPrep { ws, volume, snap } => teardown_prep_body(c, ws.as_str(), volume.as_str(), snap.as_str(), log),
            Body::TeardownTeam { team } => teardown_team_body(c, team.as_str(), log),
        }
    }

    pub fn found(&self, log: &Log) -> (r: Option<String>)
        ensures
            opt(r) == body_found(self@, log@),
    {
        match self {
            Body::Remove { .. } => {
                if log.rs.len() > 2 {
                    match deletes_of(&log.rs[2]) {
                        Ok(on) => Some(if on { "on".to_owned() } else { "off".to_owned() }),
                        Err(_) => None,
                    }
                } else {
                    None
                }
            },
            _ => None,
        }
    }
}

// ── the journey ─────────────────────────────────────────────────────────────

/// What a step that was prepared does.
pub open spec fn cleanup_step(c: RunV, bench: Seq<char>, now_secs: i64, now_nanos: u32, p: PrepV, removed: OutcomeV) -> MoveV<BodyV> {
    let id = CLEANUP_ID@;
    match passed_with(removed) {
        None => MoveV::Step {
            id,
            ceiling_ms: CLEANUP_MS,
            body: BodyV::Doomed { why: "removing the member: "@ + failure_or_empty(removed) },
        },
        Some(on) => if on == "on"@ {
            MoveV::Step {
                id,
                ceiling_ms: CLEANUP_MS,
                body: BodyV::Collected { team: team_of(c), bench, ws: p.ws, volume: p.volume, snap: p.snap },
            }
        } else {
            MoveV::Step {
                id,
                ceiling_ms: CLEANUP_MS,
                body: BodyV::MarkedDue { team: team_of(c), bench, ws: p.ws, now_secs, now_nanos },
            }
        },
    }
}

pub open spec fn member_removed_move(
    c: RunV, bench: Seq<char>, now_secs: i64, now_nanos: u32, prep: Option<PrepV>, os: Seq<OutcomeV>,
) -> MoveV<BodyV> {
    let n = os.len();
    if !c.has_kube {
        if n == 0 {
            MoveV::Skip { id: CLEANUP_ID@, why: "no kubeconfig"@ }
        } else if n == 1 {
            MoveV::Skip { id: DIR_DOWN_ID@, why: NO_DIR_HOOK@ }
        } else {
            MoveV::End
        }
    } else if n == 0 {
        MoveV::Look { body: BodyV::Prepare { team: team_of(c) } }
    } else {
        match prep {
            None => if n == 1 {
                MoveV::Step {
                    id: CLEANUP_ID@,
                    ceiling_ms: CLEANUP_MS,
                    body: BodyV::Doomed { why: "before the removal: "@ + failure_or_empty(os[0]) },
                }
            } else if n == 2 {
                MoveV::Look { body: BodyV::TeardownTeam { team: team_of(c) } }
            } else if n == 3 {
                MoveV::Skip { id: DIR_DOWN_ID@, why: NO_DIR_HOOK@ }
            } else {
                MoveV::End
            },
            Some(p) => {
                if n == 1 {
                    MoveV::Look { body: BodyV::Remove { team: team_of(c), bench } }
                } else if n == 2 {
                    cleanup_step(c, bench, now_secs, now_nanos, p, os[1])
                } else if n == 3 {
                    MoveV::Look { body: BodyV::TeardownPrep { ws: p.ws, volume: p.volume, snap: p.snap } }
                } else if n == 4 {
                    MoveV::Look { body: BodyV::TeardownTeam { team: team_of(c) } }
                } else if n == 5 {
                    MoveV::Skip { id: DIR_DOWN_ID@, why: NO_DIR_HOOK@ }
                } else {
                    MoveV::End
                }
            },
        }
    }
}

fn cleanup(c: &Run, bench: &str, now_secs: i64, now_nanos: u32, p: &Prep, removed: &Outcome) -> (m: Move<Body>)
    ensures
        m@ == cleanup_step(c@, bench@, now_secs, now_nanos, p@, removed@),
{
    match removed.passed_with() {
        None => step(
            CLEANUP_ID, CLEANUP_MS, Body::Doomed { why: cat2("removing the member: ", removed.failure_or_empty().as_str()) },
        ),
        Some(on) => {
            if same(on.as_str(), "on") {
                step(
                    CLEANUP_ID, CLEANUP_MS,
                    Body::Collected {
                        team: team(c),
                        bench: bench.to_owned(),
                        ws: p.ws.clone(),
                        volume: p.volume.clone(),
                        snap: p.snap.clone(),
                    },
                )
            } else {
                step(
                    CLEANUP_ID, CLEANUP_MS,
                    Body::MarkedDue { team: team(c), bench: bench.to_owned(), ws: p.ws.clone(), now_secs, now_nanos },
                )
            }
        },
    }
}

/// `team.member.removed.cleanup` and `team.member.removed.dir_down`. `bench` is the member's own; `now` is
/// the time the marks are held against; `p` is what was prepared, where that passed. What was made is
/// taken away on every path.
pub fn member_removed(c: &Run, bench: &str, now_secs: i64, now_nanos: u32, p: &Option<Prep>, os: &Vec<Outcome>) -> (m: Move<Body>)
    ensures
        m@ == member_removed_move(c@, bench@, now_secs, now_nanos, opt_prep(*p), outcomes(os@)),
{
    let n: usize = os.len();
    if let Err(why) = kube(c) {
        return if n == 0 {
            skip(CLEANUP_ID, why.as_str())
        } else if n == 1 {
            skip(DIR_DOWN_ID, NO_DIR_HOOK)
        } else {
            Move::End
        };
    }
    if n == 0 {
        return look(Body::Prepare { team: team(c) });
    }
    match p {
        None => {
            if n == 1 {
                let why = cat2("before the removal: ", os[0].failure_or_empty().as_str());
                step(CLEANUP_ID, CLEANUP_MS, Body::Doomed { why })
            } else if n == 2 {
                look(Body::TeardownTeam { team: team(c) })
            } else if n == 3 {
                skip(DIR_DOWN_ID, NO_DIR_HOOK)
            } else {
                Move::End
            }
        },
        Some(p) => {
            if n == 1 {
                look(Body::Remove { team: team(c), bench: bench.to_owned() })
            } else if n == 2 {
                cleanup(c, bench, now_secs, now_nanos, p, &os[1])
            } else if n == 3 {
                look(Body::TeardownPrep { ws: p.ws.clone(), volume: p.volume.clone(), snap: p.snap.clone() })
            } else if n == 4 {
                look(Body::TeardownTeam { team: team(c) })
            } else if n == 5 {
                skip(DIR_DOWN_ID, NO_DIR_HOOK)
            } else {
                Move::End
            }
        },
    }
}

/// Whatever comes back, both ids are reported exactly once.
pub proof fn law_both_ids_are_reported_once(c: RunV, bench: Seq<char>, now_secs: i64, now_nanos: u32, prep: Option<PrepV>, os: Seq<OutcomeV>)
    ensures
        reports_exactly(
            |o: Seq<OutcomeV>| member_removed_move(c, bench, now_secs, now_nanos, prep, o), os, seq![CLEANUP_ID@, DIR_DOWN_ID@], 6,
        ),
    decreases os.len(),
{
    reveal_with_fuel(reports, 7);
    if os.len() > 6 {
        law_both_ids_are_reported_once(c, bench, now_secs, now_nanos, prep, os.drop_last());
    }
}

/// The team is taken away on every path, and what was prepared before it.
pub proof fn law_the_team_is_taken_away(c: RunV, bench: Seq<char>, now_secs: i64, now_nanos: u32, prep: Option<PrepV>, os: Seq<OutcomeV>)
    requires
        c.has_kube,
        member_removed_move(c, bench, now_secs, now_nanos, prep, os) is Skip,
    ensures
        os.len() > 0,
        member_removed_move(c, bench, now_secs, now_nanos, prep, os.drop_last()) == (MoveV::<BodyV>::Look {
            body: BodyV::TeardownTeam { team: team_of(c) },
        }),
{
}

/// A preparation that passes has made all that the rest works on.
pub proof fn law_what_passed_was_prepared(c: RunV, team: Seq<char>, log: LogV)
    ensures
        body_next(c, BodyV::Prepare { team }, log) is Pass ==> prep_in(log.rs) is Some,
{
}

} // verus!
