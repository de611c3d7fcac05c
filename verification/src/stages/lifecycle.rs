//! Stopping, replicating, starting and restoring what was pushed, the deletes that must be refused, and
//! what is collected once nothing is left to hold it.

use vstd::prelude::*;

use crate::cluster::{name_of, object_name};
use crate::json::{
    Doc, Json, array_of, bool_of, column, column_of, doc_bool, doc_str, docs, lemma_docs, member, member2, obj2, row_in,
    row_named, rows_of, str_of, text_of, txt,
};
use crate::outside::{instant_of, parse_instant, status_line, status_text};
use crate::probes::{Tried, TriedV};
use crate::reply::{
    call_failed, doc, doc_of, failed, id_in, id_of, lost, lost_in, lost_of, lost_within, made, made_of, object, object_of, raw,
    raw_of,
};
use crate::run::{Run, RunV, State, StateV, api, api_at, name, named, prefix, prefix_of, with_volume};
use crate::stages::gaps::{env_namespace, env_ns};
use crate::stages::weekly::{placement, placement_in};
use crate::text::{cat2, cat3, cat6, clipped, dec, decimal, first_chars, same, starts, starts_with, texts};
use crate::turn::{
    Move, MoveV, Outcome, OutcomeV, failure_or_empty, learned, learned_by, look, outcomes, passed, passed_with, reports,
    reports_exactly, skip, step,
};
use crate::wait::{Wait, WaitV};
use crate::want::{Want, WantV};
use crate::wire::{
    Ask, AskV, Cluster, Kind, Log, LogV, Next, NextV, Reply, ReplyV, also, and_on, deleting, end, erase, err_of, get, getting,
    inside, link, opt, post, posting, seen, within,
};

verus! {

pub const STOP_MS: u64 = 15_000;

/// A replica is given one minute: where it takes longer, that is a bad sample, and not the whole run's
/// time.
pub const REPLICATED_MS: u64 = 60_000;

pub const START_MS: u64 = 30_000;

pub const RESTORE_MS: u64 = 60_000;

pub const REFUSAL_MS: u64 = 20_000;

/// How long the finalizers get to drop the run's working copies.
pub const DETACH_MS: u64 = 60_000;

pub const ORPHAN_MS: u64 = 60_000;

/// How long one look for a volume to go takes at most.
pub const LOOK_MS: u64 = 5_000;

pub const ENV_STOP_MS: u64 = 30_000;

pub const ENV_REPLICATED_MS: u64 = 30_000;

pub const ENV_START_MS: u64 = 60_000;

/// An environment that is restored ends at running, with its services ready.
pub const ENV_RESTORE_MS: u64 = 90_000;

/// At or above the delete's own target.
pub const DELETE_MS: u64 = 75_000;

/// Each wait inside a delete has a slice of its own, so that a failure names which of them it was.
pub const WAIT_MS: u64 = 22_000;

pub const SNAP_DELETE_MS: u64 = 25_000;

/// The workspace's ids, in the order of the journey.
pub const IDS: [&'static str; 7] = [
    "ws.stop.p95", "ws.replicated", "ws.start.p95", "ws.restore", "vol.refusals", "vol.detached.restorable", "vol.orphan.collected",
];

/// The environment's: one half that is missing does not cost the other its ids.
pub const ENV_IDS: [&'static str; 4] = ["env.stop.p95", "env.replicated", "env.start.p95", "env.restore"];

/// The deletes, last: they take what the halves measured.
pub const DELETE_IDS: [&'static str; 2] = ["wt.delete", "snap.delete"];

// ── what a run still holds ──────────────────────────────────────────────────

pub open spec fn row_prefixed(row: Doc, prefix: Seq<char>) -> bool {
    match text_of(row, "name"@) {
        Some(n) => starts(n, prefix),
        None => false,
    }
}

/// The ids of the rows whose name has the prefix.
pub open spec fn prefixed_ids(rows: Seq<Doc>, prefix: Seq<char>) -> Seq<Seq<char>>
    decreases rows.len(),
{
    if rows.len() == 0 {
        seq![]
    } else {
        let before = prefixed_ids(rows.drop_last(), prefix);
        match text_of(rows.last(), "id"@) {
            Some(id) if row_prefixed(rows.last(), prefix) => before.push(id),
            _ => before,
        }
    }
}

fn ids_prefixed(rows: &Vec<Json>, prefix: &str) -> (r: Vec<String>)
    ensures
        texts(r@) == prefixed_ids(docs(rows@), prefix@),
{
    let mut r: Vec<String> = Vec::new();
    let mut i: usize = 0;
    let ghost all = docs(rows@);
    proof {
        lemma_docs(rows@);
        assert(all.take(0) =~= Seq::<Doc>::empty());
        assert(texts(r@) =~= Seq::<Seq<char>>::empty());
    }
    while i < rows.len()
        invariant
            i <= rows@.len(),
            all == docs(rows@),
            all.len() == rows@.len(),
            forall|k: int| 0 <= k < rows@.len() ==> all[k] == (#[trigger] rows@[k])@,
            texts(r@) == prefixed_ids(all.take(i as int), prefix@),
        decreases rows.len() - i,
    {
        let ghost before = r@;
        proof {
            assert(all.take(i + 1).drop_last() =~= all.take(i as int));
            assert(all.take(i + 1).last() == rows@[i as int]@);
        }
        let ours = match rows[i].text_at("name") {
            Some(n) => starts_with(n.as_str(), prefix),
            None => false,
        };
        match rows[i].text_at("id") {
            Some(id) => {
                if ours {
                    r.push(id);
                    proof {
                        assert(texts(r@) =~= texts(before).push(id@));
                    }
                }
            },
            None => {},
        }
        i = i + 1;
    }
    proof {
        assert(all.take(all.len() as int) =~= all);
    }
    r
}

/// What a listing answered, as rows: one that failed has none, and the next look tries again.
pub open spec fn rows_in(r: ReplyV) -> Seq<Doc> {
    match doc_of(r) {
        Ok(d) => rows_of(Some(d)),
        Err(_) => seq![],
    }
}

/// Everything this run made, by the prefix of its name.
pub open spec fn ours_in(prefix: Seq<char>, r: ReplyV) -> Seq<Seq<char>> {
    prefixed_ids(rows_in(r), prefix)
}

pub fn worktrees(prefix: &str, r: &Reply) -> (v: Vec<String>)
    ensures
        texts(v@) == ours_in(prefix@, r@),
{
    let none: Vec<String> = Vec::new();
    proof {
        assert(texts(none@) =~= Seq::<Seq<char>>::empty());
    }
    match doc(r) {
        Ok(d) => match array_of(Some(&d)) {
            Some(rows) => ids_prefixed(rows, prefix),
            None => none,
        },
        Err(_) => none,
    }
}

/// Every push a volume's history lists.
pub open spec fn snapshots_in(r: ReplyV) -> Seq<Seq<char>> {
    column(rows_in(r), "id"@)
}

pub fn snapshots(r: &Reply) -> (v: Vec<String>)
    ensures
        texts(v@) == snapshots_in(r@),
{
    let none: Vec<String> = Vec::new();
    proof {
        assert(texts(none@) =~= Seq::<Seq<char>>::empty());
    }
    match doc(r) {
        Ok(d) => match array_of(Some(&d)) {
            Some(rows) => column_of(rows, "id"),
            None => none,
        },
        Err(_) => none,
    }
}

/// Whether the listing still has a volume, by its name and never by the name it is shown under. There
/// is no other way to ask: a volume by itself is not to be read.
pub open spec fn volume_listed_in(name: Seq<char>, r: ReplyV) -> Result<bool, Seq<char>> {
    match doc_of(r) {
        Err(why) => Err(within("could not list the volumes"@, why)),
        Ok(d) => Ok(row_named(rows_of(Some(d)), "name"@, name) is Some),
    }
}

pub fn volume_listed(name: &str, r: &Reply) -> (o: Result<bool, String>)
    ensures
        (match o { Ok(b) => Ok(b), Err(e) => Err(e@) }) == volume_listed_in(name@, r@),
{
    match doc(r) {
        Err(why) => Err(inside("could not list the volumes", why.as_str())),
        Ok(d) => Ok(row_in(Some(&d), "name", name).is_some()),
    }
}

pub open spec fn unlisted_tried(name: Seq<char>, r: ReplyV) -> TriedV {
    match volume_listed_in(name, r) {
        Err(why) => TriedV::Broken(why),
        Ok(listed) => if listed { TriedV::Still } else { TriedV::Yes },
    }
}

pub fn try_unlisted(name: &str, r: &Reply) -> (t: Tried)
    ensures
        t@ == unlisted_tried(name@, r@),
{
    match volume_listed(name, r) {
        Err(why) => Tried::Broken(why),
        Ok(listed) => {
            if listed { Tried::Still } else { Tried::Yes }
        },
    }
}

/// A cluster object that is to go; a cluster that does not answer has not lost it.
pub open spec fn vanished_tried(r: ReplyV) -> TriedV {
    match raw_of(r) {
        Err(_) => TriedV::Still,
        Ok((status, _)) => if status == 404 { TriedV::Yes } else { TriedV::Still },
    }
}

pub fn try_vanished(r: &Reply) -> (t: Tried)
    ensures
        t@ == vanished_tried(r@),
{
    match raw(r) {
        Err(_) => Tried::Still,
        Ok((status, _)) => {
            if status == 404 { Tried::Yes } else { Tried::Still }
        },
    }
}

/// Whether an answer is a listing at all, however little it lists.
pub open spec fn lists_some(r: ReplyV) -> bool {
    match doc_of(r) {
        Ok(d) => d is Arr,
        Err(_) => false,
    }
}

fn is_listing(r: &Reply) -> (b: bool)
    ensures
        b == lists_some(r@),
{
    match doc(r) {
        Ok(d) => array_of(Some(&d)).is_some(),
        Err(_) => false,
    }
}

/// One pass over the working copies of a run: a listing with none left is what is waited for, and each
/// that is left is deleted. What cannot be listed is not known to have gone.
pub open spec fn detach_probe(url: Seq<char>, token: Seq<char>, prefix: Seq<char>, rs: Seq<ReplyV>) -> TriedV {
    let live = ours_in(prefix, rs[0]);
    if rs.len() == 0 {
        TriedV::Ask(getting(url, token))
    } else if !lists_some(rs[0]) {
        TriedV::NotYet("an unknown number of"@)
    } else if live.len() == 0 {
        TriedV::Yes
    } else if rs.len() <= live.len() {
        TriedV::Ask(deleting(url + "/"@ + live[rs.len() - 1], token))
    } else {
        TriedV::NotYet(dec(live.len()))
    }
}

pub fn probe_detach(url: &str, token: &str, prefix: &str, rs: &Vec<Reply>) -> (t: Tried)
    ensures
        t@ == detach_probe(url@, token@, prefix@, seen(rs@)),
{
    if rs.len() == 0 {
        return Tried::Ask(get(url.to_owned(), token));
    }
    if !is_listing(&rs[0]) {
        return Tried::NotYet("an unknown number of".to_owned());
    }
    let live = worktrees(prefix, &rs[0]);
    proof {
        assert(texts(live@).len() == live@.len());
    }
    if live.len() == 0 {
        Tried::Yes
    } else if rs.len() <= live.len() {
        let id = live[rs.len() - 1].as_str();
        Tried::Ask(erase(cat3(url, "/", id), token))
    } else {
        Tried::NotYet(decimal(live.len() as u64))
    }
}

/// Whether an answer tells of a volume: what it is, or that it is gone.
pub open spec fn tells_of_it(r: ReplyV) -> bool {
    match raw_of(r) {
        Err(_) => false,
        Ok((404, _)) => true,
        Ok(_) => object_of(r) is Ok,
    }
}

fn told(r: &Reply) -> (b: bool)
    ensures
        b == tells_of_it(r@),
{
    match raw(r) {
        Err(_) => false,
        Ok((status, _)) => status == 404 || object(r).is_ok(),
    }
}

/// Why a volume is still somebody's: one that is owned and went anyway went for another reason.
pub open spec fn still_owned(r: ReplyV) -> Option<Seq<char>> {
    match raw_of(r) {
        Err(_) => None,
        Ok((404, _)) => None,
        Ok(_) => match object_of(r) {
            Err(_) => None,
            Ok(d) => {
                let owners = rows_of(member2(d, "metadata"@, "ownerReferences"@)).len();
                if owners == 0 {
                    None
                } else {
                    Some("the Volume still lists "@ + dec(owners) + " owner(s): the finalizer has not detached it"@)
                }
            },
        },
    }
}

pub fn owned(r: &Reply) -> (o: Option<String>)
    ensures
        opt(o) == still_owned(r@),
{
    match raw(r) {
        Err(_) => {
            return None;
        },
        Ok((status, _)) => {
            if status == 404 {
                return None;
            }
        },
    }
    match object(r) {
        Err(_) => None,
        Ok(d) => match array_of(d.get2("metadata", "ownerReferences")) {
            None => None,
            Some(rows) => {
                proof {
                    lemma_docs(rows@);
                }
                if rows.len() == 0 {
                    None
                } else {
                    Some(cat3(
                        "the Volume still lists ", decimal(rows.len() as u64).as_str(),
                        " owner(s): the finalizer has not detached it",
                    ))
                }
            },
        },
    }
}

/// One pass of emptying a volume: its working copies, then its snapshots, each in turn, since a snapshot
/// cannot go while a copy stands on it. Then, if nobody owns it any more, a look whether it goes, no longer
/// than `left_ms` is left; where it cannot be told whose it is, the next pass asks again.
pub open spec fn collect_probe(
    workspaces: Seq<char>, base: Seq<char>, token: Seq<char>, prefix: Seq<char>, volume: Seq<char>, left_ms: u64, rs: Seq<ReplyV>,
) -> TriedV {
    let live = ours_in(prefix, rs[0]);
    let n = live.len();
    let cuts = snapshots_in(rs[n as int + 1]);
    let m = cuts.len();
    if rs.len() == 0 {
        TriedV::Ask(getting(workspaces, token))
    } else if rs.len() <= n {
        TriedV::Ask(deleting(workspaces + "/"@ + live[rs.len() - 1], token))
    } else if rs.len() == n + 1 {
        TriedV::Ask(getting(base + "/history"@, token))
    } else if rs.len() <= n + m + 1 {
        TriedV::Ask(deleting(base + "/snapshots/"@ + cuts[rs.len() - n - 2], token))
    } else if rs.len() == n + m + 2 {
        TriedV::Ask(AskV::Read { cluster: Cluster::Fleet, kind: Kind::Volume, ns: ""@, name: volume })
    } else {
        match still_owned(rs[(n + m) as int + 2]) {
            Some(why) => TriedV::Broken(why),
            None => if !tells_of_it(rs[(n + m) as int + 2]) {
                TriedV::Still
            } else if rs.len() == n + m + 3 {
                TriedV::Ask(AskV::Wait(WaitV::Vanished { kind: Kind::Volume, name: volume, cap_ms: if left_ms < LOOK_MS { left_ms } else { LOOK_MS } }))
            } else if lost_of(rs[(n + m) as int + 3]) is None {
                TriedV::Yes
            } else {
                TriedV::Still
            },
        }
    }
}

pub fn probe_collect(workspaces: &str, base: &str, token: &str, prefix: &str, volume: &str, left_ms: u64, rs: &Vec<Reply>) -> (t: Tried)
    ensures
        t@ == collect_probe(workspaces@, base@, token@, prefix@, volume@, left_ms, seen(rs@)),
{
    if rs.len() == 0 {
        return Tried::Ask(get(workspaces.to_owned(), token));
    }
    let live = worktrees(prefix, &rs[0]);
    let n: usize = live.len();
    proof {
        assert(texts(live@).len() == n);
    }
    if rs.len() <= n {
        let id = live[rs.len() - 1].as_str();
        return Tried::Ask(erase(cat3(workspaces, "/", id), token));
    }
    let past: usize = rs.len() - n;
    if past == 1 {
        return Tried::Ask(get(cat2(base, "/history"), token));
    }
    let cuts = snapshots(&rs[n + 1]);
    let m: usize = cuts.len();
    proof {
        assert(texts(cuts@).len() == m);
    }
    if past - 1 <= m {
        let id = cuts[past - 2].as_str();
        return Tried::Ask(erase(cat3(base, "/snapshots/", id), token));
    }
    let after: usize = past - 1 - m;
    if after == 1 {
        return Tried::Ask(Ask::Read { cluster: Cluster::Fleet, kind: Kind::Volume, ns: "".to_owned(), name: volume.to_owned() });
    }
    if let Some(why) = owned(&rs[n + m + 2]) {
        return Tried::Broken(why);
    }
    if !told(&rs[n + m + 2]) {
        return Tried::Still;
    }
    if after == 2 {
        let cap_ms: u64 = if left_ms < LOOK_MS { left_ms } else { LOOK_MS };
        return Tried::Ask(Ask::Wait(Wait::Vanished { kind: Kind::Volume, name: volume.to_owned(), cap_ms }));
    }
    if lost(&rs[n + m + 3]).is_none() { Tried::Yes } else { Tried::Still }
}

// ── the workspace ───────────────────────────────────────────────────────────

pub open spec fn stop_next(c: RunV, ws: Seq<char>, rs: Seq<ReplyV>) -> NextV {
    link(
        rs, 0,
        posting(api_at(c, "/v1/workspaces/"@ + ws) + "/stop"@, c.probe_jwt, Doc::Null), call_failed("could not stop"@, rs[0]),
        link(
            rs, 1,
            AskV::Wait(WaitV::Doc {
                url: api_at(c, "/v1/workspaces/"@ + ws),
                token: c.probe_jwt,
                want: WantV::Field { key: "state"@, value: "stopped"@ },
                cap_ms: STOP_MS,
            }),
            lost_of(rs[1]), NextV::Pass,
        ),
    )
}

fn stop_body(c: &Run, ws: &str, log: &Log) -> (n: Next)
    ensures
        n@ == stop_next(c@, ws@, log@.rs),
{
    if log.rs.len() <= 0 {
        return Next::Ask(post(
            cat2(api(c, cat2("/v1/workspaces/", ws).as_str()).as_str(), "/stop"), c.probe_jwt.as_str(), Json::Null,
        ));
    }
    if let Some(why) = failed("could not stop", &log.rs[0]) {
        return Next::Fail(why);
    }
    if log.rs.len() <= 1 {
        return Next::Ask(Ask::Wait(Wait::Doc {
            url: api(c, cat2("/v1/workspaces/", ws).as_str()),
            token: c.probe_jwt.clone(),
            want: Want::Field { key: "state".to_owned(), value: "stopped".to_owned() },
            cap_ms: STOP_MS,
        }));
    }
    end(lost(&log.rs[1]))
}

pub open spec fn names_cut(row: Doc, ws: Seq<char>) -> bool {
    match member2(row, "status"@, "branches"@) {
        Some(branches) => match text_of(branches, ws) {
            Some(cut) => cut.len() > 0,
            None => false,
        },
        None => false,
    }
}

/// Whether a replica is on a node, and that is not the owner's own. Where the owner is on none, every
/// node is another.
pub open spec fn is_elsewhere(row: Doc, owner: Option<Seq<char>>) -> bool {
    match text_of(row, "node"@) {
        Some(n) => n.len() > 0 && owner != Some(n),
        None => false,
    }
}

fn elsewhere(row: &Json, owner: &Option<String>) -> (r: bool)
    ensures
        r == is_elsewhere(row@, opt(*owner)),
{
    match row.text_at("node") {
        Some(n) => {
            let own = match owner {
                Some(o) => same(o.as_str(), n.as_str()),
                None => false,
            };
            !n.as_str().is_empty() && !own
        },
        None => false,
    }
}

/// Whether some replica on another node than the owner's names a cut of the workspace.
pub open spec fn some_replica(rows: Seq<Doc>, ws: Seq<char>, owner: Option<Seq<char>>) -> bool {
    exists|i: int| 0 <= i < rows.len() && names_cut(#[trigger] rows[i], ws) && is_elsewhere(rows[i], owner)
}

fn any_replica(rows: &Vec<Json>, ws: &str, owner: &Option<String>) -> (r: bool)
    ensures
        r == some_replica(docs(rows@), ws@, opt(*owner)),
{
    proof {
        lemma_docs(rows@);
    }
    let mut i: usize = 0;
    while i < rows.len()
        invariant
            i <= rows@.len(),
            docs(rows@).len() == rows@.len(),
            forall|k: int| 0 <= k < rows@.len() ==> #[trigger] docs(rows@)[k] == rows@[k]@,
            forall|k: int| 0 <= k < i ==> !(names_cut(#[trigger] docs(rows@)[k], ws@) && is_elsewhere(docs(rows@)[k], opt(*owner))),
        decreases rows.len() - i,
    {
        let named = match rows[i].get2("status", "branches") {
            Some(branches) => match branches.text_at(ws) {
                Some(cut) => !cut.as_str().is_empty(),
                None => false,
            },
            None => false,
        };
        proof {
            assert(docs(rows@)[i as int] == rows@[i as int]@);
        }
        if named && elsewhere(&rows[i], owner) {
            return true;
        }
        i = i + 1;
    }
    false
}

/// Why no other node's replica names a workspace's cut: then it cannot move, whatever its owner says.
pub open spec fn unnamed(ws: Seq<char>, owner: Option<Seq<char>>, r: ReplyV) -> Option<Seq<char>> {
    match object_of(r) {
        Err(why) => Some(within("could not list the volume replicas"@, why)),
        Ok(d) => if some_replica(rows_of(Some(d)), ws, owner) {
            None
        } else {
            Some("`Replicated` is true but no VolumeReplica names "@ + ws + "'s cut"@)
        },
    }
}

pub fn named_by_a_replica(ws: &str, owner: &Option<String>, r: &Reply) -> (o: Option<String>)
    ensures
        opt(o) == unnamed(ws@, opt(*owner), r@),
{
    match object(r) {
        Err(why) => Some(inside("could not list the volume replicas", why.as_str())),
        Ok(d) => {
            let named = match array_of(Some(&d)) {
                Some(rows) => any_replica(rows, ws, owner),
                None => false,
            };
            if named { None } else { Some(cat3("`Replicated` is true but no VolumeReplica names ", ws, "'s cut")) }
        },
    }
}

/// Another node holds the last cut: its owner says so, and, where the cluster can be read, a replica
/// on another node than the owner's names it. Placement reads the second before it lets the workspace
/// start elsewhere.
pub open spec fn replicated_next(c: RunV, ws: Seq<char>, rs: Seq<ReplyV>) -> NextV {
    link(
        rs, 0,
        AskV::Wait(WaitV::Doc {
            url: api_at(c, "/v1/workspaces/"@ + ws),
            token: c.probe_jwt,
            want: WantV::Replicated,
            cap_ms: REPLICATED_MS,
        }),
        lost_in("no other node reported holding the final sync point"@, rs[0]),
        if c.has_kube {
            link(
                rs, 1,
                getting(api_at(c, "/v1/workspaces/"@ + ws), c.probe_jwt), call_failed("could not read the workspace"@, rs[1]),
                link(
                    rs, 2,
                    AskV::List { cluster: Cluster::Fleet, kind: Kind::Replica, ns: ""@ }, unnamed(ws, placement_in(rs[1]), rs[2]),
                    NextV::Pass,
                ),
            )
        } else {
            NextV::Pass
        },
    )
}

fn replicated_body(c: &Run, ws: &str, log: &Log) -> (n: Next)
    ensures
        n@ == replicated_next(c@, ws@, log@.rs),
{
    if log.rs.len() <= 0 {
        return Next::Ask(Ask::Wait(Wait::Doc {
            url: api(c, cat2("/v1/workspaces/", ws).as_str()),
            token: c.probe_jwt.clone(),
            want: Want::Replicated,
            cap_ms: REPLICATED_MS,
        }));
    }
    if let Some(why) = lost_within("no other node reported holding the final sync point", &log.rs[0]) {
        return Next::Fail(why);
    }
    if !c.has_kube {
        return Next::Pass;
    }
    if log.rs.len() <= 1 {
        return Next::Ask(get(api(c, cat2("/v1/workspaces/", ws).as_str()), c.probe_jwt.as_str()));
    }
    if let Some(why) = failed("could not read the workspace", &log.rs[1]) {
        return Next::Fail(why);
    }
    if log.rs.len() <= 2 {
        return Next::Ask(Ask::List { cluster: Cluster::Fleet, kind: Kind::Replica, ns: "".to_owned() });
    }
    end(named_by_a_replica(ws, &placement(&log.rs[1]), &log.rs[2]))
}

pub open spec fn start_next(c: RunV, ws: Seq<char>, rs: Seq<ReplyV>) -> NextV {
    link(
        rs, 0,
        posting(api_at(c, "/v1/workspaces/"@ + ws) + "/start"@, c.probe_jwt, Doc::Null), call_failed("could not start"@, rs[0]),
        link(
            rs, 1,
            AskV::Wait(WaitV::Doc {
                url: api_at(c, "/v1/workspaces/"@ + ws),
                token: c.probe_jwt,
                want: WantV::Field { key: "state"@, value: "ready"@ },
                cap_ms: START_MS,
            }),
            lost_of(rs[1]), NextV::Pass,
        ),
    )
}

fn start_body(c: &Run, ws: &str, log: &Log) -> (n: Next)
    ensures
        n@ == start_next(c@, ws@, log@.rs),
{
    if log.rs.len() <= 0 {
        return Next::Ask(post(
            cat2(api(c, cat2("/v1/workspaces/", ws).as_str()).as_str(), "/start"), c.probe_jwt.as_str(), Json::Null,
        ));
    }
    if let Some(why) = failed("could not start", &log.rs[0]) {
        return Next::Fail(why);
    }
    if log.rs.len() <= 1 {
        return Next::Ask(Ask::Wait(Wait::Doc {
            url: api(c, cat2("/v1/workspaces/", ws).as_str()),
            token: c.probe_jwt.clone(),
            want: Want::Field { key: "state".to_owned(), value: "ready".to_owned() },
            cap_ms: START_MS,
        }));
    }
    end(lost(&log.rs[1]))
}

pub open spec fn restore_next(c: RunV, name: Seq<char>, snapshot: Seq<char>, rs: Seq<ReplyV>) -> NextV {
    let id = made("could not restore"@, "id"@, "the restore answered no workspace id"@, rs[0])->Ok_0;
    link(
        rs, 0,
        posting(
            api_at(c, "/v1/workspaces/restore"@), c.probe_jwt,
            Doc::Obj(seq![("name"@, Doc::Str(name)), ("snapshot_id"@, Doc::Str(snapshot))]),
        ),
        err_of(made("could not restore"@, "id"@, "the restore answered no workspace id"@, rs[0])),
        link(
            rs, 1,
            AskV::Wait(WaitV::Doc {
                url: api_at(c, "/v1/workspaces/"@ + id),
                token: c.probe_jwt,
                want: WantV::Field { key: "state"@, value: "ready"@ },
                cap_ms: RESTORE_MS,
            }),
            lost_of(rs[1]), NextV::Pass,
        ),
    )
}

fn restore_body(c: &Run, name: &str, snapshot: &str, log: &Log) -> (n: Next)
    ensures
        n@ == restore_next(c@, name@, snapshot@, log@.rs),
{
    if log.rs.len() <= 0 {
        return Next::Ask(post(
            api(c, "/v1/workspaces/restore"), c.probe_jwt.as_str(), obj2("name", txt(name), "snapshot_id", txt(snapshot)),
        ));
    }
    let id = match made_of("could not restore", "id", "the restore answered no workspace id", &log.rs[0]) {
        Err(why) => {
            return Next::Fail(why);
        },
        Ok(t) => t,
    };
    if log.rs.len() <= 1 {
        return Next::Ask(Ask::Wait(Wait::Doc {
            url: api(c, cat2("/v1/workspaces/", id.as_str()).as_str()),
            token: c.probe_jwt.clone(),
            want: Want::Field { key: "state".to_owned(), value: "ready".to_owned() },
            cap_ms: RESTORE_MS,
        }));
    }
    end(lost(&log.rs[1]))
}

/// A volume's own cut: the agent made it, and no listing for a person shows it.
pub open spec fn is_sync_point(row: Doc, volume: Seq<char>) -> bool {
    doc_str(member2(row, "spec"@, "volume"@)) == Some(volume) && doc_bool(member(row, "isSnapshot"@)) == Some(false)
}

/// When an object was made, as far as that can be read.
pub open spec fn made_at(row: Doc) -> Option<(i64, u32)> {
    match doc_str(member2(row, "metadata"@, "creationTimestamp"@)) {
        Some(t) => instant_of(t),
        None => None,
    }
}

fn when_made(row: &Json) -> (r: Option<(i64, u32)>)
    ensures
        r == made_at(row@),
{
    match str_of(row.get2("metadata", "creationTimestamp")) {
        Some(t) => parse_instant(t.as_str()),
        None => None,
    }
}

/// Whether `a` is later than `b`; what is at no known time is earlier than anything that is.
pub open spec fn is_later(a: Option<(i64, u32)>, b: Option<(i64, u32)>) -> bool {
    match (a, b) {
        (Some(x), Some(y)) => x.0 > y.0 || (x.0 == y.0 && x.1 > y.1),
        (Some(_), None) => true,
        _ => false,
    }
}

fn later(a: Option<(i64, u32)>, b: Option<(i64, u32)>) -> (r: bool)
    ensures
        r == is_later(a, b),
{
    match (a, b) {
        (Some(x), Some(y)) => x.0 > y.0 || (x.0 == y.0 && x.1 > y.1),
        (Some(_), None) => true,
        _ => false,
    }
}

/// The newest sync point of a volume; of two that were made at one time, the first that is listed.
pub open spec fn newest_sync_point(rows: Seq<Doc>, volume: Seq<char>) -> Option<Doc>
    decreases rows.len(),
{
    if rows.len() == 0 {
        None
    } else {
        let before = newest_sync_point(rows.drop_last(), volume);
        if !is_sync_point(rows.last(), volume) {
            before
        } else {
            match before {
                Some(best) if !is_later(made_at(rows.last()), made_at(best)) => before,
                _ => Some(rows.last()),
            }
        }
    }
}

/// A volume's sync point is one of the listing, none of the volume's was made later, and there is one
/// wherever the listing has any.
pub proof fn law_no_sync_point_is_newer(rows: Seq<Doc>, volume: Seq<char>)
    ensures
        newest_sync_point(rows, volume) is None <==> forall|i: int| 0 <= i < rows.len() ==> !is_sync_point(#[trigger] rows[i], volume),
        newest_sync_point(rows, volume) matches Some(best) ==> {
            &&& rows.contains(best)
            &&& is_sync_point(best, volume)
            &&& forall|i: int| 0 <= i < rows.len() && is_sync_point(#[trigger] rows[i], volume) ==> !is_later(made_at(rows[i]), made_at(best))
        },
    decreases rows.len(),
{
    if rows.len() > 0 {
        let before = rows.drop_last();
        law_no_sync_point_is_newer(before, volume);
        assert forall|i: int| 0 <= i < before.len() implies rows[i] == #[trigger] before[i] by {}
        assert(rows[rows.len() - 1] == rows.last());
        if let Some(best) = newest_sync_point(before, volume) {
            let k = choose|k: int| 0 <= k < before.len() && before[k] == best;
            assert(rows[k] == best);
            assert(is_sync_point(rows[k], volume));
        }
        assert forall|i: int| 0 <= i < rows.len() && is_sync_point(#[trigger] rows[i], volume) implies newest_sync_point(rows, volume) is Some by {
            if i < before.len() {
                assert(is_sync_point(before[i], volume));
            }
        }
        if let Some(best) = newest_sync_point(rows, volume) {
            assert forall|i: int| 0 <= i < rows.len() && is_sync_point(#[trigger] rows[i], volume) implies !is_later(
                made_at(rows[i]), made_at(best),
            ) by {
                if i < before.len() {
                    assert(is_sync_point(before[i], volume));
                }
            }
        }
    }
}

fn sync_point_in(rows: &Vec<Json>, volume: &str) -> (r: Option<String>)
    ensures
        opt(r) == (match newest_sync_point(docs(rows@), volume@) { Some(d) => Some(name_of(d)), None => None }),
{
    let ghost all = docs(rows@);
    proof {
        lemma_docs(rows@);
        assert(all.take(0) =~= Seq::<Doc>::empty());
    }
    let mut best: Option<usize> = None;
    let mut i: usize = 0;
    while i < rows.len()
        invariant
            i <= rows@.len(),
            all == docs(rows@),
            all.len() == rows@.len(),
            forall|k: int| 0 <= k < rows@.len() ==> all[k] == (#[trigger] rows@[k])@,
            best matches Some(b) ==> b < i,
            newest_sync_point(all.take(i as int), volume@) == (match best { Some(b) => Some(rows@[b as int]@), None => None }),
        decreases rows.len() - i,
    {
        proof {
            assert(all.take(i + 1).drop_last() =~= all.take(i as int));
            assert(all.take(i + 1).last() == rows@[i as int]@);
        }
        let here = match str_of(rows[i].get2("spec", "volume")) {
            Some(v) => same(v.as_str(), volume),
            None => false,
        };
        let cut = match bool_of(rows[i].get("isSnapshot")) {
            Some(b) => !b,
            None => false,
        };
        if here && cut {
            let newer = match best {
                Some(b) => later(when_made(&rows[i]), when_made(&rows[b])),
                None => true,
            };
            if newer {
                best = Some(i);
            }
        }
        i = i + 1;
    }
    proof {
        assert(all.take(all.len() as int) =~= all);
    }
    match best {
        Some(b) => Some(object_name(&rows[b])),
        None => None,
    }
}

/// The newest sync point of a volume, or why there is none to try.
pub open spec fn sync_point_of(volume: Seq<char>, r: ReplyV) -> Result<Seq<char>, Seq<char>> {
    match object_of(r) {
        Err(why) => Err(within("could not list the volume's snapshots"@, why)),
        Ok(d) => match newest_sync_point(rows_of(Some(d)), volume) {
            Some(row) => Ok(name_of(row)),
            None => Err("the volume has no sync point to try deleting"@),
        },
    }
}

pub fn sync_point(volume: &str, r: &Reply) -> (o: Result<String, String>)
    ensures
        (match o { Ok(t) => Ok(t@), Err(e) => Err(e@) }) == sync_point_of(volume@, r@),
{
    match object(r) {
        Err(why) => Err(inside("could not list the volume's snapshots", why.as_str())),
        Ok(d) => {
            let found = match array_of(Some(&d)) {
                Some(rows) => sync_point_in(rows, volume),
                None => None,
            };
            match found {
                Some(name) => Ok(name),
                None => Err("the volume has no sync point to try deleting".to_owned()),
            }
        },
    }
}

/// Why a delete that must be refused was not.
pub open spec fn unrefused(what: Seq<char>, r: ReplyV) -> Option<Seq<char>> {
    match raw_of(r) {
        Err(why) => Some(why),
        Ok((status, text)) => if status == 409 {
            None
        } else {
            Some("deleting "@ + what + " answered "@ + status_line(status) + ": "@ + clipped(text, 200))
        },
    }
}

fn refused(what: &str, r: &Reply) -> (o: Option<String>)
    ensures
        opt(o) == unrefused(what@, r@),
{
    match raw(r) {
        Err(why) => Some(why),
        Ok((status, text)) => {
            if status == 409 {
                None
            } else {
                Some(cat6(
                    "deleting ", what, " answered ", status_text(status).as_str(), ": ", first_chars(text.as_str(), 200).as_str(),
                ))
            }
        },
    }
}

pub open spec fn sync_next(c: RunV, volume: Seq<char>, rs: Seq<ReplyV>) -> NextV {
    link(
        rs, 0,
        AskV::List { cluster: Cluster::Fleet, kind: Kind::Snapshot, ns: ""@ }, err_of(sync_point_of(volume, rs[0])),
        NextV::Pass,
    )
}

fn sync_body(c: &Run, volume: &str, log: &Log) -> (n: Next)
    ensures
        n@ == sync_next(c@, volume@, log@.rs),
{
    if log.rs.len() <= 0 {
        return Next::Ask(Ask::List { cluster: Cluster::Fleet, kind: Kind::Snapshot, ns: "".to_owned() });
    }
    match sync_point(volume, &log.rs[0]) {
        Ok(_) => Next::Pass,
        Err(why) => Next::Fail(why),
    }
}

/// The three deletes that must be refused, all or none: a tier that refused everything would pass
/// any one of them.
pub open spec fn refusals_next(c: RunV, volume: Seq<char>, snapshot: Seq<char>, sync: Seq<char>, rs: Seq<ReplyV>) -> NextV {
    link(
        rs, 0,
        deleting(api_at(c, "/v1/volumes/"@ + volume) + "/snapshots/"@ + sync, c.probe_jwt), unrefused("a sync point"@, rs[0]),
        link(
            rs, 1,
            deleting(api_at(c, "/v1/volumes/"@ + volume) + "/snapshots/"@ + snapshot, c.probe_jwt),
            unrefused("a running worktree's base"@, rs[1]),
            link(
                rs, 2, deleting(api_at(c, "/v1/volumes/"@ + volume), c.probe_jwt),
                unrefused("a volume with a working copy"@, rs[2]), NextV::Pass,
            ),
        ),
    )
}

fn refusals_body(c: &Run, volume: &str, snapshot: &str, sync: &str, log: &Log) -> (n: Next)
    ensures
        n@ == refusals_next(c@, volume@, snapshot@, sync@, log@.rs),
{
    if log.rs.len() <= 0 {
        return Next::Ask(erase(
            cat3(api(c, cat2("/v1/volumes/", volume).as_str()).as_str(), "/snapshots/", sync), c.probe_jwt.as_str(),
        ));
    }
    if let Some(why) = refused("a sync point", &log.rs[0]) {
        return Next::Fail(why);
    }
    if log.rs.len() <= 1 {
        return Next::Ask(erase(
            cat3(api(c, cat2("/v1/volumes/", volume).as_str()).as_str(), "/snapshots/", snapshot), c.probe_jwt.as_str(),
        ));
    }
    if let Some(why) = refused("a running worktree's base", &log.rs[1]) {
        return Next::Fail(why);
    }
    if log.rs.len() <= 2 {
        return Next::Ask(erase(api(c, cat2("/v1/volumes/", volume).as_str()), c.probe_jwt.as_str()));
    }
    end(refused("a volume with a working copy", &log.rs[2]))
}

/// Every working copy of the run goes.
pub open spec fn detach_all_next(c: RunV, rs: Seq<ReplyV>) -> NextV {
    link(
        rs, 0,
        AskV::Wait(WaitV::Detached {
            url: api_at(c, "/v1/workspaces"@),
            token: c.probe_jwt,
            prefix: prefix_of(c),
            cap_ms: DETACH_MS,
        }),
        lost_of(rs[0]), NextV::Pass,
    )
}

fn detach_all_body(c: &Run, log: &Log) -> (n: Next)
    ensures
        n@ == detach_all_next(c@, log@.rs),
{
    if log.rs.len() <= 0 {
        return Next::Ask(Ask::Wait(Wait::Detached {
            url: api(c, "/v1/workspaces"),
            token: c.probe_jwt.clone(),
            prefix: prefix(c),
            cap_ms: DETACH_MS,
        }));
    }
    end(lost(&log.rs[0]))
}

/// A snapshot that no working copy stands on still restores: to be taken is what is measured.
pub open spec fn detached_next(c: RunV, name: Seq<char>, snapshot: Seq<char>, rs: Seq<ReplyV>) -> NextV {
    let id = made("the detached snapshot would not restore"@, "id"@, "the restore answered no workspace id"@, rs[0])->Ok_0;
    link(
        rs, 0,
        posting(
            api_at(c, "/v1/workspaces/restore"@), c.probe_jwt,
            Doc::Obj(seq![("name"@, Doc::Str(name)), ("snapshot_id"@, Doc::Str(snapshot))]),
        ),
        err_of(made("the detached snapshot would not restore"@, "id"@, "the restore answered no workspace id"@, rs[0])),
        NextV::Pass,
    )
}

fn detached_body(c: &Run, name: &str, snapshot: &str, log: &Log) -> (n: Next)
    ensures
        n@ == detached_next(c@, name@, snapshot@, log@.rs),
{
    if log.rs.len() <= 0 {
        return Next::Ask(post(
            api(c, "/v1/workspaces/restore"), c.probe_jwt.as_str(), obj2("name", txt(name), "snapshot_id", txt(snapshot)),
        ));
    }
    match made_of("the detached snapshot would not restore", "id", "the restore answered no workspace id", &log.rs[0]) {
        Ok(_) => Next::Pass,
        Err(why) => Next::Fail(why),
    }
}

/// With no working copy and no snapshot left, the volume is collected.
pub open spec fn orphan_next(c: RunV, volume: Seq<char>, rs: Seq<ReplyV>) -> NextV {
    link(
        rs, 0,
        AskV::Wait(WaitV::Collected {
            workspaces: api_at(c, "/v1/workspaces"@),
            base: api_at(c, "/v1/volumes/"@ + volume),
            token: c.probe_jwt,
            prefix: prefix_of(c),
            volume,
            cap_ms: ORPHAN_MS,
        }),
        lost_of(rs[0]), NextV::Pass,
    )
}

fn orphan_body(c: &Run, volume: &str, log: &Log) -> (n: Next)
    ensures
        n@ == orphan_next(c@, volume@, log@.rs),
{
    if log.rs.len() <= 0 {
        return Next::Ask(Ask::Wait(Wait::Collected {
            workspaces: api(c, "/v1/workspaces"),
            base: api(c, cat2("/v1/volumes/", volume).as_str()),
            token: c.probe_jwt.clone(),
            prefix: prefix(c),
            volume: volume.to_owned(),
            cap_ms: ORPHAN_MS,
        }));
    }
    end(lost(&log.rs[0]))
}

// ── the environment ─────────────────────────────────────────────────────────

pub open spec fn env_stop_next(c: RunV, env: Seq<char>, rs: Seq<ReplyV>) -> NextV {
    link(
        rs, 0,
        posting(api_at(c, "/v1/environments/"@ + env) + "/stop"@, c.probe_jwt, Doc::Null),
        call_failed("could not stop"@, rs[0]),
        link(
            rs, 1,
            AskV::Wait(WaitV::Doc {
                url: api_at(c, "/v1/environments/"@ + env),
                token: c.probe_jwt,
                want: WantV::Field { key: "state"@, value: "stopped"@ },
                cap_ms: ENV_STOP_MS,
            }),
            lost_of(rs[1]), NextV::Pass,
        ),
    )
}

fn env_stop_body(c: &Run, env: &str, log: &Log) -> (n: Next)
    ensures
        n@ == env_stop_next(c@, env@, log@.rs),
{
    if log.rs.len() <= 0 {
        return Next::Ask(post(
            cat2(api(c, cat2("/v1/environments/", env).as_str()).as_str(), "/stop"), c.probe_jwt.as_str(), Json::Null,
        ));
    }
    if let Some(why) = failed("could not stop", &log.rs[0]) {
        return Next::Fail(why);
    }
    if log.rs.len() <= 1 {
        return Next::Ask(Ask::Wait(Wait::Doc {
            url: api(c, cat2("/v1/environments/", env).as_str()),
            token: c.probe_jwt.clone(),
            want: Want::Field { key: "state".to_owned(), value: "stopped".to_owned() },
            cap_ms: ENV_STOP_MS,
        }));
    }
    end(lost(&log.rs[1]))
}

pub open spec fn env_replicated_next(c: RunV, env: Seq<char>, rs: Seq<ReplyV>) -> NextV {
    link(
        rs, 0,
        AskV::Wait(WaitV::Doc {
            url: api_at(c, "/v1/environments/"@ + env),
            token: c.probe_jwt,
            want: WantV::Replicated,
            cap_ms: ENV_REPLICATED_MS,
        }),
        lost_in("no other node reported holding the final sync point"@, rs[0]), NextV::Pass,
    )
}

fn env_replicated_body(c: &Run, env: &str, log: &Log) -> (n: Next)
    ensures
        n@ == env_replicated_next(c@, env@, log@.rs),
{
    if log.rs.len() <= 0 {
        return Next::Ask(Ask::Wait(Wait::Doc {
            url: api(c, cat2("/v1/environments/", env).as_str()),
            token: c.probe_jwt.clone(),
            want: Want::Replicated,
            cap_ms: ENV_REPLICATED_MS,
        }));
    }
    end(lost_within("no other node reported holding the final sync point", &log.rs[0]))
}

pub open spec fn env_start_next(c: RunV, env: Seq<char>, rs: Seq<ReplyV>) -> NextV {
    link(
        rs, 0,
        posting(api_at(c, "/v1/environments/"@ + env) + "/start"@, c.probe_jwt, Doc::Null),
        call_failed("could not start"@, rs[0]),
        link(
            rs, 1,
            AskV::Wait(WaitV::Doc {
                url: api_at(c, "/v1/environments/"@ + env),
                token: c.probe_jwt,
                want: WantV::Field { key: "state"@, value: "running"@ },
                cap_ms: ENV_START_MS,
            }),
            lost_of(rs[1]), NextV::Pass,
        ),
    )
}

fn env_start_body(c: &Run, env: &str, log: &Log) -> (n: Next)
    ensures
        n@ == env_start_next(c@, env@, log@.rs),
{
    if log.rs.len() <= 0 {
        return Next::Ask(post(
            cat2(api(c, cat2("/v1/environments/", env).as_str()).as_str(), "/start"), c.probe_jwt.as_str(), Json::Null,
        ));
    }
    if let Some(why) = failed("could not start", &log.rs[0]) {
        return Next::Fail(why);
    }
    if log.rs.len() <= 1 {
        return Next::Ask(Ask::Wait(Wait::Doc {
            url: api(c, cat2("/v1/environments/", env).as_str()),
            token: c.probe_jwt.clone(),
            want: Want::Field { key: "state".to_owned(), value: "running".to_owned() },
            cap_ms: ENV_START_MS,
        }));
    }
    end(lost(&log.rs[1]))
}

/// A new environment on what was pushed, with the services the snapshot froze. To be taken is not
/// to be restored: it ends at running, with its services ready where the cluster can be read.
pub open spec fn env_restore_next(c: RunV, name: Seq<char>, snapshot: Seq<char>, rs: Seq<ReplyV>) -> NextV {
    let id = made("could not restore the environment"@, "id"@, "the restore answered no environment id"@, rs[0])->Ok_0;
    link(
        rs, 0,
        posting(
            api_at(c, "/v1/environments/restore"@), c.probe_jwt,
            Doc::Obj(seq![("name"@, Doc::Str(name)), ("snapshot_id"@, Doc::Str(snapshot))]),
        ),
        err_of(made("could not restore the environment"@, "id"@, "the restore answered no environment id"@, rs[0])),
        link(
            rs, 1,
            AskV::Wait(WaitV::Doc {
                url: api_at(c, "/v1/environments/"@ + id),
                token: c.probe_jwt,
                want: WantV::Field { key: "state"@, value: "running"@ },
                cap_ms: ENV_RESTORE_MS,
            }),
            lost_in("the restored environment never reported running"@, rs[1]),
            if c.has_kube {
                link(
                    rs, 2,
                    AskV::Wait(WaitV::Replicas { ns: env_ns(id), name: "redis"@, cap_ms: ENV_RESTORE_MS }), lost_of(rs[2]),
                    NextV::Pass,
                )
            } else {
                NextV::Pass
            },
        ),
    )
}

fn env_restore_body(c: &Run, name: &str, snapshot: &str, log: &Log) -> (n: Next)
    ensures
        n@ == env_restore_next(c@, name@, snapshot@, log@.rs),
{
    if log.rs.len() <= 0 {
        return Next::Ask(post(
            api(c, "/v1/environments/restore"), c.probe_jwt.as_str(), obj2("name", txt(name), "snapshot_id", txt(snapshot)),
        ));
    }
    let id = match made_of("could not restore the environment", "id", "the restore answered no environment id", &log.rs[0]) {
        Err(why) => {
            return Next::Fail(why);
        },
        Ok(t) => t,
    };
    if log.rs.len() <= 1 {
        return Next::Ask(Ask::Wait(Wait::Doc {
            url: api(c, cat2("/v1/environments/", id.as_str()).as_str()),
            token: c.probe_jwt.clone(),
            want: Want::Field { key: "state".to_owned(), value: "running".to_owned() },
            cap_ms: ENV_RESTORE_MS,
        }));
    }
    if let Some(why) = lost_within("the restored environment never reported running", &log.rs[1]) {
        return Next::Fail(why);
    }
    if !c.has_kube {
        return Next::Pass;
    }
    if log.rs.len() <= 2 {
        return Next::Ask(Ask::Wait(Wait::Replicas {
            ns: env_namespace(id.as_str()),
            name: "redis".to_owned(),
            cap_ms: ENV_RESTORE_MS,
        }));
    }
    end(lost(&log.rs[2]))
}

// ── the deletes ─────────────────────────────────────────────────────────────

/// Why the volume of a deleted environment is not there any more.
pub open spec fn taken_along(volume: Seq<char>, r: ReplyV) -> Option<Seq<char>> {
    match volume_listed_in(volume, r) {
        Err(why) => Some(why),
        Ok(listed) => if listed {
            None
        } else {
            Some("the volume was taken with the environment even though a snapshot remains"@)
        },
    }
}

fn went_along(volume: &str, r: &Reply) -> (o: Option<String>)
    ensures
        opt(o) == taken_along(volume@, r@),
{
    match volume_listed(volume, r) {
        Err(why) => Some(why),
        Ok(listed) => {
            if listed { None } else { Some("the volume was taken with the environment even though a snapshot remains".to_owned()) }
        },
    }
}

/// The leftover environments from the `i`th on, each deleted and waited for; then the volume is still to
/// be there, and its history to be read. `rs` begins behind the listing of the environments.
pub open spec fn leftovers_next(c: RunV, ids: Seq<Seq<char>>, volume: Seq<char>, rs: Seq<ReplyV>, i: nat) -> NextV
    decreases ids.len() - i,
{
    if i >= ids.len() {
        let n = 2 * ids.len();
        link(
            rs, n, getting(api_at(c, "/v1/volumes"@), c.probe_jwt), taken_along(volume, rs[n as int]),
            link(
                rs, n + 1, getting(api_at(c, "/v1/volumes/"@ + volume) + "/history"@, c.probe_jwt),
                call_failed("the volume was kept, but not its history"@, rs[n as int + 1]), NextV::Pass,
            ),
        )
    } else {
        let url = api_at(c, "/v1/environments/"@ + ids[i as int]);
        also(
            rs, 2 * i, deleting(url, c.probe_jwt),
            link(
                rs, 2 * i + 1,
                AskV::Wait(
                    WaitV::Departed {
                        url,
                        token: c.probe_jwt,
                        what: "a leftover environment on this run's volume"@,
                        cap_ms: WAIT_MS,
                    },
                ),
                lost_of(rs[2 * i as int + 1]), leftovers_next(c, ids, volume, rs, i + 1),
            ),
        )
    }
}

fn leftovers(c: &Run, ids: &Vec<String>, volume: &str, log: &Log, from: usize) -> (n: Next)
    requires
        from <= log@.rs.len(),
    ensures
        n@ == leftovers_next(c@, texts(ids@), volume@, log@.rs.skip(from as int), 0),
{
    let ghost rs = log@.rs.skip(from as int);
    let ghost all = texts(ids@);
    let mut i: usize = 0;
    let mut k: usize = from;
    while i < ids.len()
        invariant
            i <= ids@.len(),
            all == texts(ids@),
            rs == log@.rs.skip(from as int),
            from <= k <= log@.rs.len(),
            k - from == 2 * i,
            leftovers_next(c@, all, volume@, rs, 0) == leftovers_next(c@, all, volume@, rs, i as nat),
        decreases ids.len() - i,
    {
        let url = api(c, cat2("/v1/environments/", ids[i].as_str()).as_str());
        if log.rs.len() == k {
            return Next::Ask(erase(url, c.probe_jwt.as_str()));
        }
        if log.rs.len() - k == 1 {
            return Next::Ask(Ask::Wait(Wait::Departed {
                url,
                token: c.probe_jwt.clone(),
                what: "a leftover environment on this run's volume".to_owned(),
                cap_ms: WAIT_MS,
            }));
        }
        if let Some(why) = lost(&log.rs[k + 1]) {
            return Next::Fail(why);
        }
        k = k + 2;
        i = i + 1;
    }
    if log.rs.len() == k {
        return Next::Ask(get(api(c, "/v1/volumes"), c.probe_jwt.as_str()));
    }
    if let Some(why) = went_along(volume, &log.rs[k]) {
        return Next::Fail(why);
    }
    if log.rs.len() - k == 1 {
        return Next::Ask(get(cat2(api(c, cat2("/v1/volumes/", volume).as_str()).as_str(), "/history"), c.probe_jwt.as_str()));
    }
    end(failed("the volume was kept, but not its history", &log.rs[k + 1]))
}

/// The environment goes, and so does every other one of the run: one that was restored still stands
/// on the snapshot. With no working copy left at all, the volume that remains can only be held by
/// its snapshot.
pub open spec fn env_delete_next(c: RunV, env: Seq<char>, volume: Seq<char>, rs: Seq<ReplyV>) -> NextV {
    link(
        rs, 0,
        deleting(api_at(c, "/v1/environments/"@ + env), c.probe_jwt), call_failed("could not delete the environment"@, rs[0]),
        link(
            rs, 1,
            AskV::Wait(WaitV::Departed {
                url: api_at(c, "/v1/environments/"@ + env),
                token: c.probe_jwt,
                what: "the environment's worktree"@,
                cap_ms: WAIT_MS,
            }),
            lost_of(rs[1]),
            also(
                rs, 2, getting(api_at(c, "/v1/environments"@), c.probe_jwt),
                leftovers_next(c, ours_in(prefix_of(c), rs[2]), volume, rs.skip(3), 0),
            ),
        ),
    )
}

fn env_delete_body(c: &Run, env: &str, volume: &str, log: &Log, from: usize) -> (n: Next)
    requires
        from <= log@.rs.len(),
    ensures
        n@ == env_delete_next(c@, env@, volume@, log@.rs.skip(from as int)),
{
    if log.rs.len() - from <= 0 {
        return Next::Ask(erase(api(c, cat2("/v1/environments/", env).as_str()), c.probe_jwt.as_str()));
    }
    if let Some(why) = failed("could not delete the environment", &log.rs[from]) {
        return Next::Fail(why);
    }
    if log.rs.len() - from <= 1 {
        return Next::Ask(Ask::Wait(Wait::Departed {
            url: api(c, cat2("/v1/environments/", env).as_str()),
            token: c.probe_jwt.clone(),
            what: "the environment's worktree".to_owned(),
            cap_ms: WAIT_MS,
        }));
    }
    if let Some(why) = lost(&log.rs[from + 1]) {
        return Next::Fail(why);
    }
    if log.rs.len() - from <= 2 {
        return Next::Ask(get(api(c, "/v1/environments"), c.probe_jwt.as_str()));
    }
    let ids = worktrees(prefix(c).as_str(), &log.rs[from + 2]);
    proof {
        assert(log@.rs.skip(from as int).skip(3) =~= log@.rs.skip(from + 3));
    }
    leftovers(c, &ids, volume, log, from + 3)
}

/// A clone that was never pushed goes with its volume; one that is gone already is as it should be.
pub open spec fn clone_delete_next(c: RunV, copy: Seq<char>, rs: Seq<ReplyV>) -> NextV {
    also(
        rs, 0, deleting(api_at(c, "/v1/workspaces/"@ + copy), c.probe_jwt),
        link(
            rs, 1,
            AskV::Wait(WaitV::Departed {
                url: api_at(c, "/v1/workspaces/"@ + copy),
                token: c.probe_jwt,
                what: "the clone's worktree"@,
                cap_ms: WAIT_MS,
            }),
            lost_of(rs[1]),
            link(
                rs, 2,
                AskV::Wait(WaitV::Unlisted {
                    url: api_at(c, "/v1/volumes"@),
                    token: c.probe_jwt,
                    name: copy,
                    what: "the clone's volume with no snapshot"@,
                    cap_ms: WAIT_MS,
                }),
                lost_of(rs[2]), NextV::Pass,
            ),
        ),
    )
}

fn clone_delete_body(c: &Run, copy: &str, log: &Log) -> (n: Next)
    ensures
        n@ == clone_delete_next(c@, copy@, log@.rs),
{
    if log.rs.len() <= 0 {
        return Next::Ask(erase(api(c, cat2("/v1/workspaces/", copy).as_str()), c.probe_jwt.as_str()));
    }
    if log.rs.len() <= 1 {
        return Next::Ask(Ask::Wait(Wait::Departed {
            url: api(c, cat2("/v1/workspaces/", copy).as_str()),
            token: c.probe_jwt.clone(),
            what: "the clone's worktree".to_owned(),
            cap_ms: WAIT_MS,
        }));
    }
    if let Some(why) = lost(&log.rs[1]) {
        return Next::Fail(why);
    }
    if log.rs.len() <= 2 {
        return Next::Ask(Ask::Wait(Wait::Unlisted {
            url: api(c, "/v1/volumes"),
            token: c.probe_jwt.clone(),
            name: copy.to_owned(),
            what: "the clone's volume with no snapshot".to_owned(),
            cap_ms: WAIT_MS,
        }));
    }
    end(lost(&log.rs[2]))
}

/// Both directions of what a delete keeps: a clone without a snapshot takes its volume along, and an
/// environment with one leaves it standing. Either alone would be met by keeping everything, or nothing.
pub open spec fn wt_delete_next(c: RunV, env: Seq<char>, volume: Seq<char>, clone: Option<Seq<char>>, rs: Seq<ReplyV>) -> NextV {
    match clone {
        Some(copy) => and_on(clone_delete_next(c, copy, rs), env_delete_next(c, env, volume, rs.skip(3))),
        None => env_delete_next(c, env, volume, rs),
    }
}

fn wt_delete_body(c: &Run, env: &str, volume: &str, clone: &Option<String>, log: &Log) -> (n: Next)
    ensures
        n@ == wt_delete_next(c@, env@, volume@, opt(*clone), log@.rs),
{
    match clone {
        Some(copy) => match clone_delete_body(c, copy.as_str(), log) {
            Next::Pass => {
                proof {
                    assert(log@.rs.len() >= 3);
                }
                env_delete_body(c, env, volume, log, 3)
            },
            other => other,
        },
        None => {
            proof {
                assert(log@.rs.skip(0) =~= log@.rs);
            }
            env_delete_body(c, env, volume, log, 0)
        },
    }
}

/// Why a deleted snapshot is not out of the history. A volume that is gone has none left.
pub open spec fn still_in_history(snapshot: Seq<char>, r: ReplyV) -> Option<Seq<char>> {
    match raw_of(r) {
        Err(why) => Some(within("could not read the history"@, why)),
        Ok((404, _)) => None,
        Ok(_) => match doc_of(r) {
            Err(why) => Some(within("could not read the history"@, why)),
            Ok(d) => if row_named(rows_of(Some(d)), "id"@, snapshot) is Some {
                Some("the deleted snapshot is still in the history"@)
            } else {
                None
            },
        },
    }
}

fn in_history_still(snapshot: &str, r: &Reply) -> (o: Option<String>)
    ensures
        opt(o) == still_in_history(snapshot@, r@),
{
    match raw(r) {
        Err(why) => {
            return Some(inside("could not read the history", why.as_str()));
        },
        Ok((status, _)) => {
            if status == 404 {
                return None;
            }
        },
    }
    match doc(r) {
        Err(why) => Some(inside("could not read the history", why.as_str())),
        Ok(d) => {
            if row_in(Some(&d), "id", snapshot).is_some() {
                Some("the deleted snapshot is still in the history".to_owned())
            } else {
                None
            }
        },
    }
}

/// The last snapshot of a volume that nothing is on: its delete takes the volume with it, and the
/// snapshot out of the history.
pub open spec fn snap_delete_next(c: RunV, volume: Seq<char>, snapshot: Seq<char>, rs: Seq<ReplyV>) -> NextV {
    link(
        rs, 0,
        deleting(api_at(c, "/v1/volumes/"@ + volume) + "/snapshots/"@ + snapshot, c.probe_jwt),
        call_failed("could not delete the snapshot"@, rs[0]),
        link(
            rs, 1,
            AskV::Wait(WaitV::Unlisted {
                url: api_at(c, "/v1/volumes"@),
                token: c.probe_jwt,
                name: volume,
                what: "the detached volume's last snapshot"@,
                cap_ms: SNAP_DELETE_MS,
            }),
            lost_of(rs[1]),
            link(
                rs, 2,
                getting(api_at(c, "/v1/volumes/"@ + volume) + "/history"@, c.probe_jwt), still_in_history(snapshot, rs[2]),
                NextV::Pass,
            ),
        ),
    )
}

fn snap_delete_body(c: &Run, volume: &str, snapshot: &str, log: &Log) -> (n: Next)
    ensures
        n@ == snap_delete_next(c@, volume@, snapshot@, log@.rs),
{
    if log.rs.len() <= 0 {
        return Next::Ask(erase(
            cat3(api(c, cat2("/v1/volumes/", volume).as_str()).as_str(), "/snapshots/", snapshot), c.probe_jwt.as_str(),
        ));
    }
    if let Some(why) = failed("could not delete the snapshot", &log.rs[0]) {
        return Next::Fail(why);
    }
    if log.rs.len() <= 1 {
        return Next::Ask(Ask::Wait(Wait::Unlisted {
            url: api(c, "/v1/volumes"),
            token: c.probe_jwt.clone(),
            name: volume.to_owned(),
            what: "the detached volume's last snapshot".to_owned(),
            cap_ms: SNAP_DELETE_MS,
        }));
    }
    if let Some(why) = lost(&log.rs[1]) {
        return Next::Fail(why);
    }
    if log.rs.len() <= 2 {
        return Next::Ask(get(cat2(api(c, cat2("/v1/volumes/", volume).as_str()).as_str(), "/history"), c.probe_jwt.as_str()));
    }
    end(in_history_still(snapshot, &log.rs[2]))
}

// ── the bodies ──────────────────────────────────────────────────────────────

pub enum Body {
    Stop { ws: String },
    Replicated { ws: String },
    Start { ws: String },
    Restore { name: String, snapshot: String },
    SyncPoint { volume: String },
    Refusals { volume: String, snapshot: String, sync: String },
    DetachAll,
    Detached { name: String, snapshot: String },
    Orphan { volume: String },
    EnvStop { env: String },
    EnvReplicated { env: String },
    EnvStart { env: String },
    EnvRestore { name: String, snapshot: String },
    WtDelete { env: String, volume: String, clone: Option<String> },
    SnapDelete { volume: String, snapshot: String },
}

pub enum BodyV {
    Stop { ws: Seq<char> },
    Replicated { ws: Seq<char> },
    Start { ws: Seq<char> },
    Restore { name: Seq<char>, snapshot: Seq<char> },
    SyncPoint { volume: Seq<char> },
    Refusals { volume: Seq<char>, snapshot: Seq<char>, sync: Seq<char> },
    DetachAll,
    Detached { name: Seq<char>, snapshot: Seq<char> },
    Orphan { volume: Seq<char> },
    EnvStop { env: Seq<char> },
    EnvReplicated { env: Seq<char> },
    EnvStart { env: Seq<char> },
    EnvRestore { name: Seq<char>, snapshot: Seq<char> },
    WtDelete { env: Seq<char>, volume: Seq<char>, clone: Option<Seq<char>> },
    SnapDelete { volume: Seq<char>, snapshot: Seq<char> },
}

impl View for Body {
    type V = BodyV;

    open spec fn view(&self) -> BodyV {
        match self {
            Body::Stop { ws } => BodyV::Stop { ws: ws@ },
            Body::Replicated { ws } => BodyV::Replicated { ws: ws@ },
            Body::Start { ws } => BodyV::Start { ws: ws@ },
            Body::Restore { name, snapshot } => BodyV::Restore { name: name@, snapshot: snapshot@ },
            Body::SyncPoint { volume } => BodyV::SyncPoint { volume: volume@ },
            Body::Refusals { volume, snapshot, sync } => BodyV::Refusals { volume: volume@, snapshot: snapshot@, sync: sync@ },
            Body::DetachAll => BodyV::DetachAll,
            Body::Detached { name, snapshot } => BodyV::Detached { name: name@, snapshot: snapshot@ },
            Body::Orphan { volume } => BodyV::Orphan { volume: volume@ },
            Body::EnvStop { env } => BodyV::EnvStop { env: env@ },
            Body::EnvReplicated { env } => BodyV::EnvReplicated { env: env@ },
            Body::EnvStart { env } => BodyV::EnvStart { env: env@ },
            Body::EnvRestore { name, snapshot } => BodyV::EnvRestore { name: name@, snapshot: snapshot@ },
            Body::WtDelete { env, volume, clone } => BodyV::WtDelete { env: env@, volume: volume@, clone: opt(*clone) },
            Body::SnapDelete { volume, snapshot } => BodyV::SnapDelete { volume: volume@, snapshot: snapshot@ },
        }
    }
}

/// What a body does next.
pub open spec fn body_next(c: RunV, b: BodyV, log: LogV) -> NextV {
    match b {
        BodyV::Stop { ws } => stop_next(c, ws, log.rs),
        BodyV::Replicated { ws } => replicated_next(c, ws, log.rs),
        BodyV::Start { ws } => start_next(c, ws, log.rs),
        BodyV::Restore { name, snapshot } => restore_next(c, name, snapshot, log.rs),
        BodyV::SyncPoint { volume } => sync_next(c, volume, log.rs),
        BodyV::Refusals { volume, snapshot, sync } => refusals_next(c, volume, snapshot, sync, log.rs),
        BodyV::DetachAll => detach_all_next(c, log.rs),
        BodyV::Detached { name, snapshot } => detached_next(c, name, snapshot, log.rs),
        BodyV::Orphan { volume } => orphan_next(c, volume, log.rs),
        BodyV::EnvStop { env } => env_stop_next(c, env, log.rs),
        BodyV::EnvReplicated { env } => env_replicated_next(c, env, log.rs),
        BodyV::EnvStart { env } => env_start_next(c, env, log.rs),
        BodyV::EnvRestore { name, snapshot } => env_restore_next(c, name, snapshot, log.rs),
        BodyV::WtDelete { env, volume, clone } => wt_delete_next(c, env, volume, clone, log.rs),
        BodyV::SnapDelete { volume, snapshot } => snap_delete_next(c, volume, snapshot, log.rs),
    }
}

/// What a body has learned: the sync point it found, or the environment it restored, whose volume has its
/// id for a name.
pub open spec fn body_found(b: BodyV, log: LogV) -> Option<Seq<char>> {
    match b {
        BodyV::SyncPoint { volume } => if log.rs.len() > 0 {
            match sync_point_of(volume, log.rs[0]) {
                Ok(name) => Some(name),
                Err(_) => None,
            }
        } else {
            None
        },
        BodyV::EnvRestore { .. } => if log.rs.len() > 0 { id_in(log.rs[0]) } else { None },
        _ => None,
    }
}

impl Body {
    pub fn next(&self, c: &Run, log: &Log) -> (n: Next)
        ensures
            n@ == body_next(c@, self@, log@),
    {
        match self {
            Body::Stop { ws } => stop_body(c, ws.as_str(), log),
            Body::Replicated { ws } => replicated_body(c, ws.as_str(), log),
            Body::Start { ws } => start_body(c, ws.as_str(), log),
            Body::Restore { name, snapshot } => restore_body(c, name.as_str(), snapshot.as_str(), log),
            Body::SyncPoint { volume } => sync_body(c, volume.as_str(), log),
            Body::Refusals { volume, snapshot, sync } => refusals_body(c, volume.as_str(), snapshot.as_str(), sync.as_str(), log),
            Body::DetachAll => detach_all_body(c, log),
            Body::Detached { name, snapshot } => detached_body(c, name.as_str(), snapshot.as_str(), log),
            Body::Orphan { volume } => orphan_body(c, volume.as_str(), log),
            Body::EnvStop { env } => env_stop_body(c, env.as_str(), log),
            Body::EnvReplicated { env } => env_replicated_body(c, env.as_str(), log),
            Body::EnvStart { env } => env_start_body(c, env.as_str(), log),
            Body::EnvRestore { name, snapshot } => env_restore_body(c, name.as_str(), snapshot.as_str(), log),
            Body::WtDelete { env, volume, clone } => wt_delete_body(c, env.as_str(), volume.as_str(), clone, log),
            Body::SnapDelete { volume, snapshot } => snap_delete_body(c, volume.as_str(), snapshot.as_str(), log),
        }
    }

    pub fn found(&self, log: &Log) -> (r: Option<String>)
        ensures
            opt(r) == body_found(self@, log@),
    {
        match self {
            Body::SyncPoint { volume } => {
                if log.rs.len() > 0 {
                    match sync_point(volume.as_str(), &log.rs[0]) {
                        Ok(name) => Some(name),
                        Err(_) => None,
                    }
                } else {
                    None
                }
            },
            Body::EnvRestore { .. } => {
                if log.rs.len() > 0 { id_of(&log.rs[0]) } else { None }
            },
            _ => None,
        }
    }
}

// ── the journeys ────────────────────────────────────────────────────────────

/// How many moves the workspace half has made once its refusals are done: naming a sync point is a look
/// of its own.
pub open spec fn refusals_done(c: RunV) -> nat {
    if c.has_kube { 6 } else { 5 }
}

pub open spec fn workspace_move(c: RunV, s: StateV, os: Seq<OutcomeV>) -> MoveV<BodyV> {
    let n = os.len();
    let b = refusals_done(c);
    match (s.workspace, s.volume) {
        (Some(ws), Some(volume)) => if n == 0 {
            MoveV::Step { id: IDS[0]@, ceiling_ms: STOP_MS, body: BodyV::Stop { ws } }
        } else if n == 1 {
            MoveV::Step { id: IDS[1]@, ceiling_ms: REPLICATED_MS, body: BodyV::Replicated { ws } }
        } else if n == 2 {
            MoveV::Step { id: IDS[2]@, ceiling_ms: START_MS, body: BodyV::Start { ws } }
        } else {
            match s.snapshot {
                None => if n < 7 { MoveV::Skip { id: IDS[n as int]@, why: "the workspace was never pushed"@ } } else { MoveV::End },
                Some(snapshot) => if n == 3 {
                    MoveV::Step { id: IDS[3]@, ceiling_ms: RESTORE_MS, body: BodyV::Restore { name: named(c, "-restore"@), snapshot } }
                } else if n == 4 {
                    if c.has_kube {
                        MoveV::Look { body: BodyV::SyncPoint { volume } }
                    } else {
                        MoveV::Skip { id: IDS[4]@, why: "no kubeconfig: a sync point cannot be named"@ }
                    }
                } else if n == 5 && c.has_kube {
                    match passed_with(os[4]) {
                        Some(sync) => MoveV::Step {
                            id: IDS[4]@,
                            ceiling_ms: REFUSAL_MS,
                            body: BodyV::Refusals { volume, snapshot, sync },
                        },
                        None => MoveV::Skip { id: IDS[4]@, why: failure_or_empty(os[4]) },
                    }
                } else if n == b {
                    MoveV::Look { body: BodyV::DetachAll }
                } else if n == b + 1 {
                    if passed(os[b as int]) {
                        MoveV::Step {
                            id: IDS[5]@,
                            ceiling_ms: RESTORE_MS,
                            body: BodyV::Detached { name: named(c, "-detached"@), snapshot },
                        }
                    } else {
                        MoveV::Skip { id: IDS[5]@, why: failure_or_empty(os[b as int]) }
                    }
                } else if n == b + 2 {
                    if c.has_kube {
                        MoveV::Step { id: IDS[6]@, ceiling_ms: ORPHAN_MS, body: BodyV::Orphan { volume } }
                    } else {
                        MoveV::Skip { id: IDS[6]@, why: "no kubeconfig: the Volume cannot be watched"@ }
                    }
                } else {
                    MoveV::End
                },
            }
        },
        _ => if n < 7 { MoveV::Skip { id: IDS[n as int]@, why: "no workspace"@ } } else { MoveV::End },
    }
}

/// The workspace's half: what follows the push stands on it, and is skipped without one.
pub fn workspace_half(c: &Run, s: &State, os: &Vec<Outcome>) -> (m: Move<Body>)
    ensures
        m@ == workspace_move(c@, s@, outcomes(os@)),
{
    let n: usize = os.len();
    let b: usize = if c.has_kube { 6 } else { 5 };
    match (&s.workspace, &s.volume) {
        (Some(ws), Some(volume)) => {
            if n == 0 {
                return step(IDS[0], STOP_MS, Body::Stop { ws: ws.clone() });
            }
            if n == 1 {
                return step(IDS[1], REPLICATED_MS, Body::Replicated { ws: ws.clone() });
            }
            if n == 2 {
                return step(IDS[2], START_MS, Body::Start { ws: ws.clone() });
            }
            match &s.snapshot {
                None => {
                    if n < 7 { skip(IDS[n], "the workspace was never pushed") } else { Move::End }
                },
                Some(snapshot) => {
                    if n == 3 {
                        step(IDS[3], RESTORE_MS, Body::Restore { name: name(c, "-restore"), snapshot: snapshot.clone() })
                    } else if n == 4 {
                        if c.has_kube {
                            look(Body::SyncPoint { volume: volume.clone() })
                        } else {
                            skip(IDS[4], "no kubeconfig: a sync point cannot be named")
                        }
                    } else if n == 5 && c.has_kube {
                        match os[4].passed_with() {
                            Some(sync) => step(
                                IDS[4], REFUSAL_MS, Body::Refusals { volume: volume.clone(), snapshot: snapshot.clone(), sync },
                            ),
                            None => skip(IDS[4], os[4].failure_or_empty().as_str()),
                        }
                    } else if n == b {
                        look(Body::DetachAll)
                    } else if n == b + 1 {
                        if os[b].passed() {
                            step(IDS[5], RESTORE_MS, Body::Detached { name: name(c, "-detached"), snapshot: snapshot.clone() })
                        } else {
                            skip(IDS[5], os[b].failure_or_empty().as_str())
                        }
                    } else if n == b + 2 {
                        if c.has_kube {
                            step(IDS[6], ORPHAN_MS, Body::Orphan { volume: volume.clone() })
                        } else {
                            skip(IDS[6], "no kubeconfig: the Volume cannot be watched")
                        }
                    } else {
                        Move::End
                    }
                },
            }
        },
        _ => {
            if n < 7 { skip(IDS[n], "no workspace") } else { Move::End }
        },
    }
}

pub open spec fn environment_move(c: RunV, s: StateV, os: Seq<OutcomeV>) -> MoveV<BodyV> {
    let n = os.len();
    match s.environment {
        None => if n < 4 { MoveV::Skip { id: ENV_IDS[n as int]@, why: "no environment"@ } } else { MoveV::End },
        Some(env) => if n == 0 {
            MoveV::Step { id: ENV_IDS[0]@, ceiling_ms: ENV_STOP_MS, body: BodyV::EnvStop { env } }
        } else if !passed(os[0]) {
            if n < 4 { MoveV::Skip { id: ENV_IDS[n as int]@, why: "the environment never stopped"@ } } else { MoveV::End }
        } else if n == 1 {
            MoveV::Step { id: ENV_IDS[1]@, ceiling_ms: ENV_REPLICATED_MS, body: BodyV::EnvReplicated { env } }
        } else if n == 2 {
            MoveV::Step { id: ENV_IDS[2]@, ceiling_ms: ENV_START_MS, body: BodyV::EnvStart { env } }
        } else if n == 3 {
            match s.env_snapshot {
                Some(snapshot) => MoveV::Step {
                    id: ENV_IDS[3]@,
                    ceiling_ms: ENV_RESTORE_MS,
                    body: BodyV::EnvRestore { name: named(c, "-envrestore"@), snapshot },
                },
                None => MoveV::Skip { id: ENV_IDS[3]@, why: "the environment was never pushed"@ },
            }
        } else {
            MoveV::End
        },
    }
}

/// The environment's half: what never stopped would be measured as a start that never came.
pub fn environment_half(c: &Run, s: &State, os: &Vec<Outcome>) -> (m: Move<Body>)
    ensures
        m@ == environment_move(c@, s@, outcomes(os@)),
{
    let n: usize = os.len();
    match &s.environment {
        None => {
            if n < 4 { skip(ENV_IDS[n], "no environment") } else { Move::End }
        },
        Some(env) => {
            if n == 0 {
                step(ENV_IDS[0], ENV_STOP_MS, Body::EnvStop { env: env.clone() })
            } else if !os[0].passed() {
                if n < 4 { skip(ENV_IDS[n], "the environment never stopped") } else { Move::End }
            } else if n == 1 {
                step(ENV_IDS[1], ENV_REPLICATED_MS, Body::EnvReplicated { env: env.clone() })
            } else if n == 2 {
                step(ENV_IDS[2], ENV_START_MS, Body::EnvStart { env: env.clone() })
            } else if n == 3 {
                match &s.env_snapshot {
                    Some(snapshot) => step(
                        ENV_IDS[3], ENV_RESTORE_MS, Body::EnvRestore { name: name(c, "-envrestore"), snapshot: snapshot.clone() },
                    ),
                    None => skip(ENV_IDS[3], "the environment was never pushed"),
                }
            } else {
                Move::End
            }
        },
    }
}

pub open spec fn deletes_move(s: StateV, os: Seq<OutcomeV>) -> MoveV<BodyV> {
    let n = os.len();
    match (s.environment, s.env_volume) {
        (Some(env), Some(volume)) => match s.env_snapshot {
            None => if n < 2 { MoveV::Skip { id: DELETE_IDS[n as int]@, why: "the environment was never pushed"@ } } else { MoveV::End },
            Some(snapshot) => if n == 0 {
                MoveV::Step { id: DELETE_IDS[0]@, ceiling_ms: DELETE_MS, body: BodyV::WtDelete { env, volume, clone: s.clone } }
            } else if n == 1 {
                if passed(os[0]) {
                    MoveV::Step { id: DELETE_IDS[1]@, ceiling_ms: SNAP_DELETE_MS, body: BodyV::SnapDelete { volume, snapshot } }
                } else {
                    MoveV::Skip { id: DELETE_IDS[1]@, why: "the environment's worktree never went"@ }
                }
            } else {
                MoveV::End
            },
        },
        _ => if n < 2 { MoveV::Skip { id: DELETE_IDS[n as int]@, why: "no environment"@ } } else { MoveV::End },
    }
}

/// The deletes.
pub fn deletes(s: &State, os: &Vec<Outcome>) -> (m: Move<Body>)
    ensures
        m@ == deletes_move(s@, outcomes(os@)),
{
    let n: usize = os.len();
    match (&s.environment, &s.env_volume) {
        (Some(env), Some(volume)) => match &s.env_snapshot {
            None => {
                if n < 2 { skip(DELETE_IDS[n], "the environment was never pushed") } else { Move::End }
            },
            Some(snapshot) => {
                if n == 0 {
                    let clone = match &s.clone {
                        Some(t) => Some(t.clone()),
                        None => None,
                    };
                    step(DELETE_IDS[0], DELETE_MS, Body::WtDelete { env: env.clone(), volume: volume.clone(), clone })
                } else if n == 1 {
                    if os[0].passed() {
                        step(DELETE_IDS[1], SNAP_DELETE_MS, Body::SnapDelete { volume: volume.clone(), snapshot: snapshot.clone() })
                    } else {
                        skip(DELETE_IDS[1], "the environment's worktree never went")
                    }
                } else {
                    Move::End
                }
            },
        },
        _ => {
            if n < 2 { skip(DELETE_IDS[n], "no environment") } else { Move::End }
        },
    }
}

/// The parts of the stage, in order.
#[derive(Clone, Copy, PartialEq, Eq, Structural)]
pub enum Part {
    Workspace,
    Environment,
    Deletes,
}

/// The stage: each part in turn, and none costs another its ids.
pub open spec fn run_move(part: Part, c: RunV, s: StateV, os: Seq<OutcomeV>) -> MoveV<BodyV> {
    match part {
        Part::Workspace => workspace_move(c, s, os),
        Part::Environment => environment_move(c, s, os),
        Part::Deletes => deletes_move(s, os),
    }
}

pub fn run(part: Part, c: &Run, s: &State, os: &Vec<Outcome>) -> (m: Move<Body>)
    ensures
        m@ == run_move(part, c@, s@, outcomes(os@)),
{
    match part {
        Part::Workspace => workspace_half(c, s, os),
        Part::Environment => environment_half(c, s, os),
        Part::Deletes => deletes(s, os),
    }
}

/// The part after a part.
pub fn after(part: Part) -> (r: Option<Part>)
    ensures
        r == (match part {
            Part::Workspace => Some(Part::Environment),
            Part::Environment => Some(Part::Deletes),
            Part::Deletes => None,
        }),
{
    match part {
        Part::Workspace => Some(Part::Environment),
        Part::Environment => Some(Part::Deletes),
        Part::Deletes => None,
    }
}

/// Whatever is missing and whatever comes back, each id of the stage is reported exactly once.
pub proof fn law_every_id_is_reported_once(c: RunV, s: StateV, os: Seq<OutcomeV>)
    ensures
        reports_exactly(
            |o: Seq<OutcomeV>| workspace_move(c, s, o), os,
            seq![IDS[0]@, IDS[1]@, IDS[2]@, IDS[3]@, IDS[4]@, IDS[5]@, IDS[6]@], 9,
        ),
        reports_exactly(
            |o: Seq<OutcomeV>| environment_move(c, s, o), os, seq![ENV_IDS[0]@, ENV_IDS[1]@, ENV_IDS[2]@, ENV_IDS[3]@], 9,
        ),
        reports_exactly(|o: Seq<OutcomeV>| deletes_move(s, o), os, seq![DELETE_IDS[0]@, DELETE_IDS[1]@], 9),
    decreases os.len(),
{
    reveal_with_fuel(reports, 10);
    if os.len() > 9 {
        law_every_id_is_reported_once(c, s, os.drop_last());
    }
}

/// With nothing to work on, every id is skipped, and says why.
pub proof fn law_a_missing_subject_is_no_failure(c: RunV, s: StateV, os: Seq<OutcomeV>)
    requires
        s.workspace is None,
        s.environment is None,
    ensures
        workspace_move(c, s, os) matches MoveV::Step { .. } ==> false,
        workspace_move(c, s, os) matches MoveV::Skip { why, .. } ==> why == "no workspace"@,
        environment_move(c, s, os) matches MoveV::Step { .. } ==> false,
        environment_move(c, s, os) matches MoveV::Skip { why, .. } ==> why == "no environment"@,
        deletes_move(s, os) matches MoveV::Step { .. } ==> false,
        deletes_move(s, os) matches MoveV::Skip { why, .. } ==> why == "no environment"@,
{
}

/// Only a refusal passes for one: to be deleted, or not to be found, are both faults.
pub proof fn law_only_a_conflict_is_a_refusal(what: Seq<char>, r: ReplyV)
    ensures
        unrefused(what, r) is None <==> (raw_of(r) matches Ok(p) && p.0 == 409),
{
}

/// Only what this run made is ever deleted.
pub proof fn law_only_our_own_are_named(rows: Seq<Doc>, prefix: Seq<char>, id: Seq<char>)
    requires
        prefixed_ids(rows, prefix).contains(id),
    ensures
        exists|i: int| 0 <= i < rows.len() && row_prefixed(#[trigger] rows[i], prefix) && text_of(rows[i], "id"@) == Some(id),
    decreases rows.len(),
{
    let head = rows.drop_last();
    let before = prefixed_ids(head, prefix);
    if before.contains(id) {
        law_only_our_own_are_named(head, prefix, id);
        let i = choose|i: int| 0 <= i < head.len() && row_prefixed(#[trigger] head[i], prefix) && text_of(head[i], "id"@) == Some(id);
        assert(rows[i] == head[i]);
    } else {
        let last = rows.last();
        let k = choose|k: int| 0 <= k < prefixed_ids(rows, prefix).len() && prefixed_ids(rows, prefix)[k] == id;
        assert(text_of(last, "id"@) is Some && row_prefixed(last, prefix));
        if k < before.len() {
            assert(before[k] == id);
        }
        assert(rows[rows.len() - 1] == last);
    }
}

/// What a part leaves for the teardown: the volume of a restored environment, which no prefix finds,
/// whatever became of the restore.
pub open spec fn left(s: StateV, part: Part, os: Seq<OutcomeV>) -> StateV {
    if part == Part::Environment { with_volume(s, learned_by(os, 3)) } else { s }
}

pub fn leaves(s: &State, part: Part, os: &Vec<Outcome>) -> (t: State)
    ensures
        t@ == left(s@, part, outcomes(os@)),
{
    match part {
        Part::Environment => s.remembering(learned(os, 3)),
        _ => s.copy(),
    }
}

} // verus!
