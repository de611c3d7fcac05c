//! The end of a node: a drain that interrupts nothing, and a decommission that waits for it.

use vstd::prelude::*;

use crate::cluster::{name_of, object_name};
use crate::json::{
    Doc, Json, array_of, bool_of, doc_bool, doc_str, docs, lemma_docs, member, member2, obj1, row_in, row_named, rows_of, str_of,
    text_of, text_or, text_or_empty, txt,
};
use crate::outside::{debug, debug_text};
use crate::probes::{Tried, TriedV};
use crate::reply::{
    call_error, call_failed, doc, doc_of, failed, is_success, lost, lost_in, lost_of, lost_within, object, object_of, raw,
    raw_of, success, undo_error, undo_failed,
};
use crate::run::{Run, RunV, admin, admin_at, api, api_at, name, named};
use crate::stages::monthly::{DRAIN_MS, NODE_LEVEL_DRILL, step_cap};
use crate::stages::weekly::{cordon, cordoning, placement, placement_in};
use crate::text::{cat2, cat3, cat4, clipped, dec, decimal, first_chars, has_text, parts, same, split, starts, starts_with, texts};
use crate::turn::{
    Move, MoveV, Outcome, OutcomeV, failure_or_empty, found_in, look, outcomes, passed_with, reports, reports_exactly, skip,
    step,
};
use crate::wait::{Wait, WaitV};
use crate::wire::{
    Ask, AskV, Cluster, Kind, Log, LogV, Next, NextV, Reply, ReplyV, also, end, err_of, get, getting, inside, link, opt, post,
    posting, undo_after, undo_both, undoing, undoing2, within,
};

verus! {

/// What a verb on a node is asked with.
pub open spec fn verb_asks(c: RunV, node: Seq<char>, verb: Seq<char>, why: Seq<char>) -> AskV {
    posting(
        admin_at(c, "/admin/clusters/"@ + c.region + "/nodes/"@ + node) + "/"@ + verb, c.admin_jwt,
        Doc::Obj(seq![("reason"@, Doc::Str(why + c.run_id))]),
    )
}

/// One verb on a node, with the reason the audit row carries.
pub fn verb(c: &Run, node: &str, what: &str, why: &str) -> (r: Ask)
    ensures
        r@ == verb_asks(c@, node@, what@, why@),
{
    let base = admin(c, cat4("/admin/clusters/", c.region.as_str(), "/nodes/", node).as_str());
    post(cat3(base.as_str(), "/", what), c.admin_jwt.as_str(), obj1("reason", txt(cat2(why, c.run_id.as_str()).as_str())))
}

pub const DECOMMISSION_WHY: &'static str = "slo probe decommission drill ";

pub const DRAIN_WHY: &'static str = "slo probe drill ";

/// Why a decommission before its time was not turned down by its guard: to be taken is the guard standing
/// open, and a tier that fell over has refused nothing.
pub open spec fn guard_open(r: ReplyV) -> Option<Seq<char>> {
    match raw_of(r) {
        Err(why) => Some(why),
        Ok((status, text)) => if status == 409 {
            None
        } else if is_success(status) {
            Some("a node that has not drained was ALLOWED to be decommissioned"@)
        } else {
            Some("the decommission answered "@ + dec(status as nat) + ", which is not the guard refusing: "@ + clipped(text, 200))
        },
    }
}

pub fn refused_until_drained(r: &Reply) -> (o: Option<String>)
    ensures
        opt(o) == guard_open(r@),
{
    match raw(r) {
        Err(why) => Some(why),
        Ok((status, text)) => {
            if status == 409 {
                None
            } else if success(status) {
                Some("a node that has not drained was ALLOWED to be decommissioned".to_owned())
            } else {
                Some(cat4(
                    "the decommission answered ", decimal(status as u64).as_str(), ", which is not the guard refusing: ",
                    first_chars(text.as_str(), 200).as_str(),
                ))
            }
        },
    }
}

/// Only the guard's own refusal passes.
pub proof fn law_only_the_guard_refuses(r: ReplyV)
    ensures
        guard_open(r) is None <==> (raw_of(r) matches Ok(p) && p.0 == 409),
{
}

/// A node, or why it could not be read: one that is not there cannot.
pub open spec fn node_in(node: Seq<char>, r: ReplyV) -> Result<Doc, Seq<char>> {
    match raw_of(r) {
        Err(why) => Err("could not read "@ + node + ": "@ + why),
        Ok((404, text)) => Err("could not read "@ + node + ": "@ + text),
        Ok(_) => match object_of(r) {
            Err(why) => Err("could not read "@ + node + ": "@ + why),
            Ok(d) => Ok(d),
        },
    }
}

fn node_doc(node: &str, r: &Reply) -> (o: Result<Json, String>)
    ensures
        (match o { Ok(d) => Ok(d@), Err(e) => Err(e@) }) == node_in(node@, r@),
{
    match raw(r) {
        Err(why) => {
            return Err(cat4("could not read ", node, ": ", why.as_str()));
        },
        Ok((status, text)) => {
            if status == 404 {
                return Err(cat4("could not read ", node, ": ", text.as_str()));
            }
        },
    }
    match object(r) {
        Err(why) => Err(cat4("could not read ", node, ": ", why.as_str())),
        Ok(d) => Ok(d),
    }
}

pub open spec fn is_cordoned(d: Doc) -> bool {
    doc_bool(member2(d, "spec"@, "unschedulable"@)) == Some(true)
}

fn is_unschedulable(d: &Json) -> (r: bool)
    ensures
        r == is_cordoned(d@),
{
    match bool_of(d.get2("spec", "unschedulable")) {
        Some(b) => b,
        None => false,
    }
}

/// Why a decommission that was taken did not end where it stops.
pub open spec fn uncordoned(node: Seq<char>, r: ReplyV) -> Option<Seq<char>> {
    match node_in(node, r) {
        Err(why) => Some(why),
        Ok(d) => if is_cordoned(d) { None } else { Some("the decommission was taken but "@ + node + " is not cordoned"@) },
    }
}

pub fn cordoned(node: &str, r: &Reply) -> (o: Option<String>)
    ensures
        opt(o) == uncordoned(node@, r@),
{
    match node_doc(node, r) {
        Err(why) => Some(why),
        Ok(d) => {
            if is_unschedulable(&d) { None } else { Some(cat3("the decommission was taken but ", node, " is not cordoned")) }
        },
    }
}

// ── the stamps ──────────────────────────────────────────────────────────────

pub open spec fn annotation(d: Doc, key: Seq<char>) -> Option<Seq<char>> {
    match member2(d, "metadata"@, "annotations"@) {
        Some(m) => text_of(m, key),
        None => None,
    }
}

pub fn annotation_of(d: &Json, key: &str) -> (r: Option<String>)
    ensures
        opt(r) == annotation(d@, key@),
{
    match d.get2("metadata", "annotations") {
        Some(m) => m.text_at(key),
        None => None,
    }
}

pub open spec fn label(d: Doc, key: Seq<char>) -> Option<Seq<char>> {
    match member2(d, "metadata"@, "labels"@) {
        Some(m) => text_of(m, key),
        None => None,
    }
}

pub fn label_of(d: &Json, key: &str) -> (r: Option<String>)
    ensures
        opt(r) == label(d@, key@),
{
    match d.get2("metadata", "labels") {
        Some(m) => m.text_at(key),
        None => None,
    }
}

/// How far a node's retirement has got, as its own agent wrote it: an annotation, since it is too long
/// for a label, and a label where there is none.
pub open spec fn stamp_of(d: Doc, key: Seq<char>) -> Seq<char> {
    match annotation(d, key) {
        Some(t) => t,
        None => match label(d, key) {
            Some(t) => t,
            None => seq![],
        },
    }
}

fn stamp(d: &Json, key: &str) -> (r: String)
    ensures
        r@ == stamp_of(d@, key@),
{
    match annotation_of(d, key) {
        Some(t) => t,
        None => match label_of(d, key) {
            Some(t) => t,
            None => String::new(),
        },
    }
}

/// The stamp of a node that is drained. The counts are told as they stand: a node that stalls is seen by
/// them alone.
pub open spec fn drained_tried(node: Seq<char>, key: Seq<char>, prefix: Seq<char>, r: ReplyV) -> TriedV {
    match node_in(node, r) {
        Err(why) => TriedV::Broken(why),
        Ok(d) => if starts(stamp_of(d, key), prefix) { TriedV::Yes } else { TriedV::NotYet(debug_text(stamp_of(d, key))) },
    }
}

pub fn stamped(node: &str, key: &str, prefix: &str, r: &Reply) -> (t: Tried)
    ensures
        t@ == drained_tried(node@, key@, prefix@, r@),
{
    match node_doc(node, r) {
        Err(why) => Tried::Broken(why),
        Ok(d) => {
            let s = stamp(&d, key);
            if starts_with(s.as_str(), prefix) { Tried::Yes } else { Tried::NotYet(debug(s.as_str())) }
        },
    }
}

/// What a node's annotation tells; nothing where there is none.
pub open spec fn told_stamp(d: Doc, key: Seq<char>) -> Seq<char> {
    match annotation(d, key) {
        Some(t) => t,
        None => seq![],
    }
}

/// Whether a stamp is that of a node that is being drained with something running on it. That of a drained
/// one is another: a node with something running on it must not come to it. And one that counts nothing
/// that runs has not counted the workspace.
pub open spec fn tells_of_a_drain(stamp: Seq<char>) -> bool {
    starts(stamp, "draining"@) && !parts(stamp, ' ').contains("running=0"@)
}

/// A node that is to say that it is being drained.
pub open spec fn draining_tried(node: Seq<char>, key: Seq<char>, r: ReplyV) -> TriedV {
    match node_in(node, r) {
        Err(why) => TriedV::Broken(why),
        Ok(d) => {
            let s = told_stamp(d, key);
            if tells_of_a_drain(s) { TriedV::Yes } else { TriedV::NotYet(debug_text(s)) }
        },
    }
}

pub fn draining_stamp(node: &str, key: &str, r: &Reply) -> (t: Tried)
    ensures
        t@ == draining_tried(node@, key@, r@),
{
    match node_doc(node, r) {
        Err(why) => Tried::Broken(why),
        Ok(d) => {
            let s = match annotation_of(&d, key) {
                Some(t) => t,
                None => String::new(),
            };
            if starts_with(s.as_str(), "draining") && !has_text(&split(s.as_str(), ' '), "running=0") {
                Tried::Yes
            } else {
                Tried::NotYet(debug(s.as_str()))
            }
        },
    }
}

// ── an idle node ────────────────────────────────────────────────────────────

/// A phase in which somebody could be typing: any but none at all, stopped or failed.
pub open spec fn running_phase(phase: Option<Seq<char>>) -> bool {
    match phase {
        Some(p) => p != ""@ && p != "Stopped"@ && p != "stopped"@ && p != "Failed"@ && p != "failed"@,
        None => false,
    }
}

pub fn is_running(phase: Option<&str>) -> (r: bool)
    ensures
        r == running_phase((match phase { Some(p) => Some(p@), None => None })),
{
    match phase {
        Some(p) => !(same(p, "") || same(p, "Stopped") || same(p, "stopped") || same(p, "Failed") || same(p, "failed")),
        None => false,
    }
}

/// The node a row is on, where it is running there.
pub open spec fn runs_on(row: Doc) -> Option<Seq<char>> {
    match doc_str(member2(row, "status"@, "nodeName"@)) {
        Some(n) if n.len() > 0 && running_phase(doc_str(member2(row, "status"@, "phase"@))) => Some(n),
        _ => None,
    }
}

fn on_node(row: &Json) -> (r: Option<String>)
    ensures
        opt(r) == runs_on(row@),
{
    let running = match str_of(row.get2("status", "phase")) {
        Some(p) => is_running(Some(p.as_str())),
        None => is_running(None),
    };
    match str_of(row.get2("status", "nodeName")) {
        Some(n) => {
            if !n.as_str().is_empty() && running { Some(n) } else { None }
        },
        None => None,
    }
}

/// Every node something runs on.
pub open spec fn busy_nodes(rows: Seq<Doc>) -> Seq<Seq<char>>
    decreases rows.len(),
{
    if rows.len() == 0 {
        seq![]
    } else {
        let before = busy_nodes(rows.drop_last());
        match runs_on(rows.last()) {
            Some(n) => before.push(n),
            None => before,
        }
    }
}

fn running_nodes(rows: &Vec<Json>) -> (r: Vec<String>)
    ensures
        texts(r@) == busy_nodes(docs(rows@)),
{
    let mut r: Vec<String> = Vec::new();
    let mut i: usize = 0;
    let ghost all = docs(rows@);
    proof {
        lemma_docs(rows@);
        assert(all.take(0) =~= Seq::<Doc>::empty());
        assert(texts(r@) =~= Seq::<Seq<char>>::empty());
    }
    while i < rows.len()
        invariant
            i <= rows@.len(),
            all == docs(rows@),
            all.len() == rows@.len(),
            forall|k: int| 0 <= k < rows@.len() ==> all[k] == (#[trigger] rows@[k])@,
            texts(r@) == busy_nodes(all.take(i as int)),
        decreases rows.len() - i,
    {
        let ghost before = r@;
        proof {
            assert(all.take(i + 1).drop_last() =~= all.take(i as int));
            assert(all.take(i + 1).last() == rows@[i as int]@);
        }
        if let Some(n) = on_node(&rows[i]) {
            r.push(n);
            proof {
                assert(texts(r@) =~= texts(before).push(n@));
            }
        }
        i = i + 1;
    }
    proof {
        assert(all.take(all.len() as int) =~= all);
    }
    r
}

/// Only a node of the pool: an agent runs there, and nowhere else is there one to stamp anything. The
/// labels nodes had before the pool do not qualify one.
pub open spec fn pool_node(d: Doc) -> bool {
    label(d, "kloudlite.io/pool"@) == Some("true"@)
}

pub fn is_pool_node(d: &Json) -> (r: bool)
    ensures
        r == pool_node(d@),
{
    match label_of(d, "kloudlite.io/pool") {
        Some(t) => same(t.as_str(), "true"),
        None => false,
    }
}

/// A node nothing runs on, that nobody is retiring, and that is not the one to avoid.
pub open spec fn is_idle(d: Doc, busy: Seq<Seq<char>>, avoid: Option<Seq<char>>, retiring: Seq<char>) -> bool {
    pool_node(d) && Some(name_of(d)) != avoid && !busy.contains(name_of(d)) && member_of_labels(d, retiring) is None && !is_cordoned(d)
}

/// What a label holds, whatever that is.
pub open spec fn member_of_labels(d: Doc, key: Seq<char>) -> Option<Doc> {
    match member2(d, "metadata"@, "labels"@) {
        Some(m) => member(m, key),
        None => None,
    }
}

fn idle(d: &Json, busy: &Vec<String>, avoid: &Option<String>, retiring: &str) -> (r: bool)
    ensures
        r == is_idle(d@, texts(busy@), opt(*avoid), retiring@),
{
    let name = object_name(d);
    let avoided = match avoid {
        Some(a) => same(a.as_str(), name.as_str()),
        None => false,
    };
    let marked = match d.get2("metadata", "labels") {
        Some(m) => m.get(retiring).is_some(),
        None => false,
    };
    is_pool_node(d) && !avoided && !has_text(busy, name.as_str()) && !marked && !is_unschedulable(d)
}

/// The first idle node.
pub open spec fn first_idle(rows: Seq<Doc>, busy: Seq<Seq<char>>, avoid: Option<Seq<char>>, retiring: Seq<char>) -> Option<Seq<char>>
    decreases rows.len(),
{
    if rows.len() == 0 {
        None
    } else if is_idle(rows[0], busy, avoid, retiring) {
        Some(name_of(rows[0]))
    } else {
        first_idle(rows.drop_first(), busy, avoid, retiring)
    }
}

fn find_idle(rows: &Vec<Json>, busy: &Vec<String>, avoid: &Option<String>, retiring: &str) -> (r: Option<String>)
    ensures
        opt(r) == first_idle(docs(rows@), texts(busy@), opt(*avoid), retiring@),
{
    let ghost all = docs(rows@);
    proof {
        lemma_docs(rows@);
        assert(all.skip(0) =~= all);
    }
    let mut i: usize = 0;
    while i < rows.len()
        invariant
            i <= rows@.len(),
            all == docs(rows@),
            all.len() == rows@.len(),
            forall|k: int| 0 <= k < rows@.len() ==> all[k] == (#[trigger] rows@[k])@,
            first_idle(all, texts(busy@), opt(*avoid), retiring@) == first_idle(all.skip(i as int), texts(busy@), opt(*avoid), retiring@),
        decreases rows.len() - i,
    {
        proof {
            assert(all.skip(i as int)[0] == rows@[i as int]@);
            assert(all.skip(i as int).drop_first() =~= all.skip(i + 1));
        }
        if idle(&rows[i], busy, avoid, retiring) {
            return Some(object_name(&rows[i]));
        }
        i = i + 1;
    }
    None
}

/// The rows of a listing, or why they could not be had.
pub open spec fn listed(what: Seq<char>, r: ReplyV) -> Result<Seq<Doc>, Seq<char>> {
    match object_of(r) {
        Err(why) => Err("could not list the "@ + what + ": "@ + why),
        Ok(d) => Ok(rows_of(Some(d))),
    }
}

fn not_listed(what: &str, r: &Reply) -> (o: Option<String>)
    ensures
        opt(o) == err_of(listed(what@, r@)),
{
    match object(r) {
        Err(why) => Some(cat4("could not list the ", what, ": ", why.as_str())),
        Ok(_) => None,
    }
}

fn busy_in(r: &Reply) -> (v: Vec<String>)
    ensures
        texts(v@) == busy_nodes((match object_of(r@) { Ok(d) => rows_of(Some(d)), Err(_) => seq![] })),
{
    let none: Vec<String> = Vec::new();
    proof {
        assert(texts(none@) =~= Seq::<Seq<char>>::empty());
    }
    match object(r) {
        Ok(d) => match array_of(Some(&d)) {
            Some(rows) => running_nodes(rows),
            None => none,
        },
        Err(_) => none,
    }
}

/// The node a drill may use, given what runs and what nodes there are. Anyone's worktree counts, not only
/// the probe's own.
pub open spec fn idle_in(
    avoid: Option<Seq<char>>, retiring: Seq<char>, workspaces: ReplyV, environments: ReplyV, nodes: ReplyV,
) -> Result<Seq<char>, Seq<char>> {
    match listed("workspaces"@, workspaces) {
        Err(why) => Err(why),
        Ok(ws) => match listed("environments"@, environments) {
            Err(why) => Err(why),
            Ok(envs) => match listed("nodes"@, nodes) {
                Err(why) => Err(why),
                Ok(rows) => match first_idle(rows, busy_nodes(ws) + busy_nodes(envs), avoid, retiring) {
                    Some(n) => Ok(n),
                    None => Err("every node holds a running worktree, or is already draining"@),
                },
            },
        },
    }
}

fn idle_node(avoid: &Option<String>, retiring: &str, workspaces: &Reply, environments: &Reply, nodes: &Reply) -> (o: Result<String, String>)
    ensures
        (match o { Ok(t) => Ok(t@), Err(e) => Err(e@) }) == idle_in(opt(*avoid), retiring@, workspaces@, environments@, nodes@),
{
    if let Some(why) = not_listed("workspaces", workspaces) {
        return Err(why);
    }
    if let Some(why) = not_listed("environments", environments) {
        return Err(why);
    }
    match object(nodes) {
        Err(why) => Err(cat4("could not list the ", "nodes", ": ", why.as_str())),
        Ok(d) => {
            let mut busy = busy_in(workspaces);
            let ghost first = busy@;
            let mut more = busy_in(environments);
            let ghost second = more@;
            busy.append(&mut more);
            proof {
                assert(texts(busy@) =~= texts(first) + texts(second));
            }
            let found = match array_of(Some(&d)) {
                Some(rows) => find_idle(rows, &busy, avoid, retiring),
                None => None,
            };
            match found {
                Some(n) => Ok(n),
                None => Err("every node holds a running worktree, or is already draining".to_owned()),
            }
        },
    }
}

pub open spec fn idle_next(c: RunV, avoid: Option<Seq<char>>, rs: Seq<ReplyV>) -> NextV {
    link(
        rs, 0,
        AskV::List { cluster: Cluster::Fleet, kind: Kind::Workspace, ns: ""@ }, err_of(listed("workspaces"@, rs[0])),
        link(
            rs, 1,
            AskV::List { cluster: Cluster::Fleet, kind: Kind::Environment, ns: ""@ }, err_of(listed("environments"@, rs[1])),
            link(
                rs, 2,
                AskV::List { cluster: Cluster::Fleet, kind: Kind::Node, ns: ""@ },
                err_of(idle_in(avoid, c.decommission_label, rs[0], rs[1], rs[2])), NextV::Pass,
            ),
        ),
    )
}

fn idle_body(c: &Run, avoid: &Option<String>, log: &Log) -> (n: Next)
    ensures
        n@ == idle_next(c@, opt(*avoid), log@.rs),
{
    if log.rs.len() <= 0 {
        return Next::Ask(Ask::List { cluster: Cluster::Fleet, kind: Kind::Workspace, ns: "".to_owned() });
    }
    if let Some(why) = not_listed("workspaces", &log.rs[0]) {
        return Next::Fail(why);
    }
    if log.rs.len() <= 1 {
        return Next::Ask(Ask::List { cluster: Cluster::Fleet, kind: Kind::Environment, ns: "".to_owned() });
    }
    if let Some(why) = not_listed("environments", &log.rs[1]) {
        return Next::Fail(why);
    }
    if log.rs.len() <= 2 {
        return Next::Ask(Ask::List { cluster: Cluster::Fleet, kind: Kind::Node, ns: "".to_owned() });
    }
    match idle_node(avoid, c.decommission_label.as_str(), &log.rs[0], &log.rs[1], &log.rs[2]) {
        Ok(_) => Next::Pass,
        Err(why) => Next::Fail(why),
    }
}

/// The run's own cold workspace, by its name.
pub open spec fn probe_workspace_in(name: Seq<char>, r: ReplyV) -> Option<Seq<char>> {
    match doc_of(r) {
        Err(_) => None,
        Ok(d) => match row_named(rows_of(Some(d)), "name"@, name) {
            Some(row) => text_of(row, "id"@),
            None => None,
        },
    }
}

fn probe_workspace(name: &str, r: &Reply) -> (o: Option<String>)
    ensures
        opt(o) == probe_workspace_in(name@, r@),
{
    match doc(r) {
        Err(_) => None,
        Ok(d) => match row_in(Some(&d), "name", name) {
            Some(row) => row.text_at("id"),
            None => None,
        },
    }
}

/// A pod's own id: another one is another pod.
pub open spec fn uid_in(r: ReplyV) -> Option<Seq<char>> {
    match raw_of(r) {
        Err(_) => None,
        Ok((404, _)) => None,
        Ok(_) => match object_of(r) {
            Err(_) => None,
            Ok(d) => doc_str(member2(d, "metadata"@, "uid"@)),
        },
    }
}

fn pod_uid(r: &Reply) -> (o: Option<String>)
    ensures
        opt(o) == uid_in(r@),
{
    match raw(r) {
        Err(_) => {
            return None;
        },
        Ok((status, _)) => {
            if status == 404 {
                return None;
            }
        },
    }
    match object(r) {
        Err(_) => None,
        Ok(d) => str_of(d.get2("metadata", "uid")),
    }
}

/// Why a running workspace did not keep running.
pub open spec fn interrupted_in(r: ReplyV) -> Option<Seq<char>> {
    match doc_of(r) {
        Err(why) => Some(within("could not read the workspace"@, why)),
        Ok(d) => {
            let state = text_or_empty(d, "state"@);
            if state == "ready"@ || state == "running"@ {
                None
            } else {
                Some("a running workspace on a draining node went to `"@ + state + "`"@)
            }
        },
    }
}

fn was_interrupted(r: &Reply) -> (o: Option<String>)
    ensures
        opt(o) == interrupted_in(r@),
{
    match doc(r) {
        Err(why) => Some(inside("could not read the workspace", why.as_str())),
        Ok(d) => {
            let state = text_or(&d, "state");
            if same(state.as_str(), "ready") || same(state.as_str(), "running") {
                None
            } else {
                Some(cat3("a running workspace on a draining node went to `", state.as_str(), "`"))
            }
        },
    }
}

/// Whether the answer is that there is no such thing.
pub open spec fn is_gone(r: ReplyV) -> bool {
    match raw_of(r) {
        Ok((status, _)) => status == 404,
        Err(_) => false,
    }
}

/// Why the pod is another one: one that was deleted and made again has interrupted whoever was in it.
/// One that is gone has too. One that could not be read, before or after, is not judged.
pub open spec fn replaced(before: Option<Seq<char>>, r: ReplyV) -> Option<Seq<char>> {
    if before is Some && uid_in(r) != before && (uid_in(r) is Some || is_gone(r)) {
        Some("the workspace's pod was replaced while its node drained"@)
    } else {
        None
    }
}

fn was_replaced(before: &Option<String>, r: &Reply) -> (o: Option<String>)
    ensures
        opt(o) == replaced(opt(*before), r@),
{
    match before {
        None => None,
        Some(was) => {
            let kept = match pod_uid(r) {
                Some(now) => same(now.as_str(), was.as_str()),
                None => match raw(r) {
                    Ok((status, _)) => status != 404,
                    Err(_) => true,
                },
            };
            if kept { None } else { Some("the workspace's pod was replaced while its node drained".to_owned()) }
        },
    }
}

pub open spec fn own_workspace_next(c: RunV, rs: Seq<ReplyV>) -> NextV {
    also(rs, 0, getting(api_at(c, "/v1/workspaces"@), c.probe_jwt), NextV::Pass)
}

fn own_workspace_body(c: &Run, log: &Log) -> (n: Next)
    ensures
        n@ == own_workspace_next(c@, log@.rs),
{
    if log.rs.len() <= 0 {
        return Next::Ask(get(api(c, "/v1/workspaces"), c.probe_jwt.as_str()));
    }
    Next::Pass
}

pub open spec fn node_of_next(c: RunV, ws: Seq<char>, rs: Seq<ReplyV>) -> NextV {
    also(rs, 0, getting(api_at(c, "/v1/workspaces/"@ + ws), c.probe_jwt), NextV::Pass)
}

fn node_of_body(c: &Run, ws: &str, log: &Log) -> (n: Next)
    ensures
        n@ == node_of_next(c@, ws@, log@.rs),
{
    if log.rs.len() <= 0 {
        return Next::Ask(get(api(c, cat2("/v1/workspaces/", ws).as_str()), c.probe_jwt.as_str()));
    }
    Next::Pass
}

pub open spec fn uid_next(c: RunV, ws: Seq<char>, rs: Seq<ReplyV>) -> NextV {
    also(rs, 0, AskV::Read { cluster: Cluster::Fleet, kind: Kind::Pod, ns: c.own_ns, name: ws }, NextV::Pass)
}

fn uid_body(c: &Run, ws: &str, log: &Log) -> (n: Next)
    ensures
        n@ == uid_next(c@, ws@, log@.rs),
{
    if log.rs.len() <= 0 {
        return Next::Ask(Ask::Read { cluster: Cluster::Fleet, kind: Kind::Pod, ns: c.own_ns.clone(), name: ws.to_owned() });
    }
    Next::Pass
}

/// The node's own agent says it is draining, and the workspace on it runs on, in the same pod.
pub open spec fn kept_running_next(c: RunV, ws: Seq<char>, node: Seq<char>, before: Option<Seq<char>>, rs: Seq<ReplyV>) -> NextV {
    link(
        rs, 1,
        AskV::Wait(WaitV::Draining {
            node,
            key: c.decommission_status,
            cap_ms: (DRAIN_MS / 2) as u64,
        }),
        lost_of(rs[1]),
        link(
            rs, 2, getting(api_at(c, "/v1/workspaces/"@ + ws), c.probe_jwt), interrupted_in(rs[2]),
            link(
                rs, 3,
                AskV::Read { cluster: Cluster::Fleet, kind: Kind::Pod, ns: c.own_ns, name: ws }, replaced(before, rs[3]),
                NextV::Pass,
            ),
        ),
    )
}

fn kept_running_body(c: &Run, ws: &str, node: &str, before: &Option<String>, log: &Log) -> (n: Next)
    ensures
        n@ == kept_running_next(c@, ws@, node@, opt(*before), log@.rs),
{
    if log.rs.len() <= 1 {
        return Next::Ask(Ask::Wait(Wait::Draining {
            node: node.to_owned(),
            key: c.decommission_status.clone(),
            cap_ms: DRAIN_MS / 2,
        }));
    }
    if let Some(why) = lost(&log.rs[1]) {
        return Next::Fail(why);
    }
    if log.rs.len() <= 2 {
        return Next::Ask(get(api(c, cat2("/v1/workspaces/", ws).as_str()), c.probe_jwt.as_str()));
    }
    if let Some(why) = was_interrupted(&log.rs[2]) {
        return Next::Fail(why);
    }
    if log.rs.len() <= 3 {
        return Next::Ask(Ask::Read { cluster: Cluster::Fleet, kind: Kind::Pod, ns: c.own_ns.clone(), name: ws.to_owned() });
    }
    end(was_replaced(before, &log.rs[3]))
}

/// The node that holds a running workspace is drained, and taken back into use whatever came of it.
pub open spec fn drain_next(c: RunV, ws: Seq<char>, node: Seq<char>, before: Option<Seq<char>>, log: LogV) -> NextV {
    link(
        log.rs, 0, verb_asks(c, node, "drain"@, DRAIN_WHY@), call_failed("the drain was refused"@, log.rs[0]),
        undoing(
            log, DRAIN_MS, kept_running_next(c, ws, node, before, log.rs), verb_asks(c, node, "undrain"@, DRAIN_WHY@),
            call_error(log.us[0]),
        ),
    )
}

fn drain_body(c: &Run, ws: &str, node: &str, before: &Option<String>, log: &Log) -> (n: Next)
    ensures
        n@ == drain_next(c@, ws@, node@, opt(*before), log@),
{
    if log.rs.len() <= 0 {
        return Next::Ask(verb(c, node, "drain", DRAIN_WHY));
    }
    if let Some(why) = failed("the drain was refused", &log.rs[0]) {
        return Next::Fail(why);
    }
    undo_after(log, DRAIN_MS, kept_running_body(c, ws, node, before, log), verb(c, node, "undrain", DRAIN_WHY), undo_error(log))
}

/// Before a node is drained the decommission is refused, and after it is taken, and stops at the
/// cordon. Either half alone would be met by a fleet that refuses everything, or nothing.
pub open spec fn decommissioned_next(c: RunV, node: Seq<char>, rs: Seq<ReplyV>) -> NextV {
    link(
        rs, 0, verb_asks(c, node, "decommission"@, DECOMMISSION_WHY@), guard_open(rs[0]),
        link(
            rs, 1, verb_asks(c, node, "drain"@, DECOMMISSION_WHY@), call_failed("the drain was refused"@, rs[1]),
            link(
                rs, 2,
                AskV::Wait(WaitV::Drained {
                    node,
                    key: c.decommission_status,
                    prefix: c.drained_prefix,
                    cap_ms: (DRAIN_MS - 60_000) as u64,
                }),
                lost_in("the node never finished draining, so the guard could not be tried"@, rs[2]),
                link(
                    rs, 3, verb_asks(c, node, "decommission"@, DECOMMISSION_WHY@),
                    call_failed("the decommission was refused even though the agent had stamped `drained`"@, rs[3]),
                    link(
                        rs, 4,
                        AskV::Read { cluster: Cluster::Fleet, kind: Kind::Node, ns: ""@, name: node }, uncordoned(node, rs[4]),
                        NextV::Pass,
                    ),
                ),
            ),
        ),
    )
}

fn decommissioned_body(c: &Run, node: &str, log: &Log) -> (n: Next)
    ensures
        n@ == decommissioned_next(c@, node@, log@.rs),
{
    if log.rs.len() <= 0 {
        return Next::Ask(verb(c, node, "decommission", DECOMMISSION_WHY));
    }
    if let Some(why) = refused_until_drained(&log.rs[0]) {
        return Next::Fail(why);
    }
    if log.rs.len() <= 1 {
        return Next::Ask(verb(c, node, "drain", DECOMMISSION_WHY));
    }
    if let Some(why) = failed("the drain was refused", &log.rs[1]) {
        return Next::Fail(why);
    }
    if log.rs.len() <= 2 {
        return Next::Ask(Ask::Wait(Wait::Drained {
            node: node.to_owned(),
            key: c.decommission_status.clone(),
            prefix: c.drained_prefix.clone(),
            cap_ms: DRAIN_MS - 60_000,
        }));
    }
    if let Some(why) = lost_within("the node never finished draining, so the guard could not be tried", &log.rs[2]) {
        return Next::Fail(why);
    }
    if log.rs.len() <= 3 {
        return Next::Ask(verb(c, node, "decommission", DECOMMISSION_WHY));
    }
    if let Some(why) = failed("the decommission was refused even though the agent had stamped `drained`", &log.rs[3]) {
        return Next::Fail(why);
    }
    if log.rs.len() <= 4 {
        return Next::Ask(Ask::Read { cluster: Cluster::Fleet, kind: Kind::Node, ns: "".to_owned(), name: node.to_owned() });
    }
    end(cordoned(node, &log.rs[4]))
}

/// The guard and the cordon behind it. What puts the node back is there before the first try: where the
/// guard stands open, that try has cordoned the node already.
pub open spec fn decommission_next(c: RunV, node: Seq<char>, log: LogV) -> NextV {
    undoing2(
        log, DRAIN_MS, decommissioned_next(c, node, log.rs), cordoning(node, false),
        call_failed("the node was left CORDONED"@, log.us[0]), verb_asks(c, node, "undrain"@, DECOMMISSION_WHY@),
        call_failed("the node was left DRAINING"@, log.us[1]),
    )
}

fn decommission_body(c: &Run, node: &str, log: &Log) -> (n: Next)
    ensures
        n@ == decommission_next(c@, node@, log@),
{
    let first = undo_failed("the node was left CORDONED", log);
    let second = if log.us.len() > 1 { failed("the node was left DRAINING", &log.us[1]) } else { None };
    undo_both(
        log, DRAIN_MS, decommissioned_body(c, node, log), cordon(node, false), first, verb(c, node, "undrain", DECOMMISSION_WHY),
        second,
    )
}

// ── the bodies ──────────────────────────────────────────────────────────────

pub enum Body {
    OwnWorkspace,
    NodeOf { ws: String },
    Idle { avoid: Option<String> },
    Uid { ws: String },
    Drain { ws: String, node: String, before: Option<String> },
    Decommission { node: String },
}

pub enum BodyV {
    OwnWorkspace,
    NodeOf { ws: Seq<char> },
    Idle { avoid: Option<Seq<char>> },
    Uid { ws: Seq<char> },
    Drain { ws: Seq<char>, node: Seq<char>, before: Option<Seq<char>> },
    Decommission { node: Seq<char> },
}

impl View for Body {
    type V = BodyV;

    open spec fn view(&self) -> BodyV {
        match self {
            Body::OwnWorkspace => BodyV::OwnWorkspace,
            Body::NodeOf { ws } => BodyV::NodeOf { ws: ws@ },
            Body::Idle { avoid } => BodyV::Idle { avoid: opt(*avoid) },
            Body::Uid { ws } => BodyV::Uid { ws: ws@ },
            Body::Drain { ws, node, before } => BodyV::Drain { ws: ws@, node: node@, before: opt(*before) },
            Body::Decommission { node } => BodyV::Decommission { node: node@ },
        }
    }
}

/// What a body does next.
pub open spec fn body_next(c: RunV, b: BodyV, log: LogV) -> NextV {
    match b {
        BodyV::OwnWorkspace => own_workspace_next(c, log.rs),
        BodyV::NodeOf { ws } => node_of_next(c, ws, log.rs),
        BodyV::Idle { avoid } => idle_next(c, avoid, log.rs),
        BodyV::Uid { ws } => uid_next(c, ws, log.rs),
        BodyV::Drain { ws, node, before } => drain_next(c, ws, node, before, log),
        BodyV::Decommission { node } => decommission_next(c, node, log),
    }
}

/// The stretch of a body that has a time of its own: how many replies it begins after, and how long it
/// is given.
pub open spec fn body_region(b: BodyV) -> Option<(usize, u64)> {
    match b {
        BodyV::Drain { .. } => Some((1usize, DRAIN_MS)),
        BodyV::Decommission { .. } => Some((0usize, DRAIN_MS)),
        _ => None,
    }
}

/// What a body has learned: the run's own workspace, the node it is on, an idle node, or a pod's own id.
pub open spec fn body_found(c: RunV, b: BodyV, log: LogV) -> Option<Seq<char>> {
    match b {
        BodyV::OwnWorkspace => if log.rs.len() > 0 { probe_workspace_in(named(c, "-cold"@), log.rs[0]) } else { None },
        BodyV::NodeOf { .. } => if log.rs.len() > 0 { placement_in(log.rs[0]) } else { None },
        BodyV::Idle { avoid } => if log.rs.len() > 2 {
            match idle_in(avoid, c.decommission_label, log.rs[0], log.rs[1], log.rs[2]) {
                Ok(n) => Some(n),
                Err(_) => None,
            }
        } else {
            None
        },
        BodyV::Uid { .. } => if log.rs.len() > 0 { uid_in(log.rs[0]) } else { None },
        _ => None,
    }
}

impl Body {
    pub fn next(&self, c: &Run, log: &Log) -> (n: Next)
        ensures
            n@ == body_next(c@, self@, log@),
    {
        match self {
            Body::OwnWorkspace => own_workspace_body(c, log),
            Body::NodeOf { ws } => node_of_body(c, ws.as_str(), log),
            Body::Idle { avoid } => idle_body(c, avoid, log),
            Body::Uid { ws } => uid_body(c, ws.as_str(), log),
            Body::Drain { ws, node, before } => drain_body(c, ws.as_str(), node.as_str(), before, log),
            Body::Decommission { node } => decommission_body(c, node.as_str(), log),
        }
    }

    pub fn region(&self) -> (r: Option<(usize, u64)>)
        ensures
            r == body_region(self@),
    {
        match self {
            Body::Drain { .. } => Some((1, DRAIN_MS)),
            Body::Decommission { .. } => Some((0, DRAIN_MS)),
            _ => None,
        }
    }

    pub fn found(&self, c: &Run, log: &Log) -> (r: Option<String>)
        ensures
            opt(r) == body_found(c@, self@, log@),
    {
        match self {
            Body::OwnWorkspace => {
                if log.rs.len() > 0 { probe_workspace(name(c, "-cold").as_str(), &log.rs[0]) } else { None }
            },
            Body::NodeOf { .. } => {
                if log.rs.len() > 0 { placement(&log.rs[0]) } else { None }
            },
            Body::Idle { avoid } => {
                if log.rs.len() > 2 {
                    match idle_node(avoid, c.decommission_label.as_str(), &log.rs[0], &log.rs[1], &log.rs[2]) {
                        Ok(n) => Some(n),
                        Err(_) => None,
                    }
                } else {
                    None
                }
            },
            Body::Uid { .. } => {
                if log.rs.len() > 0 { pod_uid(&log.rs[0]) } else { None }
            },
            _ => None,
        }
    }
}

// ── the journeys ────────────────────────────────────────────────────────────

pub open spec fn drain_move(c: RunV, os: Seq<OutcomeV>) -> MoveV<BodyV> {
    let id = "drill.drain"@;
    let n = os.len();
    if !c.has_kube {
        if n == 0 { MoveV::Skip { id, why: "no kubeconfig"@ } } else { MoveV::End }
    } else if n == 0 {
        MoveV::Look { body: BodyV::OwnWorkspace }
    } else {
        match found_in(os[0]) {
            None => if n == 1 {
                MoveV::Skip { id, why: "no probe workspace to keep running through a drain"@ }
            } else {
                MoveV::End
            },
            Some(ws) => if n == 1 {
                MoveV::Look { body: BodyV::NodeOf { ws } }
            } else {
                match found_in(os[1]) {
                    None => if n == 2 { MoveV::Skip { id, why: "the workspace names no node"@ } } else { MoveV::End },
                    Some(node) => if n == 2 {
                        MoveV::Look { body: BodyV::Uid { ws } }
                    } else if n == 3 {
                        MoveV::Step {
                            id,
                            ceiling_ms: (DRAIN_MS + 60_000) as u64,
                            body: BodyV::Drain { ws, node, before: found_in(os[2]) },
                        }
                    } else {
                        MoveV::End
                    },
                }
            },
        }
    }
}

/// `drill.drain`: the node that is drained is the one that holds the run's own workspace, so that there is
/// something not to interrupt.
pub fn drain(c: &Run, os: &Vec<Outcome>) -> (m: Move<Body>)
    ensures
        m@ == drain_move(c@, outcomes(os@)),
{
    let id = "drill.drain";
    let n: usize = os.len();
    if !c.has_kube {
        return if n == 0 { skip(id, "no kubeconfig") } else { Move::End };
    }
    if n == 0 {
        return look(Body::OwnWorkspace);
    }
    match os[0].found() {
        None => {
            if n == 1 { skip(id, "no probe workspace to keep running through a drain") } else { Move::End }
        },
        Some(ws) => {
            if n == 1 {
                return look(Body::NodeOf { ws });
            }
            match os[1].found() {
                None => {
                    if n == 2 { skip(id, "the workspace names no node") } else { Move::End }
                },
                Some(node) => {
                    if n == 2 {
                        look(Body::Uid { ws })
                    } else if n == 3 {
                        step(id, step_cap(DRAIN_MS), Body::Drain { ws, node, before: os[2].found() })
                    } else {
                        Move::End
                    }
                },
            }
        },
    }
}

/// What a decommission does once an idle node was looked for.
pub open spec fn decommission_from(looked: OutcomeV, n: nat, at: nat) -> MoveV<BodyV> {
    let id = "cluster.decommission"@;
    if n == at {
        match passed_with(looked) {
            None => MoveV::Skip { id, why: failure_or_empty(looked) },
            Some(node) => MoveV::Step { id, ceiling_ms: (DRAIN_MS + 60_000) as u64, body: BodyV::Decommission { node } },
        }
    } else {
        MoveV::End
    }
}

pub open spec fn decommission_move(c: RunV, os: Seq<OutcomeV>) -> MoveV<BodyV> {
    let id = "cluster.decommission"@;
    let n = os.len();
    if !c.has_kube {
        if n == 0 { MoveV::Skip { id, why: "no kubeconfig"@ } } else { MoveV::End }
    } else if n == 0 {
        MoveV::Look { body: BodyV::OwnWorkspace }
    } else {
        match found_in(os[0]) {
            None => if n == 1 { MoveV::Look { body: BodyV::Idle { avoid: None } } } else { decommission_from(os[1], n, 2) },
            Some(ws) => if n == 1 {
                MoveV::Look { body: BodyV::NodeOf { ws } }
            } else if n == 2 {
                MoveV::Look { body: BodyV::Idle { avoid: found_in(os[1]) } }
            } else {
                decommission_from(os[2], n, 3)
            },
        }
    }
}

fn decommission_after(looked: &Outcome, n: usize, at: usize) -> (m: Move<Body>)
    ensures
        m@ == decommission_from(looked@, n as nat, at as nat),
{
    let id = "cluster.decommission";
    if n == at {
        match looked.passed_with() {
            None => skip(id, looked.failure_or_empty().as_str()),
            Some(node) => step(id, step_cap(DRAIN_MS), Body::Decommission { node }),
        }
    } else {
        Move::End
    }
}

/// `cluster.decommission`, on an idle node, and never on the one the drain has just used.
pub fn decommission(c: &Run, os: &Vec<Outcome>) -> (m: Move<Body>)
    ensures
        m@ == decommission_move(c@, outcomes(os@)),
{
    let n: usize = os.len();
    if !c.has_kube {
        return if n == 0 { skip("cluster.decommission", "no kubeconfig") } else { Move::End };
    }
    if n == 0 {
        return look(Body::OwnWorkspace);
    }
    match os[0].found() {
        None => {
            if n == 1 { look(Body::Idle { avoid: None }) } else { decommission_after(&os[1], n, 2) }
        },
        Some(ws) => {
            if n == 1 {
                look(Body::NodeOf { ws })
            } else if n == 2 {
                look(Body::Idle { avoid: os[1].found() })
            } else {
                decommission_after(&os[2], n, 3)
            }
        },
    }
}

pub open spec fn dead_node_move(os: Seq<OutcomeV>) -> MoveV<BodyV> {
    if os.len() == 0 { MoveV::Skip { id: "drill.dead.node"@, why: NODE_LEVEL_DRILL@ } } else { MoveV::End }
}

/// `drill.dead.node`: a node that dies cannot be had from inside the cluster, and the probe is not to be
/// able to make one.
pub fn dead_node(os: &Vec<Outcome>) -> (m: Move<Body>)
    ensures
        m@ == dead_node_move(outcomes(os@)),
{
    if os.len() == 0 { skip("drill.dead.node", NODE_LEVEL_DRILL) } else { Move::End }
}

/// Whatever comes back, each id is reported exactly once.
pub proof fn law_every_id_is_reported_once(c: RunV, os: Seq<OutcomeV>)
    ensures
        reports_exactly(|o: Seq<OutcomeV>| drain_move(c, o), os, seq!["drill.drain"@], 4),
        reports_exactly(|o: Seq<OutcomeV>| decommission_move(c, o), os, seq!["cluster.decommission"@], 4),
        reports_exactly(|o: Seq<OutcomeV>| dead_node_move(o), os, seq!["drill.dead.node"@], 4),
    decreases os.len(),
{
    reveal_with_fuel(reports, 5);
    if os.len() > 4 {
        law_every_id_is_reported_once(c, os.drop_last());
    }
}

/// Once a node is drained, the body is not over before it was asked back into use.
pub proof fn law_a_drain_is_lifted(c: RunV, ws: Seq<char>, node: Seq<char>, before: Option<Seq<char>>, log: LogV)
    requires
        log.rs.len() >= 1,
        call_error(log.rs[0]) is None,
        log.us.len() == 0,
    ensures
        !(drain_next(c, ws, node, before, log) is Pass),
        !(drain_next(c, ws, node, before, log) is Fail),
        drain_next(c, ws, node, before, log) matches NextV::Undo(ask) ==> ask == verb_asks(c, node, "undrain"@, DRAIN_WHY@),
{
}

/// A decommission is not over before the cordon was taken off and the drain lifted, in that order, however
/// far it got.
pub proof fn law_a_decommission_is_undone(c: RunV, node: Seq<char>, log: LogV)
    requires
        log.us.len() < 2,
    ensures
        !(decommission_next(c, node, log) is Pass),
        !(decommission_next(c, node, log) is Fail),
        decommission_next(c, node, log) matches NextV::Undo(ask) ==> ask == (if log.us.len() == 0 {
            cordoning(node, false)
        } else {
            verb_asks(c, node, "undrain"@, DECOMMISSION_WHY@)
        }),
{
}

/// A node a drill uses is one of the pool, that nothing runs on, that nobody is retiring, and that is not
/// the one to avoid.
pub proof fn law_a_drill_uses_an_idle_node(rows: Seq<Doc>, busy: Seq<Seq<char>>, avoid: Option<Seq<char>>, retiring: Seq<char>)
    requires
        first_idle(rows, busy, avoid, retiring) is Some,
    ensures
        exists|i: int| 0 <= i < rows.len() && is_idle(#[trigger] rows[i], busy, avoid, retiring) && first_idle(
            rows, busy, avoid, retiring,
        ) == Some(name_of(rows[i])),
    decreases rows.len(),
{
    if rows.len() > 0 && !is_idle(rows[0], busy, avoid, retiring) {
        let rest = rows.drop_first();
        law_a_drill_uses_an_idle_node(rest, busy, avoid, retiring);
        let i = choose|i: int| 0 <= i < rest.len() && is_idle(#[trigger] rest[i], busy, avoid, retiring) && first_idle(
            rest, busy, avoid, retiring,
        ) == Some(name_of(rest[i]));
        assert(rows[i + 1] == rest[i]);
    } else if rows.len() > 0 {
        assert(is_idle(rows[0], busy, avoid, retiring));
    }
}

} // verus!
