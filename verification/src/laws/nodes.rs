//! Of the drills on a node: drained with a workspace on it, decommissioned once it has drained.

use vstd::prelude::*;

use crate::cluster::name_of;
use crate::json::{Doc, doc_str, member, member2, row_named, rows_of, text_of};
use crate::laws::{answered, came, doc_in, went_well};
use crate::run::{RunV, admin_at, api_at};
use crate::stages::monthly::nodes::{
    BodyV, body_found, body_next, busy_nodes, decommission_move, drain_move, first_idle, is_idle,
};
use crate::turn::{MoveV, OutcomeV, found_in, passed_with};
use crate::wait::WaitV;
use crate::wire::{AskV, Cluster, Kind, LogV, NextV, ReplyV, getting, posting};

verus! {

/// A pod's own id, where it can be read: another one is another pod.
pub open spec fn read_uid(r: ReplyV) -> Option<Seq<char>> {
    if went_well(r) { doc_str(member2(doc_in(r), "metadata"@, "uid"@)) } else { None }
}

/// The workspace says that it is ready, or running.
pub open spec fn runs_on_in(r: ReplyV) -> bool {
    text_of(doc_in(r), "state"@) == Some("ready"@) || text_of(doc_in(r), "state"@) == Some("running"@)
}

/// A verb on a node, as the admin is asked for it, with the reason.
pub open spec fn on_node(c: RunV, node: Seq<char>, verb: Seq<char>, why: Seq<char>) -> AskV {
    posting(
        admin_at(c, "/admin/clusters/"@ + c.region + "/nodes/"@ + node) + "/"@ + verb, c.admin_jwt,
        Doc::Obj(seq![("reason"@, Doc::Str(why + c.run_id))]),
    )
}

/// A drain passes only where the pod that was read before it, if any was, is the pod that is read after it: with
/// another id, or gone, it was replaced, and whoever was in it was interrupted.
pub proof fn law_a_drained_workspace_keeps_its_pod(
    c: RunV, ws: Seq<char>, node: Seq<char>, before: Option<Seq<char>>, was: Seq<char>, now: Seq<char>, log: LogV,
)
    requires
        body_next(c, BodyV::Drain { ws, node, before }, log) is Pass,
    ensures
        log.rs.len() > 3,
        before == Some(was) && read_uid(log.rs[3]) == Some(now) ==> now == was,
        before is Some ==> !answered(log.rs[3], 404),
{
}

/// A drill of a drain passes exactly where the drain was taken, the node's own agent said that it is draining, the
/// workspace was read and is still ready, its pod is the one it had, and the node was taken back into use.
pub proof fn law_a_drain_is_walked_to_its_end(c: RunV, ws: Seq<char>, node: Seq<char>, before: Option<Seq<char>>, log: LogV)
    ensures
        ({
            let n = body_next(c, BodyV::Drain { ws, node, before }, log);
            let rs = log.rs;
            let why = "slo probe drill "@;
            &&& n is Pass <==> {
                &&& rs.len() > 3 && !log.cut && log.us.len() > 0
                &&& went_well(rs[0]) && came(rs[1]) && went_well(rs[2]) && went_well(log.us[0])
                &&& runs_on_in(rs[2])
                &&& before is Some ==> read_uid(rs[3]) == before || (read_uid(rs[3]) is None && !answered(rs[3], 404))
            }
            &&& rs.len() == 0 ==> n == NextV::Ask(on_node(c, node, "drain"@, why))
            &&& rs.len() == 1 && went_well(rs[0]) && !log.cut ==> n == NextV::Ask(
                AskV::Wait(WaitV::Draining { node, key: c.decommission_status, cap_ms: 300_000 }),
            )
            &&& rs.len() == 2 && went_well(rs[0]) && came(rs[1]) && !log.cut ==> n == NextV::Ask(
                getting(api_at(c, "/v1/workspaces/"@ + ws), c.probe_jwt),
            )
            &&& rs.len() == 3 && went_well(rs[0]) && came(rs[1]) && went_well(rs[2]) && runs_on_in(rs[2])
                && !log.cut ==> n == NextV::Ask(AskV::Read { cluster: Cluster::Fleet, kind: Kind::Pod, ns: c.own_ns, name: ws })
            &&& n matches NextV::Undo(a) ==> a == on_node(c, node, "undrain"@, why)
            &&& rs.len() > 0 && went_well(rs[0]) && log.cut && log.us.len() == 0 ==> n is Undo
        }),
{
    reveal_strlit("ready");
    reveal_strlit("running");
    assert("ready"@.len() == 5 && "running"@.len() == 7);
}

/// A drill of a decommission passes exactly where it was refused with a conflict before the node had drained, the
/// drain was taken and seen to end, the decommission was then taken, the node is cordoned, and both the cordon
/// and the drain were taken back.
pub proof fn law_a_decommission_waits_for_the_drain(c: RunV, node: Seq<char>, log: LogV)
    ensures
        ({
            let n = body_next(c, BodyV::Decommission { node }, log);
            let rs = log.rs;
            let why = "slo probe decommission drill "@;
            &&& n is Pass <==> {
                &&& rs.len() > 4 && !log.cut && log.us.len() > 1
                &&& answered(rs[0], 409) && went_well(rs[1]) && came(rs[2]) && went_well(rs[3]) && went_well(rs[4])
                &&& member2(doc_in(rs[4]), "spec"@, "unschedulable"@) == Some(Doc::Bool(true))
                &&& went_well(log.us[0]) && went_well(log.us[1])
            }
            &&& !log.cut && rs.len() == 0 ==> n == NextV::Ask(on_node(c, node, "decommission"@, why))
            &&& !log.cut && rs.len() == 1 && answered(rs[0], 409) ==> n == NextV::Ask(on_node(c, node, "drain"@, why))
            &&& !log.cut && rs.len() == 2 && answered(rs[0], 409) && went_well(rs[1]) ==> n == NextV::Ask(
                AskV::Wait(WaitV::Drained { node, key: c.decommission_status, prefix: c.drained_prefix, cap_ms: 540_000 }),
            )
            &&& !log.cut && rs.len() == 3 && answered(rs[0], 409) && went_well(rs[1]) && came(rs[2]) ==> n == NextV::Ask(
                on_node(c, node, "decommission"@, why),
            )
            &&& !log.cut && rs.len() == 4 && answered(rs[0], 409) && went_well(rs[1]) && came(rs[2]) && went_well(rs[3]) ==> n == NextV::Ask(
                AskV::Read { cluster: Cluster::Fleet, kind: Kind::Node, ns: ""@, name: node },
            )
            &&& n matches NextV::Undo(a) ==> if log.us.len() == 0 {
                a == (AskV::Change {
                    cluster: Cluster::Fleet,
                    kind: Kind::Node,
                    ns: ""@,
                    name: node,
                    who: ""@,
                    dry_run: false,
                    body: Doc::Obj(seq![("spec"@, Doc::Obj(seq![("unschedulable"@, Doc::Bool(false))]))]),
                })
            } else {
                a == on_node(c, node, "undrain"@, why)
            }
        }),
{
}

/// A drill uses a node of the pool that is not the one to avoid, that nothing runs on, that nobody is retiring
/// and that is not cordoned.
pub proof fn law_a_drill_takes_nobodys_node(c: RunV, avoid: Option<Seq<char>>, log: LogV)
    requires
        body_next(c, BodyV::Idle { avoid }, log) is Pass,
    ensures
        log.rs.len() > 2,
        went_well(log.rs[0]) && went_well(log.rs[1]) && went_well(log.rs[2]),
        ({
            let rows = rows_of(Some(doc_in(log.rs[2])));
            exists|i: int| #![trigger rows[i]]
                {
                    &&& 0 <= i < rows.len()
                    &&& body_found(c, BodyV::Idle { avoid }, log) == Some(name_of(rows[i]))
                    &&& Some(name_of(rows[i])) != avoid
                    &&& member2(rows[i], "spec"@, "unschedulable"@) != Some(Doc::Bool(true))
                    &&& member2(rows[i], "metadata"@, "labels"@) matches Some(m) && text_of(m, "kloudlite.io/pool"@) == Some("true"@) && member(
                        m, c.decommission_label,
                    ) is None
                    &&& runs_nothing(rows_of(Some(doc_in(log.rs[0]))), name_of(rows[i]))
                    &&& runs_nothing(rows_of(Some(doc_in(log.rs[1]))), name_of(rows[i]))
                }
        }),
{
    let ws = rows_of(Some(doc_in(log.rs[0])));
    let envs = rows_of(Some(doc_in(log.rs[1])));
    let rows = rows_of(Some(doc_in(log.rs[2])));
    let busy = busy_nodes(ws) + busy_nodes(envs);
    crate::stages::monthly::nodes::law_a_drill_uses_an_idle_node(rows, busy, avoid, c.decommission_label);
    let i = choose|i: int| 0 <= i < rows.len() && is_idle(#[trigger] rows[i], busy, avoid, c.decommission_label) && first_idle(
        rows, busy, avoid, c.decommission_label,
    ) == Some(name_of(rows[i]));
    let node = name_of(rows[i]);
    lemma_busy(ws, node);
    lemma_busy(envs, node);
    if busy_nodes(ws).contains(node) {
        let k = busy_nodes(ws).index_of(node);
        assert(busy[k] == node);
    }
    if busy_nodes(envs).contains(node) {
        let k = busy_nodes(envs).index_of(node);
        assert(busy[busy_nodes(ws).len() + k] == node);
    }
    assert(rows[i] == rows[i]);
}

/// No row is on the node in a phase in which somebody could be at it.
pub open spec fn runs_nothing(rows: Seq<Doc>, node: Seq<char>) -> bool {
    forall|i: int|
        0 <= i < rows.len() && node.len() > 0 && doc_str(member2(#[trigger] rows[i], "status"@, "nodeName"@)) == Some(node) ==> {
            let phase = doc_str(member2(rows[i], "status"@, "phase"@));
            phase is None || phase == Some(""@) || phase == Some("Stopped"@) || phase == Some("stopped"@) || phase == Some("Failed"@) || phase
                == Some("failed"@)
        }
}

proof fn lemma_busy(rows: Seq<Doc>, node: Seq<char>)
    ensures
        !busy_nodes(rows).contains(node) ==> runs_nothing(rows, node),
    decreases rows.len(),
{
    if rows.len() > 0 {
        let f = rows.drop_last();
        lemma_busy(f, node);
        let before = busy_nodes(f);
        let all = busy_nodes(rows);
        if !all.contains(node) {
            if before.contains(node) {
                let k = before.index_of(node);
                assert(all[k] == node);
            }
            assert(runs_nothing(f, node));
            assert forall|i: int|
                0 <= i < rows.len() && node.len() > 0 && doc_str(member2(#[trigger] rows[i], "status"@, "nodeName"@)) == Some(node) implies {
                let phase = doc_str(member2(rows[i], "status"@, "phase"@));
                phase is None || phase == Some(""@) || phase == Some("Stopped"@) || phase == Some("stopped"@) || phase == Some("Failed"@)
                    || phase == Some("failed"@)
            } by {
                if i < rows.len() - 1 {
                    assert(f[i] == rows[i]);
                } else {
                    if crate::stages::monthly::nodes::runs_on(rows[i]) == Some(node) {
                        assert(all[all.len() - 1] == node);
                    }
                }
            }
        }
    }
}

/// A drain is drilled on the run's own cold workspace, on the node that it is on, with the pod it had just before;
/// a decommission on a node that was found idle, and never on that one.
pub proof fn law_a_drill_is_on_what_was_looked_for(c: RunV, os: Seq<OutcomeV>)
    ensures
        drain_move(c, os) matches MoveV::Step { id, body, ceiling_ms } ==> id == "drill.drain"@ && ceiling_ms == 660_000 && os.len() == 3 && body
            == (BodyV::Drain { ws: found_in(os[0])->0, node: found_in(os[1])->0, before: found_in(os[2]) }) && found_in(os[0]) is Some && found_in(
            os[1],
        ) is Some,
        drain_move(c, os) matches MoveV::Look { body } ==> {
            &&& os.len() == 0 ==> body == BodyV::OwnWorkspace
            &&& os.len() == 1 ==> body == (BodyV::NodeOf { ws: found_in(os[0])->0 })
            &&& os.len() == 2 ==> body == (BodyV::Uid { ws: found_in(os[0])->0 })
        },
        decommission_move(c, os) matches MoveV::Step { id, body, .. } ==> id == "cluster.decommission"@ && (body matches BodyV::Decommission {
            node,
        } && passed_with(os.last()) == Some(node)),
        decommission_move(c, os) matches MoveV::Look { body } ==> (body matches BodyV::Idle { avoid } ==> if found_in(os[0]) is Some {
            os.len() == 2 && avoid == found_in(os[1])
        } else {
            avoid is None
        }),
{
}

/// What is looked for is read where it is: the run's own workspace by its name, the node it is on off its own
/// answer, and its pod's id off the pod.
pub proof fn law_what_is_looked_for_is_read_where_it_is(c: RunV, ws: Seq<char>, t: Seq<char>, log: LogV)
    requires
        log.rs.len() == 1,
    ensures
        body_found(c, BodyV::OwnWorkspace, log) == Some(t) <==> went_well(log.rs[0]) && (row_named(
            rows_of(Some(doc_in(log.rs[0]))), "name"@, "run-"@ + c.run_id + "-cold"@,
        ) matches Some(row) && text_of(row, "id"@) == Some(t)),
        body_found(c, BodyV::NodeOf { ws }, log) == Some(t) <==> went_well(log.rs[0]) && text_of(doc_in(log.rs[0]), "placement"@) == Some(t),
        body_found(c, BodyV::Uid { ws }, log) == read_uid(log.rs[0]),
        body_next(c, BodyV::OwnWorkspace, LogV { rs: seq![], ..log }) == NextV::Ask(getting(api_at(c, "/v1/workspaces"@), c.probe_jwt)),
        body_next(c, BodyV::NodeOf { ws }, LogV { rs: seq![], ..log }) == NextV::Ask(getting(api_at(c, "/v1/workspaces/"@ + ws), c.probe_jwt)),
        body_next(c, BodyV::Uid { ws }, LogV { rs: seq![], ..log }) == NextV::Ask(
            AskV::Read { cluster: Cluster::Fleet, kind: Kind::Pod, ns: c.own_ns, name: ws },
        ),
{
}

} // verus!
