//! Of a workspace's and an environment's life: stopped, copied, started, restored, detached, deleted.

use vstd::prelude::*;

use crate::json::{Doc, member, member2, row_named, rows_of, text_of};
use crate::laws::{answered, came, doc_in, waits_until, went_well};
use crate::run::{RunV, StateV, api_at, named, prefix_of};
use crate::stages::gaps::env_ns;
use crate::stages::lifecycle::{
    BodyV, body_found, body_next, deletes_move, environment_move, is_later, is_sync_point, leftovers_next, made_at, ours_in, workspace_move,
};
use crate::turn::{MoveV, OutcomeV, passed};
use crate::wait::WaitV;
use crate::wire::{AskV, Cluster, Kind, LogV, NextV, ReplyV, deleting, getting, posting};

verus! {

/// To stop passes exactly where the stop was taken and the workspace then said that it is stopped.
pub proof fn law_a_stop_ends_at_stopped(c: RunV, ws: Seq<char>, log: LogV)
    ensures
        ({
            let n = body_next(c, BodyV::Stop { ws }, log);
            let rs = log.rs;
            let url = api_at(c, "/v1/workspaces/"@ + ws);
            &&& n is Pass <==> rs.len() > 1 && went_well(rs[0]) && came(rs[1])
            &&& rs.len() == 0 ==> n == NextV::Ask(posting(url + "/stop"@, c.probe_jwt, Doc::Null))
            &&& rs.len() == 1 && went_well(rs[0]) ==> waits_until(
                n, url, c.probe_jwt, 15_000, |d: Doc| member(d, "state"@) == Some(Doc::Str("stopped"@)),
            )
            &&& rs.len() > 1 && went_well(rs[0]) && !came(rs[1]) ==> n is Fail
        }),
{
}

/// To start passes exactly where the start was taken and the workspace then said that it is ready.
pub proof fn law_a_start_ends_at_ready(c: RunV, ws: Seq<char>, log: LogV)
    ensures
        ({
            let n = body_next(c, BodyV::Start { ws }, log);
            let rs = log.rs;
            let url = api_at(c, "/v1/workspaces/"@ + ws);
            &&& n is Pass <==> rs.len() > 1 && went_well(rs[0]) && came(rs[1])
            &&& rs.len() == 0 ==> n == NextV::Ask(posting(url + "/start"@, c.probe_jwt, Doc::Null))
            &&& rs.len() == 1 && went_well(rs[0]) ==> waits_until(
                n, url, c.probe_jwt, 30_000, |d: Doc| member(d, "state"@) == Some(Doc::Str("ready"@)),
            )
        }),
{
}

/// A restore passes exactly where it was taken, named the workspace it made, and that workspace was then
/// seen to be ready: a wait for it that was lost is a failure.
pub proof fn law_a_restore_ends_at_ready(c: RunV, name: Seq<char>, snapshot: Seq<char>, id: Seq<char>, log: LogV)
    ensures
        ({
            let n = body_next(c, BodyV::Restore { name, snapshot }, log);
            let rs = log.rs;
            &&& n is Pass <==> rs.len() > 1 && went_well(rs[0]) && text_of(doc_in(rs[0]), "id"@) is Some && came(rs[1])
            &&& rs.len() > 1 && rs[1] is Lost ==> n is Fail
            &&& rs.len() == 0 ==> n == NextV::Ask(
                posting(
                    api_at(c, "/v1/workspaces/restore"@), c.probe_jwt,
                    Doc::Obj(seq![("name"@, Doc::Str(name)), ("snapshot_id"@, Doc::Str(snapshot))]),
                ),
            )
            &&& rs.len() == 1 && went_well(rs[0]) && text_of(doc_in(rs[0]), "id"@) == Some(id) ==> waits_until(
                n, api_at(c, "/v1/workspaces/"@ + id), c.probe_jwt, 60_000, |d: Doc| member(d, "state"@) == Some(Doc::Str("ready"@)),
            )
        }),
{
}

/// The last cut is held elsewhere exactly where its owner says so and, where the cluster can be read, a replica
/// that is on a node, and on another than the workspace's own, names a cut of it.
pub proof fn law_a_cut_is_held_by_another_node(c: RunV, ws: Seq<char>, log: LogV)
    ensures
        ({
            let n = body_next(c, BodyV::Replicated { ws }, log);
            let rs = log.rs;
            let url = api_at(c, "/v1/workspaces/"@ + ws);
            let rows = rows_of(Some(doc_in(rs[2])));
            &&& rs.len() == 0 ==> waits_until(
                n, url, c.probe_jwt, 60_000, |d: Doc| member2(d, "replicated"@, "ready"@) == Some(Doc::Bool(true)),
            )
            &&& !c.has_kube ==> (n is Pass <==> rs.len() > 0 && came(rs[0]))
            &&& c.has_kube && rs.len() == 1 && came(rs[0]) ==> n == NextV::Ask(getting(url, c.probe_jwt))
            &&& c.has_kube && rs.len() == 2 && came(rs[0]) && went_well(rs[1]) ==> n == NextV::Ask(
                AskV::List { cluster: Cluster::Fleet, kind: Kind::Replica, ns: ""@ },
            )
            &&& c.has_kube && n is Pass ==> {
                &&& rs.len() > 2 && came(rs[0]) && went_well(rs[1]) && went_well(rs[2])
                &&& exists|i: int| #![trigger rows[i]]
                    0 <= i < rows.len() && (text_of(rows[i], "node"@) matches Some(node) && node.len() > 0 && text_of(
                        doc_in(rs[1]), "placement"@,
                    ) != Some(node)) && (member2(rows[i], "status"@, "branches"@) matches Some(b) && (text_of(b, ws) matches Some(cut)
                        && cut.len() > 0))
            }
        }),
{
    let rs = log.rs;
    let rows = rows_of(Some(doc_in(rs[2])));
    if c.has_kube && body_next(c, BodyV::Replicated { ws }, log) is Pass {
        let owner = crate::stages::weekly::placement_in(rs[1]);
        let i = choose|i: int| 0 <= i < rows.len() && crate::stages::lifecycle::names_cut(#[trigger] rows[i], ws)
            && crate::stages::lifecycle::is_elsewhere(rows[i], owner);
        assert(rows[i] == rows[i]);
    }
}

/// And where there is such a replica, it passes.
pub proof fn law_a_replica_elsewhere_is_enough(c: RunV, ws: Seq<char>, log: LogV, i: int)
    requires
        c.has_kube,
        log.rs.len() == 3,
        came(log.rs[0]) && went_well(log.rs[1]) && went_well(log.rs[2]),
        0 <= i < rows_of(Some(doc_in(log.rs[2]))).len(),
        text_of(rows_of(Some(doc_in(log.rs[2])))[i], "node"@) is Some,
        text_of(rows_of(Some(doc_in(log.rs[2])))[i], "node"@)->0.len() > 0,
        text_of(doc_in(log.rs[1]), "placement"@) != text_of(rows_of(Some(doc_in(log.rs[2])))[i], "node"@),
        member2(rows_of(Some(doc_in(log.rs[2])))[i], "status"@, "branches"@) is Some,
        text_of(member2(rows_of(Some(doc_in(log.rs[2])))[i], "status"@, "branches"@)->0, ws) is Some,
        text_of(member2(rows_of(Some(doc_in(log.rs[2])))[i], "status"@, "branches"@)->0, ws)->0.len() > 0,
    ensures
        body_next(c, BodyV::Replicated { ws }, log) is Pass,
{
    let row = rows_of(Some(doc_in(log.rs[2])))[i];
    assert(crate::stages::lifecycle::names_cut(row, ws));
    assert(crate::stages::lifecycle::is_elsewhere(row, crate::stages::weekly::placement_in(log.rs[1])));
}

/// The sync point that is found is one of the volume's own, which no person took, and none of its is newer.
pub proof fn law_the_newest_sync_point_is_found(c: RunV, volume: Seq<char>, log: LogV)
    ensures
        ({
            let n = body_next(c, BodyV::SyncPoint { volume }, log);
            let rs = log.rs;
            let rows = rows_of(Some(doc_in(rs[0])));
            &&& rs.len() == 0 ==> n == NextV::Ask(AskV::List { cluster: Cluster::Fleet, kind: Kind::Snapshot, ns: ""@ })
            &&& n is Pass <==> rs.len() > 0 && went_well(rs[0]) && exists|i: int|
                0 <= i < rows.len() && is_sync_point(#[trigger] rows[i], volume)
            &&& n is Pass ==> exists|i: int|
                0 <= i < rows.len() && is_sync_point(#[trigger] rows[i], volume) && body_found(BodyV::SyncPoint { volume }, log) == Some(
                    crate::cluster::name_of(rows[i]),
                ) && forall|j: int| 0 <= j < rows.len() && is_sync_point(#[trigger] rows[j], volume) ==> !is_later(made_at(rows[j]), made_at(rows[i]))
        }),
        forall|row: Doc| #[trigger] is_sync_point(row, volume) <==> member2(row, "spec"@, "volume"@) == Some(Doc::Str(volume)) && member(
            row, "isSnapshot"@,
        ) == Some(Doc::Bool(false)),
{
    let rows = rows_of(Some(doc_in(log.rs[0])));
    crate::stages::lifecycle::law_no_sync_point_is_newer(rows, volume);
}

/// What must be refused is refused with a conflict, all three of them: the sync point, the push that a
/// worktree runs on, and the volume itself.
pub proof fn law_all_three_deletes_are_refused(c: RunV, volume: Seq<char>, snapshot: Seq<char>, sync: Seq<char>, log: LogV)
    ensures
        ({
            let n = body_next(c, BodyV::Refusals { volume, snapshot, sync }, log);
            let rs = log.rs;
            let url = api_at(c, "/v1/volumes/"@ + volume);
            &&& n is Pass <==> rs.len() > 2 && answered(rs[0], 409) && answered(rs[1], 409) && answered(rs[2], 409)
            &&& rs.len() == 0 ==> n == NextV::Ask(deleting(url + "/snapshots/"@ + sync, c.probe_jwt))
            &&& rs.len() == 1 && answered(rs[0], 409) ==> n == NextV::Ask(deleting(url + "/snapshots/"@ + snapshot, c.probe_jwt))
            &&& rs.len() == 2 && answered(rs[0], 409) && answered(rs[1], 409) ==> n == NextV::Ask(deleting(url, c.probe_jwt))
        }),
{
}

/// Every working copy of the run is waited to go; a detached push that is restored names what it made; and
/// with none left, the run's own volume is waited to be collected.
pub proof fn law_what_is_detached_restores_and_goes(c: RunV, name: Seq<char>, snapshot: Seq<char>, volume: Seq<char>, log: LogV)
    ensures
        ({
            let n = body_next(c, BodyV::DetachAll, log);
            &&& log.rs.len() == 0 ==> n == NextV::Ask(
                AskV::Wait(
                    WaitV::Detached { url: api_at(c, "/v1/workspaces"@), token: c.probe_jwt, prefix: "run-"@ + c.run_id, cap_ms: 60_000 },
                ),
            )
            &&& n is Pass <==> log.rs.len() > 0 && came(log.rs[0])
        }),
        ({
            let n = body_next(c, BodyV::Detached { name, snapshot }, log);
            &&& log.rs.len() == 0 ==> n == NextV::Ask(
                posting(
                    api_at(c, "/v1/workspaces/restore"@), c.probe_jwt,
                    Doc::Obj(seq![("name"@, Doc::Str(name)), ("snapshot_id"@, Doc::Str(snapshot))]),
                ),
            )
            &&& n is Pass <==> log.rs.len() > 0 && went_well(log.rs[0]) && text_of(doc_in(log.rs[0]), "id"@) is Some
        }),
        ({
            let n = body_next(c, BodyV::Orphan { volume }, log);
            &&& log.rs.len() == 0 ==> n == NextV::Ask(
                AskV::Wait(
                    WaitV::Collected {
                        workspaces: api_at(c, "/v1/workspaces"@),
                        base: api_at(c, "/v1/volumes/"@ + volume),
                        token: c.probe_jwt,
                        prefix: "run-"@ + c.run_id,
                        volume,
                        cap_ms: 60_000,
                    },
                ),
            )
            &&& n is Pass <==> log.rs.len() > 0 && came(log.rs[0])
        }),
{
}

/// The same of an environment: it is stopped, held elsewhere and started again, and each is waited for.
pub proof fn law_an_environment_stops_and_runs_again(c: RunV, env: Seq<char>, log: LogV)
    ensures
        ({
            let url = api_at(c, "/v1/environments/"@ + env);
            let rs = log.rs;
            let stop = body_next(c, BodyV::EnvStop { env }, log);
            let start = body_next(c, BodyV::EnvStart { env }, log);
            let copied = body_next(c, BodyV::EnvReplicated { env }, log);
            &&& stop is Pass <==> rs.len() > 1 && went_well(rs[0]) && came(rs[1])
            &&& rs.len() == 0 ==> stop == NextV::Ask(posting(url + "/stop"@, c.probe_jwt, Doc::Null))
            &&& rs.len() == 1 && went_well(rs[0]) ==> waits_until(
                stop, url, c.probe_jwt, 30_000, |d: Doc| member(d, "state"@) == Some(Doc::Str("stopped"@)),
            )
            &&& start is Pass <==> rs.len() > 1 && went_well(rs[0]) && came(rs[1])
            &&& rs.len() == 0 ==> start == NextV::Ask(posting(url + "/start"@, c.probe_jwt, Doc::Null))
            &&& rs.len() == 1 && went_well(rs[0]) ==> waits_until(
                start, url, c.probe_jwt, 60_000, |d: Doc| member(d, "state"@) == Some(Doc::Str("running"@)),
            )
            &&& copied is Pass <==> rs.len() > 0 && came(rs[0])
            &&& rs.len() == 0 ==> waits_until(
                copied, url, c.probe_jwt, 30_000, |d: Doc| member2(d, "replicated"@, "ready"@) == Some(Doc::Bool(true)),
            )
        }),
{
}

/// An environment is restored exactly where the restore was taken and named it, it said that it runs, and, where
/// the cluster can be read, its service has a ready replica in its own namespace.
pub proof fn law_an_environment_is_restored_with_its_services(c: RunV, name: Seq<char>, snapshot: Seq<char>, id: Seq<char>, log: LogV)
    ensures
        ({
            let n = body_next(c, BodyV::EnvRestore { name, snapshot }, log);
            let rs = log.rs;
            let took = went_well(rs[0]) && text_of(doc_in(rs[0]), "id"@) == Some(id);
            &&& rs.len() == 0 ==> n == NextV::Ask(
                posting(
                    api_at(c, "/v1/environments/restore"@), c.probe_jwt,
                    Doc::Obj(seq![("name"@, Doc::Str(name)), ("snapshot_id"@, Doc::Str(snapshot))]),
                ),
            )
            &&& rs.len() == 1 && took ==> waits_until(
                n, api_at(c, "/v1/environments/"@ + id), c.probe_jwt, 90_000, |d: Doc| member(d, "state"@) == Some(Doc::Str("running"@)),
            )
            &&& c.has_kube && rs.len() == 2 && took && came(rs[1]) ==> n == NextV::Ask(
                AskV::Wait(WaitV::Replicas { ns: env_ns(id), name: "redis"@, cap_ms: 90_000 }),
            )
            &&& n is Pass <==> rs.len() > 1 && went_well(rs[0]) && text_of(doc_in(rs[0]), "id"@) is Some && came(rs[1]) && (c.has_kube
                ==> rs.len() > 2 && came(rs[2]))
            &&& rs.len() > 0 && took ==> body_found(BodyV::EnvRestore { name, snapshot }, log) == Some(id)
        }),
{
}

proof fn lemma_leftovers(c: RunV, ids: Seq<Seq<char>>, volume: Seq<char>, rs: Seq<ReplyV>, i: nat)
    requires
        i <= ids.len(),
    ensures
        leftovers_next(c, ids, volume, rs, i) is Pass ==> {
            &&& rs.len() > 2 * ids.len() + 1
            &&& forall|j: int| i <= j < ids.len() ==> came(#[trigger] rs[2 * j + 1])
            &&& went_well(rs[2 * ids.len() as int]) && went_well(rs[2 * ids.len() as int + 1])
            &&& row_named(rows_of(Some(doc_in(rs[2 * ids.len() as int]))), "name"@, volume) is Some
        },
    decreases ids.len() - i,
{
    if i < ids.len() {
        lemma_leftovers(c, ids, volume, rs, i + 1);
        if leftovers_next(c, ids, volume, rs, i) is Pass {
            assert forall|j: int| i <= j < ids.len() implies came(#[trigger] rs[2 * j + 1]) by {}
        }
    }
}

/// An environment that is deleted goes, and so does each of the run's others, and the volume that still has
/// its push is still listed, with its history. The clone goes first, where there is one, and takes its volume.
pub proof fn law_a_delete_keeps_what_was_pushed(c: RunV, env: Seq<char>, volume: Seq<char>, log: LogV)
    ensures
        ({
            let n = body_next(c, BodyV::WtDelete { env, volume, clone: None }, log);
            let rs = log.rs;
            let url = api_at(c, "/v1/environments/"@ + env);
            let others = ours_in("run-"@ + c.run_id, rs[2]).len() as int;
            &&& rs.len() == 0 ==> n == NextV::Ask(deleting(url, c.probe_jwt))
            &&& rs.len() == 1 && went_well(rs[0]) ==> (n matches NextV::Ask(AskV::Wait(WaitV::Departed { url: u, token, cap_ms, .. })) && u == url
                && token == c.probe_jwt && cap_ms == 22_000)
            &&& rs.len() == 2 && went_well(rs[0]) && came(rs[1]) ==> n == NextV::Ask(getting(api_at(c, "/v1/environments"@), c.probe_jwt))
            &&& n is Pass ==> {
                &&& rs.len() > 2 * others + 4
                &&& went_well(rs[0]) && came(rs[1])
                &&& forall|j: int| 0 <= j < others ==> came(#[trigger] rs.skip(3)[2 * j + 1])
                &&& went_well(rs[3 + 2 * others]) && went_well(rs[4 + 2 * others])
                &&& row_named(rows_of(Some(doc_in(rs[3 + 2 * others]))), "name"@, volume) is Some
            }
        }),
{
    let ids = ours_in(prefix_of(c), log.rs[2]);
    lemma_leftovers(c, ids, volume, log.rs.skip(3), 0);
}

/// Leftovers whose waits all came are past.
proof fn lemma_leftovers_past(c: RunV, ids: Seq<Seq<char>>, volume: Seq<char>, rs: Seq<ReplyV>, i: nat, j: nat)
    requires
        i <= j <= ids.len(),
        rs.len() >= 2 * j,
        forall|k: int| i <= k < j ==> came(#[trigger] rs[2 * k + 1]),
    ensures
        leftovers_next(c, ids, volume, rs, i) == leftovers_next(c, ids, volume, rs, j),
    decreases j - i,
{
    if i < j {
        assert(came(rs[2 * i as int + 1]));
        lemma_leftovers_past(c, ids, volume, rs, i + 1, j);
    }
}

/// Each environment of the run that is still listed is deleted in turn and waited to be gone; the volume and its history are read
/// after the last, and have to be there.
pub proof fn law_every_leftover_goes_in_turn(c: RunV, env: Seq<char>, volume: Seq<char>, i: nat, log: LogV)
    requires
        log.rs.len() >= 3,
        went_well(log.rs[0]) && came(log.rs[1]),
        i <= ours_in("run-"@ + c.run_id, log.rs[2]).len(),
        log.rs.len() >= 3 + 2 * i,
        forall|k: int| 0 <= k < i ==> came(#[trigger] log.rs.skip(3)[2 * k + 1]),
    ensures
        ({
            let n = body_next(c, BodyV::WtDelete { env, volume, clone: None }, log);
            let rs = log.rs;
            let ids = ours_in("run-"@ + c.run_id, rs[2]);
            let at = 3 + 2 * i as int;
            &&& i < ids.len() && rs.len() == at ==> n == NextV::Ask(deleting(api_at(c, "/v1/environments/"@ + ids[i as int]), c.probe_jwt))
            &&& i < ids.len() && rs.len() == at + 1 ==> (n matches NextV::Ask(AskV::Wait(WaitV::Departed { url, token, cap_ms, .. })) && url == api_at(
                c, "/v1/environments/"@ + ids[i as int],
            ) && token == c.probe_jwt && cap_ms == 22_000)
            &&& i == ids.len() && rs.len() == at ==> n == NextV::Ask(getting(api_at(c, "/v1/volumes"@), c.probe_jwt))
            &&& i == ids.len() && rs.len() > at && went_well(rs[at]) && row_named(rows_of(Some(doc_in(rs[at]))), "name"@, volume) is Some ==> {
                &&& rs.len() == at + 1 ==> n == NextV::Ask(getting(api_at(c, "/v1/volumes/"@ + volume) + "/history"@, c.probe_jwt))
                &&& rs.len() > at + 1 ==> (n is Pass <==> went_well(rs[at + 1]))
            }
        }),
{
    let ids = ours_in("run-"@ + c.run_id, log.rs[2]);
    let rest = log.rs.skip(3);
    lemma_leftovers_past(c, ids, volume, rest, 0, i);
    assert(rest.len() == log.rs.len() - 3);
    assert(forall|k: int| 0 <= k < rest.len() ==> rest[k] == log.rs[3 + k]);
}

/// With a clone, that goes first: it and its volume are waited to be gone, and then the rest is as without one.
pub proof fn law_a_clone_takes_its_volume(c: RunV, env: Seq<char>, volume: Seq<char>, copy: Seq<char>, log: LogV)
    ensures
        ({
            let n = body_next(c, BodyV::WtDelete { env, volume, clone: Some(copy) }, log);
            let rs = log.rs;
            let url = api_at(c, "/v1/workspaces/"@ + copy);
            &&& rs.len() == 0 ==> n == NextV::Ask(deleting(url, c.probe_jwt))
            &&& rs.len() == 1 ==> (n matches NextV::Ask(AskV::Wait(WaitV::Departed { url: u, token, cap_ms, .. })) && u == url && token == c.probe_jwt
                && cap_ms == 22_000)
            &&& rs.len() == 2 && came(rs[1]) ==> (n matches NextV::Ask(AskV::Wait(WaitV::Unlisted { url: u, token, name, .. })) && u == api_at(
                c, "/v1/volumes"@,
            ) && token == c.probe_jwt && name == copy)
            &&& rs.len() >= 3 && came(rs[1]) && came(rs[2]) ==> n == body_next(
                c, BodyV::WtDelete { env, volume, clone: None }, LogV { rs: rs.skip(3), ..log },
            )
            &&& n is Pass ==> rs.len() > 3 && came(rs[1]) && came(rs[2])
        }),
{
}

/// A push that is deleted goes from its volume's history, and the volume with nothing left on it goes too.
pub proof fn law_the_last_push_takes_the_volume(c: RunV, volume: Seq<char>, snapshot: Seq<char>, log: LogV)
    ensures
        ({
            let n = body_next(c, BodyV::SnapDelete { volume, snapshot }, log);
            let rs = log.rs;
            let url = api_at(c, "/v1/volumes/"@ + volume);
            &&& rs.len() == 0 ==> n == NextV::Ask(deleting(url + "/snapshots/"@ + snapshot, c.probe_jwt))
            &&& rs.len() == 1 && went_well(rs[0]) ==> (n matches NextV::Ask(AskV::Wait(WaitV::Unlisted { url: u, token, name, .. })) && u == api_at(
                c, "/v1/volumes"@,
            ) && token == c.probe_jwt && name == volume)
            &&& rs.len() == 2 && went_well(rs[0]) && came(rs[1]) ==> n == NextV::Ask(getting(url + "/history"@, c.probe_jwt))
            &&& n is Pass <==> rs.len() > 2 && went_well(rs[0]) && came(rs[1]) && (answered(rs[2], 404) || went_well(rs[2]) && row_named(
                rows_of(Some(doc_in(rs[2]))), "id"@, snapshot,
            ) is None)
        }),
{
}

/// The journey works on what the run has: its own workspace, volume and pushes, under names of its own; and
/// what depends on a move that did not pass is skipped.
pub proof fn law_the_journey_works_on_the_runs_own(c: RunV, s: StateV, os: Seq<OutcomeV>)
    ensures
        workspace_move(c, s, os) matches MoveV::Step { body, .. } ==> {
            &&& body matches BodyV::Stop { ws } ==> s.workspace == Some(ws)
            &&& body matches BodyV::Replicated { ws } ==> s.workspace == Some(ws)
            &&& body matches BodyV::Start { ws } ==> s.workspace == Some(ws)
            &&& body matches BodyV::Restore { name, snapshot } ==> name == "run-"@ + c.run_id + "-restore"@ && s.snapshot == Some(snapshot)
            &&& body matches BodyV::Refusals { volume, snapshot, sync } ==> s.volume == Some(volume) && s.snapshot == Some(snapshot) && os[4]
                == (OutcomeV::Passed { found: Some(sync) })
            &&& body matches BodyV::Detached { name, snapshot } ==> name == "run-"@ + c.run_id + "-detached"@ && s.snapshot == Some(snapshot)
                && passed(os.last())
            &&& body matches BodyV::Orphan { volume } ==> s.volume == Some(volume) && c.has_kube
        },
        environment_move(c, s, os) matches MoveV::Step { body, .. } ==> {
            &&& body matches BodyV::EnvStop { env } ==> s.environment == Some(env)
            &&& body matches BodyV::EnvReplicated { env } ==> s.environment == Some(env) && passed(os[0])
            &&& body matches BodyV::EnvStart { env } ==> s.environment == Some(env) && passed(os[0])
            &&& body matches BodyV::EnvRestore { name, snapshot } ==> name == "run-"@ + c.run_id + "-envrestore"@ && s.env_snapshot == Some(
                snapshot,
            ) && passed(os[0])
        },
        deletes_move(s, os) matches MoveV::Step { body, .. } ==> {
            &&& body matches BodyV::WtDelete { env, volume, clone } ==> s.environment == Some(env) && s.env_volume == Some(volume) && s.clone
                == clone
            &&& body matches BodyV::SnapDelete { volume, snapshot } ==> s.env_volume == Some(volume) && s.env_snapshot == Some(snapshot)
                && passed(os[0])
        },
        workspace_move(c, s, os) matches MoveV::Step { id, body, .. } ==> {
            &&& body is Stop ==> id == "ws.stop.p95"@
            &&& body is Replicated ==> id == "ws.replicated"@
            &&& body is Start ==> id == "ws.start.p95"@
            &&& body is Restore ==> id == "ws.restore"@
            &&& body is Refusals ==> id == "vol.refusals"@
            &&& body is Detached ==> id == "vol.detached.restorable"@
            &&& body is Orphan ==> id == "vol.orphan.collected"@
        },
        environment_move(c, s, os) matches MoveV::Step { id, body, .. } ==> {
            &&& body is EnvStop ==> id == "env.stop.p95"@
            &&& body is EnvReplicated ==> id == "env.replicated"@
            &&& body is EnvStart ==> id == "env.start.p95"@
            &&& body is EnvRestore ==> id == "env.restore"@
        },
        deletes_move(s, os) matches MoveV::Step { id, body, .. } ==> (body is WtDelete ==> id == "wt.delete"@) && (body is SnapDelete ==> id
            == "snap.delete"@),
{
}

} // verus!
