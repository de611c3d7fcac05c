//! Of the weekly checks: large pushes, profiles, moves between nodes, failover, settings and collection.

use vstd::prelude::*;

use crate::json::{Doc, doc_i64, member, member2, text_of};
use crate::laws::{answered, came, doc_in, waits_until, went_well};
use crate::outside::sha256_hex;
use crate::probes::TriedV;
use crate::reply::made;
use crate::run::{RunV, StateV, admin_at, api_at};
use crate::stages::git::{authed_args, git_asks, http_remote, ssh_at, work_tree};
use crate::stages::registry::{blobs_dir, host_of, layout, layout_asks, pulled_blob, sha256_of};
use crate::stages::weekly::{
    BodyV, agent_counts, body_found, body_next, cordoning, cross_node_move, env_cross_node_move, gc_sweep_move, image_at, large_layer_move,
    large_push_move, profiles_move, shared_asks, shifted, workload_rows,
};
use crate::text::trimmed;
use crate::turn::{MoveV, OutcomeV, found_in, passed};
use crate::wait::{WaitV, probe_next};
use crate::wire::{AskV, Cluster, CraneOpV, Kind, LogV, NextV, PayloadV, Program, ReplyV, Verb, getting, posting};

verus! {

/// A workspace has crossed exactly where it was stopped and said so, its own node was cordoned, the start was
/// taken, it came back ready on a node other than that one, and the node takes pods again.
pub proof fn law_a_workspace_comes_back_elsewhere(c: RunV, ws: Seq<char>, node: Seq<char>, log: LogV)
    ensures
        ({
            let n = body_next(c, BodyV::Cross { ws, node }, log);
            let rs = log.rs;
            let url = api_at(c, "/v1/workspaces/"@ + ws);
            &&& n is Pass <==> {
                &&& rs.len() > 4 && !log.cut && log.us.len() > 0
                &&& went_well(rs[0]) && came(rs[1]) && went_well(rs[2]) && went_well(rs[3]) && came(rs[4]) && went_well(log.us[0])
            }
            &&& rs.len() == 0 ==> n == NextV::Ask(posting(url + "/stop"@, c.probe_jwt, Doc::Null))
            &&& rs.len() == 1 && went_well(rs[0]) ==> waits_until(
                n, url, c.probe_jwt, 150_000, |d: Doc| member(d, "state"@) == Some(Doc::Str("stopped"@)),
            )
            &&& rs.len() == 2 && went_well(rs[0]) && came(rs[1]) ==> (n matches NextV::Ask(AskV::Change { kind, name, dry_run, body, .. })
                && kind == Kind::Node && name == node && !dry_run && member2(body, "spec"@, "unschedulable"@) == Some(Doc::Bool(true)))
            &&& rs.len() == 3 && went_well(rs[0]) && came(rs[1]) && went_well(rs[2]) && !log.cut ==> n == NextV::Ask(
                posting(url + "/start"@, c.probe_jwt, Doc::Null),
            )
            &&& rs.len() == 4 && went_well(rs[0]) && came(rs[1]) && went_well(rs[2]) && went_well(rs[3]) && !log.cut ==> waits_until(
                n, url, c.probe_jwt, 150_000,
                |d: Doc| member(d, "state"@) == Some(Doc::Str("ready"@)) && (member(d, "placement"@) matches Some(Doc::Str(p)) && p != node),
            )
            &&& n matches NextV::Undo(a) ==> (a matches AskV::Change { kind, name, dry_run, body, .. } && kind == Kind::Node && name == node
                && !dry_run && member2(body, "spec"@, "unschedulable"@) == Some(Doc::Bool(false)))
        }),
{
    lemma_cordon(node);
}

proof fn lemma_cordon(node: Seq<char>)
    ensures
        forall|on: bool| (#[trigger] cordoning(node, on)) matches AskV::Change { kind, name, dry_run, body, .. } && kind == Kind::Node && name
            == node && !dry_run && member2(body, "spec"@, "unschedulable"@) == Some(Doc::Bool(on)),
{
    reveal_with_fuel(crate::json::field_named, 2);
}

/// Whatever is waited for after the start, a document that still places the workspace on the node it was to leave
/// does not end it, and neither does one that is not ready.
pub proof fn law_the_node_it_left_is_no_arrival(c: RunV, ws: Seq<char>, node: Seq<char>, log: LogV, w: WaitV, e: u64, r: ReplyV)
    requires
        log.rs.len() == 4,
        body_next(c, BodyV::Cross { ws, node }, log) == NextV::Ask(AskV::Wait(w)),
        text_of(doc_in(r), "placement"@) == Some(node) || text_of(doc_in(r), "state"@) != Some("ready"@),
    ensures
        !(probe_next(w, e, seq![r]) is Yes),
{
}

/// The same of an environment, whose service is then to answer on the other node.
pub proof fn law_an_environment_comes_back_elsewhere(c: RunV, env: Seq<char>, node: Seq<char>, log: LogV)
    ensures
        ({
            let n = body_next(c, BodyV::EnvCross { env, node }, log);
            let rs = log.rs;
            let url = api_at(c, "/v1/environments/"@ + env);
            &&& n is Pass <==> {
                &&& rs.len() > 5 && !log.cut && log.us.len() > 0
                &&& went_well(rs[0]) && came(rs[1]) && went_well(rs[2]) && went_well(rs[3]) && came(rs[4]) && went_well(log.us[0])
                &&& rs[5] matches ReplyV::Ran { code, out, .. } && code == 0 && trimmed(out) == "slo"@
            }
            &&& rs.len() == 0 ==> n == NextV::Ask(posting(url + "/stop"@, c.probe_jwt, Doc::Null))
            &&& rs.len() == 1 && went_well(rs[0]) ==> waits_until(
                n, url, c.probe_jwt, 150_000, |d: Doc| member(d, "state"@) == Some(Doc::Str("stopped"@)),
            )
            &&& rs.len() == 2 && went_well(rs[0]) && came(rs[1]) ==> (n matches NextV::Ask(AskV::Change { kind, name, dry_run, body, .. })
                && kind == Kind::Node && name == node && !dry_run && member2(body, "spec"@, "unschedulable"@) == Some(Doc::Bool(true)))
            &&& rs.len() == 3 && went_well(rs[0]) && came(rs[1]) && went_well(rs[2]) && !log.cut ==> n == NextV::Ask(
                posting(url + "/start"@, c.probe_jwt, Doc::Null),
            )
            &&& rs.len() == 4 && went_well(rs[0]) && came(rs[1]) && went_well(rs[2]) && went_well(rs[3]) && !log.cut ==> waits_until(
                n, url, c.probe_jwt, 150_000,
                |d: Doc| member(d, "state"@) == Some(Doc::Str("running"@)) && (member(d, "placement"@) matches Some(Doc::Str(p)) && p != node),
            )
            &&& rs.len() == 5 && went_well(rs[0]) && came(rs[1]) && went_well(rs[2]) && went_well(rs[3]) && came(rs[4]) && !log.cut ==> (
            n matches NextV::Ask(AskV::PodExec { ns, pod, .. }) && ns == "env-"@ + env && pod == "redis-0"@)
            &&& n matches NextV::Undo(a) ==> (a matches AskV::Change { kind, name, dry_run, body, .. } && kind == Kind::Node && name == node
                && !dry_run && member2(body, "spec"@, "unschedulable"@) == Some(Doc::Bool(false)))
        }),
{
    lemma_cordon(node);
}

/// The home on the other node is the same home exactly where it holds what the run wrote.
pub proof fn law_a_home_holds_what_the_run_wrote(c: RunV, ws: Seq<char>, log: LogV)
    ensures
        ({
            let n = body_next(c, BodyV::HomeRead { ws }, log);
            &&& log.rs.len() == 0 ==> (n matches NextV::Ask(AskV::Exec { ws: at, script, .. }) && at == ws && script == "cat /home/kl/.slo"@)
            &&& n is Pass <==> log.rs.len() > 0 && (log.rs[0] matches ReplyV::Ran { code, out, .. } && code == 0 && trimmed(out) == c.run_id)
        }),
{
}

/// The lease has failed over exactly where a pod said that it has it, that pod was deleted, and another was then
/// named as the one that has it.
pub proof fn law_another_pod_takes_the_lease(c: RunV, was: Seq<char>, log: LogV)
    ensures
        ({
            let n = body_next(c, BodyV::Failover, log);
            let rs = log.rs;
            let url = admin_at(c, "/admin/slo/pipeline"@);
            let led = went_well(rs[0]) && text_of(doc_in(rs[0]), "leader_pod"@) == Some(was);
            &&& rs.len() == 0 ==> n == NextV::Ask(getting(url, c.admin_jwt))
            &&& rs.len() == 1 && led ==> n == NextV::Ask(
                AskV::Remove { cluster: Cluster::Home, kind: Kind::Pod, ns: "kloudlite"@, name: was },
            )
            &&& rs.len() == 2 && led && went_well(rs[1]) ==> waits_until(
                n, url, c.admin_jwt, 30_000, |d: Doc| member(d, "leader_pod"@) matches Some(Doc::Str(p)) && p != was,
            )
            &&& n is Pass <==> rs.len() > 2 && went_well(rs[0]) && text_of(doc_in(rs[0]), "leader_pod"@) is Some && went_well(rs[1]) && came(
                rs[2],
            )
        }),
{
}

/// A live setting is changed to another value in the range, read back as that, and the value from before is put
/// back whatever came of it.
pub proof fn law_a_setting_is_changed_read_back_and_put_back(c: RunV, was: u64, log: LogV)
    requires
        was <= 604_800,
    ensures
        ({
            let n = body_next(c, BodyV::SettingsLive, log);
            let rs = log.rs;
            let url = admin_at(c, "/admin/settings/central"@);
            let read = went_well(rs[0]) && (member(doc_in(rs[0]), "uploadGraceSecs"@) == Some(Doc::Int(was as int)));
            let to = shifted(was, 60);
            &&& rs.len() == 0 ==> n == NextV::Ask(getting(url, c.admin_jwt))
            &&& rs.len() == 1 && read ==> (n matches NextV::Ask(AskV::Call { verb, url: u, load, .. }) && verb == Verb::Put && u == url && (
            load matches PayloadV::Doc(d) && member(d, "uploadGraceSecs"@) == Some(Doc::Int(to as int))))
            &&& rs.len() == 2 && read && went_well(rs[1]) && !log.cut ==> waits_until(
                n, url, c.admin_jwt, 60_000, |d: Doc| member(d, "uploadGraceSecs"@) == Some(Doc::Int(to as int)),
            )
            &&& rs.len() > 0 && read ==> (n matches NextV::Undo(a) ==> (a matches AskV::Call { verb, url: u, load, .. } && verb == Verb::Put
                && u == url && (load matches PayloadV::Doc(d) && member(d, "uploadGraceSecs"@) == Some(Doc::Int(was as int)))))
            &&& n is Pass <==> rs.len() > 2 && !log.cut && log.us.len() > 0 && went_well(rs[0]) && went_well(rs[1]) && came(rs[2]) && went_well(
                log.us[0],
            )
            &&& n matches NextV::Ask(AskV::Call { auth, .. }) ==> c.admin_jwt.len() > 0 ==> auth == "Bearer "@ + c.admin_jwt
            &&& n matches NextV::Undo(AskV::Call { auth, .. }) ==> c.admin_jwt.len() > 0 ==> auth == "Bearer "@ + c.admin_jwt
            &&& to != was && to <= 604_800 && (to == was + 60 || to == was - 60)
        }),
{
    reveal_with_fuel(crate::json::field_named, 3);
    crate::stages::weekly::law_a_shift_is_a_change_in_the_range(was);
}

/// A change is reverted exactly where it was read back, the revert was taken, and the value from before is then
/// stored again.
pub proof fn law_a_revert_brings_the_old_value_back(c: RunV, was: u64, log: LogV)
    requires
        was <= 604_800,
    ensures
        ({
            let n = body_next(c, BodyV::SettingsRevert, log);
            let rs = log.rs;
            let url = admin_at(c, "/admin/settings/central"@);
            let read = went_well(rs[0]) && (member(doc_in(rs[0]), "uploadGraceSecs"@) == Some(Doc::Int(was as int)));
            let to = shifted(was, 120);
            &&& rs.len() == 0 ==> n == NextV::Ask(getting(url, c.admin_jwt))
            &&& rs.len() == 1 && read ==> (n matches NextV::Ask(AskV::Call { verb, url: u, load, .. }) && verb == Verb::Put && u == url && (
            load matches PayloadV::Doc(d) && member(d, "uploadGraceSecs"@) == Some(Doc::Int(to as int))))
            &&& rs.len() == 2 && read && went_well(rs[1]) && !log.cut && log.us.len() == 0 ==> waits_until(
                n, url, c.admin_jwt, 30_000, |d: Doc| member(d, "uploadGraceSecs"@) == Some(Doc::Int(to as int)),
            )
            &&& rs.len() == 3 && read && went_well(rs[1]) && came(rs[2]) && !log.cut && log.us.len() == 0 ==> (n matches NextV::Undo(
                AskV::Call { verb, url: u, .. },
            ) && verb == Verb::Post && u == admin_at(c, "/admin/settings/central/revert"@))
            &&& rs.len() == 3 && read && went_well(rs[1]) && came(rs[2]) && !log.cut && log.us.len() == 1 && went_well(log.us[0])
                ==> waits_until(n, url, c.admin_jwt, 30_000, |d: Doc| member(d, "uploadGraceSecs"@) == Some(Doc::Int(was as int)))
            &&& n is Pass ==> rs.len() > 3 && !log.cut && log.us.len() > 0 && went_well(rs[0]) && went_well(rs[1]) && came(rs[2]) && came(rs[3])
                && went_well(log.us[0])
            &&& read && rs.len() > 3 && !log.cut && log.us.len() > 0 && went_well(rs[1]) && came(rs[2]) && came(rs[3]) && went_well(log.us[0])
                ==> n is Pass
            &&& n matches NextV::Ask(AskV::Call { auth, .. }) ==> c.admin_jwt.len() > 0 ==> auth == "Bearer "@ + c.admin_jwt
            &&& n matches NextV::Undo(AskV::Call { auth, .. }) ==> c.admin_jwt.len() > 0 ==> auth == "Bearer "@ + c.admin_jwt
            &&& to != was
        }),
{
    reveal_with_fuel(crate::json::field_named, 3);
    crate::stages::weekly::law_a_shift_is_a_change_in_the_range(was);
}

/// The agent's rows are as wanted exactly where there is one at all and each is: short of what is desired while it
/// rolls, and else just that. A listing that cannot be read ends the wait as a failure.
pub proof fn law_the_agent_is_judged_by_every_row(url: Seq<char>, token: Seq<char>, rolling: bool, cap_ms: u64, e: u64, r: ReplyV)
    ensures
        ({
            let w = WaitV::Agents { url, token, rolling, cap_ms };
            let rows = told_workloads(doc_in(r));
            &&& probe_next(w, e, seq![]) == TriedV::Ask(getting(url, token))
            &&& !went_well(r) ==> probe_next(w, e, seq![r]) is Broken
            &&& probe_next(w, e, seq![r]) is Yes <==> went_well(r) && (exists|i: int| 0 <= i < rows.len() && is_the_agent(#[trigger] rows[i]))
                && forall|i: int| 0 <= i < rows.len() && is_the_agent(#[trigger] rows[i]) ==> if rolling {
                count_at(rows[i], "ready"@) < count_at(rows[i], "desired"@)
            } else {
                count_at(rows[i], "ready"@) == count_at(rows[i], "desired"@)
            }
        }),
{
    let rows = workload_rows(doc_in(r));
    assert(rows =~= told_workloads(doc_in(r)));
    lemma_counts(rows, rolling);
}

/// The workloads of an answer: a list of their own, or the answer itself.
pub open spec fn told_workloads(d: Doc) -> Seq<Doc> {
    match member(d, "workloads"@) {
        Some(Doc::Arr(v)) => v,
        _ => match d {
            Doc::Arr(v) => v,
            _ => seq![],
        },
    }
}

pub open spec fn is_the_agent(row: Doc) -> bool {
    text_of(row, "name"@) == Some("kloudlite-agent"@)
}

pub open spec fn count_at(row: Doc, key: Seq<char>) -> int {
    match doc_i64(member(row, key)) {
        Some(n) => n,
        None => 0,
    }
}

proof fn lemma_counts(rows: Seq<Doc>, rolling: bool)
    ensures
        agent_counts(rows).len() > 0 <==> exists|i: int| 0 <= i < rows.len() && is_the_agent(#[trigger] rows[i]),
        crate::stages::weekly::all_as(agent_counts(rows), rolling) <==> forall|i: int|
            0 <= i < rows.len() && is_the_agent(#[trigger] rows[i]) ==> if rolling {
                count_at(rows[i], "ready"@) < count_at(rows[i], "desired"@)
            } else {
                count_at(rows[i], "ready"@) == count_at(rows[i], "desired"@)
            },
    decreases rows.len(),
{
    if rows.len() > 0 {
        let f = rows.drop_last();
        lemma_counts(f, rolling);
        let before = agent_counts(f);
        let all = agent_counts(rows);
        let fine = |d: Doc| if rolling {
            count_at(d, "ready"@) < count_at(d, "desired"@)
        } else {
            count_at(d, "ready"@) == count_at(d, "desired"@)
        };
        if is_the_agent(rows.last()) {
            assert(rows[rows.len() - 1] == rows.last());
            assert(all == before.push(all.last()));
            if crate::stages::weekly::all_as(all, rolling) {
                assert forall|i: int| 0 <= i < before.len() implies crate::stages::weekly::is_as(#[trigger] before[i], rolling) by {
                    assert(all[i] == before[i]);
                }
                assert(crate::stages::weekly::is_as(all[all.len() - 1], rolling));
                assert forall|i: int| 0 <= i < rows.len() && is_the_agent(#[trigger] rows[i]) implies fine(rows[i]) by {
                    if i < rows.len() - 1 {
                        assert(f[i] == rows[i]);
                    }
                }
            }
            if forall|i: int| 0 <= i < rows.len() && is_the_agent(#[trigger] rows[i]) ==> fine(rows[i]) {
                assert forall|i: int| 0 <= i < f.len() && is_the_agent(#[trigger] f[i]) implies fine(f[i]) by {
                    assert(f[i] == rows[i]);
                }
                assert forall|i: int| 0 <= i < all.len() implies crate::stages::weekly::is_as(#[trigger] all[i], rolling) by {
                    if i < before.len() {
                        assert(all[i] == before[i]);
                    }
                }
            }
        } else {
            assert(all == before);
            if exists|i: int| 0 <= i < f.len() && is_the_agent(#[trigger] f[i]) {
                let i = choose|i: int| 0 <= i < f.len() && is_the_agent(#[trigger] f[i]);
                assert(rows[i] == f[i]);
            }
            assert forall|i: int| 0 <= i < rows.len() && is_the_agent(#[trigger] rows[i]) implies f.len() > i && f[i] == rows[i] by {
                if i == rows.len() - 1 {
                    assert(rows[i] == rows.last());
                }
            }
            assert forall|i: int| 0 <= i < f.len() implies #[trigger] f[i] == rows[i] by {}
        }
    }
}

/// A save during a rollout is drilled to its end exactly where the agent was settled before, a boot field was read,
/// the roll was taken and seen to go on, the save was refused with a conflict, what was read before is what is
/// stored after, and the agent was seen to settle again.
pub proof fn law_a_save_in_a_rollout_is_refused_and_writes_nothing(c: RunV, log: LogV)
    requires
        body_next(c, BodyV::SettingsRoll, log) is Pass,
    ensures
        log.rs.len() > 5 && !log.cut && log.us.len() > 0,
        came(log.rs[0]) && went_well(log.rs[1]) && went_well(log.rs[2]) && came(log.rs[3]) && answered(log.rs[4], 409) && went_well(log.rs[5])
            && came(log.us[0]),
        exists|k: Seq<char>| #![trigger member2(doc_in(log.rs[1]), "spec"@, k)]
            (k == "defaultImage"@ || k == "gitInitImage"@ || k == "runtimeClass"@) && member2(doc_in(log.rs[1]), "spec"@, k) is Some && (
            member2(doc_in(log.rs[5]), "spec"@, k) == member2(doc_in(log.rs[1]), "spec"@, k) || (member2(doc_in(log.rs[5]), "spec"@, k) is None
                && member2(doc_in(log.rs[1]), "spec"@, k) == Some(Doc::Null))),
{
    reveal_with_fuel(crate::stages::weekly::boot_field_from, 4);
    let d = doc_in(log.rs[1]);
    let k = crate::stages::weekly::boot_field_from(d, 0)->0;
    assert(member2(d, "spec"@, k) is Some);
}

/// What is asked for in it: the agent is waited for, the settings are read, the agent is rolled and waited for, and
/// the save carries another value of the field than is stored.
pub proof fn law_a_rollout_is_the_probes_own(c: RunV, log: LogV)
    ensures
        ({
            let n = body_next(c, BodyV::SettingsRoll, log);
            let rs = log.rs;
            let settings = admin_at(c, "/admin/settings/clusters/"@ + c.region);
            &&& rs.len() == 0 ==> n == NextV::Ask(
                AskV::Wait(
                    WaitV::Agents { url: admin_at(c, "/admin/workloads"@), token: c.admin_jwt, rolling: false, cap_ms: 60_000 },
                ),
            )
            &&& rs.len() == 1 && came(rs[0]) ==> n == NextV::Ask(getting(settings, c.admin_jwt))
            &&& rs.len() == 2 && came(rs[0]) ==> (n matches NextV::Ask(a) ==> (a matches AskV::Call { verb, url, .. } && verb == Verb::Post && url
                == admin_at(c, "/admin/workloads/"@ + c.region + "/"@ + "kloudlite-agent"@ + "/roll"@)))
            &&& rs.len() == 3 && !log.cut ==> (n matches NextV::Ask(a) ==> a == AskV::Wait(
                WaitV::Agents { url: admin_at(c, "/admin/workloads"@), token: c.admin_jwt, rolling: true, cap_ms: 60_000 },
            ))
            &&& rs.len() == 4 && !log.cut ==> (n matches NextV::Ask(a) ==> (a matches AskV::Call { verb, url, load, .. } && verb == Verb::Put && url
                == settings && (load matches PayloadV::Doc(Doc::Obj(f)) && f.len() == 2 && member2(doc_in(rs[1]), "spec"@, f[0].0) != Some(
                f[0].1,
            ))))
            &&& rs.len() == 5 && !log.cut ==> (n matches NextV::Ask(a) ==> a == getting(settings, c.admin_jwt))
            &&& n matches NextV::Undo(a) ==> a == AskV::Wait(
                WaitV::Agents { url: admin_at(c, "/admin/workloads"@), token: c.admin_jwt, rolling: false, cap_ms: 240_000 },
            )
        }),
{
    if log.rs.len() == 4 && went_well(log.rs[1]) {
        reveal_with_fuel(crate::stages::weekly::boot_field_from, 4);
        let d = doc_in(log.rs[1]);
        if let Some(k) = crate::stages::weekly::boot_field_from(d, 0) {
            crate::stages::weekly::law_the_refused_save_is_a_change(crate::stages::weekly::value_of_field(d, k));
        }
    }
}

/// A profile is cold exactly where its workspace was made and seen to be ready; it is reused exactly where the same
/// set was ready again within half a minute.
pub proof fn law_a_profile_is_built_and_then_reused(c: RunV, name: Seq<char>, id: Seq<char>, log: LogV)
    ensures
        ({
            let cold = body_next(c, BodyV::Cold { name }, log);
            let warm = body_next(c, BodyV::Warm { name }, log);
            let rs = log.rs;
            let created = went_well(rs[0]) && text_of(doc_in(rs[0]), "id"@) == Some(id);
            let ask = posting(
                api_at(c, "/v1/workspaces"@), c.probe_jwt,
                Doc::Obj(seq![
                    ("name"@, Doc::Str(name)),
                    ("region"@, Doc::Str(c.region)),
                    ("quota_gb"@, Doc::Int(1)),
                    ("packages"@, Doc::Arr(seq![Doc::Str("cowsay"@)])),
                ]),
            );
            &&& rs.len() == 0 ==> cold == NextV::Ask(ask) && warm == NextV::Ask(ask)
            &&& rs.len() == 1 && created ==> waits_until(
                cold, api_at(c, "/v1/workspaces/"@ + id), c.probe_jwt, 600_000, |d: Doc| member(d, "state"@) == Some(Doc::Str("ready"@)),
            ) && waits_until(
                warm, api_at(c, "/v1/workspaces/"@ + id), c.probe_jwt, 120_000, |d: Doc| member(d, "state"@) == Some(Doc::Str("ready"@)),
            )
            &&& cold is Pass <==> rs.len() > 1 && went_well(rs[0]) && text_of(doc_in(rs[0]), "id"@) is Some && came(rs[1])
            &&& warm is Pass <==> cold is Pass && (log.at.len() > 1 ==> log.at[1] <= 30_000)
            &&& rs.len() > 1 && created && came(rs[1]) ==> body_found(BodyV::Cold { name }, log) == Some(id)
        }),
{
}

/// A large commit is pushed by http and, with a pinned host, by ssh too: each of its steps has to be done.
pub proof fn law_a_large_commit_goes_through_both_doors(c: RunV, name: Seq<char>, pinned: bool, log: LogV)
    ensures
        ({
            let n = body_next(c, BodyV::LargePush { name, pinned }, log);
            let rs = log.rs;
            let branch = "large-"@ + c.run_id;
            &&& n is Pass <==> rs.len() > 4 && (forall|i: int| 0 <= i < 5 ==> (#[trigger] rs[i]) is Said) && (pinned ==> rs.len() > 5
                && rs[5] is Said)
            &&& rs.len() == 0 ==> (n matches NextV::Ask(AskV::Fill { bytes, .. }) && bytes == 104_857_600)
            &&& rs.len() == 1 && rs[0] is Said ==> n == NextV::Ask(git_asks(c, seq!["checkout"@, "-q"@, "-b"@, branch], work_tree(c, name)))
            &&& rs.len() == 4 && (forall|i: int| 0 <= i < 4 ==> (#[trigger] rs[i]) is Said) ==> n == NextV::Ask(
                git_asks(c, authed_args(c, seq!["push"@, "-q"@, http_remote(c, c.probe_user, name), branch]), work_tree(c, name)),
            )
            &&& pinned && rs.len() == 5 && (forall|i: int| 0 <= i < 5 ==> (#[trigger] rs[i]) is Said) ==> (n matches NextV::Ask(AskV::Tool {
                program, argv, dir, ..
            }) && program == Program::Git && argv == seq!["push"@, "-q"@, ssh_at(c, name), branch] && dir == work_tree(c, name))
        }),
{
    let rs = log.rs;
    if forall|i: int| 0 <= i < 5 ==> (#[trigger] rs[i]) is Said {
        assert(rs[0] is Said && rs[1] is Said && rs[2] is Said && rs[3] is Said && rs[4] is Said);
    }
    if forall|i: int| 0 <= i < 4 ==> (#[trigger] rs[i]) is Said {
        assert(rs[0] is Said && rs[1] is Said && rs[2] is Said && rs[3] is Said);
    }
}

/// A large layer is pushed exactly where every one of its steps was done: the image written, the login, the push.
pub proof fn law_a_large_layer_is_pushed(c: RunV, secret: Seq<char>, image: Seq<char>, layer: Seq<u8>, log: LogV)
    ensures
        ({
            let n = body_next(c, BodyV::LargeLayer { secret, image, layer }, log);
            let built = layout_asks(crate::run::tmp_at(c, "img-large"@), layer, image, "could not build the image"@).len() as int;
            let rs = log.rs;
            &&& n is Pass <==> forall|i: int| 0 <= i < built + 2 ==> i < rs.len() && (#[trigger] rs[i]) is Said
            &&& rs.len() == built && (forall|i: int| 0 <= i < rs.len() ==> (#[trigger] rs[i]) is Said) ==> (n matches NextV::Ask(
                AskV::Crane { op, .. },
            ) && op == (CraneOpV::Login { host: host_of(c), user: c.probe_user, secret }))
            &&& rs.len() == built + 1 && (forall|i: int| 0 <= i < rs.len() ==> (#[trigger] rs[i]) is Said) ==> (n matches NextV::Ask(
                AskV::Crane { op, .. },
            ) && op == (CraneOpV::Push {
                dir: crate::run::tmp_at(c, "img-large"@), reference: host_of(c) + "/"@ + c.probe_user + "/"@ + image + ":latest"@,
            }))
        }),
{
    let asks = layout_asks(crate::run::tmp_at(c, "img-large"@), layer, image, "could not build the image"@) + seq![
        (crate::stages::weekly::login_asks(c, secret), "could not log in"@),
        (crate::stages::weekly::push_asks(c, crate::run::tmp_at(c, "img-large"@), image), ""@),
    ];
    crate::laws::basics::law_asks_in_turn_are_all_made(asks, log.rs, 0);
}

/// A collection is survived exactly where both images were pushed, one was deleted and a pass was waited out, the
/// other still pulls, and the layer they share is there with the bytes it was pushed with.
pub proof fn law_a_shared_layer_survives_the_collection(
    c: RunV, secret: Seq<char>, a: Seq<char>, b: Seq<char>, layer: Seq<u8>, log: LogV,
)
    ensures
        ({
            let n = body_next(c, BodyV::GcSweep { secret, a, b, layer }, log);
            let k = shared_asks(c, secret, a, b, layer).len() as int;
            let rs = log.rs;
            &&& n is Pass <==> {
                &&& rs.len() > k + 4
                &&& forall|i: int| 0 <= i < k ==> (#[trigger] rs[i]) is Said
                &&& went_well(rs[k]) && rs[k + 3] is Said
                &&& rs[k + 4] matches ReplyV::Bytes(got) && sha256_of(got) == sha256_of(layer)
            }
            &&& rs.len() == k && (forall|i: int| 0 <= i < k ==> (#[trigger] rs[i]) is Said) ==> n == NextV::Ask(
                posting(api_at(c, "/api/"@ + c.probe_user + "/"@ + b + "/imagedelete"@), c.probe_jwt, Doc::Null),
            )
            &&& rs.len() == k + 1 && (forall|i: int| 0 <= i < k ==> (#[trigger] rs[i]) is Said) && went_well(rs[k]) ==> n == NextV::Ask(
                AskV::Sleep { ms: 180_000 },
            )
            &&& rs.len() == k + 3 && (forall|i: int| 0 <= i < k ==> (#[trigger] rs[i]) is Said) && went_well(rs[k]) ==> (n matches NextV::Ask(
                AskV::Crane { op, .. },
            ) && op == (CraneOpV::Pull { reference: image_at(c, a), dest: crate::run::tmp_at(c, "pull-gca"@) }))
            &&& rs.len() == k + 4 && (forall|i: int| 0 <= i < k ==> (#[trigger] rs[i]) is Said) && went_well(rs[k]) && rs[k + 3] is Said
                ==> n == NextV::Ask(AskV::ReadBytes { path: pulled_blob(crate::run::tmp_at(c, "pull-gca"@), sha256_of(layer)) })
        }),
{
    let asks = shared_asks(c, secret, a, b, layer);
    crate::laws::basics::law_asks_in_turn_are_all_made(asks, log.rs, 0);
    let rest = log.rs.skip(asks.len() as int);
    if log.rs.len() >= asks.len() {
        assert(forall|i: int| 0 <= i < rest.len() ==> rest[i] == log.rs[asks.len() + i]);
    }
    assert(sha256_of(layer) == "sha256:"@ + sha256_hex(layer));
}

/// Before anything is swept, two images of the one layer are written out and pushed, each under its own name and with the
/// run's own credential.
pub proof fn law_two_images_of_one_layer_are_pushed_before_a_sweep(
    c: RunV, secret: Seq<char>, a: Seq<char>, b: Seq<char>, layer: Seq<u8>, log: LogV,
)
    requires
        forall|i: int| 0 <= i < log.rs.len() ==> (#[trigger] log.rs[i]) is Said,
    ensures
        ({
            let n = body_next(c, BodyV::GcSweep { secret, a, b, layer }, log);
            let docker = crate::run::tmp_at(c, "docker"@);
            let at = |dir: Seq<char>| crate::run::tmp_at(c, dir);
            let of = |dir: Seq<char>, image: Seq<char>, i: int| AskV::WriteBytes {
                path: layout(crate::run::tmp_at(c, dir), layer, image)[i].path, bytes: layout(crate::run::tmp_at(c, dir), layer, image)[i].bytes,
            };
            let k = log.rs.len();
            &&& shared_asks(c, secret, a, b, layer).len() == 15
            &&& k == 0 ==> n == NextV::Ask(AskV::Mkdir { path: blobs_dir(at("img-gca"@)) })
            &&& 1 <= k < 6 ==> n == NextV::Ask(of("img-gca"@, a, k - 1))
            &&& k == 6 ==> n == NextV::Ask(AskV::Mkdir { path: blobs_dir(at("img-gcb"@)) })
            &&& 7 <= k < 12 ==> n == NextV::Ask(of("img-gcb"@, b, k - 7))
            &&& k == 12 ==> n == NextV::Ask(AskV::Crane { config: docker, op: CraneOpV::Login { host: host_of(c), user: c.probe_user, secret } })
            &&& k == 13 ==> n == NextV::Ask(
                AskV::Crane { config: docker, op: CraneOpV::Push { dir: at("img-gca"@), reference: host_of(c) + "/"@ + c.probe_user + "/"@ + a + ":latest"@ } },
            )
            &&& k == 14 ==> n == NextV::Ask(
                AskV::Crane { config: docker, op: CraneOpV::Push { dir: at("img-gcb"@), reference: host_of(c) + "/"@ + c.probe_user + "/"@ + b + ":latest"@ } },
            )
        }),
{
    let asks = shared_asks(c, secret, a, b, layer);
    crate::laws::basics::law_asks_in_turn_are_all_made(asks, log.rs, 0);
    assert(asks.len() == 15);
}

/// The moves are about what the run has: its own names, its cold workspace, its environment, on the node each is on;
/// and the home is read only once the workspace has moved.
pub proof fn law_the_weekly_moves_are_on_the_runs_own(
    c: RunV, s: StateV, cold: Option<Seq<char>>, layer: Seq<u8>, os: Seq<OutcomeV>,
)
    ensures
        cross_node_move(c, cold, os) matches MoveV::Step { id, body, .. } ==> {
            ||| body matches BodyV::Cross { ws, node } && id == "ws.cross.node"@ && cold == Some(ws) && found_in(os[0]) == Some(node)
            ||| body matches BodyV::HomeRead { ws } && id == "homes.cross.node"@ && cold == Some(ws) && os.len() == 2 && passed(os[1])
        },
        cross_node_move(c, cold, os) matches MoveV::Look { body } ==> (body matches BodyV::Placement { url } && url == api_at(
            c, "/v1/workspaces/"@ + cold->0,
        )),
        env_cross_node_move(c, s, os) matches MoveV::Step { id, body, .. } ==> id == "env.cross.node"@ && (body matches BodyV::EnvCross {
            env, node,
        } && s.environment == Some(env) && found_in(os[0]) == Some(node)),
        profiles_move(c, os) matches MoveV::Step { id, body, .. } ==> {
            ||| body matches BodyV::Cold { name } && id == "ws.cold.profile"@ && name == "run-"@ + c.run_id + "-cold"@
            ||| body matches BodyV::Warm { name } && id == "ws.profile.reuse"@ && name == "run-"@ + c.run_id + "-warm"@ && passed(os[0])
        },
        large_push_move(s, os) matches MoveV::Step { id, body, .. } ==> id == "git.push.large"@ && (body matches BodyV::LargePush {
            name, pinned,
        } && s.repo == Some(name) && pinned == passed(os[1]) && passed(os[0])),
        large_layer_move(c, s, layer, os) matches MoveV::Step { id, body, .. } ==> id == "reg.push.large"@ && (body matches BodyV::LargeLayer {
            secret, image, layer: l,
        } && s.token_value == Some(secret) && image == "run-"@ + c.run_id + "-large"@ && l == layer),
        gc_sweep_move(c, s, layer, os) matches MoveV::Step { id, body, .. } ==> id == "reg.gc.sweep"@ && (body matches BodyV::GcSweep {
            secret, a, b, layer: l,
        } && s.token_value == Some(secret) && a == "run-"@ + c.run_id + "-gca"@ && b == "run-"@ + c.run_id + "-gcb"@ && l == layer),
{
}

} // verus!
