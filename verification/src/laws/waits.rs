//! Of waits: what ends each of them, and what each of them looks at.

use vstd::prelude::*;

use crate::json::{Doc, doc_i64, doc_str, doc_u64, member, member2, row_named, rows_of, text_of, text_or_empty};
use crate::laws::{answered, came, doc_in, went_well};
use crate::outside::{base64_bytes, lossy_text};
use crate::probes::TriedV;
use crate::stages::git::oid_in;
use crate::text::{holds, parts, same_letters, starts, trimmed};
use crate::wait::{TurnV, WaitV, gave_up, gives_up_after, probe_next, rests_for, starts_until, turn_after};
use crate::want::{WantV, says};
use crate::wire::{AskV, Cluster, Kind, Program, ReplyV, deleting, getting};

verus! {

/// What a document is waited to say, of what it holds.
pub proof fn law_a_want_is_met_by_what_the_document_holds(d: Doc, key: Seq<char>, value: Seq<char>, n: u64)
    ensures
        says(WantV::Field { key, value }, d) <==> member(d, key) == Some(Doc::Str(value)),
        says(WantV::OtherThan { key, value }, d) <==> (member(d, key) matches Some(Doc::Str(t)) && t != value),
        says(WantV::Moved { state: key, node: value }, d) <==> member(d, "state"@) == Some(Doc::Str(key)) && (member(d, "placement"@) matches Some(
            Doc::Str(t),
        ) && t != value),
        says(WantV::Replicated, d) <==> member2(d, "replicated"@, "ready"@) == Some(Doc::Bool(true)),
        says(WantV::Empty, d) <==> d == Doc::Arr(seq![]),
        says(WantV::Grace { value: n }, d) <==> member(d, "uploadGraceSecs"@) == Some(Doc::Int(n as int)),
        says(WantV::Rows, d) <==> (member(d, "rows"@) matches Some(Doc::Arr(v)) && v.len() > 0),
        says(WantV::FirstRow { key, value }, d) <==> (d matches Doc::Arr(v) && v.len() > 0 && text_of(v[0], key) == Some(value)),
        says(WantV::Judged, d) <==> (member2(d, "mergeability"@, "state"@) matches Some(Doc::Str(t)) && t != "unknown"@),
{
}

/// The same of those that look for a row: a tree that is ready, or gone, a push that is ready, a branch at
/// its commit, a merge, a creation, a text in a list.
pub proof fn law_a_want_is_met_by_one_row(d: Doc, name: Seq<char>, other: Seq<char>)
    ensures
        says(WantV::TreeReady { name }, d) <==> exists|i: int|
            0 <= i < rows_of(member(d, "trees"@)).len() && text_of(#[trigger] rows_of(member(d, "trees"@))[i], "name"@) == Some(name) && member(
                rows_of(member(d, "trees"@))[i], "ready"@,
            ) == Some(Doc::Bool(true)),
        says(WantV::TreeGone { name }, d) <==> forall|i: int|
            0 <= i < rows_of(member(d, "trees"@)).len() ==> text_of(#[trigger] rows_of(member(d, "trees"@))[i], "name"@) != Some(name),
        says(WantV::RowReady { id: name }, d) <==> exists|i: int|
            0 <= i < rows_of(Some(d)).len() && text_of(#[trigger] rows_of(Some(d))[i], "id"@) == Some(name) && text_of(
                rows_of(Some(d))[i], "phase"@,
            ) == Some("ready"@),
        says(WantV::Branch { branch: name, oid: other }, d) <==> (row_named(rows_of(Some(d)), "name"@, "refs/heads/"@ + name) matches Some(row)
            && text_of(row, "oid"@) == Some(other)),
        says(WantV::Holds { field: name, value: other }, d) ==> exists|i: int|
            0 <= i < rows_of(member(d, name)).len() && #[trigger] rows_of(member(d, name))[i] == Doc::Str(other),
{
    let trees = rows_of(member(d, "trees"@));
    crate::laws::basics::law_a_row_is_the_first_of_its_name(trees, "name"@, name);
    if exists|i: int| 0 <= i < trees.len() && text_of(#[trigger] trees[i], "name"@) == Some(name) && member(trees[i], "ready"@) == Some(
        Doc::Bool(true),
    ) {
        let i = choose|i: int| 0 <= i < trees.len() && text_of(#[trigger] trees[i], "name"@) == Some(name) && member(
            trees[i], "ready"@,
        ) == Some(Doc::Bool(true));
        assert(crate::want::ready_row(trees[i], name));
    }
    let rows = rows_of(Some(d));
    if exists|i: int| 0 <= i < rows.len() && text_of(#[trigger] rows[i], "id"@) == Some(name) && text_of(rows[i], "phase"@) == Some("ready"@) {
        let i = choose|i: int| 0 <= i < rows.len() && text_of(#[trigger] rows[i], "id"@) == Some(name) && text_of(rows[i], "phase"@) == Some(
            "ready"@,
        );
        assert(crate::want::row_is_ready(rows[i], name));
    }
    crate::laws::basics::law_some_row_is_one_of_them(rows_of(member(d, name)), name, name, name, name);
    crate::laws::basics::law_some_row_is_one_of_them(rows_of(member(d, name)), other, other, other, other);
}

/// The events of a feed: a list of their own, or the feed itself.
pub open spec fn told_events(d: Doc) -> Seq<Doc> {
    match member(d, "events"@) {
        Some(Doc::Arr(v)) => v,
        _ => match d {
            Doc::Arr(v) => v,
            _ => seq![],
        },
    }
}

/// A feed has a merge exactly where one of its rows is the merge of that repo, and a creation where one is
/// that of that repo, under its owner.
pub proof fn law_a_feed_is_met_by_one_event(d: Doc, owner: Seq<char>, name: Seq<char>)
    ensures
        says(WantV::Merged { repo: name }, d) <==> exists|i: int|
            0 <= i < told_events(d).len() && text_of(#[trigger] told_events(d)[i], "kind"@) == Some("pull_merged"@) && text_of(
                told_events(d)[i], "repo"@,
            ) == Some(name),
        says(WantV::Created { owner, name }, d) <==> exists|i: int|
            0 <= i < told_events(d).len() && text_of(#[trigger] told_events(d)[i], "kind"@) == Some("repo_created"@) && text_of(
                told_events(d)[i], "repo"@,
            ) == Some(name) && text_of(told_events(d)[i], "href"@) == Some("/"@ + owner + "/"@ + name),
{
    let rows = told_events(d);
    assert(crate::stages::pr::events_of(d) =~= rows);
    crate::laws::basics::law_some_row_is_one_of_them(rows, "kind"@, "pull_merged"@, "repo"@, name);
    if let Some(all) = crate::stages::monthly::outages::feed_rows(d) {
        assert(all =~= rows);
    }
    assert forall|i: int|
        0 <= i < rows.len() && text_of(#[trigger] rows[i], "kind"@) == Some("repo_created"@) && text_of(rows[i], "repo"@) == Some(name)
            && text_of(rows[i], "href"@) == Some("/"@ + owner + "/"@ + name) implies says(WantV::Created { owner, name }, d) by {
        assert(crate::stages::monthly::outages::creates(rows[i], owner, name));
    }
}

/// A document is read where and with what it was to be read, and ends the wait exactly where it was answered
/// well and says what is wanted. A read that failed is tried again.
pub proof fn law_a_document_is_waited_for(url: Seq<char>, token: Seq<char>, want: WantV, cap_ms: u64, e: u64, r: ReplyV)
    ensures
        probe_next(WaitV::Doc { url, token, want, cap_ms }, e, seq![]) == TriedV::Ask(getting(url, token)),
        probe_next(WaitV::Doc { url, token, want, cap_ms }, e, seq![r]) is Yes <==> went_well(r) && says(want, doc_in(r)),
        !(probe_next(WaitV::Doc { url, token, want, cap_ms }, e, seq![r]) is Broken),
{
}

/// A thing is gone exactly where its owner is told 404; any other answer is not that, and no answer is none.
pub proof fn law_only_a_404_is_gone(url: Seq<char>, token: Seq<char>, what: Seq<char>, kind: Kind, name: Seq<char>, cap_ms: u64, e: u64, r: ReplyV)
    ensures
        probe_next(WaitV::Gone { url, token, what, cap_ms }, e, seq![]) == TriedV::Ask(getting(url, token)),
        probe_next(WaitV::Gone { url, token, what, cap_ms }, e, seq![r]) is Yes <==> answered(r, 404),
        probe_next(WaitV::Departed { url, token, what, cap_ms }, e, seq![]) == TriedV::Ask(getting(url, token)),
        probe_next(WaitV::Departed { url, token, what, cap_ms }, e, seq![r]) is Yes <==> answered(r, 404),
        probe_next(WaitV::Away { url, token, cap_ms }, e, seq![]) == TriedV::Ask(getting(url, token)),
        probe_next(WaitV::Away { url, token, cap_ms }, e, seq![r]) is Yes <==> answered(r, 404),
        probe_next(WaitV::Vanished { kind, name, cap_ms }, e, seq![]) == TriedV::Ask(
            AskV::Read { cluster: Cluster::Fleet, kind, ns: ""@, name },
        ),
        probe_next(WaitV::Vanished { kind, name, cap_ms }, e, seq![r]) is Yes <==> answered(r, 404),
{
}

/// A volume is out of the listing exactly where a listing was had and no row of it has the name.
pub proof fn law_unlisted_is_in_no_row(url: Seq<char>, token: Seq<char>, name: Seq<char>, what: Seq<char>, cap_ms: u64, e: u64, r: ReplyV)
    ensures
        probe_next(WaitV::Unlisted { url, token, name, what, cap_ms }, e, seq![]) == TriedV::Ask(getting(url, token)),
        probe_next(WaitV::Unlisted { url, token, name, what, cap_ms }, e, seq![r]) is Yes <==> went_well(r) && forall|i: int|
            0 <= i < rows_of(Some(doc_in(r))).len() ==> text_of(#[trigger] rows_of(Some(doc_in(r)))[i], "name"@) != Some(name),
{
    crate::laws::basics::law_a_row_is_the_first_of_its_name(rows_of(Some(doc_in(r))), "name"@, name);
}

/// A command is there where it is found, and gone where it is not; a workspace whose shell cannot be had is
/// neither.
pub proof fn law_a_command_is_there_or_gone(ws: Seq<char>, package: Seq<char>, want: bool, cap_ms: u64, e: u64, r: ReplyV)
    ensures
        probe_next(WaitV::Which { ws, package, want, cap_ms }, e, seq![]) == TriedV::Ask(
            AskV::Exec { ws, script: "command -v "@ + package, bound_ms: 20_000 },
        ),
        probe_next(WaitV::Which { ws, package, want: true, cap_ms }, e, seq![r]) is Yes <==> (r matches ReplyV::Ran { code, .. } && code == 0),
        probe_next(WaitV::Which { ws, package, want: false, cap_ms }, e, seq![r]) is Yes <==> (r matches ReplyV::Ran { code, .. } && code != 0),
{
}

/// The tool server is up exactly where its own answer says that it is well.
pub proof fn law_a_tool_server_says_it_is_well(ws: Seq<char>, cap_ms: u64, e: u64, r: ReplyV)
    ensures
        probe_next(WaitV::Health { ws, cap_ms }, e, seq![]) == TriedV::Ask(
            AskV::Exec { ws, script: "curl -sf http://127.0.0.1:7788/healthz"@, bound_ms: 20_000 },
        ),
        probe_next(WaitV::Health { ws, cap_ms }, e, seq![r]) is Yes <==> (r matches ReplyV::Ran { code, out, .. } && code == 0 && holds(
            out, "\"ok\":true"@,
        )),
{
}

/// A seeding has failed exactly where the workspace's own `Ready` says `False` for that reason, and where
/// the log is; said without the log it is a fault, and nothing is waited for any longer.
pub proof fn law_a_failed_seeding_says_where_its_log_is(ws: Seq<char>, cap_ms: u64, e: u64, r: ReplyV)
    ensures
        probe_next(WaitV::SeedFailed { ws, cap_ms }, e, seq![]) == TriedV::Ask(
            AskV::Read { cluster: Cluster::Fleet, kind: Kind::Workspace, ns: seq![], name: ws },
        ),
        probe_next(WaitV::SeedFailed { ws, cap_ms }, e, seq![r]) is Yes <==> went_well(r) && (row_named(
            rows_of(member2(doc_in(r), "status"@, "conditions"@)), "type"@, "Ready"@,
        ) matches Some(cond) && text_or_empty(cond, "reason"@) == "SeedFailed"@ && text_or_empty(cond, "status"@) == "False"@ && holds(
            text_or_empty(cond, "message"@), "git-seed"@,
        )),
{
}

/// A key clones where git says so, and is refused only where git says that permission was denied: a tier
/// that cannot be reached refuses nobody.
pub proof fn law_only_a_denial_is_a_refused_key(
    argv: Seq<Seq<char>>, env: Seq<(Seq<char>, Seq<char>)>, cap_ms: u64, e: u64, r: ReplyV,
)
    ensures
        probe_next(WaitV::Cloned { argv, env, cap_ms }, e, seq![]) == TriedV::Ask(
            AskV::Tool { program: Program::Git, argv, env, dir: ""@, bound_ms: 30_000 },
        ),
        probe_next(WaitV::Denied { argv, env, cap_ms }, e, seq![]) == TriedV::Ask(
            AskV::Tool { program: Program::Git, argv, env, dir: ""@, bound_ms: 30_000 },
        ),
        probe_next(WaitV::Cloned { argv, env, cap_ms }, e, seq![r]) is Yes <==> r is Said,
        probe_next(WaitV::Denied { argv, env, cap_ms }, e, seq![r]) is Yes ==> !(r is Said),
        r matches ReplyV::Lost(why) ==> (probe_next(WaitV::Denied { argv, env, cap_ms }, e, seq![r]) is Yes <==> holds(
            why, "Permission denied"@,
        )),
{
}

/// A merge has landed exactly where the file, read at the tip that the base branch has now, holds the text.
pub proof fn law_a_merge_has_landed_with_its_file(
    refs: Seq<char>, blobs: Seq<char>, token: Seq<char>, path: Seq<char>, text: Seq<char>, cap_ms: u64, e: u64, tip: ReplyV, blob: ReplyV,
)
    ensures
        ({
            let w = WaitV::Landed { refs, blobs, token, path, text, cap_ms };
            &&& probe_next(w, e, seq![]) == TriedV::Ask(getting(refs, token))
            &&& went_well(tip) ==> (oid_in(doc_in(tip), "main"@) matches Some(head) ==> probe_next(w, e, seq![tip]) == TriedV::Ask(
                getting(blobs + "/"@ + head + "/"@ + path, token),
            ))
            &&& !(probe_next(w, e, seq![tip]) is Yes)
            &&& probe_next(w, e, seq![tip, blob]) is Yes <==> went_well(tip) && oid_in(doc_in(tip), "main"@) is Some && went_well(blob) && (
            text_of(doc_in(blob), "bytes_base64"@) matches Some(b64) && (base64_bytes(b64) matches Some(bytes) && lossy_text(bytes) == text))
        }),
{
}

/// A service is up with at least one replica ready, and answers in its own namespace where its own client is
/// told so.
pub proof fn law_a_service_is_up_and_answers(ns: Seq<char>, name: Seq<char>, cap_ms: u64, e: u64, r: ReplyV)
    ensures
        probe_next(WaitV::Replicas { ns, name, cap_ms }, e, seq![]) == TriedV::Ask(
            AskV::Read { cluster: Cluster::Fleet, kind: Kind::StatefulSet, ns, name },
        ),
        probe_next(WaitV::Replicas { ns, name, cap_ms }, e, seq![r]) is Yes <==> went_well(r) && (doc_i64(
            member2(doc_in(r), "status"@, "readyReplicas"@),
        ) matches Some(n) && n >= 1),
        probe_next(WaitV::Pong { ns, cap_ms }, e, seq![]) matches TriedV::Ask(AskV::PodExec { ns: at, pod, .. }) && at == ns && pod
            == "redis-0"@,
        probe_next(WaitV::Pong { ns, cap_ms }, e, seq![r]) is Yes <==> (r matches ReplyV::Ran { code, out, .. } && code == 0 && same_letters(
            trimmed(out), "pong"@,
        )),
{
}

/// A policy is there where it can be read, and gone only where the cluster says 404: what cannot be read is
/// neither, and ends the wait as a failure.
pub proof fn law_a_policy_is_there_or_gone(ns: Seq<char>, name: Seq<char>, cap_ms: u64, e: u64, want: bool, r: ReplyV)
    ensures
        probe_next(WaitV::Policy { ns, name, want, cap_ms }, e, seq![]) == TriedV::Ask(
            AskV::Read { cluster: Cluster::Fleet, kind: Kind::NetworkPolicy, ns, name },
        ),
        probe_next(WaitV::Policy { ns, name, want: true, cap_ms }, e, seq![r]) is Yes <==> went_well(r),
        probe_next(WaitV::Policy { ns, name, want: false, cap_ms }, e, seq![r]) is Yes <==> answered(r, 404),
        probe_next(WaitV::Policy { ns, name, want, cap_ms }, e, seq![r]) is Broken <==> !went_well(r) && !answered(r, 404),
{
}

/// A node has drained where its stamp begins as a drained one's, and is draining only where it says so of a
/// node that still counts something running: what is drained is not draining.
pub proof fn law_a_drain_is_read_off_the_stamp(node: Seq<char>, key: Seq<char>, prefix: Seq<char>, cap_ms: u64, e: u64, r: ReplyV)
    ensures
        probe_next(WaitV::Drained { node, key, prefix, cap_ms }, e, seq![]) == TriedV::Ask(
            AskV::Read { cluster: Cluster::Fleet, kind: Kind::Node, ns: ""@, name: node },
        ),
        probe_next(WaitV::Draining { node, key, cap_ms }, e, seq![]) == TriedV::Ask(
            AskV::Read { cluster: Cluster::Fleet, kind: Kind::Node, ns: ""@, name: node },
        ),
        probe_next(WaitV::Drained { node, key, prefix, cap_ms }, e, seq![r]) is Yes ==> went_well(r),
        went_well(r) && (member2(doc_in(r), "metadata"@, "annotations"@) matches Some(m) && text_of(m, key) is Some) ==> ({
            let stamp = text_of(member2(doc_in(r), "metadata"@, "annotations"@)->0, key)->0;
            &&& probe_next(WaitV::Drained { node, key, prefix, cap_ms }, e, seq![r]) is Yes <==> starts(stamp, prefix)
            &&& probe_next(WaitV::Draining { node, key, cap_ms }, e, seq![r]) is Yes <==> starts(stamp, "draining"@) && !parts(
                stamp, ' ',
            ).contains("running=0"@)
        }),
        probe_next(WaitV::Draining { node, key, cap_ms }, e, seq![r]) is Yes ==> went_well(r) && (member2(
            doc_in(r), "metadata"@, "annotations"@,
        ) matches Some(m) && (text_of(m, key) matches Some(stamp) && starts(stamp, "draining"@) && !parts(stamp, ' ').contains("running=0"@))),
{
    reveal_strlit("draining");
}

/// A bench is marked exactly where it can be read and carries the annotation.
pub proof fn law_a_mark_is_on_the_bench(bench: Seq<char>, key: Seq<char>, cap_ms: u64, e: u64, r: ReplyV)
    ensures
        probe_next(WaitV::Marked { bench, key, cap_ms }, e, seq![]) == TriedV::Ask(
            AskV::Read { cluster: Cluster::Fleet, kind: Kind::Bench, ns: ""@, name: bench },
        ),
        probe_next(WaitV::Marked { bench, key, cap_ms }, e, seq![r]) is Yes <==> went_well(r) && (member2(
            doc_in(r), "metadata"@, "annotations"@,
        ) matches Some(m) && member(m, key) is Some),
        !went_well(r) ==> probe_next(WaitV::Marked { bench, key, cap_ms }, e, seq![r]) is Broken,
{
}

/// A bench is up again exactly where the object says that it is a bench, in full use, running and ready, in
/// a pod.
pub proof fn law_a_bench_is_up_by_its_object(bench: Seq<char>, cap_ms: u64, e: u64, r: ReplyV)
    ensures
        probe_next(WaitV::BackUp { bench, cap_ms }, e, seq![]) == TriedV::Ask(
            AskV::Read { cluster: Cluster::Fleet, kind: Kind::Workspace, ns: seq![], name: bench },
        ),
        probe_next(WaitV::BackUp { bench, cap_ms }, e, seq![r]) is Yes <==> {
            &&& went_well(r)
            &&& member2(doc_in(r), "spec"@, "bench"@) is Some && member2(doc_in(r), "spec"@, "bench"@) != Some(Doc::Null)
            &&& doc_str(member2(doc_in(r), "spec"@, "access"@)) != Some("paused"@)
            &&& doc_str(member2(doc_in(r), "spec"@, "desiredState"@)) != Some("stopped"@)
            &&& doc_str(member2(doc_in(r), "status"@, "phase"@)) == Some("ready"@)
            &&& doc_str(member2(doc_in(r), "status"@, "podRef"@)) is Some
        },
{
    reveal_strlit("ready");
    reveal_strlit("starting");
    reveal_strlit("stopping");
    reveal_strlit("stopped");
    reveal_strlit("failed");
}

/// The tool token has come exactly where the bench's own pod, asked for by its team, printed one.
pub proof fn law_a_tool_token_is_printed_in_the_pod(
    ns: Seq<char>, team: Seq<char>, container: Seq<char>, cap_ms: u64, e: u64, pod: ReplyV, out: ReplyV,
)
    ensures
        ({
            let w = WaitV::ToolToken { ns, team, container, cap_ms };
            &&& probe_next(w, e, seq![]) == TriedV::Ask(AskV::BenchPod { team })
            &&& pod matches ReplyV::Said(name) ==> (probe_next(w, e, seq![pod]) matches TriedV::Ask(
                AskV::PodExec { ns: at, pod: p, container: cont, .. },
            ) && at == ns && p == name && cont == container)
            &&& !(probe_next(w, e, seq![pod]) is Yes)
            &&& probe_next(w, e, seq![pod, out]) is Yes <==> pod is Said && (out matches ReplyV::Ran { code, out: text, .. } && code == 0
                && trimmed(text).len() > 0)
        }),
{
}

/// A volume's use has moved exactly where the listing stamps it with at least what was written, and with
/// more than before.
pub proof fn law_use_has_moved_past_what_was_written(
    url: Seq<char>, token: Seq<char>, ws: Seq<char>, before: Option<u64>, secs: u64, e: u64, r: ReplyV,
)
    ensures
        probe_next(WaitV::Usage { url, token, ws, before, secs }, e, seq![]) == TriedV::Ask(getting(url, token)),
        probe_next(WaitV::Usage { url, token, ws, before, secs }, e, seq![r]) is Yes <==> went_well(r) && doc_in(r) is Arr && (row_named(
            rows_of(Some(doc_in(r))), "name"@, ws,
        ) matches Some(row) && (doc_u64(member(row, "usedBytes"@)) matches Some(n) && n >= 209_715_200 && (before matches Some(b) ==> n > b))),
{
}

/// What is left of a removed pair is clean exactly where their bench and workspace are gone, no environment of
/// theirs and no sync point of the workspace is left, and the push and its volume are still there.
pub proof fn law_a_pair_is_cleaned_and_its_push_is_kept(
    bench: Seq<char>, ws: Seq<char>, volume: Seq<char>, snap: Seq<char>, owner: Seq<char>, team: Seq<char>, cap_ms: u64, e: u64,
    rs: Seq<ReplyV>,
)
    requires
        probe_next(WaitV::Cleaned { bench, ws, volume, snap, owner, team, cap_ms }, e, rs) is Yes,
    ensures
        rs.len() >= 5,
        answered(rs[0], 404) && answered(rs[1], 404),
        went_well(rs[2]) && went_well(rs[3]) && went_well(rs[4]),
        forall|i: int|
            0 <= i < rows_of(Some(doc_in(rs[2]))).len() ==> doc_str(member2(#[trigger] rows_of(Some(doc_in(rs[2])))[i], "spec"@, "owner"@))
                != Some(owner) || doc_str(member2(rows_of(Some(doc_in(rs[2])))[i], "spec"@, "team"@)) != Some(team),
        forall|i: int|
            0 <= i < rows_of(Some(doc_in(rs[3]))).len() ==> doc_str(
                member2(#[trigger] rows_of(Some(doc_in(rs[3])))[i], "spec"@, "worktree"@),
            ) != Some(ws) || member2(rows_of(Some(doc_in(rs[3])))[i], "spec"@, "transient"@) != Some(Doc::Bool(true)),
        exists|i: int|
            0 <= i < rows_of(Some(doc_in(rs[3]))).len() && doc_str(member2(#[trigger] rows_of(Some(doc_in(rs[3])))[i], "metadata"@, "name"@))
                == Some(snap),
{
    let spaces = rows_of(Some(doc_in(rs[2])));
    let snaps = rows_of(Some(doc_in(rs[3])));
    lemma_no_sync(snaps, ws);
    assert forall|i: int| 0 <= i < spaces.len() implies doc_str(member2(#[trigger] spaces[i], "spec"@, "owner"@)) != Some(owner) || doc_str(
        member2(spaces[i], "spec"@, "team"@),
    ) != Some(team) by {
        assert(!crate::stages::monthly::removed::is_space_of(spaces[i], owner, team));
    }
    let i = choose|i: int| 0 <= i < snaps.len() && crate::stages::monthly::removed::own_name(#[trigger] snaps[i]) == Some(snap);
    assert(doc_str(member2(snaps[i], "metadata"@, "name"@)) == Some(snap));
}

proof fn lemma_no_sync(rows: Seq<Doc>, ws: Seq<char>)
    ensures
        crate::stages::monthly::removed::first_sync_of(rows, ws) is None ==> forall|i: int|
            0 <= i < rows.len() ==> doc_str(member2(#[trigger] rows[i], "spec"@, "worktree"@)) != Some(ws) || member2(
                rows[i], "spec"@, "transient"@,
            ) != Some(Doc::Bool(true)),
    decreases rows.len(),
{
    if rows.len() > 0 {
        let t = rows.drop_first();
        lemma_no_sync(t, ws);
        if crate::stages::monthly::removed::first_sync_of(rows, ws) is None {
            assert forall|i: int| 0 <= i < rows.len() implies doc_str(member2(#[trigger] rows[i], "spec"@, "worktree"@)) != Some(ws) || member2(
                rows[i], "spec"@, "transient"@,
            ) != Some(Doc::Bool(true)) by {
                if i > 0 {
                    assert(t[i - 1] == rows[i]);
                }
            }
        }
    }
}

/// Every working copy of a run is gone exactly where they were listed and no row of the listing has the run's
/// prefix; each that is left is deleted by its id.
pub proof fn law_detached_is_with_no_copy_left(url: Seq<char>, token: Seq<char>, prefix: Seq<char>, cap_ms: u64, e: u64, r: ReplyV)
    ensures
        ({
            let w = WaitV::Detached { url, token, prefix, cap_ms };
            let rows = rows_of(Some(doc_in(r)));
            &&& probe_next(w, e, seq![]) == TriedV::Ask(getting(url, token))
            &&& probe_next(w, e, seq![r]) is Yes <==> went_well(r) && doc_in(r) is Arr && forall|i: int|
                0 <= i < rows.len() ==> !(text_of(#[trigger] rows[i], "id"@) is Some && (text_of(rows[i], "name"@) matches Some(n) && starts(
                    n, prefix,
                )))
            &&& probe_next(w, e, seq![r]) matches TriedV::Ask(a) ==> exists|i: int, id: Seq<char>|
                0 <= i < rows.len() && text_of(#[trigger] rows[i], "id"@) == Some(id) && (text_of(rows[i], "name"@) matches Some(n) && starts(
                    n, prefix,
                )) && a == #[trigger] deleting(url + "/"@ + id, token)
        }),
{
    let rows = rows_of(Some(doc_in(r)));
    lemma_prefixed(rows, prefix);
    let live = crate::stages::lifecycle::prefixed_ids(rows, prefix);
    if went_well(r) && live.len() > 0 {
        assert(live.contains(live[0]));
        crate::stages::lifecycle::law_only_our_own_are_named(rows, prefix, live[0]);
        assert(seq![r].len() - 1 == 0);
    }
}

proof fn lemma_prefixed(rows: Seq<Doc>, prefix: Seq<char>)
    ensures
        crate::stages::lifecycle::prefixed_ids(rows, prefix).len() == 0 <==> forall|i: int|
            0 <= i < rows.len() ==> !(text_of(#[trigger] rows[i], "id"@) is Some && (text_of(rows[i], "name"@) matches Some(n) && starts(
                n, prefix,
            ))),
    decreases rows.len(),
{
    if rows.len() > 0 {
        let f = rows.drop_last();
        lemma_prefixed(f, prefix);
        let here = |d: Doc| text_of(d, "id"@) is Some && (text_of(d, "name"@) matches Some(n) && starts(n, prefix));
        if forall|i: int| 0 <= i < f.len() ==> !here(#[trigger] f[i]) {
            assert forall|i: int| 0 <= i < f.len() implies !here(#[trigger] rows[i]) by {
                assert(f[i] == rows[i]);
            }
        }
        assert forall|i: int| 0 <= i < f.len() && here(#[trigger] f[i]) implies here(rows[i]) by {}
    }
}

/// A volume is collected only where nobody owned it any more and it was seen to go: one that could not be read
/// is not, and one that is still owned ends the wait as a failure.
pub proof fn law_a_volume_is_collected_once_nobody_owns_it(
    workspaces: Seq<char>, base: Seq<char>, token: Seq<char>, prefix: Seq<char>, volume: Seq<char>, cap_ms: u64, e: u64, owned: ReplyV,
    look: ReplyV, listing: ReplyV, history: ReplyV,
)
    requires
        went_well(listing) && doc_in(listing) == Doc::Arr(seq![]),
        went_well(history) && doc_in(history) == Doc::Arr(seq![]),
    ensures
        ({
            let w = WaitV::Collected { workspaces, base, token, prefix, volume, cap_ms };
            &&& probe_next(w, e, seq![]) == TriedV::Ask(getting(workspaces, token))
            &&& probe_next(w, e, seq![listing]) == TriedV::Ask(getting(base + "/history"@, token))
            &&& probe_next(w, e, seq![listing, history]) == TriedV::Ask(
                AskV::Read { cluster: Cluster::Fleet, kind: Kind::Volume, ns: ""@, name: volume },
            )
            &&& probe_next(w, e, seq![listing, history, owned, look]) is Yes <==> came(look) && (answered(owned, 404) || went_well(owned)
                && rows_of(member2(doc_in(owned), "metadata"@, "ownerReferences"@)).len() == 0)
            &&& went_well(owned) && rows_of(member2(doc_in(owned), "metadata"@, "ownerReferences"@)).len() > 0 ==> probe_next(
                w, e, seq![listing, history, owned],
            ) is Broken
            &&& answered(owned, 404) ==> (probe_next(w, e, seq![listing, history, owned]) matches TriedV::Ask(AskV::Wait(WaitV::Vanished {
                kind, name, cap_ms: cap,
            })) && kind == Kind::Volume && name == volume && cap <= 5_000 && cap + e <= (if cap_ms > e { cap_ms } else { e }))
        }),
{
    assert(crate::stages::lifecycle::prefixed_ids(seq![], prefix) =~= seq![]);
    assert(crate::json::column(seq![], "id"@) =~= seq![]);
}

/// A wait is over exactly where its probe held; a probe that broke ends it in the probe's own words, and one
/// that does not hold yet rests, until its time is up.
pub proof fn law_a_wait_is_over_only_where_it_held(w: WaitV, tried: TriedV, last: Seq<char>, elapsed_ms: u64)
    ensures
        turn_after(w, tried, last, elapsed_ms) is Done <==> tried is Yes,
        tried matches TriedV::Broken(why) ==> turn_after(w, tried, last, elapsed_ms) == TurnV::GiveUp(why),
        tried matches TriedV::NotYet(why) ==> turn_after(w, tried, last, elapsed_ms) == (if gives_up_after(w) matches Some(cap) && elapsed_ms
            >= cap {
            TurnV::GiveUp(gave_up(w, why))
        } else {
            TurnV::Rest { ms: rests_for(w) }
        }),
        tried is Still ==> turn_after(w, tried, last, elapsed_ms) == (if gives_up_after(w) matches Some(cap) && elapsed_ms >= cap {
            TurnV::GiveUp(gave_up(w, last))
        } else {
            TurnV::Rest { ms: rests_for(w) }
        }),
{
}

/// A wait goes on for as long as it was given: a document's for two seconds less, a command's for ten less,
/// and those that are judged before each try start none after it.
pub proof fn law_a_wait_takes_no_longer_than_it_was_given(url: Seq<char>, token: Seq<char>, want: WantV, t: Seq<char>, b: bool, kind: Kind, cap_ms: u64)
    requires
        cap_ms >= 10_000,
    ensures
        gives_up_after(WaitV::Doc { url, token, want, cap_ms }) == Some((cap_ms - 2_000) as u64),
        gives_up_after(WaitV::Which { ws: t, package: t, want: b, cap_ms }) == Some((cap_ms - 10_000) as u64),
        starts_until(WaitV::Health { ws: t, cap_ms }) == Some(cap_ms),
        starts_until(WaitV::SeedFailed { ws: t, cap_ms }) == Some(cap_ms),
        starts_until(WaitV::Away { url, token, cap_ms }) == Some(cap_ms),
        gives_up_after(WaitV::Gone { url, token, what: t, cap_ms }) == Some(cap_ms),
        gives_up_after(WaitV::Departed { url, token, what: t, cap_ms }) == Some(cap_ms),
        gives_up_after(WaitV::Vanished { kind, name: t, cap_ms }) == Some(cap_ms),
        gives_up_after(WaitV::Unlisted { url, token, name: t, what: t, cap_ms }) == Some(cap_ms),
        gives_up_after(WaitV::Detached { url, token, prefix: t, cap_ms }) == Some(cap_ms),
        gives_up_after(WaitV::Drained { node: t, key: t, prefix: t, cap_ms }) == Some(cap_ms),
        gives_up_after(WaitV::Draining { node: t, key: t, cap_ms }) == Some(cap_ms),
        gives_up_after(WaitV::Marked { bench: t, key: t, cap_ms }) == Some(cap_ms),
        gives_up_after(WaitV::BackUp { bench: t, cap_ms }) == Some(cap_ms),
        gives_up_after(WaitV::Policy { ns: t, name: t, want: b, cap_ms }) == Some(cap_ms),
        gives_up_after(WaitV::Pong { ns: t, cap_ms }) == Some(cap_ms),
        gives_up_after(WaitV::Replicas { ns: t, name: t, cap_ms }) == Some(cap_ms),
        gives_up_after(WaitV::Agents { url, token, rolling: b, cap_ms }) == Some(cap_ms),
{
}

} // verus!
