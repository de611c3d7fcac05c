//! Waiting for something to become so.
//!
//! A wait is one probe, made again and again. After every try [`Wait::after`] says whether it is
//! over, and [`Wait::before`] whether another try may start; the caller keeps the time.

use vstd::prelude::*;

use crate::json::Doc;
use crate::probes::{
    EXEC_MS, HEALTHZ, Tried, TriedV, cloned_probe, denied_probe, doc_tried, gone_tried, health_tried, landed_probe, policy_tried,
    pong_probe, probe_cloned, probe_denied, probe_landed, probe_pong, replica_tried, seed_tried, tried_once, try_doc, try_gone,
    try_health, try_policy, try_replica, try_seed, try_which, which_script, which_tried,
};
use crate::stages::lifecycle::{
    collect_probe, detach_probe, probe_collect, probe_detach, try_unlisted, try_vanished, unlisted_tried, vanished_tried,
};
use crate::stages::monthly::nodes::{drained_tried, draining_stamp, draining_tried, stamped};
use crate::stages::monthly::removed::{cleaned, cleaned_probe, marked_tried, try_marked};
use crate::stages::quota_usage::{WRITTEN_MB, ms_of, to_ms, try_usage, usage_tried};
use crate::stages::teams::paused::{PAUSE_WINDOW_MS, probe_refused, refused_probe, back_up_tried, try_back_up, probe_token, token_probe};
use crate::stages::weekly::{AGENT, agent_tried, try_agent};
use crate::text::{cat2, cat3, cat4, cat5, cat6, cat7, cat8, dec, decimal, texts};
use crate::want::{Want, WantV};
use crate::wire::{Ask, AskV, Cluster, Kind, Reply, ReplyV, exec, get, getting, opt, pairs, seen};

verus! {

/// `a` less `b`, or nothing.
pub open spec fn less(a: u64, b: u64) -> u64 {
    if a >= b { (a - b) as u64 } else { 0 }
}

pub enum Wait {
    /// A document read from `url` until it says what is wanted.
    Doc { url: String, token: String, want: Want, cap_ms: u64 },
    /// A package's command in a workspace, until it is there (`want`) or is gone.
    Which { ws: String, package: String, want: bool, cap_ms: u64 },
    /// A workspace's tool server, until it is healthy.
    Health { ws: String, cap_ms: u64 },
    /// A workspace whose seeding cannot work, until it says so.
    SeedFailed { ws: String, cap_ms: u64 },
    /// A thing its owner reads, until it is not there.
    Gone { url: String, token: String, what: String, cap_ms: u64 },
    /// A clone over SSH, until the key it is made with is honoured.
    Cloned { argv: Vec<String>, env: Vec<(String, String)>, cap_ms: u64 },
    /// A clone over SSH, until the key it is made with is refused.
    Denied { argv: Vec<String>, env: Vec<(String, String)>, cap_ms: u64 },
    /// A file on the base branch, until it holds `text`.
    Landed { refs: String, blobs: String, token: String, path: String, text: String, cap_ms: u64 },
    /// A stateful set, until one of its replicas is ready.
    Replicas { ns: String, name: String, cap_ms: u64 },
    /// A redis service, until it resolves and answers.
    Pong { ns: String, cap_ms: u64 },
    /// A network policy, until it is there (`want`) or is not.
    Policy { ns: String, name: String, want: bool, cap_ms: u64 },
    /// The tool token of a bench, until it has reached the bench's own container.
    ToolToken { ns: String, team: String, container: String, cap_ms: u64 },
    /// A paused member, until every surface refuses them.
    RefusedEverywhere { team: String, tool: String, gateway: String, member: String, jwt: String, bench: String, api_url: String, cap_ms: u64 },
    /// A bench, until it is up again.
    BackUp { bench: String, cap_ms: u64 },
    /// A thing its owner has deleted, until it is not there.
    Departed { url: String, token: String, what: String, cap_ms: u64 },
    /// A volume, until the listing does not have it.
    Unlisted { url: String, token: String, name: String, what: String, cap_ms: u64 },
    /// The working copies of a run, each deleted again on every try, until there is none.
    Detached { url: String, token: String, prefix: String, cap_ms: u64 },
    /// A cluster object, until it is not there.
    Vanished { kind: Kind, name: String, cap_ms: u64 },
    /// A volume whose working copies and snapshots are deleted again on every try, until it is
    /// gone.
    Collected { workspaces: String, base: String, token: String, prefix: String, volume: String, cap_ms: u64 },
    /// The agent's pods, until all are up, or one of each is being rolled.
    Agents { url: String, token: String, rolling: bool, cap_ms: u64 },
    /// A node, until its own agent says that it is drained.
    Drained { node: String, key: String, prefix: String, cap_ms: u64 },
    /// A node, until its own agent says that it is being drained.
    Draining { node: String, key: String, cap_ms: u64 },
    /// A bench, until it is marked.
    Marked { bench: String, key: String, cap_ms: u64 },
    /// What was a removed member's, until it is gone and what they pushed is kept.
    Cleaned { bench: String, ws: String, volume: String, snap: String, owner: String, team: String, cap_ms: u64 },
    /// A thing that is being deleted, until it is not there, whatever else is answered.
    Away { url: String, token: String, cap_ms: u64 },
    /// The stamp of a volume, until it has what was written and is past what it was before.
    Usage { url: String, token: String, ws: String, before: Option<u64>, secs: u64 },
}

pub enum WaitV {
    Doc { url: Seq<char>, token: Seq<char>, want: WantV, cap_ms: u64 },
    Which { ws: Seq<char>, package: Seq<char>, want: bool, cap_ms: u64 },
    Health { ws: Seq<char>, cap_ms: u64 },
    SeedFailed { ws: Seq<char>, cap_ms: u64 },
    Gone { url: Seq<char>, token: Seq<char>, what: Seq<char>, cap_ms: u64 },
    Cloned { argv: Seq<Seq<char>>, env: Seq<(Seq<char>, Seq<char>)>, cap_ms: u64 },
    Denied { argv: Seq<Seq<char>>, env: Seq<(Seq<char>, Seq<char>)>, cap_ms: u64 },
    Landed { refs: Seq<char>, blobs: Seq<char>, token: Seq<char>, path: Seq<char>, text: Seq<char>, cap_ms: u64 },
    Replicas { ns: Seq<char>, name: Seq<char>, cap_ms: u64 },
    Pong { ns: Seq<char>, cap_ms: u64 },
    Policy { ns: Seq<char>, name: Seq<char>, want: bool, cap_ms: u64 },
    ToolToken { ns: Seq<char>, team: Seq<char>, container: Seq<char>, cap_ms: u64 },
    RefusedEverywhere { team: Seq<char>, tool: Seq<char>, gateway: Seq<char>, member: Seq<char>, jwt: Seq<char>, bench: Seq<char>, api_url: Seq<char>, cap_ms: u64 },
    BackUp { bench: Seq<char>, cap_ms: u64 },
    Departed { url: Seq<char>, token: Seq<char>, what: Seq<char>, cap_ms: u64 },
    Unlisted { url: Seq<char>, token: Seq<char>, name: Seq<char>, what: Seq<char>, cap_ms: u64 },
    Detached { url: Seq<char>, token: Seq<char>, prefix: Seq<char>, cap_ms: u64 },
    Vanished { kind: Kind, name: Seq<char>, cap_ms: u64 },
    Collected { workspaces: Seq<char>, base: Seq<char>, token: Seq<char>, prefix: Seq<char>, volume: Seq<char>, cap_ms: u64 },
    Agents { url: Seq<char>, token: Seq<char>, rolling: bool, cap_ms: u64 },
    Drained { node: Seq<char>, key: Seq<char>, prefix: Seq<char>, cap_ms: u64 },
    Draining { node: Seq<char>, key: Seq<char>, cap_ms: u64 },
    Marked { bench: Seq<char>, key: Seq<char>, cap_ms: u64 },
    Cleaned { bench: Seq<char>, ws: Seq<char>, volume: Seq<char>, snap: Seq<char>, owner: Seq<char>, team: Seq<char>, cap_ms: u64 },
    Away { url: Seq<char>, token: Seq<char>, cap_ms: u64 },
    Usage { url: Seq<char>, token: Seq<char>, ws: Seq<char>, before: Option<u64>, secs: u64 },
}

impl View for Wait {
    type V = WaitV;

    open spec fn view(&self) -> WaitV {
        match self {
            Wait::Doc { url, token, want, cap_ms } => WaitV::Doc {
                url: url@,
                token: token@,
                want: want@,
                cap_ms: *cap_ms,
            },
            Wait::Which { ws, package, want, cap_ms } => WaitV::Which {
                ws: ws@,
                package: package@,
                want: *want,
                cap_ms: *cap_ms,
            },
            Wait::Health { ws, cap_ms } => WaitV::Health { ws: ws@, cap_ms: *cap_ms },
            Wait::SeedFailed { ws, cap_ms } => WaitV::SeedFailed { ws: ws@, cap_ms: *cap_ms },
            Wait::Gone { url, token, what, cap_ms } => WaitV::Gone {
                url: url@,
                token: token@,
                what: what@,
                cap_ms: *cap_ms,
            },
            Wait::Cloned { argv, env, cap_ms } => WaitV::Cloned {
                argv: texts(argv@),
                env: pairs(env@),
                cap_ms: *cap_ms,
            },
            Wait::Denied { argv, env, cap_ms } => WaitV::Denied {
                argv: texts(argv@),
                env: pairs(env@),
                cap_ms: *cap_ms,
            },
            Wait::Landed { refs, blobs, token, path, text, cap_ms } => WaitV::Landed {
                refs: refs@,
                blobs: blobs@,
                token: token@,
                path: path@,
                text: text@,
                cap_ms: *cap_ms,
            },
            Wait::Replicas { ns, name, cap_ms } => WaitV::Replicas {
                ns: ns@,
                name: name@,
                cap_ms: *cap_ms,
            },
            Wait::Pong { ns, cap_ms } => WaitV::Pong { ns: ns@, cap_ms: *cap_ms },
            Wait::Policy { ns, name, want, cap_ms } => WaitV::Policy {
                ns: ns@,
                name: name@,
                want: *want,
                cap_ms: *cap_ms,
            },
            Wait::ToolToken { ns, team, container, cap_ms } => WaitV::ToolToken {
                ns: ns@,
                team: team@,
                container: container@,
                cap_ms: *cap_ms,
            },
            Wait::RefusedEverywhere { team, tool, gateway, member, jwt, bench, api_url, cap_ms } => WaitV::RefusedEverywhere {
                team: team@,
                tool: tool@,
                gateway: gateway@,
                member: member@,
                jwt: jwt@,
                bench: bench@,
                api_url: api_url@,
                cap_ms: *cap_ms,
            },
            Wait::BackUp { bench, cap_ms } => WaitV::BackUp { bench: bench@, cap_ms: *cap_ms },
            Wait::Departed { url, token, what, cap_ms } => WaitV::Departed {
                url: url@,
                token: token@,
                what: what@,
                cap_ms: *cap_ms,
            },
            Wait::Unlisted { url, token, name, what, cap_ms } => WaitV::Unlisted {
                url: url@,
                token: token@,
                name: name@,
                what: what@,
                cap_ms: *cap_ms,
            },
            Wait::Detached { url, token, prefix, cap_ms } => WaitV::Detached {
                url: url@,
                token: token@,
                prefix: prefix@,
                cap_ms: *cap_ms,
            },
            Wait::Vanished { kind, name, cap_ms } => WaitV::Vanished {
                kind: *kind,
                name: name@,
                cap_ms: *cap_ms,
            },
            Wait::Collected { workspaces, base, token, prefix, volume, cap_ms } => WaitV::Collected {
                workspaces: workspaces@,
                base: base@,
                token: token@,
                prefix: prefix@,
                volume: volume@,
                cap_ms: *cap_ms,
            },
            Wait::Agents { url, token, rolling, cap_ms } => WaitV::Agents {
                url: url@,
                token: token@,
                rolling: *rolling,
                cap_ms: *cap_ms,
            },
            Wait::Drained { node, key, prefix, cap_ms } => WaitV::Drained {
                node: node@,
                key: key@,
                prefix: prefix@,
                cap_ms: *cap_ms,
            },
            Wait::Draining { node, key, cap_ms } => WaitV::Draining {
                node: node@,
                key: key@,
                cap_ms: *cap_ms,
            },
            Wait::Marked { bench, key, cap_ms } => WaitV::Marked {
                bench: bench@,
                key: key@,
                cap_ms: *cap_ms,
            },
            Wait::Cleaned { bench, ws, volume, snap, owner, team, cap_ms } => WaitV::Cleaned {
                bench: bench@,
                ws: ws@,
                volume: volume@,
                snap: snap@,
                owner: owner@,
                team: team@,
                cap_ms: *cap_ms,
            },
            Wait::Away { url, token, cap_ms } => WaitV::Away {
                url: url@,
                token: token@,
                cap_ms: *cap_ms,
            },
            Wait::Usage { url, token, ws, before, secs } => WaitV::Usage {
                url: url@,
                token: token@,
                ws: ws@,
                before: *before,
                secs: *secs,
            },
        }
    }
}

/// What follows a try.
pub enum Turn {
    Done,
    Rest { ms: u64 },
    GiveUp(String),
}

pub enum TurnV {
    Done,
    Rest { ms: u64 },
    GiveUp(Seq<char>),
}

impl View for Turn {
    type V = TurnV;

    open spec fn view(&self) -> TurnV {
        match self {
            Turn::Done => TurnV::Done,
            Turn::Rest { ms } => TurnV::Rest { ms: *ms },
            Turn::GiveUp(w) => TurnV::GiveUp(w@),
        }
    }
}

/// What a wait's probe does next, given how long the wait has gone on and the replies this try has had.
pub open spec fn probe_next(w: WaitV, elapsed_ms: u64, rs: Seq<ReplyV>) -> TriedV {
    match w {
        WaitV::Doc { url, token, want, .. } => tried_once(rs, getting(url, token), doc_tried(want, rs[0])),
        WaitV::Which { ws, package, want, .. } => tried_once(
            rs,
            AskV::Exec { ws: ws, script: which_script(package), bound_ms: EXEC_MS }, which_tried(package, want, rs[0]),
        ),
        WaitV::Health { ws, .. } => tried_once(
            rs, AskV::Exec { ws: ws, script: HEALTHZ@, bound_ms: EXEC_MS }, health_tried(rs[0]),
        ),
        WaitV::SeedFailed { ws, .. } => tried_once(
            rs,
            AskV::Read { cluster: Cluster::Fleet, kind: Kind::Workspace, ns: seq![], name: ws }, seed_tried(ws, rs[0]),
        ),
        WaitV::Gone { url, token, .. } => tried_once(rs, getting(url, token), gone_tried(rs[0])),
        WaitV::Cloned { argv, env, .. } => cloned_probe(argv, env, rs),
        WaitV::Denied { argv, env, .. } => denied_probe(argv, env, rs),
        WaitV::Landed { refs, blobs, token, path, text, .. } => landed_probe(refs, blobs, token, path, text, rs),
        WaitV::Replicas { ns, name, .. } => tried_once(
            rs,
            AskV::Read { cluster: Cluster::Fleet, kind: Kind::StatefulSet, ns, name }, replica_tried(rs[0]),
        ),
        WaitV::Pong { ns, .. } => pong_probe(ns, rs),
        WaitV::Policy { ns, name, want, .. } => tried_once(
            rs,
            AskV::Read { cluster: Cluster::Fleet, kind: Kind::NetworkPolicy, ns, name }, policy_tried(ns, name, want, rs[0]),
        ),
        WaitV::ToolToken { ns, team, container, .. } => token_probe(ns, team, container, rs),
        WaitV::RefusedEverywhere { team, tool, gateway, member, jwt, bench, api_url, .. } => refused_probe(team, tool, gateway, member, jwt, bench, api_url, rs),
        WaitV::BackUp { bench, .. } => tried_once(
            rs,
            AskV::Read { cluster: Cluster::Fleet, kind: Kind::Workspace, ns: seq![], name: bench }, back_up_tried(rs[0]),
        ),
        WaitV::Departed { url, token, .. } => tried_once(rs, getting(url, token), gone_tried(rs[0])),
        WaitV::Unlisted { url, token, name, .. } => tried_once(rs, getting(url, token), unlisted_tried(name, rs[0])),
        WaitV::Detached { url, token, prefix, .. } => detach_probe(url, token, prefix, rs),
        WaitV::Vanished { kind, name, .. } => tried_once(
            rs, AskV::Read { cluster: Cluster::Fleet, kind, ns: ""@, name }, vanished_tried(rs[0]),
        ),
        WaitV::Collected { workspaces, base, token, prefix, volume, cap_ms } => collect_probe(
            workspaces, base, token, prefix, volume, less(cap_ms, elapsed_ms), rs,
        ),
        WaitV::Agents { url, token, rolling, .. } => tried_once(rs, getting(url, token), agent_tried(rolling, rs[0])),
        WaitV::Drained { node, key, prefix, .. } => tried_once(
            rs,
            AskV::Read { cluster: Cluster::Fleet, kind: Kind::Node, ns: ""@, name: node },
            drained_tried(node, key, prefix, rs[0]),
        ),
        WaitV::Draining { node, key, .. } => tried_once(
            rs,
            AskV::Read { cluster: Cluster::Fleet, kind: Kind::Node, ns: ""@, name: node },
            draining_tried(node, key, rs[0]),
        ),
        WaitV::Marked { bench, key, .. } => tried_once(
            rs,
            AskV::Read { cluster: Cluster::Fleet, kind: Kind::Bench, ns: ""@, name: bench }, marked_tried(key, rs[0]),
        ),
        WaitV::Cleaned { bench, ws, volume, snap, owner, team, .. } => cleaned_probe(bench, ws, volume, snap, owner, team, rs),
        WaitV::Away { url, token, .. } => tried_once(rs, getting(url, token), vanished_tried(rs[0])),
        WaitV::Usage { url, token, ws, before, .. } => tried_once(rs, getting(url, token), usage_tried(ws, before, rs[0])),
    }
}

/// The time after which a wait that failed once more gives up; a wait that is judged before each
/// try has none.
pub open spec fn gives_up_after(w: WaitV) -> Option<u64> {
    match w {
        WaitV::Doc { cap_ms, .. } => Some(less(cap_ms, 2_000)),
        WaitV::Which { cap_ms, .. } => Some(less(cap_ms, 10_000)),
        WaitV::Health { .. } => None,
        WaitV::SeedFailed { .. } => None,
        WaitV::Gone { cap_ms, .. } => Some(cap_ms),
        WaitV::Cloned { cap_ms, .. } => Some(cap_ms),
        WaitV::Denied { cap_ms, .. } => Some(cap_ms),
        WaitV::Landed { cap_ms, .. } => Some(cap_ms),
        WaitV::Replicas { cap_ms, .. } => Some(cap_ms),
        WaitV::Pong { cap_ms, .. } => Some(cap_ms),
        WaitV::Policy { cap_ms, .. } => Some(cap_ms),
        WaitV::ToolToken { cap_ms, .. } => Some(cap_ms),
        WaitV::RefusedEverywhere { cap_ms, .. } => Some(cap_ms),
        WaitV::BackUp { cap_ms, .. } => Some(cap_ms),
        WaitV::Departed { cap_ms, .. } => Some(cap_ms),
        WaitV::Unlisted { cap_ms, .. } => Some(cap_ms),
        WaitV::Detached { cap_ms, .. } => Some(cap_ms),
        WaitV::Vanished { cap_ms, .. } => Some(cap_ms),
        WaitV::Collected { cap_ms, .. } => Some(cap_ms),
        WaitV::Agents { cap_ms, .. } => Some(cap_ms),
        WaitV::Drained { cap_ms, .. } => Some(cap_ms),
        WaitV::Draining { cap_ms, .. } => Some(cap_ms),
        WaitV::Marked { cap_ms, .. } => Some(cap_ms),
        WaitV::Cleaned { cap_ms, .. } => Some(cap_ms),
        WaitV::Away { .. } => None,
        WaitV::Usage { secs, .. } => Some(ms_of(secs)),
    }
}

/// The time at which a wait starts no other try.
pub open spec fn starts_until(w: WaitV) -> Option<u64> {
    match w {
        WaitV::Health { cap_ms, .. } => Some(cap_ms),
        WaitV::SeedFailed { cap_ms, .. } => Some(cap_ms),
        WaitV::Away { cap_ms, .. } => Some(cap_ms),
        _ => None,
    }
}

/// How long a wait rests between two tries.
pub open spec fn rests_for(w: WaitV) -> u64 {
    match w {
        WaitV::Doc { .. } => 250,
        WaitV::Which { .. } => 2000,
        WaitV::Health { .. } => 2000,
        WaitV::SeedFailed { .. } => 10_000,
        WaitV::Gone { .. } => 500,
        WaitV::Cloned { .. } => 2000,
        WaitV::Denied { .. } => 2000,
        WaitV::Landed { .. } => 500,
        WaitV::Replicas { .. } => 2000,
        WaitV::Pong { .. } => 2000,
        WaitV::Policy { .. } => 500,
        WaitV::ToolToken { .. } => 2000,
        WaitV::RefusedEverywhere { .. } => 5000,
        WaitV::BackUp { .. } => 2000,
        WaitV::Departed { .. } => 500,
        WaitV::Unlisted { .. } => 500,
        WaitV::Detached { .. } => 500,
        WaitV::Vanished { .. } => 500,
        WaitV::Collected { .. } => 0,
        WaitV::Agents { .. } => 2000,
        WaitV::Drained { .. } => 5000,
        WaitV::Draining { .. } => 5000,
        WaitV::Marked { .. } => 5000,
        WaitV::Cleaned { .. } => 10_000,
        WaitV::Away { .. } => 3000,
        WaitV::Usage { .. } => 5000,
    }
}

/// The words a wait gives up with; `why` is what it last told.
pub open spec fn gave_up(w: WaitV, why: Seq<char>) -> Seq<char> {
    match w {
        WaitV::Doc { cap_ms, .. } => "not there after "@ + dec(less(
            cap_ms, 2_000,
        ) as nat) + " ms: "@ + why,
        WaitV::Which { package, want, cap_ms, .. } => package + " is not "@ + (if want { "runnable"@ } else { "gone"@ }) + " after "@ + dec(less(cap_ms, 10_000) as nat)
            + " ms: "@ + why,
        WaitV::Health { .. } => "the tool server never answered /healthz; last: "@ + why,
        WaitV::SeedFailed { .. } => "never reported SeedFailed; last Ready was "@ + why,
        WaitV::Gone { what, .. } => "the "@ + what + " still answers "@ + why + " to its owner"@,
        WaitV::Cloned { cap_ms, .. } => "a newly added key never cloned after "@ + dec(cap_ms as nat) + " ms: "@ + why,
        WaitV::Denied { cap_ms, .. } => "a removed key could still read the repo "@ + dec((cap_ms / 1_000) as nat) + " s after it was deleted"@,
        WaitV::Landed { .. } => "the merge did not land the expected tree: "@ + why,
        WaitV::Replicas { ns, name, cap_ms } => name + " in "@ + ns + " had no ready replica after "@ + dec(cap_ms as nat) + " ms: "@ + why,
        WaitV::Pong { ns, .. } => "the service in "@ + ns + " does not resolve and answer: "@ + why,
        WaitV::Policy { ns, name, want, cap_ms } => ns + "/"@ + name + " "@ + (if want { "never appeared"@ } else { "is still there"@ }) + " after "@ + dec(cap_ms as nat)
            + " ms"@,
        WaitV::ToolToken { .. } => "no tool token reached the member's bench"@,
        WaitV::RefusedEverywhere { .. } => "not refused within "@ + dec((PAUSE_WINDOW_MS / 1_000) as nat) + " s: "@ + why,
        WaitV::BackUp { bench, cap_ms } => bench + " was not up after "@ + dec(cap_ms as nat) + " ms: "@ + why,
        WaitV::Departed { what, cap_ms, .. } => what + " still answers "@ + why + " after "@ + dec(cap_ms as nat) + " ms"@,
        WaitV::Unlisted { what, cap_ms, .. } => what + " is still listed after "@ + dec(cap_ms as nat) + " ms"@,
        WaitV::Detached { cap_ms, .. } => why + " working copies were still on the volume after "@ + dec(cap_ms as nat) + " ms"@,
        WaitV::Vanished { name, cap_ms, .. } => name + " was still there after "@ + dec(cap_ms as nat) + " ms"@,
        WaitV::Collected { cap_ms, .. } => "the Volume was still there after "@ + dec(cap_ms as nat) + " ms"@,
        WaitV::Agents { rolling, cap_ms, .. } => "`"@ + AGENT@ + "` did not "@ + (if rolling { "start rolling"@ } else { "settle"@ }) + " after "@ + dec(cap_ms as nat)
            + " ms: ready/desired "@ + why,
        WaitV::Drained { node, cap_ms, .. } => "after "@ + dec(cap_ms as nat) + " ms "@ + node + " still reports "@ + why,
        WaitV::Draining { node, .. } => node + "'s agent never stamped its drain: it reports "@ + why,
        WaitV::Marked { key, cap_ms, .. } => "the Bench carried no "@ + key + " within "@ + dec((cap_ms / 1_000) as nat) + " s"@,
        WaitV::Cleaned { cap_ms, .. } => "not cleaned within "@ + dec((cap_ms / 1_000) as nat) + " s: "@ + why,
        WaitV::Away { url, cap_ms, .. } => url + " still answers after "@ + dec(cap_ms as nat) + " ms"@,
        WaitV::Usage { secs, .. } => dec(WRITTEN_MB as nat) + " MB written, but the volume still reads "@ + why + " after "@ + dec(secs as nat) + " s"@,
    }
}

/// What follows a try that took until `elapsed_ms`; `last` is what the wait last told before it.
pub open spec fn turn_after(w: WaitV, tried: TriedV, last: Seq<char>, elapsed_ms: u64) -> TurnV {
    match tried {
        TriedV::Ask(_) => TurnV::Rest { ms: 0 },
        TriedV::Yes => TurnV::Done,
        TriedV::Broken(why) => TurnV::GiveUp(why),
        _ => {
            let why = match tried {
                TriedV::NotYet(t) => t,
                _ => last,
            };
            match gives_up_after(w) {
                Some(cap) => if elapsed_ms >= cap { TurnV::GiveUp(gave_up(w, why)) } else { TurnV::Rest { ms: rests_for(w) } },
                None => TurnV::Rest { ms: rests_for(w) },
            }
        },
    }
}

impl Wait {
    pub fn probe(&self, elapsed_ms: u64, rs: &Vec<Reply>) -> (t: Tried)
        ensures
            t@ == probe_next(self@, elapsed_ms, seen(rs@)),
    {
        match self {
            Wait::Doc { url, token, want, .. } => {
                if rs.len() == 0 {
                    Tried::Ask(get(url.clone(), token.as_str()))
                } else {
                    try_doc(want, &rs[0])
                }
            },
            Wait::Which { ws, package, want, .. } => {
                if rs.len() == 0 {
                    Tried::Ask(exec(ws.as_str(), cat2("command -v ", package.as_str()), EXEC_MS))
                } else {
                    try_which(package.as_str(), *want, &rs[0])
                }
            },
            Wait::Health { ws, .. } => {
                if rs.len() == 0 {
                    Tried::Ask(exec(ws.as_str(), HEALTHZ.to_owned(), EXEC_MS))
                } else {
                    try_health(&rs[0])
                }
            },
            Wait::SeedFailed { ws, .. } => {
                if rs.len() == 0 {
                    Tried::Ask(Ask::Read {
                        cluster: Cluster::Fleet,
                        kind: Kind::Workspace,
                        ns: String::new(),
                        name: ws.clone(),
                    })
                } else {
                    try_seed(ws.as_str(), &rs[0])
                }
            },
            Wait::Gone { url, token, .. } => {
                if rs.len() == 0 {
                    Tried::Ask(get(url.clone(), token.as_str()))
                } else {
                    try_gone(&rs[0])
                }
            },
            Wait::Cloned { argv, env, .. } => probe_cloned(argv, env, rs),
            Wait::Denied { argv, env, .. } => probe_denied(argv, env, rs),
            Wait::Landed { refs, blobs, token, path, text, .. } => probe_landed(
                refs.as_str(), blobs.as_str(), token.as_str(), path.as_str(), text.as_str(), rs,
            ),
            Wait::Replicas { ns, name, .. } => {
                if rs.len() == 0 {
                    Tried::Ask(Ask::Read {
                        cluster: Cluster::Fleet,
                        kind: Kind::StatefulSet,
                        ns: ns.clone(),
                        name: name.clone(),
                    })
                } else {
                    try_replica(&rs[0])
                }
            },
            Wait::Pong { ns, .. } => probe_pong(ns.as_str(), rs),
            Wait::Policy { ns, name, want, .. } => {
                if rs.len() == 0 {
                    Tried::Ask(Ask::Read {
                        cluster: Cluster::Fleet,
                        kind: Kind::NetworkPolicy,
                        ns: ns.clone(),
                        name: name.clone(),
                    })
                } else {
                    try_policy(ns.as_str(), name.as_str(), *want, &rs[0])
                }
            },
            Wait::ToolToken { ns, team, container, .. } => probe_token(ns.as_str(), team.as_str(), container.as_str(), rs),
            Wait::RefusedEverywhere { team, tool, gateway, member, jwt, bench, api_url, .. } => probe_refused(
                team.as_str(), tool.as_str(), gateway.as_str(), member.as_str(), jwt.as_str(), bench.as_str(), api_url.as_str(),
                rs,
            ),
            Wait::BackUp { bench, .. } => {
                if rs.len() == 0 {
                    Tried::Ask(Ask::Read {
                        cluster: Cluster::Fleet,
                        kind: Kind::Workspace,
                        ns: String::new(),
                        name: bench.clone(),
                    })
                } else {
                    try_back_up(&rs[0])
                }
            },
            Wait::Departed { url, token, .. } => {
                if rs.len() == 0 {
                    Tried::Ask(get(url.clone(), token.as_str()))
                } else {
                    try_gone(&rs[0])
                }
            },
            Wait::Unlisted { url, token, name, .. } => {
                if rs.len() == 0 {
                    Tried::Ask(get(url.clone(), token.as_str()))
                } else {
                    try_unlisted(name.as_str(), &rs[0])
                }
            },
            Wait::Detached { url, token, prefix, .. } => probe_detach(url.as_str(), token.as_str(), prefix.as_str(), rs),
            Wait::Vanished { kind, name, .. } => {
                if rs.len() == 0 {
                    Tried::Ask(Ask::Read { cluster: Cluster::Fleet, kind: *kind, ns: "".to_owned(), name: name.clone() })
                } else {
                    try_vanished(&rs[0])
                }
            },
            Wait::Collected { workspaces, base, token, prefix, volume, cap_ms } => probe_collect(
                workspaces.as_str(), base.as_str(), token.as_str(), prefix.as_str(), volume.as_str(), cap_ms.saturating_sub(elapsed_ms), rs,
            ),
            Wait::Agents { url, token, rolling, .. } => {
                if rs.len() == 0 {
                    Tried::Ask(get(url.clone(), token.as_str()))
                } else {
                    try_agent(*rolling, &rs[0])
                }
            },
            Wait::Drained { node, key, prefix, .. } => {
                if rs.len() == 0 {
                    Tried::Ask(Ask::Read { cluster: Cluster::Fleet, kind: Kind::Node, ns: "".to_owned(), name: node.clone() })
                } else {
                    stamped(node.as_str(), key.as_str(), prefix.as_str(), &rs[0])
                }
            },
            Wait::Draining { node, key, .. } => {
                if rs.len() == 0 {
                    Tried::Ask(Ask::Read { cluster: Cluster::Fleet, kind: Kind::Node, ns: "".to_owned(), name: node.clone() })
                } else {
                    draining_stamp(node.as_str(), key.as_str(), &rs[0])
                }
            },
            Wait::Marked { bench, key, .. } => {
                if rs.len() == 0 {
                    Tried::Ask(Ask::Read { cluster: Cluster::Fleet, kind: Kind::Bench, ns: "".to_owned(), name: bench.clone() })
                } else {
                    try_marked(key.as_str(), &rs[0])
                }
            },
            Wait::Cleaned { bench, ws, volume, snap, owner, team, .. } => cleaned(
                bench.as_str(), ws.as_str(), volume.as_str(), snap.as_str(), owner.as_str(), team.as_str(), rs,
            ),
            Wait::Away { url, token, .. } => {
                if rs.len() == 0 {
                    Tried::Ask(get(url.clone(), token.as_str()))
                } else {
                    try_vanished(&rs[0])
                }
            },
            Wait::Usage { url, token, ws, before, .. } => {
                if rs.len() == 0 {
                    Tried::Ask(get(url.clone(), token.as_str()))
                } else {
                    try_usage(ws.as_str(), *before, &rs[0])
                }
            },
        }
    }

    fn cap(&self) -> (r: Option<u64>)
        ensures
            r == gives_up_after(self@),
    {
        match self {
            Wait::Doc { cap_ms, .. } => Some(cap_ms.saturating_sub(2_000)),
            Wait::Which { cap_ms, .. } => Some(cap_ms.saturating_sub(10_000)),
            Wait::Health { .. } => None,
            Wait::SeedFailed { .. } => None,
            Wait::Gone { cap_ms, .. } => Some(*cap_ms),
            Wait::Cloned { cap_ms, .. } => Some(*cap_ms),
            Wait::Denied { cap_ms, .. } => Some(*cap_ms),
            Wait::Landed { cap_ms, .. } => Some(*cap_ms),
            Wait::Replicas { cap_ms, .. } => Some(*cap_ms),
            Wait::Pong { cap_ms, .. } => Some(*cap_ms),
            Wait::Policy { cap_ms, .. } => Some(*cap_ms),
            Wait::ToolToken { cap_ms, .. } => Some(*cap_ms),
            Wait::RefusedEverywhere { cap_ms, .. } => Some(*cap_ms),
            Wait::BackUp { cap_ms, .. } => Some(*cap_ms),
            Wait::Departed { cap_ms, .. } => Some(*cap_ms),
            Wait::Unlisted { cap_ms, .. } => Some(*cap_ms),
            Wait::Detached { cap_ms, .. } => Some(*cap_ms),
            Wait::Vanished { cap_ms, .. } => Some(*cap_ms),
            Wait::Collected { cap_ms, .. } => Some(*cap_ms),
            Wait::Agents { cap_ms, .. } => Some(*cap_ms),
            Wait::Drained { cap_ms, .. } => Some(*cap_ms),
            Wait::Draining { cap_ms, .. } => Some(*cap_ms),
            Wait::Marked { cap_ms, .. } => Some(*cap_ms),
            Wait::Cleaned { cap_ms, .. } => Some(*cap_ms),
            Wait::Away { .. } => None,
            Wait::Usage { secs, .. } => Some(to_ms(*secs)),
        }
    }

    fn pause(&self) -> (r: u64)
        ensures
            r == rests_for(self@),
    {
        match self {
            Wait::Doc { .. } => 250,
            Wait::Which { .. } => 2000,
            Wait::Health { .. } => 2000,
            Wait::SeedFailed { .. } => 10_000,
            Wait::Gone { .. } => 500,
            Wait::Cloned { .. } => 2000,
            Wait::Denied { .. } => 2000,
            Wait::Landed { .. } => 500,
            Wait::Replicas { .. } => 2000,
            Wait::Pong { .. } => 2000,
            Wait::Policy { .. } => 500,
            Wait::ToolToken { .. } => 2000,
            Wait::RefusedEverywhere { .. } => 5000,
            Wait::BackUp { .. } => 2000,
            Wait::Departed { .. } => 500,
            Wait::Unlisted { .. } => 500,
            Wait::Detached { .. } => 500,
            Wait::Vanished { .. } => 500,
            Wait::Collected { .. } => 0,
            Wait::Agents { .. } => 2000,
            Wait::Drained { .. } => 5000,
            Wait::Draining { .. } => 5000,
            Wait::Marked { .. } => 5000,
            Wait::Cleaned { .. } => 10_000,
            Wait::Away { .. } => 3000,
            Wait::Usage { .. } => 5000,
        }
    }

    fn words(&self, why: &str) -> (r: String)
        ensures
            r@ == gave_up(self@, why@),
    {
        match self {
            Wait::Doc { cap_ms, .. } => cat4(
                "not there after ", decimal(cap_ms.saturating_sub(2_000)).as_str(), " ms: ", why,
            ),
            Wait::Which { package, want, cap_ms, .. } => cat7(
                package.as_str(), " is not ", (if *want { "runnable" } else { "gone" }), " after ",
                decimal(cap_ms.saturating_sub(10_000)).as_str(), " ms: ", why,
            ),
            Wait::Health { .. } => cat2("the tool server never answered /healthz; last: ", why),
            Wait::SeedFailed { .. } => cat2("never reported SeedFailed; last Ready was ", why),
            Wait::Gone { what, .. } => cat5(
                "the ", what.as_str(), " still answers ", why, " to its owner",
            ),
            Wait::Cloned { cap_ms, .. } => cat4(
                "a newly added key never cloned after ", decimal(*cap_ms).as_str(), " ms: ", why,
            ),
            Wait::Denied { cap_ms, .. } => cat3(
                "a removed key could still read the repo ", decimal(*cap_ms / 1_000).as_str(), " s after it was deleted",
            ),
            Wait::Landed { .. } => cat2("the merge did not land the expected tree: ", why),
            Wait::Replicas { ns, name, cap_ms } => cat7(
                name.as_str(), " in ", ns.as_str(), " had no ready replica after ", decimal(*cap_ms).as_str(), " ms: ",
                why,
            ),
            Wait::Pong { ns, .. } => cat4(
                "the service in ", ns.as_str(), " does not resolve and answer: ", why,
            ),
            Wait::Policy { ns, name, want, cap_ms } => cat8(
                ns.as_str(), "/", name.as_str(), " ", (if *want { "never appeared" } else { "is still there" }), " after ",
                decimal(*cap_ms).as_str(), " ms",
            ),
            Wait::ToolToken { .. } => "no tool token reached the member's bench".to_owned(),
            Wait::RefusedEverywhere { .. } => cat4(
                "not refused within ", decimal(PAUSE_WINDOW_MS / 1_000).as_str(), " s: ", why,
            ),
            Wait::BackUp { bench, cap_ms } => cat5(
                bench.as_str(), " was not up after ", decimal(*cap_ms).as_str(), " ms: ", why,
            ),
            Wait::Departed { what, cap_ms, .. } => cat6(
                what.as_str(), " still answers ", why, " after ", decimal(*cap_ms).as_str(), " ms",
            ),
            Wait::Unlisted { what, cap_ms, .. } => cat4(
                what.as_str(), " is still listed after ", decimal(*cap_ms).as_str(), " ms",
            ),
            Wait::Detached { cap_ms, .. } => cat4(
                why, " working copies were still on the volume after ", decimal(*cap_ms).as_str(), " ms",
            ),
            Wait::Vanished { name, cap_ms, .. } => cat4(
                name.as_str(), " was still there after ", decimal(*cap_ms).as_str(), " ms",
            ),
            Wait::Collected { cap_ms, .. } => cat3(
                "the Volume was still there after ", decimal(*cap_ms).as_str(), " ms",
            ),
            Wait::Agents { rolling, cap_ms, .. } => cat8(
                "`", AGENT, "` did not ", (if *rolling { "start rolling" } else { "settle" }), " after ",
                decimal(*cap_ms).as_str(), " ms: ready/desired ", why,
            ),
            Wait::Drained { node, cap_ms, .. } => cat6(
                "after ", decimal(*cap_ms).as_str(), " ms ", node.as_str(), " still reports ", why,
            ),
            Wait::Draining { node, .. } => cat3(
                node.as_str(), "'s agent never stamped its drain: it reports ", why,
            ),
            Wait::Marked { key, cap_ms, .. } => cat5(
                "the Bench carried no ", key.as_str(), " within ", decimal(*cap_ms / 1_000).as_str(), " s",
            ),
            Wait::Cleaned { cap_ms, .. } => cat4(
                "not cleaned within ", decimal(*cap_ms / 1_000).as_str(), " s: ", why,
            ),
            Wait::Away { url, cap_ms, .. } => cat4(
                url.as_str(), " still answers after ", decimal(*cap_ms).as_str(), " ms",
            ),
            Wait::Usage { secs, .. } => cat6(
                decimal(WRITTEN_MB).as_str(), " MB written, but the volume still reads ", why, " after ",
                decimal(*secs).as_str(), " s",
            ),
        }
    }

    /// What follows a try. `elapsed_ms` is the time since the wait began.
    pub fn after(&self, tried: Tried, last: &str, elapsed_ms: u64) -> (t: Turn)
        ensures
            t@ == turn_after(self@, tried@, last@, elapsed_ms),
    {
        let why: String = match tried {
            Tried::Ask(_) => {
                return Turn::Rest { ms: 0 };
            },
            Tried::Yes => {
                return Turn::Done;
            },
            Tried::Broken(why) => {
                return Turn::GiveUp(why);
            },
            Tried::NotYet(why) => why,
            Tried::Still => last.to_owned(),
        };
        match self.cap() {
            Some(cap) => {
                if elapsed_ms >= cap {
                    Turn::GiveUp(self.words(why.as_str()))
                } else {
                    Turn::Rest { ms: self.pause() }
                }
            },
            None => Turn::Rest { ms: self.pause() },
        }
    }

    /// The words the wait gives up with, where it starts no other try.
    pub fn before(&self, last: &str, elapsed_ms: u64) -> (r: Option<String>)
        ensures
            opt(r) == (match starts_until(self@) {
                Some(cap) => if elapsed_ms >= cap { Some(gave_up(self@, last@)) } else { None },
                None => None,
            }),
    {
        let until: Option<u64> = match self {
            Wait::Health { cap_ms, .. } => Some(*cap_ms),
            Wait::SeedFailed { cap_ms, .. } => Some(*cap_ms),
            Wait::Away { cap_ms, .. } => Some(*cap_ms),
            _ => None,
        };
        match until {
            Some(cap) => {
                if elapsed_ms >= cap { Some(self.words(last)) } else { None }
            },
            None => None,
        }
    }
}

/// A wait that is neither met nor broken ends once its time is up: either the try that failed
/// ends it, or no other try starts.
pub proof fn law_every_wait_ends(w: WaitV, tried: TriedV, last: Seq<char>, elapsed_ms: u64)
    requires
        !(tried is Ask),
    ensures
        gives_up_after(w) is Some || starts_until(w) is Some,
        gives_up_after(w) matches Some(cap) ==> elapsed_ms >= cap ==> !(turn_after(w, tried, last, elapsed_ms) is Rest),
{
}

} // verus!
