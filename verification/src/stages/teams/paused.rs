//! What a paused member loses: every surface at once, and nothing of theirs.
//!
//! The team, the bench and the canary are the journey's own, so that the pause touches nothing else.

use vstd::prelude::*;

use crate::json::{Doc, Json, doc_str, member2, obj1, obj2, obj3, opt_doc, str_of, txt};
use crate::outside::{debug, debug_text, status_line, status_text};
use crate::probes::{Tried, TriedV};
use crate::reply::{
    call_error, call_failed, codes1, error, exited, exited_of, failed, lost, lost_in, lost_of, lost_within, made, made_full,
    made_full_of, made_of, not_answered, not_answered_by, object, object_of, raw, raw_of, said, said_of, tell, told, tool_error,
    tool_error_in, undo_error,
};
use crate::run::{Run, RunV, api, api_at, name, named};
use crate::stages::gaps::identity::{handshake, handshake_of, listed_id, listed_id_of};
use crate::stages::teams::clip;
use crate::text::{cat2, cat3, cat4, cat5, clipped, contains, holds, list4, no_slash, same, trim, trim_slash, trimmed};
use crate::turn::{Move, MoveV, Outcome, OutcomeV, failure_or_empty, look, more, outcomes, reports, reports_exactly, skip, step};
use crate::wait::{Wait, WaitV, less};
use crate::want::{Want, WantV};
use crate::wire::{
    Ask, AskV, Cluster, Kind, Log, LogV, Next, NextV, Reply, ReplyV, also, bearer, bearer_header, came_at, deleting, end, erase,
    err_of, get, getting, inside, link, opt, or_first, post, post_nothing, posting, posting_nothing, seen, undo_after, undoing,
    unless_passed, within,
};

verus! {

pub const PAUSED_ID: &'static str = "team.member.paused";

/// The window of the refusals, the unpause, a cold start of the bench and the read of the canary.
pub const PAUSED_BODY_MS: u64 = 360_000;

/// How long a pause has to reach every surface.
pub const PAUSE_WINDOW_MS: u64 = 60_000;

/// How long a new bench may take to become ready.
pub const READY_WAIT_MS: u64 = 240_000;

/// What the canary file holds, and what its read has to give back.
pub const CANARY: &'static str = "kloudlite-slo-pause-canary";

/// Where a bench keeps its own files, below its home.
pub const BENCH_SUBDIR: &'static str = ".bench";

/// The script that prints the tool token a bench was given.
pub const TOKEN_JS: &'static str = "let d=\"\";try{d=require(\"fs\").readFileSync(process.env.KL_TOOL_TOKEN_FILE,\"utf8\").trim()}catch{}process.stdout.write(d)";

/// A script that has the canary's path in `p`. The path is computed in the bench's container, from
/// the two facts the container is built from, so that the write and the read cannot drift apart.
pub open spec fn canary_script(body: Seq<char>) -> Seq<char> {
    "const w=process.env.HOME;if(!w){console.error(\"no HOME in the bench container\");process.exit(2)}const p=require(\"path\").join(w,"@ + debug_text(BENCH_SUBDIR@)
        + ",\".slo-canary\");"@ + body
}

pub fn canary_js(body: &str) -> (r: String)
    ensures
        r@ == canary_script(body@),
{
    cat4(
        "const w=process.env.HOME;if(!w){console.error(\"no HOME in the bench container\");process.exit(2)}const p=require(\"path\").join(w,",
        debug(BENCH_SUBDIR).as_str(), ",\".slo-canary\");", body,
    )
}

/// The write and the read of the canary are made at one place: both scripts begin alike.
pub proof fn law_the_canary_is_read_where_it_was_written(a: Seq<char>, b: Seq<char>)
    ensures
        canary_script(a) == canary_script(seq![]) + a,
        canary_script(b) == canary_script(seq![]) + b,
{
    assert(canary_script(a) =~= canary_script(seq![]) + a);
    assert(canary_script(b) =~= canary_script(seq![]) + b);
}

/// A team of its own: pausing its member touches no other journey.
pub open spec fn pause_team_of(c: RunV) -> Seq<char> {
    named(c, "-pause"@)
}

pub fn pause_team(c: &Run) -> (r: String)
    ensures
        r@ == pause_team_of(c@),
{
    name(c, "-pause")
}

pub open spec fn bench_at(c: RunV, path: Seq<char>, team: Seq<char>) -> Seq<char> {
    api_at(c, "/v1/bench"@ + path + "?team="@ + team)
}

pub fn bench_url(c: &Run, path: &str, team: &str) -> (r: String)
    ensures
        r@ == bench_at(c@, path@, team@),
{
    api(c, cat4("/v1/bench", path, "?team=", team).as_str())
}

/// What a paused member is told.
pub open spec fn paused_words(team: Seq<char>) -> Seq<char> {
    "your access to "@ + team + " is paused"@
}

pub fn paused_sentence(team: &str) -> (r: String)
    ensures
        r@ == paused_words(team@),
{
    cat3("your access to ", team, " is paused")
}

// ── the bench as the cluster has it ─────────────────────────────────────────

#[derive(Clone, Copy, PartialEq, Eq, Structural)]
pub enum Access {
    Full,
    Paused,
}

#[derive(Clone, Copy, PartialEq, Eq, Structural)]
pub enum Desired {
    Running,
    Stopped,
}

#[derive(Clone, Copy, PartialEq, Eq, Structural)]
pub enum Phase {
    Pending,
    Starting,
    Ready,
    Stopping,
    Stopped,
    Failed,
}

/// What a workspace object says of a bench: whether it is one at all, what was asked of it, and,
/// once the agent has written a status, its phase and whether a pod stands behind it.
#[derive(Clone, Copy)]
pub struct Bench {
    pub is_bench: bool,
    pub access: Access,
    pub desired: Desired,
    pub phase: Option<Phase>,
    pub has_pod: bool,
}

/// Up again, and not still ready from before: what was asked carries the unpause and the start, and
/// the status names a pod, which the stop cleared and only a new pod restores.
pub open spec fn is_back_up(b: Option<Bench>) -> bool {
    match b {
        None => false,
        Some(b) => b.is_bench && b.access == Access::Full && b.desired == Desired::Running && b.phase == Some(Phase::Ready) && b.has_pod,
    }
}

pub fn back_up(b: Option<&Bench>) -> (r: bool)
    ensures
        r == is_back_up(match b { Some(b) => Some(*b), None => None }),
{
    match b {
        None => false,
        Some(b) => {
            let ready = match b.phase {
                Some(p) => p == Phase::Ready,
                None => false,
            };
            b.is_bench && b.access == Access::Full && b.desired == Desired::Running && ready && b.has_pod
        },
    }
}

/// A phase as the object spells it.
pub open spec fn phase_named(t: Seq<char>) -> Phase {
    if t == "ready"@ {
        Phase::Ready
    } else if t == "starting"@ {
        Phase::Starting
    } else if t == "stopping"@ {
        Phase::Stopping
    } else if t == "stopped"@ {
        Phase::Stopped
    } else if t == "failed"@ {
        Phase::Failed
    } else {
        Phase::Pending
    }
}

fn phase_of(t: &str) -> (r: Phase)
    ensures
        r == phase_named(t@),
{
    if same(t, "ready") {
        Phase::Ready
    } else if same(t, "starting") {
        Phase::Starting
    } else if same(t, "stopping") {
        Phase::Stopping
    } else if same(t, "stopped") {
        Phase::Stopped
    } else if same(t, "failed") {
        Phase::Failed
    } else {
        Phase::Pending
    }
}

/// A workspace object, read as a bench.
pub open spec fn bench_in(d: Doc) -> Bench {
    Bench {
        is_bench: (match member2(d, "spec"@, "bench"@) {
            Some(b) => b != Doc::Null,
            None => false,
        }),
        access: if doc_str(member2(d, "spec"@, "access"@)) == Some("paused"@) { Access::Paused } else { Access::Full },
        desired: if doc_str(member2(d, "spec"@, "desiredState"@)) == Some("stopped"@) { Desired::Stopped } else { Desired::Running },
        phase: (match doc_str(member2(d, "status"@, "phase"@)) {
            Some(t) => Some(phase_named(t)),
            None => None,
        }),
        has_pod: doc_str(member2(d, "status"@, "podRef"@)) is Some,
    }
}

fn is_text(d: Option<&Json>, want: &str) -> (r: bool)
    ensures
        r == (doc_str(opt_doc(d)) == Some(want@)),
{
    match str_of(d) {
        Some(t) => same(t.as_str(), want),
        None => false,
    }
}

pub fn bench_of(d: &Json) -> (b: Bench)
    ensures
        b == bench_in(d@),
{
    let is_bench = match d.get2("spec", "bench") {
        None => false,
        Some(Json::Null) => false,
        Some(_) => true,
    };
    let access = if is_text(d.get2("spec", "access"), "paused") { Access::Paused } else { Access::Full };
    let desired = if is_text(d.get2("spec", "desiredState"), "stopped") { Desired::Stopped } else { Desired::Running };
    let phase: Option<Phase> = match str_of(d.get2("status", "phase")) {
        Some(t) => Some(phase_of(t.as_str())),
        None => None,
    };
    Bench { is_bench, access, desired, phase, has_pod: str_of(d.get2("status", "podRef")).is_some() }
}

/// A phase as it is told.
pub open spec fn phase_told(p: Option<Phase>) -> Seq<char> {
    match p {
        None => "None"@,
        Some(Phase::Pending) => "Some(Pending)"@,
        Some(Phase::Starting) => "Some(Starting)"@,
        Some(Phase::Ready) => "Some(Ready)"@,
        Some(Phase::Stopping) => "Some(Stopping)"@,
        Some(Phase::Stopped) => "Some(Stopped)"@,
        Some(Phase::Failed) => "Some(Failed)"@,
    }
}

fn phase_words(p: Option<Phase>) -> (r: &'static str)
    ensures
        r@ == phase_told(p),
{
    match p {
        None => "None",
        Some(Phase::Pending) => "Some(Pending)",
        Some(Phase::Starting) => "Some(Starting)",
        Some(Phase::Ready) => "Some(Ready)",
        Some(Phase::Stopping) => "Some(Stopping)",
        Some(Phase::Stopped) => "Some(Stopped)",
        Some(Phase::Failed) => "Some(Failed)",
    }
}

/// Why a bench is not yet paused and stopped, with nothing of its old pod left: while the phase from
/// before the pause can still be read, no later check could tell it from the one a restart earns.
pub open spec fn unpaused(id: Seq<char>, b: Bench) -> Option<Seq<char>> {
    if !b.is_bench {
        Some(id + " is not a bench workspace"@)
    } else if b.access != Access::Paused || b.desired != Desired::Stopped {
        Some(
            "the bench is "@ + (if b.access == Access::Full { "Full"@ } else { "Paused"@ }) + "/"@ + (if b.desired == Desired::Running {
                "Running"@
            } else {
                "Stopped"@
            }) + ", not paused and stopped"@,
        )
    } else if b.phase is None || b.phase == Some(Phase::Ready) || b.has_pod {
        Some("the bench still reads "@ + phase_told(b.phase) + ", with a pod"@)
    } else {
        None
    }
}

pub fn still_open(id: &str, b: &Bench) -> (r: Option<String>)
    ensures
        opt(r) == unpaused(id@, *b),
{
    if !b.is_bench {
        return Some(cat2(id, " is not a bench workspace"));
    }
    if b.access != Access::Paused || b.desired != Desired::Stopped {
        let access = if b.access == Access::Full { "Full" } else { "Paused" };
        let desired = if b.desired == Desired::Running { "Running" } else { "Stopped" };
        return Some(cat5("the bench is ", access, "/", desired, ", not paused and stopped"));
    }
    let stale = match b.phase {
        None => true,
        Some(p) => p == Phase::Ready,
    };
    if stale || b.has_pod {
        return Some(cat3("the bench still reads ", phase_words(b.phase), ", with a pod"));
    }
    None
}

/// A bench that has been seen paused is not up again, and one that is up again is not seen paused:
/// the phase from before the pause passes for neither.
pub proof fn law_a_paused_bench_is_not_back_up(id: Seq<char>, b: Bench)
    ensures
        unpaused(id, b) is None ==> !is_back_up(Some(b)),
        is_back_up(Some(b)) ==> unpaused(id, b) is Some,
{
}

pub open spec fn back_up_tried(r: ReplyV) -> TriedV {
    match object_of(r) {
        Err(why) => TriedV::NotYet(why),
        Ok(d) => if is_back_up(Some(bench_in(d))) { TriedV::Yes } else { TriedV::NotYet(phase_told(bench_in(d).phase)) },
    }
}

pub fn try_back_up(r: &Reply) -> (t: Tried)
    ensures
        t@ == back_up_tried(r@),
{
    match object(r) {
        Err(why) => Tried::NotYet(why),
        Ok(d) => {
            let b = bench_of(&d);
            if back_up(Some(&b)) { Tried::Yes } else { Tried::NotYet(phase_words(b.phase).to_owned()) }
        },
    }
}

// ── in the bench ────────────────────────────────────────────────────────────

/// A node script in the bench's own container.
pub open spec fn node_asks(ns: Seq<char>, pod: Seq<char>, container: Seq<char>, js: Seq<char>, arg: Seq<char>) -> AskV {
    AskV::PodExec { ns, pod, container, argv: seq!["node"@, "-e"@, js, arg], bound_ms: 20_000 }
}

pub fn in_bench(ns: &str, pod: &str, container: &str, js: &str, arg: &str) -> (r: Ask)
    ensures
        r@ == node_asks(ns@, pod@, container@, js@, arg@),
{
    Ask::PodExec {
        ns: ns.to_owned(),
        pod: pod.to_owned(),
        container: container.to_owned(),
        argv: list4("node", "-e", js, arg),
        bound_ms: 20_000,
    }
}

/// What a node script in the bench printed.
pub open spec fn node_said(r: ReplyV) -> Result<Seq<char>, Seq<char>> {
    exited("node in the member's bench"@, r)
}

fn node_said_of(r: &Reply) -> (o: Result<String, String>)
    ensures
        (match o { Ok(t) => Ok(t@), Err(e) => Err(e@) }) == node_said(r@),
{
    exited_of("node in the member's bench", r)
}

/// Why the canary could not be written.
pub open spec fn unwritten(r: ReplyV) -> Option<Seq<char>> {
    match node_said(r) {
        Ok(_) => None,
        Err(why) => Some(within("could not write the canary"@, why)),
    }
}

fn not_written(r: &Reply) -> (o: Option<String>)
    ensures
        opt(o) == unwritten(r@),
{
    match node_said_of(r) {
        Ok(_) => None,
        Err(why) => Some(inside("could not write the canary", why.as_str())),
    }
}

/// Why the canary does not read back as it was written.
pub open spec fn canary_lost(r: ReplyV) -> Option<Seq<char>> {
    match node_said(r) {
        Err(why) => Some(why),
        Ok(got) => if got == CANARY@ { None } else { Some("the canary reads back as "@ + debug_text(clipped(got, 200))) },
    }
}

fn canary_bad(r: &Reply) -> (o: Option<String>)
    ensures
        opt(o) == canary_lost(r@),
{
    match node_said_of(r) {
        Err(why) => Some(why),
        Ok(got) => {
            if same(got.as_str(), CANARY) {
                None
            } else {
                Some(cat2("the canary reads back as ", debug(clip(got.as_str()).as_str()).as_str()))
            }
        },
    }
}

/// The tool token a bench prints; nothing while there is none.
pub open spec fn tool_in(r: ReplyV) -> Seq<char> {
    match node_said(r) {
        Ok(t) => trimmed(t),
        Err(_) => seq![],
    }
}

fn tool_of(r: &Reply) -> (t: String)
    ensures
        t@ == tool_in(r@),
{
    match node_said_of(r) {
        Ok(t) => trim(t.as_str()),
        Err(_) => String::new(),
    }
}

/// The pod is asked for anew each time: while there is none, there is no token either.
pub open spec fn token_probe(ns: Seq<char>, team: Seq<char>, container: Seq<char>, rs: Seq<ReplyV>) -> TriedV {
    if rs.len() == 0 {
        TriedV::Ask(AskV::BenchPod { team })
    } else {
        match said_of(rs[0]) {
            Err(_) => TriedV::Still,
            Ok(pod) => if rs.len() == 1 {
                TriedV::Ask(node_asks(ns, pod, container, TOKEN_JS@, ""@))
            } else if tool_in(rs[1]).len() > 0 {
                TriedV::Yes
            } else {
                TriedV::Still
            },
        }
    }
}

pub fn probe_token(ns: &str, team: &str, container: &str, rs: &Vec<Reply>) -> (t: Tried)
    ensures
        t@ == token_probe(ns@, team@, container@, seen(rs@)),
{
    if rs.len() == 0 {
        return Tried::Ask(Ask::BenchPod { team: team.to_owned() });
    }
    match said(&rs[0]) {
        Err(_) => Tried::Still,
        Ok(pod) => {
            if rs.len() == 1 {
                Tried::Ask(in_bench(ns, pod.as_str(), container, TOKEN_JS, ""))
            } else if tool_of(&rs[1]).as_str().is_empty() {
                Tried::Still
            } else {
                Tried::Yes
            }
        },
    }
}

// ── every surface ───────────────────────────────────────────────────────────

/// Why an answer is not the refusal a paused member is to get: 403, with the sentence that says so.
pub open spec fn unsaid(what: Seq<char>, team: Seq<char>, r: ReplyV) -> Option<Seq<char>> {
    match raw_of(r) {
        Err(why) => Some(why),
        Ok((status, body)) => if status == 403 && holds(body, paused_words(team)) {
            None
        } else {
            Some(what + " answered "@ + told(status, body, 200))
        },
    }
}

fn not_told(what: &str, team: &str, r: &Reply) -> (o: Option<String>)
    ensures
        opt(o) == unsaid(what@, team@, r@),
{
    match raw(r) {
        Err(why) => Some(why),
        Ok((status, body)) => {
            if status == 403 && contains(body.as_str(), paused_sentence(team).as_str()) {
                None
            } else {
                Some(cat3(what, " answered ", tell(status, body.as_str(), 200).as_str()))
            }
        },
    }
}

/// Why the bench the cluster has is not paused yet.
pub open spec fn bench_open(id: Seq<char>, r: ReplyV) -> Option<Seq<char>> {
    match object_of(r) {
        Err(why) => Some(within("could not read the member's bench"@, why)),
        Ok(d) => unpaused(id, bench_in(d)),
    }
}

fn bench_bad(id: &str, r: &Reply) -> (o: Option<String>)
    ensures
        opt(o) == bench_open(id@, r@),
{
    match object(r) {
        Err(why) => Some(inside("could not read the member's bench", why.as_str())),
        Ok(d) => still_open(id, &bench_of(&d)),
    }
}

/// Why the gateway's handshake is not the refusal: it is made with a ticket that is valid but for
/// the pause, so only a 403 is about the pause.
pub open spec fn tunnel_open(r: ReplyV) -> Option<Seq<char>> {
    match (r, raw_of(r)) {
        (ReplyV::Said(why), _) => Some(why),
        (_, Err(why)) => Some("the gateway did not answer: "@ + why),
        (_, Ok((status, _))) => if status == 403 {
            None
        } else if status == 101 {
            Some("the gateway tunnel opened for a paused member, not 403"@)
        } else {
            Some("the gateway tunnel answered "@ + status_line(status) + ", not 403"@)
        },
    }
}

fn tunnel_bad(r: &Reply) -> (o: Option<String>)
    ensures
        opt(o) == tunnel_open(r@),
{
    match (r, raw(r)) {
        (Reply::Said(why), _) => Some(why.clone()),
        (_, Err(why)) => Some(cat2("the gateway did not answer: ", why.as_str())),
        (_, Ok((status, _))) => {
            if status == 403 {
                None
            } else if status == 101 {
                Some("the gateway tunnel opened for a paused member, not 403".to_owned())
            } else {
                Some(cat3("the gateway tunnel answered ", status_text(status).as_str(), ", not 403"))
            }
        },
    }
}

/// One surface of a pass: asked, and judged once it has answered.
pub open spec fn surface(rs: Seq<ReplyV>, k: int, ask: AskV, bad: Option<Seq<char>>, rest: TriedV) -> TriedV {
    if rs.len() <= k {
        TriedV::Ask(ask)
    } else {
        match bad {
            Some(why) => TriedV::NotYet(why),
            None => rest,
        }
    }
}

/// One pass over the surfaces, in order; the first that still lets the member in is told.
pub open spec fn refused_probe(
    team: Seq<char>,
    tool: Seq<char>,
    gateway: Seq<char>,
    user: Seq<char>,
    jwt: Seq<char>,
    bench: Seq<char>,
    api_url: Seq<char>,
    rs: Seq<ReplyV>,
) -> TriedV {
    let base = no_slash(api_url);
    surface(
        rs, 0, getting(base + "/v1/regions"@, tool), not_answered("the tool token"@, seq![401u16], rs[0]),
        surface(
            rs, 1, getting(base + "/v1/workspaces?team="@ + team, jwt), unsaid("the team listing"@, team, rs[1]),
            surface(
                rs, 2, posting_nothing(base + "/v1/bench/session?team="@ + team, jwt), unsaid("a bench session"@, team, rs[2]),
                surface(
                    rs, 3, AskV::Read { cluster: Cluster::Fleet, kind: Kind::Workspace, ns: seq![], name: bench },
                    bench_open(bench, rs[3]),
                    surface(
                        rs, 4, AskV::Ticket { user, id: bench }, tool_error(rs[4]),
                        surface(
                            rs, 5, AskV::Handshake { url: gateway, auth: bearer_header(said_of(rs[4])->Ok_0) }, tunnel_open(rs[5]),
                            TriedV::Yes,
                        ),
                    ),
                ),
            ),
        ),
    )
}

pub fn probe_refused(team: &str, tool: &str, gateway: &str, user: &str, jwt: &str, bench: &str, api_url: &str, rs: &Vec<Reply>) -> (t: Tried)
    ensures
        t@ == refused_probe(team@, tool@, gateway@, user@, jwt@, bench@, api_url@, seen(rs@)),
{
    let base = trim_slash(api_url);
    if rs.len() <= 0 {
        return Tried::Ask(get(cat2(base.as_str(), "/v1/regions"), tool));
    }
    if let Some(why) = not_answered_by("the tool token", &codes1(401), &rs[0]) {
        return Tried::NotYet(why);
    }
    if rs.len() <= 1 {
        return Tried::Ask(get(cat3(base.as_str(), "/v1/workspaces?team=", team), jwt));
    }
    if let Some(why) = not_told("the team listing", team, &rs[1]) {
        return Tried::NotYet(why);
    }
    if rs.len() <= 2 {
        return Tried::Ask(post_nothing(cat3(base.as_str(), "/v1/bench/session?team=", team), jwt));
    }
    if let Some(why) = not_told("a bench session", team, &rs[2]) {
        return Tried::NotYet(why);
    }
    if rs.len() <= 3 {
        return Tried::Ask(Ask::Read { cluster: Cluster::Fleet, kind: Kind::Workspace, ns: String::new(), name: bench.to_owned() });
    }
    if let Some(why) = bench_bad(bench, &rs[3]) {
        return Tried::NotYet(why);
    }
    if rs.len() <= 4 {
        return Tried::Ask(Ask::Ticket { user: user.to_owned(), id: bench.to_owned() });
    }
    let ticket = match said(&rs[4]) {
        Ok(t) => t,
        Err(why) => {
            return Tried::NotYet(why);
        },
    };
    if rs.len() <= 5 {
        return Tried::Ask(Ask::Handshake { url: gateway.to_owned(), auth: bearer(ticket.as_str()) });
    }
    if let Some(why) = tunnel_bad(&rs[5]) {
        return Tried::NotYet(why);
    }
    Tried::Yes
}

/// A pass that lets the member in nowhere has asked all five surfaces, and each refused for the
/// pause: a 401 that is an expiry, a 5xx or a silence is none of them.
pub proof fn law_a_paused_member_is_refused_everywhere(
    team: Seq<char>,
    tool: Seq<char>,
    gateway: Seq<char>,
    user: Seq<char>,
    jwt: Seq<char>,
    bench: Seq<char>,
    api_url: Seq<char>,
    rs: Seq<ReplyV>,
)
    requires
        refused_probe(team, tool, gateway, user, jwt, bench, api_url, rs) is Yes,
    ensures
        rs.len() >= 6,
        rs[0] matches ReplyV::Answer { status, .. } && status == 401,
        rs[1] matches ReplyV::Answer { status, text } && status == 403 && holds(text, paused_words(team)),
        rs[2] matches ReplyV::Answer { status, text } && status == 403 && holds(text, paused_words(team)),
        bench_open(bench, rs[3]) is None,
        rs[5] matches ReplyV::Answer { status, .. } && status == 403,
{
    let allowed = seq![401u16];
    if let ReplyV::Answer { status, .. } = rs[0] {
        assert(allowed.contains(status));
        let i = choose|i: int| 0 <= i < allowed.len() && allowed[i] == status;
        assert(allowed[0] == 401);
    }
}

// ── the bodies ──────────────────────────────────────────────────────────────

/// The tool token, minted and seen in the bench, and the gateway a session answers with.
pub open spec fn tooled_next(c: RunV, team: Seq<char>, ns: Seq<char>, cli: Seq<char>, rs: Seq<ReplyV>) -> NextV {
    let gateway = made("no bench session"@, "gateway"@, "the session named no gateway"@, rs[13])->Ok_0;
    link(
        rs, 11, posting_nothing(bench_at(c, "/tool-token"@, team), cli), not_answered("tool-token mint"@, seq![204u16], rs[11]),
        link(
            rs, 12,
            AskV::Wait(WaitV::ToolToken { ns, team, container: c.bench_container, cap_ms: READY_WAIT_MS }),
            lost_of(rs[12]),
            link(
                rs, 13,
                posting(bench_at(c, "/session"@, team), c.probe_jwt, Doc::Null),
                err_of(made("no bench session"@, "gateway"@, "the session named no gateway"@, rs[13])), NextV::Pass,
            ),
        ),
    )
}

fn tooled_body(c: &Run, team: &str, ns: &str, cli: &str, log: &Log) -> (n: Next)
    ensures
        n@ == tooled_next(c@, team@, ns@, cli@, log@.rs),
{
    if log.rs.len() <= 11 {
        return Next::Ask(post_nothing(bench_url(c, "/tool-token", team), cli));
    }
    if let Some(why) = not_answered_by("tool-token mint", &codes1(204), &log.rs[11]) {
        return Next::Fail(why);
    }
    if log.rs.len() <= 12 {
        return Next::Ask(Ask::Wait(Wait::ToolToken {
            ns: ns.to_owned(),
            team: team.to_owned(),
            container: c.bench_container.clone(),
            cap_ms: READY_WAIT_MS,
        }));
    }
    if let Some(why) = lost(&log.rs[12]) {
        return Next::Fail(why);
    }
    if log.rs.len() <= 13 {
        return Next::Ask(post(bench_url(c, "/session", team), c.probe_jwt.as_str(), Json::Null));
    }
    match made_of("no bench session", "gateway", "the session named no gateway", &log.rs[13]) {
        Ok(_) => Next::Pass,
        Err(why) => Next::Fail(why),
    }
}

/// A team with the member in it; their bench, ready and holding the canary; a tool token in it; and
/// the gateway's address. The member is the probe's own tenant, which has a quota to charge the
/// bench to. A login that is of no use any more is revoked.
pub open spec fn prepare_next(c: RunV, team: Seq<char>, ns: Seq<char>, log: LogV) -> NextV {
    let invite = made_full("could not invite"@, "token"@, "no invite token"@, log.rs[1])->Ok_0;
    let code = (handshake(log.rs[7])->Ok_0).0;
    let poll = (handshake(log.rs[7])->Ok_0).1;
    let cli = made_full("the token collection failed"@, "token"@, "the approved login handed back no token"@, log.rs[9])->Ok_0;
    let id = listed_id(team + "-tool"@, log.rs[10])->Ok_0;
    link(
        log.rs, 0,
        posting(
            api_at(c, "/v1/teams"@), c.other_jwt,
            Doc::Obj(seq![
                ("slug"@, Doc::Str(team)),
                ("name"@, Doc::Str("kloudlite slo pause"@)),
                ("region"@, Doc::Str(c.region)),
            ]),
        ),
        call_failed("could not create the pause team"@, log.rs[0]),
        link(
            log.rs, 1,
            posting(
                api_at(c, "/v1/teams/"@ + team + "/invites"@), c.other_jwt,
                Doc::Obj(seq![("email"@, Doc::Str(c.probe_email)), ("role"@, Doc::Str("member"@))]),
            ),
            err_of(made_full("could not invite"@, "token"@, "no invite token"@, log.rs[1])),
            link(
                log.rs, 2,
                posting(api_at(c, "/v1/invites/"@ + invite + "/accept"@), c.probe_jwt, Doc::Null),
                call_failed("the member could not join"@, log.rs[2]),
                link(
                    log.rs, 3,
                    posting(
                        api_at(c, "/v1/bench"@), c.probe_jwt,
                        Doc::Obj(seq![("team"@, Doc::Str(team)), ("region"@, Doc::Str(c.region))]),
                    ),
                    call_failed("could not create the member's bench"@, log.rs[3]),
                    link(
                        log.rs, 4,
                        AskV::Wait(WaitV::Doc {
                            url: bench_at(c, ""@, team),
                            token: c.probe_jwt,
                            want: WantV::Field { key: "phase"@, value: "ready"@ },
                            cap_ms: READY_WAIT_MS,
                        }),
                        lost_in("the member's bench never became ready"@, log.rs[4]),
                        link(
                            log.rs, 5, AskV::BenchPod { team }, tool_error_in("could not write the canary"@, log.rs[5]),
                            link(
                                log.rs, 6,
                                node_asks(
                                    ns, said_of(log.rs[5])->Ok_0, c.bench_container,
                                    canary_script("require(\"fs\").writeFileSync(p,process.argv[1])"@), CANARY@,
                                ),
                                unwritten(log.rs[6]),
                                link(
                                    log.rs, 7,
                                    posting(api_at(c, "/v1/cli/code"@), ""@, Doc::Obj(seq![("device"@, Doc::Str(team + "-tool"@))])),
                                    err_of(handshake(log.rs[7])),
                                    link(
                                        log.rs, 8,
                                        posting(
                                            api_at(c, "/v1/cli/approve"@), c.probe_jwt, Doc::Obj(seq![("code"@, Doc::Str(code))]),
                                        ),
                                        call_failed("the approval was refused"@, log.rs[8]),
                                        link(
                                            log.rs, 9, getting(api_at(c, "/v1/cli/token?poll="@ + poll), ""@),
                                            err_of(made_full(
                                                "the token collection failed"@, "token"@,
                                                "the approved login handed back no token"@, log.rs[9],
                                            )),
                                            link(
                                                log.rs, 10, getting(api_at(c, "/v1/cli/tokens"@), c.probe_jwt),
                                                err_of(listed_id(team + "-tool"@, log.rs[10])),
                                                unless_passed(
                                                    log, tooled_next(c, team, ns, cli, log.rs),
                                                    deleting(api_at(c, "/v1/cli/tokens/"@ + id), c.probe_jwt),
                                                ),
                                            ),
                                        ),
                                    ),
                                ),
                            ),
                        ),
                    ),
                ),
            ),
        ),
    )
}

fn prepare_body(c: &Run, team: &str, ns: &str, log: &Log) -> (n: Next)
    ensures
        n@ == prepare_next(c@, team@, ns@, log@),
{
    if log.rs.len() <= 0 {
        return Next::Ask(post(
            api(c, "/v1/teams"), c.other_jwt.as_str(),
            obj3("slug", txt(team), "name", txt("kloudlite slo pause"), "region", txt(c.region.as_str())),
        ));
    }
    if let Some(why) = failed("could not create the pause team", &log.rs[0]) {
        return Next::Fail(why);
    }
    if log.rs.len() <= 1 {
        return Next::Ask(post(
            api(c, cat3("/v1/teams/", team, "/invites").as_str()), c.other_jwt.as_str(),
            obj2("email", txt(c.probe_email.as_str()), "role", txt("member")),
        ));
    }
    let invite = match made_full_of("could not invite", "token", "no invite token", &log.rs[1]) {
        Err(why) => {
            return Next::Fail(why);
        },
        Ok(t) => t,
    };
    if log.rs.len() <= 2 {
        return Next::Ask(post(
            api(c, cat3("/v1/invites/", invite.as_str(), "/accept").as_str()), c.probe_jwt.as_str(), Json::Null,
        ));
    }
    if let Some(why) = failed("the member could not join", &log.rs[2]) {
        return Next::Fail(why);
    }
    if log.rs.len() <= 3 {
        return Next::Ask(post(
            api(c, "/v1/bench"), c.probe_jwt.as_str(), obj2("team", txt(team), "region", txt(c.region.as_str())),
        ));
    }
    if let Some(why) = failed("could not create the member's bench", &log.rs[3]) {
        return Next::Fail(why);
    }
    if log.rs.len() <= 4 {
        return Next::Ask(Ask::Wait(Wait::Doc {
            url: bench_url(c, "", team),
            token: c.probe_jwt.clone(),
            want: Want::Field { key: "phase".to_owned(), value: "ready".to_owned() },
            cap_ms: READY_WAIT_MS,
        }));
    }
    if let Some(why) = lost_within("the member's bench never became ready", &log.rs[4]) {
        return Next::Fail(why);
    }
    if log.rs.len() <= 5 {
        return Next::Ask(Ask::BenchPod { team: team.to_owned() });
    }
    let pod = match said(&log.rs[5]) {
        Err(why) => {
            return Next::Fail(inside("could not write the canary", why.as_str()));
        },
        Ok(t) => t,
    };
    if log.rs.len() <= 6 {
        return Next::Ask(in_bench(
            ns, pod.as_str(), c.bench_container.as_str(),
            canary_js("require(\"fs\").writeFileSync(p,process.argv[1])").as_str(), CANARY,
        ));
    }
    if let Some(why) = not_written(&log.rs[6]) {
        return Next::Fail(why);
    }
    if log.rs.len() <= 7 {
        return Next::Ask(post(api(c, "/v1/cli/code"), "", obj1("device", txt(cat2(team, "-tool").as_str()))));
    }
    let (code, poll) = match handshake_of(&log.rs[7]) {
        Err(why) => {
            return Next::Fail(why);
        },
        Ok(t) => t,
    };
    if log.rs.len() <= 8 {
        return Next::Ask(post(api(c, "/v1/cli/approve"), c.probe_jwt.as_str(), obj1("code", txt(code.as_str()))));
    }
    if let Some(why) = failed("the approval was refused", &log.rs[8]) {
        return Next::Fail(why);
    }
    if log.rs.len() <= 9 {
        return Next::Ask(get(api(c, cat2("/v1/cli/token?poll=", poll.as_str()).as_str()), ""));
    }
    let cli = match made_full_of("the token collection failed", "token", "the approved login handed back no token", &log.rs[9]) {
        Err(why) => {
            return Next::Fail(why);
        },
        Ok(t) => t,
    };
    if log.rs.len() <= 10 {
        return Next::Ask(get(api(c, "/v1/cli/tokens"), c.probe_jwt.as_str()));
    }
    let id = match listed_id_of(cat2(team, "-tool").as_str(), &log.rs[10]) {
        Err(why) => {
            return Next::Fail(why);
        },
        Ok(t) => t,
    };
    or_first(
        log, tooled_body(c, team, ns, cli.as_str(), log),
        erase(api(c, cat2("/v1/cli/tokens/", id.as_str()).as_str()), c.probe_jwt.as_str()),
    )
}

/// Paused, and refused everywhere within the window; unpaused and started, and the bench is back
/// with the canary in it.
pub open spec fn walked_next(c: RunV, team: Seq<char>, ns: Seq<char>, bench: Seq<char>, tool: Seq<char>, gateway: Seq<char>, log: LogV) -> NextV {
    link(
        log.rs, 0,
        posting_nothing(api_at(c, "/v1/teams/"@ + team + "/members/"@ + c.probe_email + "/pause"@), c.other_jwt),
        call_failed("could not pause the member"@, log.rs[0]),
        link(
            log.rs, 1,
            AskV::Wait(WaitV::RefusedEverywhere {
                team,
                tool,
                gateway,
                member: c.probe_user,
                jwt: c.probe_jwt,
                bench,
                api_url: c.api_url,
                cap_ms: less(PAUSE_WINDOW_MS, came_at(log, 0)),
            }),
            lost_of(log.rs[1]),
            link(
                log.rs, 2,
                posting_nothing(api_at(c, "/v1/teams/"@ + team + "/members/"@ + c.probe_email + "/unpause"@), c.other_jwt),
                call_failed("could not unpause the member"@, log.rs[2]),
                link(
                    log.rs, 3, posting_nothing(bench_at(c, "/start"@, team), c.probe_jwt),
                    call_failed("could not start the bench"@, log.rs[3]),
                    link(
                        log.rs, 4,
                        AskV::Wait(WaitV::BackUp { bench, cap_ms: less(PAUSED_BODY_MS, came_at(log, 3)) }),
                        lost_in("the bench never came back"@, log.rs[4]),
                        link(
                            log.rs, 5, AskV::BenchPod { team }, tool_error(log.rs[5]),
                            link(
                                log.rs, 6,
                                node_asks(
                                    ns, said_of(log.rs[5])->Ok_0, c.bench_container,
                                    canary_script("process.stdout.write(require(\"fs\").readFileSync(p,\"utf8\"))"@), ""@,
                                ),
                                canary_lost(log.rs[6]), NextV::Pass,
                            ),
                        ),
                    ),
                ),
            ),
        ),
    )
}

fn walked_body(c: &Run, team: &str, ns: &str, bench: &str, tool: &str, gateway: &str, log: &Log) -> (n: Next)
    ensures
        n@ == walked_next(c@, team@, ns@, bench@, tool@, gateway@, log@),
{
    if log.rs.len() <= 0 {
        return Next::Ask(post_nothing(
            api(c, cat5("/v1/teams/", team, "/members/", c.probe_email.as_str(), "/pause").as_str()), c.other_jwt.as_str(),
        ));
    }
    if let Some(why) = failed("could not pause the member", &log.rs[0]) {
        return Next::Fail(why);
    }
    if log.rs.len() <= 1 {
        return Next::Ask(Ask::Wait(Wait::RefusedEverywhere {
            team: team.to_owned(),
            tool: tool.to_owned(),
            gateway: gateway.to_owned(),
            member: c.probe_user.clone(),
            jwt: c.probe_jwt.clone(),
            bench: bench.to_owned(),
            api_url: c.api_url.clone(),
            cap_ms: PAUSE_WINDOW_MS.saturating_sub(log.came(0)),
        }));
    }
    if let Some(why) = lost(&log.rs[1]) {
        return Next::Fail(why);
    }
    if log.rs.len() <= 2 {
        return Next::Ask(post_nothing(
            api(c, cat5("/v1/teams/", team, "/members/", c.probe_email.as_str(), "/unpause").as_str()), c.other_jwt.as_str(),
        ));
    }
    if let Some(why) = failed("could not unpause the member", &log.rs[2]) {
        return Next::Fail(why);
    }
    if log.rs.len() <= 3 {
        return Next::Ask(post_nothing(bench_url(c, "/start", team), c.probe_jwt.as_str()));
    }
    if let Some(why) = failed("could not start the bench", &log.rs[3]) {
        return Next::Fail(why);
    }
    if log.rs.len() <= 4 {
        return Next::Ask(Ask::Wait(Wait::BackUp {
            bench: bench.to_owned(),
            cap_ms: PAUSED_BODY_MS.saturating_sub(log.came(3)),
        }));
    }
    if let Some(why) = lost_within("the bench never came back", &log.rs[4]) {
        return Next::Fail(why);
    }
    if log.rs.len() <= 5 {
        return Next::Ask(Ask::BenchPod { team: team.to_owned() });
    }
    let pod = match said(&log.rs[5]) {
        Err(why) => {
            return Next::Fail(why);
        },
        Ok(t) => t,
    };
    if log.rs.len() <= 6 {
        return Next::Ask(in_bench(
            ns, pod.as_str(), c.bench_container.as_str(),
            canary_js("process.stdout.write(require(\"fs\").readFileSync(p,\"utf8\"))").as_str(), "",
        ));
    }
    end(canary_bad(&log.rs[6]))
}

/// The member is unpaused whatever became of the rest.
pub open spec fn paused_next(c: RunV, team: Seq<char>, ns: Seq<char>, bench: Seq<char>, tool: Seq<char>, gateway: Seq<char>, log: LogV) -> NextV {
    undoing(
        log, PAUSED_BODY_MS, walked_next(c, team, ns, bench, tool, gateway, log),
        posting_nothing(api_at(c, "/v1/teams/"@ + team + "/members/"@ + c.probe_email + "/unpause"@), c.other_jwt),
        call_error(log.us[0]),
    )
}

fn paused_body(c: &Run, team: &str, ns: &str, bench: &str, tool: &str, gateway: &str, log: &Log) -> (n: Next)
    ensures
        n@ == paused_next(c@, team@, ns@, bench@, tool@, gateway@, log@),
{
    undo_after(
        log, PAUSED_BODY_MS, walked_body(c, team, ns, bench, tool, gateway, log),
        post_nothing(
            api(c, cat5("/v1/teams/", team, "/members/", c.probe_email.as_str(), "/unpause").as_str()), c.other_jwt.as_str(),
        ),
        undo_error(log),
    )
}

/// A failure from before the step, told as the step.
pub open spec fn told_next(why: Seq<char>) -> NextV {
    NextV::Fail(why)
}

fn told_body(why: &str) -> (n: Next)
    ensures
        n@ == told_next(why@),
{
    Next::Fail(why.to_owned())
}

pub open spec fn revoke_next(c: RunV, id: Seq<char>, rs: Seq<ReplyV>) -> NextV {
    also(rs, 0, deleting(api_at(c, "/v1/cli/tokens/"@ + id), c.probe_jwt), NextV::Pass)
}

fn revoke_body(c: &Run, id: &str, log: &Log) -> (n: Next)
    ensures
        n@ == revoke_next(c@, id@, log@.rs),
{
    if log.rs.len() <= 0 {
        return Next::Ask(erase(api(c, cat2("/v1/cli/tokens/", id).as_str()), c.probe_jwt.as_str()));
    }
    Next::Pass
}

/// As far as it can be done: the bench is stopped and the team deleted, and once it is, what is kept of its
/// members goes with it. The sweep finds what this misses.
pub open spec fn teardown_next(c: RunV, team: Seq<char>, rs: Seq<ReplyV>) -> NextV {
    also(
        rs, 0, posting_nothing(bench_at(c, "/stop"@, team), c.probe_jwt),
        link(
            rs, 1, deleting(api_at(c, "/v1/teams/"@ + team), c.other_jwt), call_error(rs[1]),
            also(rs, 2, AskV::DropMembers { team }, NextV::Pass),
        ),
    )
}

fn teardown_body(c: &Run, team: &str, log: &Log) -> (n: Next)
    ensures
        n@ == teardown_next(c@, team@, log@.rs),
{
    if log.rs.len() <= 0 {
        return Next::Ask(post_nothing(bench_url(c, "/stop", team), c.probe_jwt.as_str()));
    }
    if log.rs.len() <= 1 {
        return Next::Ask(erase(api(c, cat2("/v1/teams/", team).as_str()), c.other_jwt.as_str()));
    }
    if let Some(why) = error(&log.rs[1]) {
        return Next::Fail(why);
    }
    if log.rs.len() <= 2 {
        return Next::Ask(Ask::DropMembers { team: team.to_owned() });
    }
    Next::Pass
}

pub enum Body {
    Prepare { team: String, ns: String },
    Paused { team: String, ns: String, bench: String, tool: String, gateway: String },
    Told { why: String },
    Revoke { id: String },
    Teardown { team: String },
}

pub enum BodyV {
    Prepare { team: Seq<char>, ns: Seq<char> },
    Paused { team: Seq<char>, ns: Seq<char>, bench: Seq<char>, tool: Seq<char>, gateway: Seq<char> },
    Told { why: Seq<char> },
    Revoke { id: Seq<char> },
    Teardown { team: Seq<char> },
}

impl View for Body {
    type V = BodyV;

    open spec fn view(&self) -> BodyV {
        match self {
            Body::Prepare { team, ns } => BodyV::Prepare { team: team@, ns: ns@ },
            Body::Paused { team, ns, bench, tool, gateway } => BodyV::Paused {
                team: team@,
                ns: ns@,
                bench: bench@,
                tool: tool@,
                gateway: gateway@,
            },
            Body::Told { why } => BodyV::Told { why: why@ },
            Body::Revoke { id } => BodyV::Revoke { id: id@ },
            Body::Teardown { team } => BodyV::Teardown { team: team@ },
        }
    }
}

/// What a body does next.
pub open spec fn body_next(c: RunV, b: BodyV, log: LogV) -> NextV {
    match b {
        BodyV::Prepare { team, ns } => prepare_next(c, team, ns, log),
        BodyV::Paused { team, ns, bench, tool, gateway } => paused_next(c, team, ns, bench, tool, gateway, log),
        BodyV::Told { why } => told_next(why),
        BodyV::Revoke { id } => revoke_next(c, id, log.rs),
        BodyV::Teardown { team } => teardown_next(c, team, log.rs),
    }
}

/// The stretch of a body that has a time of its own: how many replies it begins after, and how long it
/// is given.
pub open spec fn body_region(b: BodyV) -> Option<(usize, u64)> {
    match b {
        BodyV::Paused { .. } => Some((0usize, PAUSED_BODY_MS)),
        _ => None,
    }
}

impl Body {
    pub fn next(&self, c: &Run, log: &Log) -> (n: Next)
        ensures
            n@ == body_next(c@, self@, log@),
    {
        match self {
            Body::Prepare { team, ns } => prepare_body(c, team.as_str(), ns.as_str(), log),
            Body::Paused { team, ns, bench, tool, gateway } => paused_body(
                c, team.as_str(), ns.as_str(), bench.as_str(), tool.as_str(), gateway.as_str(), log,
            ),
            Body::Told { why } => told_body(why.as_str()),
            Body::Revoke { id } => revoke_body(c, id.as_str(), log),
            Body::Teardown { team } => teardown_body(c, team.as_str(), log),
        }
    }

    pub fn region(&self) -> (r: Option<(usize, u64)>)
        ensures
            r == body_region(self@),
    {
        match self {
            Body::Paused { .. } => Some((0, PAUSED_BODY_MS)),
            _ => None,
        }
    }
}

// ── the journey ─────────────────────────────────────────────────────────────

/// What the step needs of the preparation.
pub struct Prep {
    pub tool: String,
    pub gateway: String,
    pub cli_id: String,
}

pub struct PrepV {
    pub tool: Seq<char>,
    pub gateway: Seq<char>,
    pub cli_id: Seq<char>,
}

impl View for Prep {
    type V = PrepV;

    open spec fn view(&self) -> PrepV {
        PrepV { tool: self.tool@, gateway: self.gateway@, cli_id: self.cli_id@ }
    }
}

pub open spec fn opt_prep(p: Option<Prep>) -> Option<PrepV> {
    match p {
        Some(p) => Some(p@),
        None => None,
    }
}

/// What a preparation that has passed leaves behind.
pub open spec fn prep_in(team: Seq<char>, rs: Seq<ReplyV>) -> Option<PrepV> {
    if rs.len() < 14 {
        None
    } else {
        match (made("no bench session"@, "gateway"@, "the session named no gateway"@, rs[13]), listed_id(team + "-tool"@, rs[10])) {
            (Ok(gateway), Ok(cli_id)) => Some(PrepV { tool: tool_in(rs[12]), gateway, cli_id }),
            _ => None,
        }
    }
}

pub fn prepared(team: &str, log: &Log) -> (p: Option<Prep>)
    ensures
        opt_prep(p) == prep_in(team@, log@.rs),
{
    if log.rs.len() < 14 {
        return None;
    }
    let gateway = made_of("no bench session", "gateway", "the session named no gateway", &log.rs[13]);
    let id = listed_id_of(cat2(team, "-tool").as_str(), &log.rs[10]);
    match (gateway, id) {
        (Ok(gateway), Ok(cli_id)) => Some(Prep { tool: tool_of(&log.rs[12]), gateway, cli_id }),
        _ => None,
    }
}

pub open spec fn member_paused_move(c: RunV, ns: Seq<char>, bench: Seq<char>, prep: Option<PrepV>, os: Seq<OutcomeV>) -> MoveV<BodyV> {
    let id = PAUSED_ID@;
    let team = pause_team_of(c);
    let ceiling_ms = more(PAUSED_BODY_MS, c.undo_slack_ms);
    if !c.has_kube {
        if os.len() == 0 { MoveV::Skip { id, why: "no kubeconfig"@ } } else { MoveV::End }
    } else if os.len() == 0 {
        MoveV::Look { body: BodyV::Prepare { team, ns } }
    } else if os.len() == 1 {
        match prep {
            Some(p) => MoveV::Step { id, ceiling_ms, body: BodyV::Paused { team, ns, bench, tool: p.tool, gateway: p.gateway } },
            None => MoveV::Step { id, ceiling_ms, body: BodyV::Told { why: "before the pause: "@ + failure_or_empty(os[0]) } },
        }
    } else if os.len() == 2 {
        match prep {
            Some(p) => MoveV::Look { body: BodyV::Revoke { id: p.cli_id } },
            None => MoveV::Look { body: BodyV::Teardown { team } },
        }
    } else if os.len() == 3 && prep is Some {
        MoveV::Look { body: BodyV::Teardown { team } }
    } else {
        MoveV::End
    }
}

/// `team.member.paused`: a paused member loses every surface at once, and nothing of theirs. `ns` and
/// `bench` are the namespace and the id of the member's bench in the team; `prep` is what the first
/// move left, where it passed.
pub fn member_paused(c: &Run, ns: &str, bench: &str, prep: &Option<Prep>, os: &Vec<Outcome>) -> (m: Move<Body>)
    ensures
        m@ == member_paused_move(c@, ns@, bench@, opt_prep(*prep), outcomes(os@)),
{
    let id = PAUSED_ID;
    let team = pause_team(c);
    let ceiling_ms: u64 = PAUSED_BODY_MS.saturating_add(c.undo_slack_ms);
    if !c.has_kube {
        if os.len() == 0 { skip(id, "no kubeconfig") } else { Move::End }
    } else if os.len() == 0 {
        look(Body::Prepare { team, ns: ns.to_owned() })
    } else if os.len() == 1 {
        match prep {
            Some(p) => step(
                id, ceiling_ms,
                Body::Paused { team, ns: ns.to_owned(), bench: bench.to_owned(), tool: p.tool.clone(), gateway: p.gateway.clone() },
            ),
            None => step(id, ceiling_ms, Body::Told { why: cat2("before the pause: ", os[0].failure_or_empty().as_str()) }),
        }
    } else if os.len() == 2 {
        match prep {
            Some(p) => look(Body::Revoke { id: p.cli_id.clone() }),
            None => look(Body::Teardown { team }),
        }
    } else if os.len() == 3 && prep.is_some() {
        look(Body::Teardown { team })
    } else {
        Move::End
    }
}

/// The id is reported exactly once, whether the preparation worked or not.
pub proof fn law_the_id_is_reported_once(c: RunV, ns: Seq<char>, bench: Seq<char>, prep: Option<PrepV>, os: Seq<OutcomeV>)
    ensures
        reports_exactly(|o: Seq<OutcomeV>| member_paused_move(c, ns, bench, prep, o), os, seq![PAUSED_ID@], 4),
    decreases os.len(),
{
    reveal_with_fuel(reports, 5);
    if os.len() > 4 {
        law_the_id_is_reported_once(c, ns, bench, prep, os.drop_last());
    }
}

/// The member is never left paused by a body that is over: the unpause was asked for, whatever was
/// answered and however long it took.
pub proof fn law_the_member_is_unpaused(c: RunV, team: Seq<char>, ns: Seq<char>, bench: Seq<char>, tool: Seq<char>, gateway: Seq<char>, log: LogV)
    requires
        log.us.len() == 0,
    ensures
        !(paused_next(c, team, ns, bench, tool, gateway, log) is Pass),
        !(paused_next(c, team, ns, bench, tool, gateway, log) is Fail),
        log.cut ==> paused_next(c, team, ns, bench, tool, gateway, log) == NextV::Undo(
            posting_nothing(api_at(c, "/v1/teams/"@ + team + "/members/"@ + c.probe_email + "/unpause"@), c.other_jwt),
        ),
{
}

/// The bench is the probe tenant's own: what makes it and what waits for it carry the probe's token.
/// The second tenant has no quota to charge one to.
pub proof fn law_the_bench_is_the_probe_tenants(c: RunV, team: Seq<char>, ns: Seq<char>, log: LogV)
    requires
        log.rs.len() >= 3,
        call_error(log.rs[0]) is None,
        made_full("could not invite"@, "token"@, "no invite token"@, log.rs[1]) is Ok,
        call_error(log.rs[2]) is None,
    ensures
        log.rs.len() == 3 ==> prepare_next(c, team, ns, log) == NextV::Ask(
            posting(api_at(c, "/v1/bench"@), c.probe_jwt, Doc::Obj(seq![("team"@, Doc::Str(team)), ("region"@, Doc::Str(c.region))])),
        ),
        log.rs.len() == 4 && call_error(log.rs[3]) is None ==> prepare_next(c, team, ns, log) == NextV::Ask(
            AskV::Wait(
                WaitV::Doc {
                    url: bench_at(c, ""@, team),
                    token: c.probe_jwt,
                    want: WantV::Field { key: "phase"@, value: "ready"@ },
                    cap_ms: READY_WAIT_MS,
                },
            ),
        ),
{
}

} // verus!
