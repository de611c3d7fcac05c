//! Stage 9 · Security: the refusals. Every id here passes only when something is denied.
//!
//! A step whose success is a 4xx treats a 2xx as a failure and a 5xx as a failure too: a tier that
//! fell over refused nothing, it just could not answer.

use vstd::prelude::*;

use crate::cluster::{names_of, object_names};
use crate::json::{Doc, array_of, bool_of, doc_bool, member2, obj1, obj2, rows_of, txt};
use crate::outside::{base64_text, encode64, status_line, status_text};
use crate::reply::{call_failed, failed, is_success, object, object_of, raw, raw_of, success};
use crate::run::{Run, RunV, State, StateV, admin, admin_at, api, api_at};
use crate::text::{
    cat2, cat3, cat4, contains, dec, decimal, has_text, holds, lemma_holds_after, lemma_holds_before, no_slash, stands_at, texts,
    trim_slash,
};
use crate::turn::{Move, MoveV, Outcome, OutcomeV, look, one, one_move, outcomes, passed, passed_with, reports, reports_exactly, skip, step};
use crate::wire::{
    Ask, AskV, Cluster, Kind, Log, LogV, Next, NextV, Payload, PayloadV, Reply, ReplyV, Verb, also, deleting, end, erase, get,
    getting, link, opt,
};

verus! {

/// Each refusal is a single request against a tier that either says no at once or is not answering.
pub const REFUSAL_CEILING_MS: u64 = 10_000;

/// The agent's identity, exactly as the cluster's roles name it.
pub const AGENT_SA: &'static str = "system:serviceaccount:kube-system:kloudlite-git-agent";

// ── what counts as a refusal ────────────────────────────────────────────────

/// How an answer is judged when only the statuses in `allowed` are a refusal.
pub open spec fn refusal(what: Seq<char>, status: u16, allowed: Seq<u16>) -> Option<Seq<char>> {
    if allowed.contains(status) {
        None
    } else if is_success(status) {
        Some(what + " was ALLOWED ("@ + status_line(status) + ")"@)
    } else {
        Some(what + " answered "@ + status_line(status) + ", which is not a refusal"@)
    }
}

/// The failure in a result, as text.
pub open spec fn failing(r: Result<(), String>) -> Option<Seq<char>> {
    match r {
        Ok(_) => None,
        Err(why) => Some(why@),
    }
}

pub fn refused_with(what: &str, status: u16, allowed: &[u16]) -> (r: Result<(), String>)
    ensures
        failing(r) == refusal(what@, status, allowed@),
        r matches Err(why) ==> holds(why@, dec(status as nat)),
{
    let mut i: usize = 0;
    while i < allowed.len()
        invariant
            i <= allowed@.len(),
            forall|k: int| 0 <= k < i ==> allowed@[k] != status,
        decreases allowed.len() - i,
    {
        if allowed[i] == status {
            proof {
                assert(allowed@.contains(status));
            }
            return Ok(());
        }
        i = i + 1;
    }
    let line = status_text(status);
    proof {
        let d = dec(status as nat);
        assert(stands_at(line@, d, 0));
        lemma_holds_after(what@ + " was ALLOWED ("@, line@, d);
        lemma_holds_before(what@ + " was ALLOWED ("@ + line@, ")"@, d);
        lemma_holds_after(what@ + " answered "@, line@, d);
        lemma_holds_before(what@ + " answered "@ + line@, ", which is not a refusal"@, d);
    }
    if success(status) {
        Err(cat4(what, " was ALLOWED (", line.as_str(), ")"))
    } else {
        Err(cat4(what, " answered ", line.as_str(), ", which is not a refusal"))
    }
}

/// The statuses that refuse a read: a hidden object is refused too.
pub open spec fn read_refusals() -> Seq<u16> {
    seq![401u16, 403u16, 404u16]
}

/// The statuses with which the admin router's claim check refuses. A 404 is not among them: a
/// missing route is not a working guard.
pub open spec fn claim_refusals() -> Seq<u16> {
    seq![401u16, 403u16]
}

/// A read that must not happen.
pub fn refused(what: &str, status: u16) -> (r: Result<(), String>)
    ensures
        failing(r) == refusal(what@, status, read_refusals()),
{
    let allowed = [401u16, 403u16, 404u16];
    proof {
        assert(allowed@ =~= read_refusals());
    }
    refused_with(what, status, &allowed)
}

/// The admin router's own claim check.
pub fn refused_by_claim(what: &str, status: u16) -> (r: Result<(), String>)
    ensures
        failing(r) == refusal(what@, status, claim_refusals()),
{
    let allowed = [401u16, 403u16];
    proof {
        assert(allowed@ =~= claim_refusals());
    }
    refused_with(what, status, &allowed)
}

/// What the API server's answer to the impersonated spec patch means. Only a 403 that is not about
/// impersonation is the admission policy refusing the write.
pub open spec fn admission(code: u16, message: Seq<char>) -> Option<Seq<char>> {
    if code == 403 {
        if holds(message, "impersonate"@) {
            Some("the probe could not impersonate at all: "@ + message)
        } else {
            None
        }
    } else {
        Some("the attempt answered "@ + dec(code as nat) + ": "@ + message)
    }
}

pub fn refused_by_admission(code: u16, message: &str) -> (r: Result<(), String>)
    ensures
        failing(r) == admission(code, message@),
{
    if code == 403 {
        if contains(message, "impersonate") {
            Err(cat2("the probe could not impersonate at all: ", message))
        } else {
            Ok(())
        }
    } else {
        Err(cat4("the attempt answered ", decimal(code as u64).as_str(), ": ", message))
    }
}

/// Whatever is asked, a success is never a refusal and neither is a tier that fell over.
pub proof fn law_only_a_4xx_refuses(what: Seq<char>, status: u16, message: Seq<char>)
    ensures
        refusal(what, status, read_refusals()) is None <==> status == 401 || status == 403 || status == 404,
        refusal(what, status, claim_refusals()) is None <==> status == 401 || status == 403,
        admission(status, message) is None ==> status == 403,
        status < 400 || status >= 500 ==> refusal(what, status, read_refusals()) is Some && refusal(what, status, claim_refusals()) is Some
            && admission(status, message) is Some,
{
    let r = read_refusals();
    assert(r[0] == 401 && r[1] == 403 && r[2] == 404);
    let k = claim_refusals();
    assert(k[0] == 401 && k[1] == 403);
}

/// The clone handshake, as a plain read.
pub open spec fn refs_at(c: RunV, repo: Seq<char>) -> Seq<char> {
    no_slash(c.git_url) + "/"@ + c.tenant + "/"@ + repo + ".git/info/refs?service=git-upload-pack"@
}

pub fn refs_url(c: &Run, repo: &str) -> (r: String)
    ensures
        r@ == refs_at(c@, repo@),
{
    crate::text::cat6(trim_slash(c.git_url.as_str()).as_str(), "/", c.tenant.as_str(), "/", repo, ".git/info/refs?service=git-upload-pack")
}

/// Git's own way of carrying a token: Basic, under the placeholder user `x`.
pub open spec fn basic_x(secret: Seq<char>) -> Seq<char> {
    "Basic "@ + base64_text("x:"@ + secret)
}

pub fn basic(secret: &str) -> (r: String)
    ensures
        r@ == basic_x(secret@),
{
    cat2("Basic ", encode64(cat2("x:", secret).as_str()).as_str())
}

// ── the bodies ──────────────────────────────────────────────────────────────

pub enum Body {
    PrivateRepo { repo: String },
    CrossOwner { path: String },
    AdminClaim,
    UserProcess,
    MayImpersonate,
    AWorkspace { ours: Option<String> },
    AgentSpec { name: String },
    TokenRevoked { id: String, secret: String, repo: String },
}

pub enum BodyV {
    PrivateRepo { repo: Seq<char> },
    CrossOwner { path: Seq<char> },
    AdminClaim,
    UserProcess,
    MayImpersonate,
    AWorkspace { ours: Option<Seq<char>> },
    AgentSpec { name: Seq<char> },
    TokenRevoked { id: Seq<char>, secret: Seq<char>, repo: Seq<char> },
}

impl View for Body {
    type V = BodyV;

    open spec fn view(&self) -> BodyV {
        match self {
            Body::PrivateRepo { repo } => BodyV::PrivateRepo { repo: repo@ },
            Body::CrossOwner { path } => BodyV::CrossOwner { path: path@ },
            Body::AdminClaim => BodyV::AdminClaim,
            Body::UserProcess => BodyV::UserProcess,
            Body::MayImpersonate => BodyV::MayImpersonate,
            Body::AWorkspace { ours } => BodyV::AWorkspace { ours: opt(*ours) },
            Body::AgentSpec { name } => BodyV::AgentSpec { name: name@ },
            Body::TokenRevoked { id, secret, repo } => BodyV::TokenRevoked { id: id@, secret: secret@, repo: repo@ },
        }
    }
}

/// Why a reply is not the refusal of `what`.
pub open spec fn not_refused(what: Seq<char>, r: ReplyV, allowed: Seq<u16>) -> Option<Seq<char>> {
    match raw_of(r) {
        Err(why) => Some(why),
        Ok((status, _)) => refusal(what, status, allowed),
    }
}

fn unrefused(what: &str, r: &Reply) -> (o: Option<String>)
    ensures
        opt(o) == not_refused(what@, r@, read_refusals()),
{
    match raw(r) {
        Err(why) => Some(why),
        Ok((status, _)) => match refused(what, status) {
            Ok(_) => None,
            Err(why) => Some(why),
        },
    }
}

/// Both halves of a private repo, in one step: a repo readable by either reader is leaked.
pub open spec fn private_repo_next(c: RunV, repo: Seq<char>, rs: Seq<ReplyV>) -> NextV {
    link(
        rs, 0,
        getting(refs_at(c, repo), c.other_jwt),
        not_refused("cloning the private repo as another owner"@, rs[0], read_refusals()),
        link(
            rs, 1,
            getting(refs_at(c, repo), seq![]),
            not_refused("cloning the private repo as an anonymous client"@, rs[1], read_refusals()),
            NextV::Pass,
        ),
    )
}

fn private_repo_body(c: &Run, repo: &str, log: &Log) -> (n: Next)
    ensures
        n@ == private_repo_next(c@, repo@, log@.rs),
{
    if log.rs.len() <= 0 {
        return Next::Ask(get(refs_url(c, repo), c.other_jwt.as_str()));
    }
    if let Some(why) = unrefused("cloning the private repo as another owner", &log.rs[0]) {
        return Next::Fail(why);
    }
    if log.rs.len() <= 1 {
        proof {
            reveal_strlit("");
            assert(""@ =~= Seq::<char>::empty());
        }
        return Next::Ask(get(refs_url(c, repo), ""));
    }
    end(unrefused("cloning the private repo as an anonymous client", &log.rs[1]))
}

pub open spec fn cross_owner_next(c: RunV, path: Seq<char>, rs: Seq<ReplyV>) -> NextV {
    link(
        rs, 0,
        getting(api_at(c, path), c.other_jwt),
        not_refused("reading our object as another owner"@, rs[0], read_refusals()),
        NextV::Pass,
    )
}

fn cross_owner_body(c: &Run, path: &str, log: &Log) -> (n: Next)
    ensures
        n@ == cross_owner_next(c@, path@, log@.rs),
{
    if log.rs.len() <= 0 {
        return Next::Ask(get(api(c, path), c.other_jwt.as_str()));
    }
    end(unrefused("reading our object as another owner", &log.rs[0]))
}

/// The probe's own ordinary token, on an admin route.
pub open spec fn admin_claim_next(c: RunV, rs: Seq<ReplyV>) -> NextV {
    link(
        rs, 0,
        getting(admin_at(c, "/admin/overview"@), c.probe_jwt),
        not_refused("an admin route reached without the superadmin claim"@, rs[0], claim_refusals()),
        NextV::Pass,
    )
}

fn admin_claim_body(c: &Run, log: &Log) -> (n: Next)
    ensures
        n@ == admin_claim_next(c@, log@.rs),
{
    if log.rs.len() <= 0 {
        return Next::Ask(get(admin(c, "/admin/overview"), c.probe_jwt.as_str()));
    }
    match raw(&log.rs[0]) {
        Err(why) => Next::Fail(why),
        Ok((status, _)) => match refused_by_claim("an admin route reached without the superadmin claim", status) {
            Ok(_) => Next::Pass,
            Err(why) => Next::Fail(why),
        },
    }
}

/// The same path on the ordinary process, with a token that would pass the claim check: only the
/// route not being there answers 404.
pub open spec fn user_process_next(c: RunV, rs: Seq<ReplyV>) -> NextV {
    link(
        rs, 0,
        getting(api_at(c, "/admin/overview"@), c.admin_jwt),
        (match raw_of(rs[0]) {
            Err(why) => Some(why),
            Ok((status, _)) => if status == 404 {
                None
            } else {
                Some("the user process answered "@ + status_line(status) + " for an admin path"@)
            },
        }),
        NextV::Pass,
    )
}

fn user_process_body(c: &Run, log: &Log) -> (n: Next)
    ensures
        n@ == user_process_next(c@, log@.rs),
{
    if log.rs.len() <= 0 {
        return Next::Ask(get(api(c, "/admin/overview"), c.admin_jwt.as_str()));
    }
    match raw(&log.rs[0]) {
        Err(why) => Next::Fail(why),
        Ok((status, _)) => {
            if status == 404 {
                Next::Pass
            } else {
                Next::Fail(cat3("the user process answered ", status_text(status).as_str(), " for an admin path"))
            }
        },
    }
}

/// Whether the probe's own identity may impersonate at all: a review the API server would not
/// answer is a no.
pub open spec fn may_impersonate_next(rs: Seq<ReplyV>) -> NextV {
    link(
        rs, 0,
        AskV::Put {
            cluster: Cluster::Fleet,
            kind: Kind::AccessReview,
            ns: seq![],
            name: seq![],
            body: Doc::Obj(seq![("spec"@, Doc::Obj(seq![("resourceAttributes"@, Doc::Obj(seq![
                ("resource"@, Doc::Str("serviceaccounts"@)),
                ("verb"@, Doc::Str("impersonate"@)),
            ]))]))]),
        },
        (match object_of(rs[0]) {
            Err(why) => Some(why),
            Ok(d) => if doc_bool(member2(d, "status"@, "allowed"@)) == Some(true) { None } else { Some("it may not"@) },
        }),
        NextV::Pass,
    )
}

fn may_impersonate_body(log: &Log) -> (n: Next)
    ensures
        n@ == may_impersonate_next(log@.rs),
{
    if log.rs.len() <= 0 {
        return Next::Ask(Ask::Put {
            cluster: Cluster::Fleet,
            kind: Kind::AccessReview,
            ns: String::new(),
            name: String::new(),
            body: obj1("spec", obj1("resourceAttributes", obj2("resource", txt("serviceaccounts"), "verb", txt("impersonate")))),
        });
    }
    match object(&log.rs[0]) {
        Err(why) => Next::Fail(why),
        Ok(d) => match bool_of(d.get2("status", "allowed")) {
            Some(true) => Next::Pass,
            _ => Next::Fail("it may not".to_owned()),
        },
    }
}

/// A Workspace to attempt the write on: ours if it is still there, otherwise the first one listed.
pub open spec fn workspace_to_try(ours: Option<Seq<char>>, r: ReplyV) -> Option<Seq<char>> {
    match object_of(r) {
        Err(_) => None,
        Ok(d) => {
            let names = names_of(rows_of(Some(d)));
            match ours {
                Some(o) => if names.contains(o) {
                    Some(o)
                } else if names.len() > 0 {
                    Some(names[0])
                } else {
                    None
                },
                None => if names.len() > 0 { Some(names[0]) } else { None },
            }
        },
    }
}

fn a_workspace_of(ours: &Option<String>, r: &Reply) -> (o: Option<String>)
    ensures
        opt(o) == workspace_to_try(opt(*ours), r@),
{
    match object(r) {
        Err(_) => None,
        Ok(d) => {
            let names = match array_of(Some(&d)) {
                Some(rows) => object_names(rows),
                None => {
                    let none: Vec<String> = Vec::new();
                    proof {
                        assert(texts(none@) =~= names_of(rows_of(Some(d@))));
                    }
                    none
                },
            };
            proof {
                assert(texts(names@) == names_of(rows_of(Some(d@))));
                assert(names@.len() > 0 ==> texts(names@)[0] == names@[0]@);
            }
            match ours {
                Some(o) => {
                    if has_text(&names, o.as_str()) {
                        return Some(o.clone());
                    }
                },
                None => {},
            }
            if names.len() > 0 { Some(names[0].clone()) } else { None }
        },
    }
}

pub open spec fn a_workspace_next(rs: Seq<ReplyV>) -> NextV {
    also(rs, 0, AskV::List { cluster: Cluster::Fleet, kind: Kind::Workspace, ns: seq![] }, NextV::Pass)
}

/// A spec write as the agent, which the admission policy refuses. It is a dry run: admission runs
/// and nothing is written.
pub open spec fn agent_spec_next(name: Seq<char>, rs: Seq<ReplyV>) -> NextV {
    link(
        rs, 0,
        AskV::Change {
            cluster: Cluster::Fleet,
            kind: Kind::Workspace,
            ns: seq![],
            name,
            who: AGENT_SA@,
            dry_run: true,
            body: Doc::Obj(seq![("spec"@, Doc::Obj(seq![("desiredState"@, Doc::Str("Stopped"@))]))]),
        },
        (match (rs[0], raw_of(rs[0])) {
            (ReplyV::Said(why), _) => Some(why),
            (_, Err(why)) => Some("the attempt answered "@ + why + ", which is not a refusal"@),
            (_, Ok((status, text))) => if is_success(status) {
                Some("the agent was ALLOWED to write spec.desiredState"@)
            } else {
                admission(status, text)
            },
        }),
        NextV::Pass,
    )
}

fn agent_spec_body(name: &str, log: &Log) -> (n: Next)
    ensures
        n@ == agent_spec_next(name@, log@.rs),
{
    if log.rs.len() <= 0 {
        return Next::Ask(Ask::Change {
            cluster: Cluster::Fleet,
            kind: Kind::Workspace,
            ns: String::new(),
            name: name.to_owned(),
            who: AGENT_SA.to_owned(),
            dry_run: true,
            body: obj1("spec", obj1("desiredState", txt("Stopped"))),
        });
    }
    match (&log.rs[0], raw(&log.rs[0])) {
        (Reply::Said(why), _) => Next::Fail(why.clone()),
        (_, Err(why)) => Next::Fail(cat3("the attempt answered ", why.as_str(), ", which is not a refusal")),
        (_, Ok((status, text))) => {
            if success(status) {
                Next::Fail("the agent was ALLOWED to write spec.desiredState".to_owned())
            } else {
                match refused_by_admission(status, text.as_str()) {
                    Ok(_) => Next::Pass,
                    Err(why) => Next::Fail(why),
                }
            }
        },
    }
}

/// A token is revoked, and then refused in the shape a leaked one would be replayed in.
pub open spec fn token_revoked_next(c: RunV, id: Seq<char>, secret: Seq<char>, repo: Seq<char>, rs: Seq<ReplyV>) -> NextV {
    link(
        rs, 0,
        deleting(api_at(c, "/v1/tokens/"@ + id), c.probe_jwt),
        call_failed("could not revoke the token"@, rs[0]),
        link(
            rs, 1,
            AskV::Call {
                verb: Verb::Get,
                url: refs_at(c, repo),
                auth: basic_x(secret),
                accept: seq![],
                load: PayloadV::Empty,
                bound_ms: 0,
            },
            not_refused("a revoked token"@, rs[1], read_refusals()),
            NextV::Pass,
        ),
    )
}

fn token_revoked_body(c: &Run, id: &str, secret: &str, repo: &str, log: &Log) -> (n: Next)
    ensures
        n@ == token_revoked_next(c@, id@, secret@, repo@, log@.rs),
{
    if log.rs.len() <= 0 {
        return Next::Ask(erase(api(c, cat2("/v1/tokens/", id).as_str()), c.probe_jwt.as_str()));
    }
    if let Some(why) = failed("could not revoke the token", &log.rs[0]) {
        return Next::Fail(why);
    }
    if log.rs.len() <= 1 {
        return Next::Ask(Ask::Call {
            verb: Verb::Get,
            url: refs_url(c, repo),
            auth: basic(secret),
            accept: String::new(),
            load: Payload::Empty,
            bound_ms: 0,
        });
    }
    end(unrefused("a revoked token", &log.rs[1]))
}

/// What a body does next.
pub open spec fn body_next(c: RunV, b: BodyV, log: LogV) -> NextV {
    match b {
        BodyV::PrivateRepo { repo } => private_repo_next(c, repo, log.rs),
        BodyV::CrossOwner { path } => cross_owner_next(c, path, log.rs),
        BodyV::AdminClaim => admin_claim_next(c, log.rs),
        BodyV::UserProcess => user_process_next(c, log.rs),
        BodyV::MayImpersonate => may_impersonate_next(log.rs),
        BodyV::AWorkspace { .. } => a_workspace_next(log.rs),
        BodyV::AgentSpec { name } => agent_spec_next(name, log.rs),
        BodyV::TokenRevoked { id, secret, repo } => token_revoked_next(c, id, secret, repo, log.rs),
    }
}

/// What a body has learned.
pub open spec fn body_found(b: BodyV, log: LogV) -> Option<Seq<char>> {
    match b {
        BodyV::AWorkspace { ours } => if log.rs.len() > 0 { workspace_to_try(ours, log.rs[0]) } else { None },
        _ => None,
    }
}

impl Body {
    pub fn next(&self, c: &Run, log: &Log) -> (n: Next)
        ensures
            n@ == body_next(c@, self@, log@),
    {
        match self {
            Body::PrivateRepo { repo } => private_repo_body(c, repo.as_str(), log),
            Body::CrossOwner { path } => cross_owner_body(c, path.as_str(), log),
            Body::AdminClaim => admin_claim_body(c, log),
            Body::UserProcess => user_process_body(c, log),
            Body::MayImpersonate => may_impersonate_body(log),
            Body::AWorkspace { .. } => {
                if log.rs.len() <= 0 {
                    Next::Ask(Ask::List { cluster: Cluster::Fleet, kind: Kind::Workspace, ns: String::new() })
                } else {
                    Next::Pass
                }
            },
            Body::AgentSpec { name } => agent_spec_body(name.as_str(), log),
            Body::TokenRevoked { id, secret, repo } => token_revoked_body(c, id.as_str(), secret.as_str(), repo.as_str(), log),
        }
    }

    pub fn found(&self, log: &Log) -> (r: Option<String>)
        ensures
            opt(r) == body_found(self@, log@),
    {
        match self {
            Body::AWorkspace { ours } => {
                if log.rs.len() > 0 { a_workspace_of(ours, &log.rs[0]) } else { None }
            },
            _ => None,
        }
    }
}

// ── the journeys ────────────────────────────────────────────────────────────

pub open spec fn private_repo_move(s: StateV, os: Seq<OutcomeV>) -> MoveV<BodyV> {
    one_move(
        "sec.private.repo"@,
        REFUSAL_CEILING_MS,
        "no repo"@,
        (match s.repo { Some(repo) => Some(BodyV::PrivateRepo { repo }), None => None }),
        os,
    )
}

/// `sec.private.repo`: the run's own repo is unreadable to the second tenant and to nobody at all.
pub fn private_repo(s: &State, os: &Vec<Outcome>) -> (m: Move<Body>)
    ensures
        m@ == private_repo_move(s@, outcomes(os@)),
{
    let body = match &s.repo {
        Some(repo) => Some(Body::PrivateRepo { repo: repo.clone() }),
        None => None,
    };
    one("sec.private.repo", REFUSAL_CEILING_MS, "no repo", body, os)
}

/// The object another owner is to be refused: the environment before the workspace, because a
/// workspace that is gone answers 404 to its owner too.
pub open spec fn cross_owner_target(s: StateV) -> Option<Seq<char>> {
    match s.environment {
        Some(id) => Some("/v1/environments/"@ + id),
        None => match s.workspace {
            Some(id) => Some("/v1/workspaces/"@ + id),
            None => None,
        },
    }
}

pub open spec fn cross_owner_move(s: StateV, os: Seq<OutcomeV>) -> MoveV<BodyV> {
    one_move(
        "sec.cross.owner"@,
        REFUSAL_CEILING_MS,
        "no environment or workspace of ours to read"@,
        (match cross_owner_target(s) { Some(path) => Some(BodyV::CrossOwner { path }), None => None }),
        os,
    )
}

/// `sec.cross.owner`: one owner's object is invisible to another.
pub fn cross_owner(s: &State, os: &Vec<Outcome>) -> (m: Move<Body>)
    ensures
        m@ == cross_owner_move(s@, outcomes(os@)),
{
    let body = match &s.environment {
        Some(id) => Some(Body::CrossOwner { path: cat2("/v1/environments/", id.as_str()) }),
        None => match &s.workspace {
            Some(id) => Some(Body::CrossOwner { path: cat2("/v1/workspaces/", id.as_str()) }),
            None => None,
        },
    };
    one("sec.cross.owner", REFUSAL_CEILING_MS, "no environment or workspace of ours to read", body, os)
}

/// `sec.admin.claim`: an admin route refuses a token without the superadmin claim.
pub fn admin_claim(os: &Vec<Outcome>) -> (m: Move<Body>)
    ensures
        m@ == one_move("sec.admin.claim"@, REFUSAL_CEILING_MS, ""@, Some(BodyV::AdminClaim), outcomes(os@)),
{
    one("sec.admin.claim", REFUSAL_CEILING_MS, "", Some(Body::AdminClaim), os)
}

/// `sec.user.process`: the ordinary process has no admin route at all.
pub fn user_process(os: &Vec<Outcome>) -> (m: Move<Body>)
    ensures
        m@ == one_move("sec.user.process"@, REFUSAL_CEILING_MS, ""@, Some(BodyV::UserProcess), outcomes(os@)),
{
    one("sec.user.process", REFUSAL_CEILING_MS, "", Some(Body::UserProcess), os)
}

pub open spec fn agent_spec_move(c: RunV, s: StateV, os: Seq<OutcomeV>) -> MoveV<BodyV> {
    let id = "sec.agent.spec"@;
    if !c.has_kube {
        if os.len() == 0 {
            MoveV::Skip { id, why: "no kubeconfig: the admission policy cannot be tested"@ }
        } else {
            MoveV::End
        }
    } else if os.len() == 0 {
        MoveV::Look { body: BodyV::MayImpersonate }
    } else if !passed(os[0]) {
        if os.len() == 1 { MoveV::Skip { id, why: "probe identity cannot impersonate"@ } } else { MoveV::End }
    } else if os.len() == 1 {
        MoveV::Look { body: BodyV::AWorkspace { ours: s.workspace } }
    } else if os.len() == 2 {
        match passed_with(os[1]) {
            None => MoveV::Skip { id, why: "no Workspace exists to attempt a spec write on"@ },
            Some(name) => MoveV::Step { id, ceiling_ms: REFUSAL_CEILING_MS, body: BodyV::AgentSpec { name } },
        }
    } else {
        MoveV::End
    }
}

/// `sec.agent.spec`: the agent's identity is refused a spec write. Without the right to
/// impersonate every attempt would be refused for the wrong reason, so that is looked at first.
pub fn agent_spec(c: &Run, s: &State, os: &Vec<Outcome>) -> (m: Move<Body>)
    ensures
        m@ == agent_spec_move(c@, s@, outcomes(os@)),
{
    let id = "sec.agent.spec";
    if !c.has_kube {
        if os.len() == 0 { skip(id, "no kubeconfig: the admission policy cannot be tested") } else { Move::End }
    } else if os.len() == 0 {
        look(Body::MayImpersonate)
    } else if !os[0].passed() {
        if os.len() == 1 { skip(id, "probe identity cannot impersonate") } else { Move::End }
    } else if os.len() == 1 {
        look(Body::AWorkspace { ours: s.workspace.clone() })
    } else if os.len() == 2 {
        match os[1].passed_with() {
            None => skip(id, "no Workspace exists to attempt a spec write on"),
            Some(name) => step(id, REFUSAL_CEILING_MS, Body::AgentSpec { name }),
        }
    } else {
        Move::End
    }
}

/// What a revoked token is tried against, where the run has all of it.
pub open spec fn revocable(s: StateV) -> Option<BodyV> {
    match (s.token, s.token_value, s.repo) {
        (Some(id), Some(secret), Some(repo)) => Some(BodyV::TokenRevoked { id, secret, repo }),
        _ => None,
    }
}

pub open spec fn token_revoked_move(s: StateV, os: Seq<OutcomeV>) -> MoveV<BodyV> {
    one_move("id.token.revoked"@, REFUSAL_CEILING_MS, "no personal token, or no repo to try it against"@, revocable(s), os)
}

/// `id.token.revoked`: the personal token stops working the moment it is revoked.
pub fn token_revoked(s: &State, os: &Vec<Outcome>) -> (m: Move<Body>)
    ensures
        m@ == token_revoked_move(s@, outcomes(os@)),
{
    let body = match (&s.token, &s.token_value, &s.repo) {
        (Some(id), Some(secret), Some(repo)) => Some(Body::TokenRevoked {
            id: id.clone(),
            secret: secret.clone(),
            repo: repo.clone(),
        }),
        _ => None,
    };
    one("id.token.revoked", REFUSAL_CEILING_MS, "no personal token, or no repo to try it against", body, os)
}

/// The parts of the stage.
#[derive(Clone, Copy, PartialEq, Eq, Structural)]
pub enum Part {
    PrivateRepo,
    CrossOwner,
    AdminClaim,
    UserProcess,
    AgentSpec,
    TokenRevoked,
}

pub open spec fn part_move(part: Part, c: RunV, s: StateV, os: Seq<OutcomeV>) -> MoveV<BodyV> {
    match part {
        Part::PrivateRepo => private_repo_move(s, os),
        Part::CrossOwner => cross_owner_move(s, os),
        Part::AdminClaim => one_move("sec.admin.claim"@, REFUSAL_CEILING_MS, ""@, Some(BodyV::AdminClaim), os),
        Part::UserProcess => one_move("sec.user.process"@, REFUSAL_CEILING_MS, ""@, Some(BodyV::UserProcess), os),
        Part::AgentSpec => agent_spec_move(c, s, os),
        Part::TokenRevoked => token_revoked_move(s, os),
    }
}

/// The stage, part by part.
pub fn run(part: Part, c: &Run, s: &State, os: &Vec<Outcome>) -> (m: Move<Body>)
    ensures
        m@ == part_move(part, c@, s@, outcomes(os@)),
{
    match part {
        Part::PrivateRepo => private_repo(s, os),
        Part::CrossOwner => cross_owner(s, os),
        Part::AdminClaim => admin_claim(os),
        Part::UserProcess => user_process(os),
        Part::AgentSpec => agent_spec(c, s, os),
        Part::TokenRevoked => token_revoked(s, os),
    }
}

/// The order of the parts: the token is revoked last, since it is used until then.
pub open spec fn next_part(part: Part) -> Option<Part> {
    match part {
        Part::PrivateRepo => Some(Part::CrossOwner),
        Part::CrossOwner => Some(Part::AdminClaim),
        Part::AdminClaim => Some(Part::UserProcess),
        Part::UserProcess => Some(Part::AgentSpec),
        Part::AgentSpec => Some(Part::TokenRevoked),
        Part::TokenRevoked => None,
    }
}

pub fn after(part: Part) -> (r: Option<Part>)
    ensures
        r == next_part(part),
{
    match part {
        Part::PrivateRepo => Some(Part::CrossOwner),
        Part::CrossOwner => Some(Part::AdminClaim),
        Part::AdminClaim => Some(Part::UserProcess),
        Part::UserProcess => Some(Part::AgentSpec),
        Part::AgentSpec => Some(Part::TokenRevoked),
        Part::TokenRevoked => None,
    }
}

/// The id a part owes.
pub open spec fn id_of_part(part: Part) -> Seq<char> {
    match part {
        Part::PrivateRepo => "sec.private.repo"@,
        Part::CrossOwner => "sec.cross.owner"@,
        Part::AdminClaim => "sec.admin.claim"@,
        Part::UserProcess => "sec.user.process"@,
        Part::AgentSpec => "sec.agent.spec"@,
        Part::TokenRevoked => "id.token.revoked"@,
    }
}

/// Whatever comes back, each part reports its id exactly once.
pub proof fn law_every_id_is_reported_once(part: Part, c: RunV, s: StateV, os: Seq<OutcomeV>)
    ensures
        reports_exactly(|o: Seq<OutcomeV>| part_move(part, c, s, o), os, seq![id_of_part(part)], 3),
    decreases os.len(),
{
    reveal_with_fuel(reports, 4);
    if os.len() > 3 {
        law_every_id_is_reported_once(part, c, s, os.drop_last());
    }
}

/// What a part leaves: the token is not kept to be revoked again once its revocation was tried.
pub open spec fn left(s: StateV, part: Part) -> StateV {
    if part == Part::TokenRevoked && revocable(s) is Some { StateV { token: None, ..s } } else { s }
}

pub fn leaves(s: &State, part: Part) -> (t: State)
    ensures
        t@ == left(s@, part),
{
    let mut t = s.copy();
    if part == Part::TokenRevoked && s.token.is_some() && s.token_value.is_some() && s.repo.is_some() {
        t.token = None;
    }
    t
}

/// The token is forgotten exactly where its revocation is a step and no skip.
pub proof fn law_a_token_is_kept_until_it_is_revoked(c: RunV, s: StateV)
    ensures
        part_move(Part::TokenRevoked, c, s, seq![]) is Step ==> left(s, Part::TokenRevoked).token is None,
        part_move(Part::TokenRevoked, c, s, seq![]) is Skip ==> left(s, Part::TokenRevoked) == s,
{
}

} // verus!
