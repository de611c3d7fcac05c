//! Of the security stage, the pull request, the usage stamp and the sweep.

use vstd::prelude::*;

use crate::cluster::names_of;
use crate::json::{Doc, doc_bool, doc_i64, doc_u64, items, member, member2, row_named, rows_of, text_of};
use crate::laws::{answered, came, doc_in, turned_away, waits_until, went_well};
use crate::outside::base64_text;
use crate::run::{RunV, StateV, admin_at, api_at};
use crate::stages::git::oid_in;
use crate::stages::pr;
use crate::stages::quota_usage;
use crate::stages::security;
use crate::stages::security::Part;
use crate::stages::sweep;
use crate::stages::sweep::{ClaimV, claims};
use crate::text::{dec, dec_int, holds, no_slash};
use crate::turn::{MoveV, OutcomeV, passed, passed_with};
use crate::wait::WaitV;
use crate::wire::{AskV, Cluster, Kind, LogV, NextV, ReplyV, Verb, deleting, getting, patching, posting};

verus! {

/// The clone handshake of a repo of the tenant's.
pub open spec fn handshake(c: RunV, repo: Seq<char>) -> Seq<char> {
    no_slash(c.git_url) + "/"@ + c.tenant + "/"@ + repo + ".git/info/refs?service=git-upload-pack"@
}

/// A private repo is refused exactly where another owner was turned away from it and so was a client with no token at all.
pub proof fn law_a_private_repo_turns_everybody_else_away(c: RunV, repo: Seq<char>, path: Seq<char>, log: LogV)
    ensures
        ({
            let n = security::body_next(c, security::BodyV::PrivateRepo { repo }, log);
            let rs = log.rs;
            &&& n is Pass <==> rs.len() > 1 && turned_away(rs[0]) && turned_away(rs[1])
            &&& rs.len() == 0 ==> n == NextV::Ask(getting(handshake(c, repo), c.other_jwt))
            &&& rs.len() == 1 && turned_away(rs[0]) ==> n == NextV::Ask(getting(handshake(c, repo), seq![]))
        }),
        ({
            let n = security::body_next(c, security::BodyV::CrossOwner { path }, log);
            &&& n is Pass <==> log.rs.len() > 0 && turned_away(log.rs[0])
            &&& log.rs.len() == 0 ==> n == NextV::Ask(getting(api_at(c, path), c.other_jwt))
        }),
{
    lemma_read_refusals();
}

pub proof fn lemma_read_refusals()
    ensures
        forall|s: u16| security::read_refusals().contains(s) <==> s == 401 || s == 403 || s == 404,
        forall|s: u16| security::claim_refusals().contains(s) <==> s == 401 || s == 403,
{
    let r = security::read_refusals();
    assert(r[0] == 401 && r[1] == 403 && r[2] == 404);
    let a = security::claim_refusals();
    assert(a[0] == 401 && a[1] == 403);
}

/// An admin route is guarded exactly where the run's ordinary token is refused for its claim, and no route that is missing is
/// a guard; the ordinary process has no such route, whoever asks.
pub proof fn law_an_admin_route_is_guarded_and_elsewhere_missing(c: RunV, log: LogV)
    ensures
        ({
            let n = security::body_next(c, security::BodyV::AdminClaim, log);
            &&& n is Pass <==> log.rs.len() > 0 && (answered(log.rs[0], 401) || answered(log.rs[0], 403))
            &&& log.rs.len() == 0 ==> n == NextV::Ask(getting(admin_at(c, "/admin/overview"@), c.probe_jwt))
        }),
        ({
            let n = security::body_next(c, security::BodyV::UserProcess, log);
            &&& n is Pass <==> log.rs.len() > 0 && answered(log.rs[0], 404)
            &&& log.rs.len() == 0 ==> n == NextV::Ask(getting(api_at(c, "/admin/overview"@), c.admin_jwt))
        }),
{
    lemma_read_refusals();
}

/// The agent may not write a spec exactly where the API server forbids it, and not for the sake of the impersonation; the
/// attempt is a dry run, under the agent's own name.
pub proof fn law_the_agent_may_not_write_a_spec(c: RunV, name: Seq<char>, ours: Option<Seq<char>>, log: LogV)
    ensures
        ({
            let n = security::body_next(c, security::BodyV::AgentSpec { name }, log);
            let rs = log.rs;
            &&& n is Pass <==> rs.len() > 0 && (rs[0] matches ReplyV::Answer { status, text } && status == 403 && !holds(text, "impersonate"@))
            &&& rs.len() == 0 ==> (n matches NextV::Ask(AskV::Change { cluster, kind, name: on, who, dry_run, body, .. }) && cluster
                == Cluster::Fleet && kind == Kind::Workspace && on == name && who == "system:serviceaccount:kube-system:kloudlite-git-agent"@
                && dry_run && body == Doc::Obj(seq![("spec"@, Doc::Obj(seq![("desiredState"@, Doc::Str("Stopped"@))]))]))
        }),
        ({
            let n = security::body_next(c, security::BodyV::MayImpersonate, log);
            n is Pass <==> log.rs.len() > 0 && went_well(log.rs[0]) && doc_bool(member2(doc_in(log.rs[0]), "status"@, "allowed"@)) == Some(true)
        }),
        log.rs.len() > 0 && went_well(log.rs[0]) ==> ({
            let found = security::body_found(security::BodyV::AWorkspace { ours }, log);
            let names = names_of(rows_of(Some(doc_in(log.rs[0]))));
            &&& found is Some <==> names.len() > 0
            &&& found matches Some(t) ==> names.contains(t)
            &&& ours is Some && names.contains(ours->0) ==> found == ours
        }),
{
    if log.rs.len() > 0 {
        let names = names_of(rows_of(Some(doc_in(log.rs[0]))));
        if names.len() > 0 {
            assert(names.contains(names[0]));
        }
    }
}

/// A revoked token is refused exactly where the revocation went well and the token, as git would carry it, was then turned
/// away from a repo that is there.
pub proof fn law_a_revoked_token_is_turned_away(c: RunV, id: Seq<char>, secret: Seq<char>, repo: Seq<char>, log: LogV)
    ensures
        ({
            let n = security::body_next(c, security::BodyV::TokenRevoked { id, secret, repo }, log);
            let rs = log.rs;
            &&& n is Pass <==> rs.len() > 1 && went_well(rs[0]) && turned_away(rs[1])
            &&& rs.len() == 0 ==> n == NextV::Ask(deleting(api_at(c, "/v1/tokens/"@ + id), c.probe_jwt))
            &&& rs.len() == 1 && went_well(rs[0]) ==> (n matches NextV::Ask(AskV::Call { verb, url, auth, .. }) && verb == Verb::Get && url
                == handshake(c, repo) && auth == "Basic "@ + base64_text("x:"@ + secret))
        }),
{
    lemma_read_refusals();
}

/// Each refusal is tried on what the run itself has, and where it has nothing there is no step.
pub proof fn law_a_refusal_is_tried_on_the_runs_own(c: RunV, s: StateV, part: Part, os: Seq<OutcomeV>)
    ensures
        security::part_move(part, c, s, os) matches MoveV::Step { id, body, .. } ==> {
            &&& part == Part::PrivateRepo ==> id == "sec.private.repo"@ && (body matches security::BodyV::PrivateRepo { repo } && s.repo
                == Some(repo))
            &&& part == Part::CrossOwner ==> id == "sec.cross.owner"@ && (body matches security::BodyV::CrossOwner { path } && {
                ||| s.environment is Some && path == "/v1/environments/"@ + s.environment->0
                ||| s.environment is None && s.workspace is Some && path == "/v1/workspaces/"@ + s.workspace->0
            })
            &&& part == Part::AdminClaim ==> id == "sec.admin.claim"@ && body == security::BodyV::AdminClaim
            &&& part == Part::UserProcess ==> id == "sec.user.process"@ && body == security::BodyV::UserProcess
            &&& part == Part::AgentSpec ==> id == "sec.agent.spec"@ && c.has_kube && passed(os[0]) && (body matches security::BodyV::AgentSpec {
                name,
            } && passed_with(os[1]) == Some(name))
            &&& part == Part::TokenRevoked ==> id == "id.token.revoked"@ && (body matches security::BodyV::TokenRevoked { id, secret, repo }
                && s.token == Some(id) && s.token_value == Some(secret) && s.repo == Some(repo))
        },
{
}

/// A change is opened exactly where the answer carries its number; it asks for the run's own branch onto the base.
pub proof fn law_a_change_is_opened_under_its_number(c: RunV, name: Seq<char>, log: LogV)
    ensures
        ({
            let n = pr::body_next(c, pr::BodyV::Open { name }, log);
            let rs = log.rs;
            let number = doc_i64(member(doc_in(rs[0]), "number"@));
            &&& n is Pass <==> rs.len() > 0 && went_well(rs[0]) && number is Some
            &&& rs.len() > 0 && went_well(rs[0]) && number is Some ==> pr::body_found(pr::BodyV::Open { name }, log) == Some(dec_int(number->0))
            &&& rs.len() == 0 ==> n == NextV::Ask(
                posting(
                    api_at(c, "/v1/repos/"@ + c.probe_user + "/"@ + name + "/pulls"@), c.probe_jwt,
                    Doc::Obj(seq![
                        ("title"@, Doc::Str("slo probe "@ + c.run_id)),
                        ("base"@, Doc::Str("main"@)),
                        ("head"@, Doc::Str("slo"@)),
                    ]),
                ),
            )
        }),
{
}

/// A merge has landed exactly where it was asked for well and the refs came to show the base at the change's own commit; and
/// the feed tells it where one event is the merge of just this repo.
pub proof fn law_a_merge_has_landed_and_is_told(c: RunV, name: Seq<char>, number: Seq<char>, target: Seq<char>, log: LogV)
    ensures
        ({
            let n = pr::body_next(c, pr::BodyV::Merge { name, number, target }, log);
            let rs = log.rs;
            &&& n is Pass <==> rs.len() > 1 && went_well(rs[0]) && came(rs[1])
            &&& rs.len() == 0 ==> n == NextV::Ask(
                posting(
                    api_at(c, "/v1/repos/"@ + c.probe_user + "/"@ + name + ("/pulls/"@ + number + "/merge?strategy=fast-forward"@)), c.probe_jwt,
                    Doc::Null,
                ),
            )
            &&& rs.len() == 1 && went_well(rs[0]) ==> waits_until(
                n, api_at(c, "/api/"@ + c.probe_user + "/"@ + name + "/refs"@), c.probe_jwt, 60_000,
                |d: Doc| oid_in(d, "main"@) == Some(target),
            )
        }),
        ({
            let n = pr::body_next(c, pr::BodyV::Feed { name }, log);
            &&& n is Pass <==> log.rs.len() > 0 && came(log.rs[0])
            &&& log.rs.len() == 0 ==> waits_until(
                n, api_at(c, "/v1/activity?owner="@ + c.probe_user), c.probe_jwt, 30_000, |d: Doc| tells_the_merge(d, name),
            )
        }),
        ({
            let n = pr::body_next(c, pr::BodyV::HeadOid { name }, log);
            let rs = log.rs;
            &&& rs.len() == 0 ==> n == NextV::Ask(getting(api_at(c, "/api/"@ + c.probe_user + "/"@ + name + "/refs"@), c.probe_jwt))
            &&& rs.len() > 0 && went_well(rs[0]) ==> pr::body_found(pr::BodyV::HeadOid { name }, log) == oid_in(doc_in(rs[0]), "slo"@)
        }),
{
    assert forall|d: Doc| #[trigger] tells_the_merge(d, name) == pr::merge_in(d, name) by {
        assert(told_rows(d) == pr::events_of(d));
        crate::laws::basics::law_some_row_is_one_of_them(told_rows(d), "kind"@, "pull_merged"@, "repo"@, name);
    }
}

/// The feed, a list or one under `events`, has the merge of just this repo.
pub open spec fn tells_the_merge(feed: Doc, repo: Seq<char>) -> bool {
    exists|i: int|
        0 <= i < told_rows(feed).len() && text_of(#[trigger] told_rows(feed)[i], "kind"@) == Some("pull_merged"@) && text_of(
            told_rows(feed)[i], "repo"@,
        ) == Some(repo)
}

/// What a feed tells: the list under `events`, or the feed itself.
pub open spec fn told_rows(feed: Doc) -> Seq<Doc> {
    match items(member(feed, "events"@)) {
        Some(v) => v,
        None => rows_of(Some(feed)),
    }
}

/// A merge is timed only of the change that was opened, and onto the commit its branch was at; the feed only behind a merge
/// that landed.
pub proof fn law_a_merge_is_of_the_change_that_was_opened(s: StateV, os: Seq<OutcomeV>)
    ensures
        pr::run_move(s, os) matches MoveV::Step { id, body, .. } ==> s.repo is Some && {
            ||| id == "pr.merge.p95"@ && (body matches pr::BodyV::Merge { name, number, target } && name == s.repo->0 && passed_with(os[0])
                == Some(target) && passed_with(os[1]) == Some(number))
            ||| id == "feed.latency"@ && body == (pr::BodyV::Feed { name: s.repo->0 }) && passed(os[2])
        },
{
}

/// Use is stamped exactly where the volume was listed before, the bytes were written by the tool server, and the stamp then
/// came, which is waited for past what it was, for two of the region's beats.
pub proof fn law_use_is_stamped_past_what_it_was(c: RunV, ws: Seq<char>, beat_secs: u64, log: LogV)
    ensures
        ({
            let n = quota_usage::body_next(c, quota_usage::BodyV::Stamp { ws, beat_secs }, log);
            let rs = log.rs;
            let rows = items(Some(doc_in(rs[0])));
            &&& n is Pass <==> {
                &&& rs.len() > 2 && went_well(rs[0]) && came(rs[2])
                &&& rows is Some && row_named(rows->0, "name"@, ws) is Some
                &&& crate::stages::ws::tool_answer(rs[1]) matches Ok((status, out)) && status == 200 && holds(out, "\"exit_code\":0"@)
            }
            &&& rs.len() == 0 ==> n == NextV::Ask(getting(api_at(c, "/v1/volumes"@), c.probe_jwt))
            &&& rs.len() == 2 && n is Ask ==> n == NextV::Ask(
                AskV::Wait(WaitV::Usage {
                    url: api_at(c, "/v1/volumes"@),
                    token: c.probe_jwt,
                    ws,
                    before: (match doc_u64(member(row_named(rows->0, "name"@, ws)->0, "usedBytes"@)) { Some(n) => Some(n as u64), None => None }),
                    secs: quota_usage::waited(beat_secs),
                }),
            )
        }),
        beat_secs <= 1_000_000 ==> quota_usage::waited(beat_secs) == beat_secs * 2,
        ({
            let n = quota_usage::body_next(c, quota_usage::BodyV::Beat, log);
            &&& log.rs.len() == 0 ==> n == NextV::Ask(getting(admin_at(c, "/admin/settings/clusters/"@ + c.region), c.admin_jwt))
            &&& log.rs.len() > 0 && went_well(log.rs[0]) ==> quota_usage::body_found(c, quota_usage::BodyV::Beat, log) == Some(
                dec(match doc_u64(member2(doc_in(log.rs[0]), "spec"@, "syncSecs"@)) { Some(n) => n as u64 as nat, None => c.sync_secs as nat }),
            )
        }),
{
}

/// A sweep at the start claims what is stale, one at the end what the run named; neither anything else.
pub proof fn law_a_run_sweeps_what_is_its_own(c: RunV, s: StateV, now: i64, os: Seq<OutcomeV>, log: LogV)
    ensures
        sweep::boot_move(now, os) matches MoveV::Look { body: sweep::BodyV::Sweep { claim } } ==> claim == (ClaimV::Stale { now }),
        sweep::teardown_move(c, s, os) matches MoveV::Look { body: sweep::BodyV::Sweep { claim } } ==> claim == (ClaimV::Prefix {
            prefix: "run-"@ + c.run_id,
        }),
        sweep::teardown_move(c, s, os) matches MoveV::Look { body: sweep::BodyV::Volume { volume, snapshot } } ==> s.env_volume == Some(volume)
            && snapshot == s.env_snapshot,
        sweep::teardown_move(c, s, os) matches MoveV::Look { body: sweep::BodyV::Hide { repo } } ==> repo == s.repo,
        os.len() < 4 ==> sweep::teardown_move(c, s, os) is Look,
        os.len() < 2 ==> sweep::boot_move(now, os) is Look,
        s.repo is Some && log.rs.len() == 0 ==> sweep::body_next(c, sweep::BodyV::Hide { repo: s.repo }, log) == NextV::Ask(
            patching(
                api_at(c, "/v1/repos/"@ + c.tenant + "/"@ + s.repo->0), c.probe_jwt, Doc::Obj(seq![("visibility"@, Doc::Str("private"@))]),
            ),
        ),
{
}

/// A volume's snapshot goes before the volume; each is asked away by its own name, whatever the one before came to.
pub proof fn law_a_snapshot_goes_before_its_volume(c: RunV, volume: Seq<char>, snapshot: Option<Seq<char>>, log: LogV)
    ensures
        ({
            let n = sweep::body_next(c, sweep::BodyV::Volume { volume, snapshot }, log);
            let whole = deleting(api_at(c, "/v1/volumes/"@ + volume), c.probe_jwt);
            &&& snapshot matches Some(s) ==> {
                &&& log.rs.len() == 0 ==> n == NextV::Ask(deleting(api_at(c, "/v1/volumes/"@ + volume + "/snapshots/"@ + s), c.probe_jwt))
                &&& log.rs.len() == 1 ==> n == NextV::Ask(whole)
                &&& log.rs.len() >= 2 ==> n is Pass
            }
            &&& snapshot is None ==> {
                &&& log.rs.len() == 0 ==> n == NextV::Ask(whole)
                &&& log.rs.len() >= 1 ==> n is Pass
            }
        }),
{
}

/// A kind is listed by its own path and taken away by its own; a request is denied, an image is deleted by a post.
pub proof fn law_a_kind_goes_by_its_own_path(c: RunV, id: Seq<char>)
    ensures
        ({
            let gone = |k: int| sweep::taking(c, k, id);
            let within_owner = |p: Seq<char>| api_at(c, p + "?owner="@ + c.tenant);
            &&& gone(0) == deleting(api_at(c, "/v1/workspaces"@ + "/"@ + id), c.probe_jwt)
            &&& gone(1) == deleting(api_at(c, "/v1/environments"@ + "/"@ + id), c.probe_jwt)
            &&& gone(2) == deleting(api_at(c, "/v1/volumes"@ + "/"@ + id), c.probe_jwt)
            &&& gone(3) == deleting(api_at(c, "/v1/repos/"@ + c.tenant + "/"@ + id), c.probe_jwt)
            &&& gone(4) == deleting(api_at(c, "/v1/tokens"@ + "/"@ + id), c.probe_jwt)
            &&& gone(5) == deleting(api_at(c, "/v1/keys/"@ + crate::stages::gaps::segment(id)), c.probe_jwt)
            &&& gone(6) == deleting(api_at(c, "/v1/cli/tokens"@ + "/"@ + id), c.probe_jwt)
            &&& gone(7) == posting(
                admin_at(c, "/admin/requests/"@ + id + "/deny"@), c.admin_jwt, Doc::Obj(seq![("note"@, Doc::Str("slo probe teardown"@))]),
            )
            &&& gone(8) == posting(api_at(c, "/api/"@ + c.tenant + "/"@ + id + "/imagedelete"@), c.probe_jwt, Doc::Null)
            &&& (sweep::listing(c, 0) matches AskV::Call { url, .. } && url == within_owner("/v1/workspaces"@))
            &&& (sweep::listing(c, 1) matches AskV::Call { url, .. } && url == within_owner("/v1/environments"@))
            &&& (sweep::listing(c, 2) matches AskV::Call { url, .. } && url == within_owner("/v1/volumes"@))
            &&& (sweep::listing(c, 3) matches AskV::Call { url, .. } && url == within_owner("/v1/repos"@))
            &&& (sweep::listing(c, 4) matches AskV::Call { url, .. } && url == within_owner("/v1/tokens"@))
            &&& (sweep::listing(c, 5) matches AskV::Call { url, .. } && url == within_owner("/v1/keys"@))
            &&& (sweep::listing(c, 6) matches AskV::Call { url, .. } && url == within_owner("/v1/cli/tokens"@))
            &&& (sweep::listing(c, 7) matches AskV::Call { url, .. } && url == within_owner("/v1/requests"@))
            &&& (sweep::listing(c, 8) matches AskV::Call { url, .. } && url == api_at(c, "/api/"@ + c.tenant + "/images"@))
        }),
        sweep::NAME_FIELDS[2]@ == "display_name"@ && sweep::ID_FIELDS[2]@ == "name"@,
        sweep::NAME_FIELDS[7]@ == "reason"@ && sweep::ID_FIELDS[7]@ == "id"@,
        sweep::ID_FIELDS[0]@ == "id"@ && sweep::ID_FIELDS[1]@ == "id"@ && sweep::ID_FIELDS[3]@ == "name"@,
        sweep::ID_FIELDS[4]@ == "_id"@ && sweep::ID_FIELDS[5]@ == "_id"@ && sweep::ID_FIELDS[6]@ == "id"@ && sweep::ID_FIELDS[8]@ == "name"@,
{
}

/// A sweep walks every kind, and of each everything that is claimed: it is over only once as many answers came as there were
/// listings and claimed objects in them.
pub proof fn law_a_sweep_goes_through_every_kind(c: RunV, m: ClaimV, k: nat, rs: Seq<ReplyV>)
    requires
        k <= 9,
    ensures
        sweep::sweep_from(c, m, k, rs) is Pass ==> rs.len() >= 9 - k,
        k < 9 && sweep::sweep_from(c, m, k, rs) is Pass ==> rs.len() > sweep::ours(k as int, m, rs[0]).len() && sweep::sweep_from(
            c, m, k + 1, rs.skip(sweep::ours(k as int, m, rs[0]).len() as int + 1),
        ) is Pass,
        k < 9 && 0 < rs.len() <= sweep::ours(k as int, m, rs[0]).len() ==> sweep::sweep_from(c, m, k, rs) == NextV::Ask(
            sweep::taking(c, k as int, sweep::ours(k as int, m, rs[0])[rs.len() - 1].1),
        ),
        k < 9 && rs.len() == 0 ==> sweep::sweep_from(c, m, k, rs) == NextV::Ask(sweep::listing(c, k as int)),
    decreases 9 - k,
{
    if k < 9 && rs.len() > 0 {
        let mine = sweep::ours(k as int, m, rs[0]);
        if rs.len() > mine.len() {
            law_a_sweep_goes_through_every_kind(c, m, k + 1, rs.skip(mine.len() as int + 1));
        }
    }
}

} // verus!
