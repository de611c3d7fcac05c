//! Of a team: its members, its repository, its workspaces and what a pause takes from a member.

use vstd::prelude::*;

use crate::cluster::name_of;
use crate::json::{Doc, column, doc_str, member, member2, row_named, rows_of, text_of};
use crate::laws::console::{begun, collected, listed_login};
use crate::laws::repos::{change_branch, refused_by_the_rule, told_number};
use crate::laws::workspaces::{made_one, one_made, until_ready};
use crate::laws::{answered, came, doc_in, ran_well, turned_away, waits_until, went_well};
use crate::outside::instant_of;
use crate::probes::TriedV;
use crate::run::{RunV, StateV, api_at};
use crate::stages::git::{authed_args, git_asks, http_remote, oid_in, work_tree};
use crate::stages::teams::membership;
use crate::stages::teams::paused;
use crate::stages::teams::paused::{PrepV, bench_at};
use crate::stages::teams::untimed;
use crate::text::{dec_int, holds, no_slash, same_letters, starts, trimmed};
use crate::turn::{MoveV, OutcomeV, passed};
use crate::wait::{WaitV, probe_next};
use crate::wire::{AskV, Cluster, Kind, LogV, NextV, ReplyV, deleting, getting, patching, posting, posting_nothing};

verus! {

proof fn lemma_three_refusals()
    ensures
        forall|s: u16| seq![401u16, 403u16, 404u16].contains(s) <==> s == 401 || s == 403 || s == 404,
        forall|s: u16| seq![409u16, 400u16].contains(s) <==> s == 409 || s == 400,
        forall|s: u16| seq![204u16].contains(s) <==> s == 204,
        forall|s: u16| seq![401u16].contains(s) <==> s == 401,
{
    let a = seq![401u16, 403u16, 404u16];
    assert(a[0] == 401 && a[1] == 403 && a[2] == 404);
    let b = seq![409u16, 400u16];
    assert(b[0] == 409 && b[1] == 400);
    let d = seq![204u16];
    assert(d[0] == 204);
    let e = seq![401u16];
    assert(e[0] == 401);
}

/// A team is made exactly where it was taken and reads back under its own slug; whether it is there, and whether somebody is
/// in it, is what a read of it as them answers.
pub proof fn law_a_team_reads_back_as_itself(c: RunV, slug: Seq<char>, log: LogV)
    ensures
        ({
            let n = membership::body_next(c, membership::BodyV::Create { slug }, log);
            let rs = log.rs;
            &&& n is Pass <==> rs.len() > 1 && went_well(rs[0]) && went_well(rs[1]) && text_of(doc_in(rs[1]), "slug"@) == Some(slug)
            &&& rs.len() == 0 ==> n == NextV::Ask(
                posting(
                    api_at(c, "/v1/teams"@), c.probe_jwt,
                    Doc::Obj(seq![("slug"@, Doc::Str(slug)), ("name"@, Doc::Str("kloudlite slo probe"@))]),
                ),
            )
            &&& rs.len() == 1 && n is Ask ==> n == NextV::Ask(getting(api_at(c, "/v1/teams/"@ + slug), c.probe_jwt))
        }),
        ({
            let n = membership::body_next(c, membership::BodyV::TeamExists { slug }, log);
            &&& n is Pass <==> log.rs.len() > 0 && went_well(log.rs[0])
            &&& log.rs.len() == 0 ==> n == NextV::Ask(getting(api_at(c, "/v1/teams/"@ + slug), c.probe_jwt))
            &&& untimed::body_next(c, untimed::BodyV::TeamExists { slug }, log) == n
        }),
        ({
            let n = membership::body_next(c, membership::BodyV::IsMember { slug }, log);
            &&& n is Pass <==> log.rs.len() > 0 && went_well(log.rs[0])
            &&& log.rs.len() == 0 ==> n == NextV::Ask(getting(api_at(c, "/v1/teams/"@ + slug), c.other_jwt))
            &&& untimed::body_next(c, untimed::BodyV::IsMember { slug }, log) == n
        }),
{
}

/// An invitation is good once: exactly where it was made for the second user, was previewed by them as one into the team, was
/// accepted by them, and a second accept was turned away.
pub proof fn law_an_invitation_is_good_once(c: RunV, slug: Seq<char>, log: LogV)
    ensures
        ({
            let n = membership::body_next(c, membership::BodyV::InviteAccept { slug }, log);
            let rs = log.rs;
            let token = text_of(doc_in(rs[0]), "token"@);
            &&& n is Pass <==> {
                &&& rs.len() > 3 && went_well(rs[0]) && token is Some && token->0.len() > 0
                &&& went_well(rs[1]) && text_of(doc_in(rs[1]), "team"@) == Some(slug)
                &&& went_well(rs[2]) && turned_away(rs[3])
            }
            &&& rs.len() == 0 ==> n == NextV::Ask(
                posting(
                    api_at(c, "/v1/teams/"@ + slug + "/invites"@), c.probe_jwt,
                    Doc::Obj(seq![("email"@, Doc::Str(c.other_email)), ("role"@, Doc::Str("member"@))]),
                ),
            )
            &&& rs.len() == 1 && n is Ask ==> n == NextV::Ask(getting(api_at(c, "/v1/invites/"@ + token->0), c.other_jwt))
            &&& rs.len() == 2 && n is Ask ==> n == NextV::Ask(
                posting(api_at(c, "/v1/invites/"@ + token->0 + "/accept"@), c.other_jwt, Doc::Null),
            )
            &&& rs.len() == 3 && n is Ask ==> n == NextV::Ask(posting_nothing(api_at(c, "/v1/invites/"@ + token->0 + "/accept"@), c.other_jwt))
        }),
{
    lemma_three_refusals();
}

/// A role is set exactly where the change was taken and the team then shows the second user, by an email in whatever case, as
/// an admin.
pub proof fn law_a_role_is_the_one_the_team_shows(c: RunV, slug: Seq<char>, log: LogV)
    ensures
        ({
            let n = membership::body_next(c, membership::BodyV::RoleSet { slug }, log);
            let rs = log.rs;
            &&& n is Pass <==> rs.len() > 1 && went_well(rs[0]) && went_well(rs[1]) && membership::role_in(doc_in(rs[1]), c.other_email) == Some(
                "admin"@,
            )
            &&& rs.len() == 0 ==> n == NextV::Ask(
                patching(
                    api_at(c, "/v1/teams/"@ + slug + "/members/"@ + c.other_email), c.probe_jwt, Doc::Obj(seq![("role"@, Doc::Str("admin"@))]),
                ),
            )
            &&& rs.len() == 1 && n is Ask ==> n == NextV::Ask(getting(api_at(c, "/v1/teams/"@ + slug), c.probe_jwt))
        }),
{
}

/// A role in a team is that of the first member with the email.
pub proof fn law_a_role_is_of_the_first_with_the_email(rows: Seq<Doc>, email: Seq<char>, i: int)
    requires
        0 <= i < rows.len(),
        text_of(rows[i], "email"@) matches Some(t) && same_letters(t, email),
        forall|j: int| 0 <= j < i ==> !(text_of(#[trigger] rows[j], "email"@) matches Some(t) && same_letters(t, email)),
    ensures
        membership::member_of(rows, email) == Some(rows[i]),
        membership::role_in(Doc::Obj(seq![("members"@, Doc::Arr(rows))]), email) == text_of(rows[i], "role"@),
    decreases rows.len(),
{
    reveal_with_fuel(crate::json::field_named, 3);
    if i > 0 {
        let rest = rows.skip(1);
        assert(rest[i - 1] == rows[i]);
        assert(!(text_of(rows[0], "email"@) matches Some(t) && same_letters(t, email)));
        assert forall|j: int| 0 <= j < i - 1 implies !(text_of(#[trigger] rest[j], "email"@) matches Some(t) && same_letters(t, email)) by {
            assert(rest[j] == rows[j + 1]);
        }
        law_a_role_is_of_the_first_with_the_email(rest, email, i - 1);
    }
}

/// Where nobody has the email, nobody is found by it.
pub proof fn law_nobody_without_the_email_is_found(rows: Seq<Doc>, email: Seq<char>)
    requires
        forall|j: int| 0 <= j < rows.len() ==> !(text_of(#[trigger] rows[j], "email"@) matches Some(t) && same_letters(t, email)),
    ensures
        membership::member_of(rows, email) is None,
    decreases rows.len(),
{
    if rows.len() > 0 {
        let rest = rows.skip(1);
        assert(!(text_of(rows[0], "email"@) matches Some(t) && same_letters(t, email)));
        assert forall|j: int| 0 <= j < rest.len() implies !(text_of(#[trigger] rest[j], "email"@) matches Some(t) && same_letters(t, email)) by {
            assert(rest[j] == rows[j + 1]);
        }
        law_nobody_without_the_email_is_found(rest, email);
    }
}

/// A team's workspace is one exactly where it was made under the team, became ready, and has its pod in the team's own
/// namespace.
pub proof fn law_a_teams_workspace_is_in_its_namespace(c: RunV, slug: Seq<char>, ns: Seq<char>, log: LogV)
    ensures
        ({
            let n = membership::body_next(c, membership::BodyV::Workspace { slug, ns }, log);
            let rs = log.rs;
            let id = one_made(rs[0]);
            &&& n is Pass <==> rs.len() > 2 && log.us.len() > 0 && made_one(rs[0]) && came(rs[1]) && starts(ns, "wt-"@) && went_well(rs[2])
            &&& rs.len() == 0 ==> asks_for_a_team_workspace(n, c, slug)
            &&& rs.len() == 1 && made_one(rs[0]) ==> until_ready(n, c, id, 120_000)
            &&& rs.len() == 2 && n is Ask ==> n == NextV::Ask(AskV::Read { cluster: Cluster::Fleet, kind: Kind::Pod, ns, name: id })
            &&& n matches NextV::Undo(u) ==> u == posting_nothing(api_at(c, "/v1/workspaces/"@ + id + "/stop"@), c.probe_jwt)
        }),
        ({
            let n = untimed::body_next(c, untimed::BodyV::Workspace { slug, ns }, log);
            let rs = log.rs;
            let id = one_made(rs[0]);
            &&& n is Pass <==> rs.len() > 2 && made_one(rs[0]) && came(rs[1]) && starts(ns, "wt-"@) && went_well(rs[2])
            &&& rs.len() == 0 ==> asks_for_a_team_workspace(n, c, slug)
            &&& rs.len() == 1 && made_one(rs[0]) ==> until_ready(n, c, id, 120_000)
            &&& rs.len() == 2 && n is Ask ==> n == NextV::Ask(AskV::Read { cluster: Cluster::Fleet, kind: Kind::Pod, ns, name: id })
        }),
{
}

/// A workspace of the run's own name is asked for under the team.
pub open spec fn asks_for_a_team_workspace(n: NextV, c: RunV, slug: Seq<char>) -> bool {
    n == NextV::Ask(
        posting(
            api_at(c, "/v1/workspaces"@), c.probe_jwt,
            Doc::Obj(seq![
                ("team"@, Doc::Str(slug)),
                ("name"@, Doc::Str("run-"@ + c.run_id + "-teamws"@)),
                ("region"@, Doc::Str(c.region)),
                ("quota_gb"@, Doc::Int(1)),
                ("packages"@, Doc::Arr(seq![])),
            ]),
        ),
    )
}

/// A removed member is out exactly where the removal was taken, the read of the team's repo that they had before is then turned
/// away, and so is a new credential under the team.
pub proof fn law_a_removed_member_is_out(c: RunV, slug: Seq<char>, log: LogV)
    ensures
        ({
            let n = membership::body_next(c, membership::BodyV::MemberRemove { slug }, log);
            let rs = log.rs;
            let refs = getting(api_at(c, "/api/"@ + slug + "/"@ + "run-"@ + c.run_id + "-shared"@ + "/refs"@), c.other_jwt);
            &&& n is Pass <==> {
                ||| rs.len() > 3 && went_well(rs[0]) && went_well(rs[1]) && turned_away(rs[2]) && turned_away(rs[3])
                ||| rs.len() > 2 && !went_well(rs[0]) && went_well(rs[1]) && turned_away(rs[2])
            }
            &&& rs.len() == 1 ==> n == NextV::Ask(deleting(api_at(c, "/v1/teams/"@ + slug + "/members/"@ + c.other_email), c.probe_jwt))
            &&& rs.len() == 3 && went_well(rs[0]) && went_well(rs[1]) && turned_away(rs[2]) ==> n == NextV::Ask(
                posting(
                    api_at(c, "/v1/tokens"@), c.other_jwt,
                    Doc::Obj(seq![("owner"@, Doc::Str(slug)), ("name"@, Doc::Str("after-removal"@))]),
                ),
            )
            &&& rs.len() == 0 ==> n == NextV::Ask(getting(api_at(c, "/api/"@ + slug + "/"@ + ("run-"@ + c.run_id + "-shared"@) + "/refs"@), c.other_jwt))
            &&& rs.len() == 2 && went_well(rs[0]) && went_well(rs[1]) ==> n == NextV::Ask(
                getting(api_at(c, "/api/"@ + slug + "/"@ + ("run-"@ + c.run_id + "-shared"@) + "/refs"@), c.other_jwt),
            )
        }),
{
    lemma_three_refusals();
}

/// The workspaces a listing has: the texts under `id`.
pub open spec fn listed_ids(r: ReplyV) -> Seq<Seq<char>> {
    if went_well(r) { column(rows_of(Some(doc_in(r))), "id"@) } else { seq![] }
}

/// A team goes exactly where each of its workspaces was deleted and went, the team was deleted, and its slug was then turned
/// away.
pub proof fn law_a_team_goes_after_its_workspaces(c: RunV, slug: Seq<char>, log: LogV)
    ensures
        ({
            let n = membership::body_next(c, membership::BodyV::Delete { slug }, log);
            let rs = log.rs;
            let ids = listed_ids(rs[0]);
            let k = ids.len() as int;
            &&& n is Pass <==> {
                &&& rs.len() > k + 3 && went_well(rs[0])
                &&& forall|i: int| 1 <= i <= k ==> went_well(#[trigger] rs[i])
                &&& came(rs[k + 1]) && went_well(rs[k + 2]) && turned_away(rs[k + 3])
            }
            &&& rs.len() == 0 ==> n == NextV::Ask(getting(api_at(c, "/v1/workspaces?team="@ + slug), c.probe_jwt))
            &&& 1 <= rs.len() <= k && (forall|i: int| 0 <= i < rs.len() ==> went_well(#[trigger] rs[i])) ==> n == NextV::Ask(
                deleting(api_at(c, "/v1/workspaces/"@ + ids[rs.len() - 1]), c.probe_jwt),
            )
            &&& rs.len() == k + 1 && (forall|i: int| 0 <= i < rs.len() ==> went_well(#[trigger] rs[i])) ==> waits_until(
                n, api_at(c, "/v1/workspaces?team="@ + slug), c.probe_jwt, c.team_drain_ms,
                |d: Doc| crate::want::says(crate::want::WantV::Empty, d),
            )
        }),
        ({
            let n = untimed::body_next(c, untimed::BodyV::Delete { slug }, log);
            let rs = log.rs;
            &&& n is Pass <==> rs.len() > 1 && went_well(rs[0]) && turned_away(rs[1])
            &&& rs.len() == 0 ==> n == NextV::Ask(deleting(api_at(c, "/v1/teams/"@ + slug), c.probe_jwt))
            &&& rs.len() == 1 && n is Ask ==> n == NextV::Ask(getting(api_at(c, "/v1/teams/"@ + slug), c.probe_jwt))
        }),
{
    lemma_three_refusals();
    let rs = log.rs;
    if rs.len() > 0 && went_well(rs[0]) {
        let ids = listed_ids(rs[0]);
        let asks = membership::drops_of(c, ids);
        let rest = rs.skip(1);
        crate::laws::basics::law_asks_in_turn_are_all_made(asks, rest, 0);
        assert(membership::team_ids(rs[0]) == ids);
        if forall|i: int| 1 <= i <= ids.len() ==> went_well(#[trigger] rs[i]) {
            if rs.len() > ids.len() {
                assert forall|i: int| 0 <= i < asks.len() implies i < rest.len() && went_well(#[trigger] rest[i]) by {
                    assert(rest[i] == rs[i + 1]);
                }
            }
        }
        if crate::reply::calls_in_turn(asks, rest, 0) is Pass {
            assert forall|i: int| 1 <= i <= ids.len() implies went_well(#[trigger] rs[i]) by {
                assert(rest[i - 1] == rs[i]);
            }
        }
        if forall|i: int| 0 <= i < rs.len() ==> went_well(#[trigger] rs[i]) {
            assert forall|i: int| 0 <= i < rest.len() implies went_well(#[trigger] rest[i]) by {
                assert(rest[i] == rs[i + 1]);
            }
        }
    }
}

/// Whether a namespace leaked: it is a team's, nothing resolves to it, it has been there for more than three beats, and it is
/// not on its way out.
pub open spec fn is_left_over(row: Doc, keep: Seq<Seq<char>>, now: int, beat_secs: u64) -> bool {
    let age = match doc_str(member2(row, "metadata"@, "creationTimestamp"@)) {
        None => 0,
        Some(t) => match instant_of(t) {
            None => 0,
            Some((secs, _)) => now - secs,
        },
    };
    starts(name_of(row), "wt-"@) && !keep.contains(name_of(row)) && age > 3 * beat_secs && doc_str(member2(row, "status"@, "phase"@)) != Some(
        "Terminating"@,
    )
}

/// The namespaces are reaped exactly where both lists were had and none of the namespaces leaked.
pub proof fn law_no_namespace_is_left_over(c: RunV, now: i64, log: LogV)
    ensures
        ({
            let n = membership::body_next(c, membership::BodyV::NamespaceReaped { now }, log);
            let rs = log.rs;
            let keep = column(rows_of(Some(doc_in(rs[0]))), "namespace"@);
            let rows = rows_of(Some(doc_in(rs[1])));
            &&& n is Pass <==> {
                &&& rs.len() > 1 && went_well(rs[0]) && went_well(rs[1])
                &&& forall|i: int| 0 <= i < rows.len() ==> !is_left_over(#[trigger] rows[i], keep, now as int, c.keys_resync_secs)
            }
            &&& rs.len() == 0 ==> n == NextV::Ask(AskV::List { cluster: Cluster::Fleet, kind: Kind::Workspace, ns: ""@ })
            &&& rs.len() == 1 && n is Ask ==> n == NextV::Ask(AskV::List { cluster: Cluster::Fleet, kind: Kind::Namespace, ns: ""@ })
        }),
{
    let rs = log.rs;
    if rs.len() > 1 && went_well(rs[0]) && went_well(rs[1]) {
        lemma_leaks(rows_of(Some(doc_in(rs[1]))), column(rows_of(Some(doc_in(rs[0]))), "namespace"@), now as int, c.keys_resync_secs);
    }
}

proof fn lemma_leaks(rows: Seq<Doc>, keep: Seq<Seq<char>>, now: int, beat_secs: u64)
    ensures
        membership::leaks(rows, keep, now, beat_secs).len() == 0 <==> forall|i: int|
            0 <= i < rows.len() ==> !is_left_over(#[trigger] rows[i], keep, now, beat_secs),
    decreases rows.len(),
{
    if rows.len() > 0 {
        let before = rows.drop_last();
        lemma_leaks(before, keep, now, beat_secs);
        assert(rows[rows.len() - 1] == rows.last());
        if forall|i: int| 0 <= i < before.len() ==> !is_left_over(#[trigger] before[i], keep, now, beat_secs) {
            assert forall|i: int| 0 <= i < rows.len() - 1 implies !is_left_over(#[trigger] rows[i], keep, now, beat_secs) by {
                assert(before[i] == rows[i]);
            }
        }
        if forall|i: int| 0 <= i < rows.len() ==> !is_left_over(#[trigger] rows[i], keep, now, beat_secs) {
            assert forall|i: int| 0 <= i < before.len() implies !is_left_over(#[trigger] before[i], keep, now, beat_secs) by {
                assert(before[i] == rows[i]);
            }
        }
    }
}

/// Each step is about the run's own team, and is walked only where the team, or the member, is there.
pub proof fn law_a_team_step_is_the_runs_own(c: RunV, s: StateV, ns: Seq<char>, now: i64, os: Seq<OutcomeV>)
    ensures
        ({
            let slug = "run-"@ + c.run_id + "-team"@;
            let shared = "run-"@ + c.run_id + "-shared"@;
            &&& membership::create_move(c, os) matches MoveV::Step { id, body, .. } ==> id == "team.create"@ && body == (membership::BodyV::Create {
                slug,
            })
            &&& membership::invite_accept_move(c, os) matches MoveV::Step { id, body, .. } ==> id == "team.invite.accept"@ && passed(os[0]) && body
                == (membership::BodyV::InviteAccept { slug })
            &&& membership::role_set_move(c, os) matches MoveV::Step { id, body, .. } ==> id == "team.role.set"@ && passed(os[0]) && body == (
            membership::BodyV::RoleSet { slug })
            &&& membership::workspace_move(c, ns, os) matches MoveV::Step { id, body, .. } ==> id == "team.workspace"@ && c.has_kube && passed(os[0])
                && body == (membership::BodyV::Workspace { slug, ns })
            &&& membership::member_remove_move(c, os) matches MoveV::Step { id, body, .. } ==> id == "team.member.remove"@ && passed(os[0]) && body
                == (membership::BodyV::MemberRemove { slug })
            &&& membership::delete_move(c, os) matches MoveV::Step { id, body, .. } ==> id == "team.delete"@ && passed(os[0]) && body == (
            membership::BodyV::Delete { slug })
            &&& membership::namespace_reaped_move(c, now, os) matches MoveV::Step { id, body, .. } ==> id == "team.namespace.reaped"@ && c.has_kube
                && body == (membership::BodyV::NamespaceReaped { now })
            &&& untimed::repo_shared_move(c, os) matches MoveV::Step { id, body, .. } ==> id == "team.repo.shared"@ && passed(os[0]) && passed(os[1])
                && body == (untimed::BodyV::RepoShared { slug, name: shared })
            &&& untimed::workspace_move(c, ns, os) matches MoveV::Step { id, body, .. } ==> id == "team.workspace"@ && passed(os[0]) && body == (
            untimed::BodyV::Workspace { slug, ns })
            &&& untimed::delete_move(c, os) matches MoveV::Step { id, body, .. } ==> id == "team.delete"@ && passed(os[0]) && body == (
            untimed::BodyV::Delete { slug })
            &&& untimed::protection_move(s, os) matches MoveV::Step { id, body, .. } ==> id == "repo.protection"@ && passed(os[0]) && (body
                matches untimed::BodyV::Protection { name } && s.repo == Some(name))
            &&& untimed::close_move(s, os) matches MoveV::Step { id, body, .. } ==> id == "pr.close"@ && passed(os[0]) && (body
                matches untimed::BodyV::Close { name } && s.repo == Some(name))
        }),
{
}

// ── a paused member ─────────────────────────────────────────────────────────

/// A pause is one exactly where it was taken, the member was then refused everywhere, the unpause and the start were taken, the
/// bench came back, and the canary in it reads as it was written; the member is unpaused whatever became of that.
pub proof fn law_a_pause_takes_and_gives_back(
    c: RunV, team: Seq<char>, ns: Seq<char>, bench: Seq<char>, tool: Seq<char>, gateway: Seq<char>, log: LogV,
)
    ensures
        ({
            let n = paused::body_next(c, paused::BodyV::Paused { team, ns, bench, tool, gateway }, log);
            let rs = log.rs;
            let them = api_at(c, "/v1/teams/"@ + team + "/members/"@ + c.probe_email + "/pause"@);
            let back = api_at(c, "/v1/teams/"@ + team + "/members/"@ + c.probe_email + "/unpause"@);
            let at = |k: int| if k < log.at.len() { log.at[k] } else { 0u64 };
            &&& n is Pass <==> {
                &&& rs.len() > 6 && !log.cut && log.us.len() > 0
                &&& went_well(rs[0]) && came(rs[1]) && went_well(rs[2]) && went_well(rs[3]) && came(rs[4]) && rs[5] is Said
                &&& ran_well(rs[6]) && (rs[6] matches ReplyV::Ran { out, .. } && out == "kloudlite-slo-pause-canary"@)
                &&& went_well(log.us[0])
            }
            &&& !log.cut && rs.len() == 0 ==> n == NextV::Ask(posting_nothing(them, c.other_jwt))
            &&& rs.len() == 1 && n is Ask ==> (n matches NextV::Ask(AskV::Wait(WaitV::RefusedEverywhere {
                team: t, tool: tt, gateway: g, member, jwt, bench: b, api_url, ..
            })) && t == team && tt == tool && g == gateway && member == c.probe_user && jwt == c.probe_jwt && b == bench && api_url == c.api_url)
            &&& rs.len() == 2 && n is Ask ==> n == NextV::Ask(posting_nothing(back, c.other_jwt))
            &&& rs.len() == 3 && n is Ask ==> n == NextV::Ask(posting_nothing(api_at(c, "/v1/bench"@ + "/start"@ + "?team="@ + team), c.probe_jwt))
            &&& rs.len() == 4 && n is Ask ==> (n matches NextV::Ask(AskV::Wait(WaitV::BackUp { bench: b, .. })) && b == bench)
            &&& rs.len() == 6 && n is Ask ==> (n matches NextV::Ask(AskV::PodExec { ns: at_ns, pod, container, .. }) && at_ns == ns && rs[5]
                == ReplyV::Said(pod) && container == c.bench_container)
            &&& n matches NextV::Undo(u) ==> u == posting_nothing(back, c.other_jwt)
        }),
{
}

/// A paused member is refused everywhere exactly where their tool token answers 401, the team's listing and a session say in so
/// many words that they are paused, their bench is stopped and shut, and the gateway answers a valid ticket of theirs with a 403.
pub proof fn law_a_pause_is_felt_on_every_surface(
    team: Seq<char>, tool: Seq<char>, gateway: Seq<char>, member: Seq<char>, jwt: Seq<char>, bench: Seq<char>, api_url: Seq<char>, cap_ms: u64, e: u64,
    rs: Seq<ReplyV>,
)
    requires
        tool.len() > 0 && jwt.len() > 0,
    ensures
        ({
            let t = probe_next(WaitV::RefusedEverywhere { team, tool, gateway, member, jwt, bench, api_url, cap_ms }, e, rs);
            let base = no_slash(api_url);
            let said = |r: ReplyV| r matches ReplyV::Answer { status, text } && status == 403 && holds(text, "your access to "@ + team + " is paused"@);
            let shut = |r: ReplyV| went_well(r) && {
                let d = doc_in(r);
                &&& member2(d, "spec"@, "bench"@) matches Some(b) && b != Doc::Null
                &&& doc_str(member2(d, "spec"@, "access"@)) == Some("paused"@)
                &&& doc_str(member2(d, "spec"@, "desiredState"@)) == Some("stopped"@)
                &&& doc_str(member2(d, "status"@, "phase"@)) matches Some(phase) && phase != "ready"@
                &&& doc_str(member2(d, "status"@, "podRef"@)) is None
            };
            &&& t is Yes <==> rs.len() > 5 && answered(rs[0], 401) && said(rs[1]) && said(rs[2]) && shut(rs[3]) && rs[4] is Said && answered(rs[5], 403)
            &&& rs.len() == 0 ==> t == TriedV::Ask(getting(base + "/v1/regions"@, tool))
            &&& rs.len() == 1 && answered(rs[0], 401) ==> t == TriedV::Ask(getting(base + "/v1/workspaces?team="@ + team, jwt))
            &&& rs.len() == 2 && answered(rs[0], 401) && said(rs[1]) ==> t == TriedV::Ask(posting_nothing(base + "/v1/bench/session?team="@ + team, jwt))
            &&& rs.len() == 3 && answered(rs[0], 401) && said(rs[1]) && said(rs[2]) ==> t == TriedV::Ask(
                AskV::Read { cluster: Cluster::Fleet, kind: Kind::Workspace, ns: seq![], name: bench },
            )
            &&& rs.len() == 4 && answered(rs[0], 401) && said(rs[1]) && said(rs[2]) && shut(rs[3]) ==> t is Ask
            &&& rs.len() == 4 ==> (t matches TriedV::Ask(a) ==> a == (AskV::Ticket { user: member, id: bench }))
            &&& rs.len() == 5 ==> (t matches TriedV::Ask(a) ==> (rs[4] matches ReplyV::Said(ticket) && (ticket.len() > 0 ==> a == (AskV::Handshake {
                url: gateway, auth: "Bearer "@ + ticket,
            }))))
        }),
{
    reveal_strlit("ready");
    reveal_strlit("starting");
    reveal_strlit("stopping");
    reveal_strlit("stopped");
    reveal_strlit("failed");
    assert(seq![401u16][0] == 401);
    assert(forall|s: u16| seq![401u16].contains(s) <==> s == 401);
}

/// A bench is up again only where it is one, has full access, is asked to run, is ready and has a pod; each of these is read
/// off the object.
pub proof fn law_a_bench_is_up_by_all_of_its_object(d: Doc)
    ensures
        paused::is_back_up(Some(paused::bench_in(d))) <==> {
            &&& member2(d, "spec"@, "bench"@) matches Some(b) && b != Doc::Null
            &&& doc_str(member2(d, "spec"@, "access"@)) != Some("paused"@)
            &&& doc_str(member2(d, "spec"@, "desiredState"@)) != Some("stopped"@)
            &&& doc_str(member2(d, "status"@, "phase"@)) == Some("ready"@)
            &&& doc_str(member2(d, "status"@, "podRef"@)) is Some
        },
{
    reveal_strlit("ready");
    reveal_strlit("starting");
    reveal_strlit("stopping");
    reveal_strlit("stopped");
    reveal_strlit("failed");
}

/// A preparation is done exactly where the team was made, the member joined, their bench was made and became ready, the canary
/// was written, a login was walked to its end, a tool token was minted with it and seen in the bench, and a session named a
/// gateway.
pub proof fn law_a_pause_is_prepared_step_by_step(c: RunV, team: Seq<char>, ns: Seq<char>, log: LogV)
    ensures
        ({
            let n = paused::body_next(c, paused::BodyV::Prepare { team, ns }, log);
            let rs = log.rs;
            let id = listed_login(rs[10], team + "-tool"@);
            &&& n is Pass <==> {
                &&& rs.len() > 13 && went_well(rs[0])
                &&& went_well(rs[1]) && (text_of(doc_in(rs[1]), "token"@) matches Some(t) && t.len() > 0)
                &&& went_well(rs[2]) && went_well(rs[3]) && came(rs[4]) && rs[5] is Said && ran_well(rs[6])
                &&& begun(rs[7]) && went_well(rs[8]) && collected(rs[9]) && went_well(rs[10]) && id is Some
                &&& answered(rs[11], 204) && came(rs[12]) && went_well(rs[13]) && text_of(doc_in(rs[13]), "gateway"@) is Some
            }
            &&& rs.len() == 2 && n is Ask ==> n == NextV::Ask(
                posting(api_at(c, "/v1/invites/"@ + text_of(doc_in(rs[1]), "token"@)->0 + "/accept"@), c.probe_jwt, Doc::Null),
            )
            &&& rs.len() == 4 && n is Ask ==> waits_until(
                n, bench_at(c, ""@, team), c.probe_jwt, 240_000, |d: Doc| member(d, "phase"@) == Some(Doc::Str("ready"@)),
            )
            &&& rs.len() == 11 && n is Ask ==> n == NextV::Ask(
                posting_nothing(bench_at(c, "/tool-token"@, team), text_of(doc_in(rs[9]), "token"@)->0),
            )
            &&& n matches NextV::Undo(u) ==> u == deleting(api_at(c, "/v1/cli/tokens/"@ + id->0), c.probe_jwt)
        }),
{
    lemma_three_refusals();
}

/// What a preparation leaves is what it was answered: the token that was seen, the gateway that was named, the login's id.
pub proof fn law_a_preparation_leaves_what_it_was_answered(team: Seq<char>, rs: Seq<ReplyV>, p: PrepV)
    ensures
        paused::prep_in(team, rs) == Some(p) <==> {
            &&& rs.len() >= 14 && went_well(rs[13]) && went_well(rs[10])
            &&& text_of(doc_in(rs[13]), "gateway"@) == Some(p.gateway) && listed_login(rs[10], team + "-tool"@) == Some(p.cli_id)
            &&& p.tool == (if ran_well(rs[12]) { trimmed(rs[12]->out) } else { seq![] })
        },
{
}

/// The pause is walked on what was prepared, and what was prepared is taken back: the login is revoked and the team goes.
pub proof fn law_a_pause_is_walked_on_what_was_prepared(
    c: RunV, ns: Seq<char>, bench: Seq<char>, prep: Option<PrepV>, os: Seq<OutcomeV>, log: LogV, id: Seq<char>,
)
    ensures
        ({
            let team = "run-"@ + c.run_id + "-pause"@;
            let m = paused::member_paused_move(c, ns, bench, prep, os);
            &&& m matches MoveV::Step { id, body, .. } ==> id == "team.member.paused"@ && {
                ||| prep is Some && body == (paused::BodyV::Paused { team, ns, bench, tool: prep->0.tool, gateway: prep->0.gateway })
                ||| prep is None && body is Told
            }
            &&& c.has_kube && os.len() == 2 && prep is Some ==> m == (MoveV::Look { body: paused::BodyV::Revoke { id: prep->0.cli_id } })
            &&& c.has_kube && os.len() == 3 && prep is Some ==> m == (MoveV::Look { body: paused::BodyV::Teardown { team } })
            &&& c.has_kube && os.len() == 2 && prep is None ==> m == (MoveV::Look { body: paused::BodyV::Teardown { team } })
        }),
        log.rs.len() == 0 ==> paused::body_next(c, paused::BodyV::Revoke { id }, log) == NextV::Ask(
            deleting(api_at(c, "/v1/cli/tokens/"@ + id), c.probe_jwt),
        ),
        paused::body_next(c, paused::BodyV::Told { why: id }, log) == NextV::Fail(id),
        ({
            let n = paused::body_next(c, paused::BodyV::Teardown { team: id }, log);
            &&& n is Pass <==> log.rs.len() > 2 && went_well(log.rs[1])
            &&& log.rs.len() == 1 ==> n == NextV::Ask(deleting(api_at(c, "/v1/teams/"@ + id), c.other_jwt))
            &&& log.rs.len() == 2 && n is Ask ==> n == NextV::Ask(AskV::DropMembers { team: id })
        }),
{
}

// ── without a time of its own ───────────────────────────────────────────────

/// A branch is protected exactly where the rule was taken and is listed, the forced rewrite was refused for the rule, the
/// change was pushed, opened and merged, the wait for it to land was met, and the rule was removed again.
pub proof fn law_a_branch_refuses_a_rewrite_and_takes_a_change(c: RunV, name: Seq<char>, log: LogV)
    ensures
        ({
            let n = untimed::body_next(c, untimed::BodyV::Protection { name }, log);
            let rs = log.rs;
            let dir = work_tree(c, name);
            let remote = http_remote(c, c.probe_user, name);
            let rules = api_at(c, "/v1/repos/"@ + c.probe_user + "/"@ + name + "/protection"@);
            &&& n is Pass <==> {
                &&& rs.len() > 14 && log.us.len() > 0
                &&& went_well(rs[0]) && went_well(rs[1]) && row_named(rows_of(Some(doc_in(rs[1]))), "pattern"@, "main"@) is Some
                &&& rs[2] is Said && rs[3] is Said && refused_by_the_rule(rs[4])
                &&& rs[5] is Said && rs[6] is Said && rs[7] is Said && rs[8] is Said && rs[9] is Said && rs[10] is Said && rs[11] is Said
                &&& told_number(rs[12]) is Some && went_well(rs[13]) && came(rs[14])
                &&& went_well(log.us[0])
            }
            &&& n matches NextV::Undo(a) ==> a == posting(
                rules, c.probe_jwt, Doc::Obj(seq![("pattern"@, Doc::Str("main"@)), ("remove"@, Doc::Bool(true))]),
            )
            &&& rs.len() == 0 ==> n == NextV::Ask(posting(rules, c.probe_jwt, Doc::Obj(seq![("pattern"@, Doc::Str("main"@))])))
            &&& rs.len() == 4 && n is Ask ==> n == NextV::Ask(
                git_asks(c, authed_args(c, seq!["push"@, "-q"@, "--force"@, remote, "rewrite:"@ + "main"@]), dir),
            )
            &&& rs.len() == 10 && n is Ask ==> n == NextV::Ask(git_asks(c, authed_args(c, seq!["push"@, "-q"@, remote, change_branch(c)]), dir))
            &&& rs.len() == 11 && n is Ask ==> n == NextV::Ask(git_asks(c, seq!["rev-parse"@, change_branch(c)], dir))
            &&& rs.len() == 12 && n is Ask ==> n == NextV::Ask(
                posting(
                    api_at(c, "/v1/repos/"@ + c.probe_user + "/"@ + name + "/pulls"@), c.probe_jwt,
                    Doc::Obj(seq![
                        ("title"@, Doc::Str("slo protection "@ + c.run_id)),
                        ("base"@, Doc::Str("main"@)),
                        ("head"@, Doc::Str(change_branch(c))),
                    ]),
                ),
            )
            &&& rs.len() == 13 && n is Ask ==> n == NextV::Ask(
                posting(
                    api_at(
                        c,
                        "/v1/repos/"@ + c.probe_user + "/"@ + name + "/pulls/"@ + dec_int(told_number(rs[12])->0) + "/merge?strategy=fast-forward"@,
                    ),
                    c.probe_jwt, Doc::Null,
                ),
            )
            &&& rs.len() == 14 && n is Ask && rs[11] is Said ==> waits_until(
                n, api_at(c, "/api/"@ + c.probe_user + "/"@ + name + "/refs"@), c.probe_jwt, 60_000,
                |d: Doc| oid_in(d, "main"@) == Some(trimmed(rs[11]->Said_0)),
            )
        }),
{
}

/// Refs in which the protected branch is elsewhere than at the commit that was pushed do not end the wait for it.
pub proof fn law_a_change_lands_on_the_branch_itself(c: RunV, name: Seq<char>, log: LogV, w: WaitV, pushed: Seq<char>, e: u64, r: ReplyV)
    requires
        log.rs.len() == 14,
        untimed::body_next(c, untimed::BodyV::Protection { name }, log) == NextV::Ask(AskV::Wait(w)),
        log.rs[11] == ReplyV::Said(pushed),
    ensures
        probe_next(w, e, seq![r]) is Yes <==> went_well(r) && (row_named(rows_of(Some(doc_in(r))), "name"@, "refs/heads/"@ + "main"@) matches Some(
            row,
        ) && text_of(row, "oid"@) == Some(trimmed(pushed))),
{
}

/// A closed change is refused its merge exactly where it was opened, was closed, and the merge was answered as a conflict or as
/// a request that cannot be met.
pub proof fn law_a_closed_change_takes_no_merge(c: RunV, name: Seq<char>, log: LogV)
    ensures
        ({
            let n = untimed::body_next(c, untimed::BodyV::Close { name }, log);
            let rs = log.rs;
            let pull = "/v1/repos/"@ + c.probe_user + "/"@ + name + "/pulls/"@ + dec_int(told_number(rs[0])->0);
            &&& n is Pass <==> rs.len() > 2 && told_number(rs[0]) is Some && went_well(rs[1]) && (answered(rs[2], 409) || answered(rs[2], 400))
            &&& rs.len() == 1 && n is Ask ==> n == NextV::Ask(posting(api_at(c, pull + "/close"@), c.probe_jwt, Doc::Null))
            &&& rs.len() == 2 && n is Ask ==> n == NextV::Ask(posting_nothing(api_at(c, pull + "/merge?strategy=fast-forward"@), c.probe_jwt))
        }),
{
    lemma_three_refusals();
}

/// What a team still has is asked away one by one, whatever each comes to, and its repository last.
pub proof fn law_a_team_is_cleared_one_by_one(c: RunV, slug: Seq<char>, log: LogV)
    ensures
        ({
            let n = untimed::body_next(c, untimed::BodyV::Clear { slug }, log);
            let rs = log.rs;
            let ids = listed_ids(rs[0]);
            &&& rs.len() == 0 ==> n == NextV::Ask(getting(api_at(c, "/v1/workspaces?team="@ + slug), c.probe_jwt))
            &&& 1 <= rs.len() <= ids.len() ==> n == NextV::Ask(deleting(api_at(c, "/v1/workspaces/"@ + ids[rs.len() - 1]), c.probe_jwt))
            &&& rs.len() == ids.len() + 1 ==> n == NextV::Ask(
                deleting(api_at(c, "/v1/repos/"@ + slug + "/"@ + ("run-"@ + c.run_id + "-shared"@)), c.probe_jwt),
            )
            &&& n is Pass <==> rs.len() > ids.len() + 1
        }),
{
}

} // verus!
