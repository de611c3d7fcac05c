//! Of a team's repository and of a repo's changes: shared, protected, edited, compared, commented, closed.

use vstd::prelude::*;

use crate::json::{Doc, doc_i64, member, row_named, rows_of, text_of};
use crate::laws::{answered, came, doc_in, turned_away, waits_until, went_well};
use crate::outside::base64_text;
use crate::run::{RunV, StateV, api_at};
use crate::stages::git::{authed_args, git_asks, http_remote, oid_in, work_tree};
use crate::stages::teams::repos::{
    BodyV, body_found, body_next, close_move, comment_move, commit_patch_move, compare_move, protection_move, repo_shared_move, verify_move,
};
use crate::text::{dec_int, holds, trimmed};
use crate::turn::{MoveV, OutcomeV, found_in, passed};
use crate::wait::{WaitV, probe_next};
use crate::wire::{AskV, LogV, NextV, ReplyV, deleting, getting, posting, posting_nothing};

verus! {

/// The number an answer carries.
pub open spec fn told_number(r: ReplyV) -> Option<int> {
    if went_well(r) { doc_i64(member(doc_in(r), "number"@)) } else { None }
}

/// The probe's own branch for the change into the protected one.
pub open spec fn change_branch(c: RunV) -> Seq<char> {
    "run-"@ + c.run_id + "-prot"@
}

/// A branch is protected exactly where the rule was taken and is listed, the forced rewrite was refused for the rule, the
/// change was pushed, opened and merged, the wait for it to land was met, and the rule was removed again.
pub proof fn law_a_protected_branch_takes_a_change_and_no_rewrite(c: RunV, name: Seq<char>, log: LogV)
    ensures
        ({
            let n = body_next(c, BodyV::Protection { name }, log);
            let rs = log.rs;
            &&& n is Pass <==> {
                &&& rs.len() > 14 && !log.cut && log.us.len() > 0
                &&& went_well(rs[0]) && went_well(rs[1]) && row_named(rows_of(Some(doc_in(rs[1]))), "pattern"@, "main"@) is Some
                &&& rs[2] is Said && rs[3] is Said
                &&& refused_by_the_rule(rs[4])
                &&& rs[5] is Said && rs[6] is Said && rs[7] is Said && rs[8] is Said && rs[9] is Said && rs[10] is Said && rs[11] is Said
                &&& told_number(rs[12]) is Some && went_well(rs[13]) && came(rs[14])
                &&& went_well(log.us[0])
            }
            &&& n matches NextV::Undo(a) ==> a == posting(
                api_at(c, "/v1/repos/"@ + c.probe_user + "/"@ + name + "/protection"@), c.probe_jwt,
                Doc::Obj(seq![("pattern"@, Doc::Str("main"@)), ("remove"@, Doc::Bool(true))]),
            )
        }),
{
}

/// A push that the rule turned down: whatever else went wrong is none of its doing.
pub open spec fn refused_by_the_rule(r: ReplyV) -> bool {
    match r {
        ReplyV::Said(_) => false,
        ReplyV::Lost(why) => holds(why, "is protected"@),
        _ => holds(crate::reply::ODD@, "is protected"@),
    }
}

/// The change has landed only where the refs show the protected branch itself at the commit that was pushed: whatever is
/// waited for before the pass, refs in which that branch is elsewhere do not end it.
pub proof fn law_a_change_lands_on_the_protected_branch(
    c: RunV, name: Seq<char>, log: LogV, w: WaitV, pushed: Seq<char>, e: u64, r: ReplyV,
)
    requires
        log.rs.len() == 14,
        body_next(c, BodyV::Protection { name }, log) == NextV::Ask(AskV::Wait(w)),
        log.rs[11] == ReplyV::Said(pushed),
    ensures
        probe_next(w, e, seq![]) == crate::probes::TriedV::Ask(
            getting(api_at(c, "/api/"@ + c.probe_user + "/"@ + name + "/refs"@), c.probe_jwt),
        ),
        probe_next(w, e, seq![r]) is Yes <==> went_well(r) && (row_named(rows_of(Some(doc_in(r))), "name"@, "refs/heads/"@ + "main"@) matches Some(
            row,
        ) && text_of(row, "oid"@) == Some(trimmed(pushed))),
{
}

/// What is asked for on the way, each once what came before it was done: the rule, the rewrite pushed onto the branch with
/// force, the change cut from the branch's own tip, pushed, opened into it, merged, and waited for there.
pub proof fn law_a_protected_branch_is_tried_in_order(c: RunV, name: Seq<char>, log: LogV)
    requires
        body_next(c, BodyV::Protection { name }, log) is Ask,
    ensures
        ({
            let a = body_next(c, BodyV::Protection { name }, log)->Ask_0;
            let rs = log.rs;
            let dir = work_tree(c, name);
            let remote = http_remote(c, c.probe_user, name);
            &&& rs.len() == 0 ==> a == posting(
                api_at(c, "/v1/repos/"@ + c.probe_user + "/"@ + name + "/protection"@), c.probe_jwt,
                Doc::Obj(seq![("pattern"@, Doc::Str("main"@))]),
            )
            &&& rs.len() == 1 ==> a == getting(api_at(c, "/v1/repos/"@ + c.probe_user + "/"@ + name + "/protection"@), c.probe_jwt)
            &&& rs.len() == 4 ==> a == git_asks(
                c, authed_args(c, seq!["push"@, "-q"@, "--force"@, remote, "rewrite:"@ + "main"@]), dir,
            )
            &&& rs.len() == 5 ==> a == git_asks(c, authed_args(c, seq!["fetch"@, "-q"@, remote, "main"@]), dir)
            &&& rs.len() == 6 ==> a == git_asks(c, seq!["checkout"@, "-q"@, "-B"@, change_branch(c), "FETCH_HEAD"@], dir)
            &&& rs.len() == 10 ==> a == git_asks(c, authed_args(c, seq!["push"@, "-q"@, remote, change_branch(c)]), dir)
            &&& rs.len() == 11 ==> a == git_asks(c, seq!["rev-parse"@, change_branch(c)], dir)
            &&& rs.len() == 12 ==> a == posting(
                api_at(c, "/v1/repos/"@ + c.probe_user + "/"@ + name + "/pulls"@), c.probe_jwt,
                Doc::Obj(seq![
                    ("title"@, Doc::Str("slo protection "@ + c.run_id)),
                    ("base"@, Doc::Str("main"@)),
                    ("head"@, Doc::Str(change_branch(c))),
                ]),
            )
            &&& rs.len() == 13 ==> a == posting(
                api_at(
                    c,
                    "/v1/repos/"@ + c.probe_user + "/"@ + name + "/pulls/"@ + dec_int(told_number(rs[12])->0) + "/merge?strategy=fast-forward"@,
                ),
                c.probe_jwt, Doc::Null,
            )
            &&& rs.len() == 14 ==> waits_until(
                NextV::Ask(a), api_at(c, "/api/"@ + c.probe_user + "/"@ + name + "/refs"@), c.probe_jwt, 60_000,
                |d: Doc| oid_in(d, "main"@) == Some(trimmed(rs[11]->Said_0)),
            )
            &&& rs.len() > 15 ==> false
        }),
{
    let rs = log.rs;
    if rs.len() > 11 {
        assert(rs[11] is Said);
    }
}

/// A team's repo is shared exactly where a member minted a credential under the team, the repo was pushed and cloned with it,
/// nobody could read it without, and the credential was revoked where it has an id.
pub proof fn law_a_team_repo_is_its_members_alone(c: RunV, slug: Seq<char>, name: Seq<char>, log: LogV)
    ensures
        ({
            let n = body_next(c, BodyV::RepoShared { slug, name }, log);
            let rs = log.rs;
            &&& n is Pass <==> {
                &&& rs.len() > 8 && !log.cut
                &&& went_well(rs[0]) && (text_of(doc_in(rs[0]), "token"@) matches Some(t) && t.len() > 0)
                &&& rs[1] is Said && rs[2] is Said && rs[3] is Said && rs[4] is Said && rs[5] is Said && rs[6] is Said && rs[7] is Said
                &&& turned_away(rs[8])
                &&& text_of(doc_in(rs[0]), "_id"@) is Some ==> log.us.len() > 0 && went_well(log.us[0])
            }
            &&& n matches NextV::Undo(a) ==> a == deleting(api_at(c, "/v1/tokens/"@ + text_of(doc_in(rs[0]), "_id"@)->0), c.other_jwt)
            &&& rs.len() == 0 ==> n == NextV::Ask(
                posting(
                    api_at(c, "/v1/tokens"@), c.other_jwt,
                    Doc::Obj(seq![("owner"@, Doc::Str(slug)), ("name"@, Doc::Str(c.run_id + "-team"@))]),
                ),
            )
            &&& rs.len() == 6 && n is Ask ==> n == NextV::Ask(
                git_asks(
                    c, with_this_token(rs[0], seq!["push"@, "-q"@, http_remote(c, slug, name), "main"@]),
                    crate::run::tmp_at(c, "team/"@ + name),
                ),
            )
            &&& rs.len() == 7 && n is Ask ==> n == NextV::Ask(
                git_asks(
                    c,
                    with_this_token(rs[0], seq!["clone"@, "-q"@, http_remote(c, slug, name), crate::run::tmp_at(c, "team-clone"@)]),
                    seq![],
                ),
            )
            &&& rs.len() == 8 && n is Ask ==> n == NextV::Ask(
                AskV::Call {
                    verb: crate::wire::Verb::Get,
                    url: http_remote(c, slug, name) + "/info/refs?service=git-upload-pack"@,
                    auth: seq![],
                    accept: seq![],
                    load: crate::wire::PayloadV::Empty,
                    bound_ms: 0,
                },
            )
        }),
{
    reveal_strlit("");
    assert(""@.len() == 0);
    let rs = log.rs;
    if rs.len() > 8 {
        crate::stages::teams::law_only_a_refusal_is_a_refusal("an anonymous read of a private team repo"@, rs[8]);
    }
}

/// Git's arguments with the credential that was minted.
pub open spec fn with_this_token(minted: ReplyV, rest: Seq<Seq<char>>) -> Seq<Seq<char>> {
    seq!["-c"@, "http.extraHeader=Authorization: Basic "@ + base64_text("x:"@ + text_of(doc_in(minted), "token"@)->0)] + rest
}

/// An edit is committed exactly where it was answered with its commit and that commit was then the first of the log.
pub proof fn law_an_edit_is_in_the_log(c: RunV, name: Seq<char>, oid: Seq<char>, log: LogV)
    ensures
        ({
            let n = body_next(c, BodyV::CommitPatch { name }, log);
            let rs = log.rs;
            &&& n is Pass <==> rs.len() > 1 && went_well(rs[0]) && text_of(doc_in(rs[0]), "commit"@) is Some && came(rs[1])
            &&& rs.len() == 1 && went_well(rs[0]) && text_of(doc_in(rs[0]), "commit"@) == Some(oid) ==> waits_until(
                n, api_at(c, "/api/"@ + c.probe_user + "/"@ + name + "/log/"@ + oid), c.probe_jwt, 5_000,
                |d: Doc| d matches Doc::Arr(v) && v.len() > 0 && text_of(v[0], "oid"@) == Some(oid),
            )
            &&& rs.len() == 0 ==> (n matches NextV::Ask(AskV::Call { verb, url, load, .. }) && verb == crate::wire::Verb::Post && url == api_at(
                c, "/v1/repos/"@ + c.probe_user + "/"@ + name + "/commits"@,
            ) && (load matches crate::wire::PayloadV::Doc(d) && text_of(d, "branch"@) == Some("main"@) && text_of(d, "newBranch"@) == Some(
                "run-"@ + c.run_id + "-patch"@,
            )))
        }),
{
    reveal_with_fuel(crate::json::field_named, 5);
    reveal_strlit("branch");
    reveal_strlit("newBranch");
    assert("branch"@.len() != "newBranch"@.len());
}

/// A comparison is right exactly where it lists one commit, and that is the edit's.
pub proof fn law_a_comparison_lists_just_the_edit(c: RunV, name: Seq<char>, oid: Seq<char>, log: LogV)
    ensures
        ({
            let n = body_next(c, BodyV::Compare { name, oid }, log);
            let rs = log.rs;
            let commits = rows_of(member(doc_in(rs[0]), "commits"@));
            &&& n is Pass <==> rs.len() > 0 && went_well(rs[0]) && commits.len() == 1 && text_of(commits[0], "oid"@) == Some(oid)
            &&& rs.len() == 0 ==> n == NextV::Ask(
                getting(
                    api_at(
                        c,
                        "/v1/repos/"@ + c.probe_user + "/"@ + name + "/compare?base="@ + "main"@ + "&head="@ + ("run-"@ + c.run_id + "-patch"@),
                    ),
                    c.probe_jwt,
                ),
            )
        }),
{
}

/// A comment is there exactly where the change it was made on, read back by its number, carries it.
pub proof fn law_a_comment_is_on_its_change(c: RunV, name: Seq<char>, log: LogV)
    ensures
        ({
            let n = body_next(c, BodyV::Comment { name }, log);
            let rs = log.rs;
            let pull = "/v1/repos/"@ + c.probe_user + "/"@ + name + "/pulls/"@ + dec_int(told_number(rs[0])->0);
            &&& n is Pass <==> rs.len() > 2 && told_number(rs[0]) is Some && went_well(rs[1]) && went_well(rs[2]) && row_named(
                rows_of(member(doc_in(rs[2]), "comments"@)), "body"@, "slo probe "@ + c.run_id,
            ) is Some
            &&& rs.len() == 1 && n is Ask ==> n == NextV::Ask(
                posting(api_at(c, pull + "/comments"@), c.probe_jwt, Doc::Obj(seq![("body"@, Doc::Str("slo probe "@ + c.run_id))])),
            )
            &&& rs.len() == 2 && n is Ask ==> n == NextV::Ask(getting(api_at(c, pull), c.probe_jwt))
        }),
{
}

/// A closed change is refused a merge exactly where it was opened and closed and the merge of just that change was answered
/// with a conflict.
pub proof fn law_a_closed_change_is_not_merged(c: RunV, name: Seq<char>, log: LogV)
    ensures
        ({
            let n = body_next(c, BodyV::Close { name }, log);
            let rs = log.rs;
            let pull = "/v1/repos/"@ + c.probe_user + "/"@ + name + "/pulls/"@ + dec_int(told_number(rs[0])->0);
            &&& n is Pass <==> rs.len() > 2 && told_number(rs[0]) is Some && went_well(rs[1]) && answered(rs[2], 409)
            &&& rs.len() == 1 && n is Ask ==> n == NextV::Ask(posting(api_at(c, pull + "/close"@), c.probe_jwt, Doc::Null))
            &&& rs.len() == 2 && n is Ask ==> n == NextV::Ask(posting_nothing(api_at(c, pull + "/merge?strategy=fast-forward"@), c.probe_jwt))
        }),
{
    let allowed = seq![409u16];
    assert(allowed[0] == 409);
    assert(forall|s: u16| allowed.contains(s) <==> s == 409);
}

/// The rest of the repo's: a member is asked for as themselves, a repo is made private, a tip is read off the refs, and a
/// signature is asked for of just the commit.
pub proof fn law_the_rest_of_a_repo(c: RunV, slug: Seq<char>, name: Seq<char>, branch: Seq<char>, oid: Seq<char>, log: LogV)
    ensures
        ({
            let n = body_next(c, BodyV::IsMember { slug }, log);
            &&& log.rs.len() == 0 ==> n == NextV::Ask(getting(api_at(c, "/v1/teams/"@ + slug), c.other_jwt))
            &&& n is Pass <==> log.rs.len() > 0 && went_well(log.rs[0])
        }),
        ({
            let n = body_next(c, BodyV::MakeRepo { slug, name }, log);
            &&& log.rs.len() == 0 ==> n == NextV::Ask(
                posting(
                    api_at(c, "/v1/repos"@), c.probe_jwt,
                    Doc::Obj(seq![("owner"@, Doc::Str(slug)), ("name"@, Doc::Str(name)), ("visibility"@, Doc::Str("private"@))]),
                ),
            )
            &&& n is Pass <==> log.rs.len() > 2 && went_well(log.rs[0])
        }),
        ({
            let n = body_next(c, BodyV::Verify { name, oid }, log);
            &&& log.rs.len() == 0 ==> n == NextV::Ask(
                getting(api_at(c, "/api/"@ + c.probe_user + "/"@ + name + "/signature/"@ + oid), c.probe_jwt),
            )
            &&& n is Pass <==> log.rs.len() > 0 && went_well(log.rs[0])
        }),
        body_found(BodyV::BranchOid { name, branch }, log) == Some(oid) <==> log.rs.len() > 0 && went_well(log.rs[0]) && oid_in(
            doc_in(log.rs[0]), branch,
        ) == Some(oid),
        ({
            let n = body_next(c, BodyV::WorkTree { name }, log);
            &&& log.rs.len() == 0 ==> n == NextV::Ask(AskV::IsDir { path: work_tree(c, name) })
            &&& n is Pass <==> log.rs.len() > 0 && log.rs[0] is Said
        }),
        ({
            let n = body_next(c, BodyV::MakeChange { name }, log);
            n is Pass <==> log.rs.len() > 0 && went_well(log.rs[0]) && text_of(doc_in(log.rs[0]), "commit"@) is Some
        }),
        body_next(c, BodyV::BranchOid { name, branch }, LogV { rs: seq![], ..log }) == NextV::Ask(
            getting(api_at(c, "/api/"@ + c.probe_user + "/"@ + name + "/refs"@), c.probe_jwt),
        ),
{
}

/// Each step is about the run's own repo, team and branches, and is taken only once what it needs was found.
pub proof fn law_a_repo_step_is_on_the_runs_own(c: RunV, s: StateV, os: Seq<OutcomeV>)
    ensures
        repo_shared_move(c, os) matches MoveV::Step { id, body, .. } ==> id == "team.repo.shared"@ && passed(os[0]) && passed(os[1]) && body == (
        BodyV::RepoShared { slug: "run-"@ + c.run_id + "-team"@, name: "run-"@ + c.run_id + "-shared"@ }),
        protection_move(c, s, os) matches MoveV::Step { id, body, .. } ==> id == "repo.protection"@ && passed(os[0]) && (
        body matches BodyV::Protection { name } && s.repo == Some(name)),
        commit_patch_move(s, os) matches MoveV::Step { id, body, .. } ==> id == "repo.commit.patch"@ && (body matches BodyV::CommitPatch {
            name,
        } && s.repo == Some(name)),
        compare_move(c, s, os) matches MoveV::Step { id, body, .. } ==> id == "repo.compare"@ && (body matches BodyV::Compare { name, oid }
            && s.repo == Some(name) && found_in(os[0]) == Some(oid)),
        compare_move(c, s, os) matches MoveV::Look { body } ==> (body matches BodyV::BranchOid { branch, .. } && branch == "run-"@ + c.run_id
            + "-patch"@),
        comment_move(c, s, os) matches MoveV::Step { id, body, .. } ==> id == "pr.comment"@ && found_in(os[0]) is Some && (
        body matches BodyV::Comment { name } && s.repo == Some(name)),
        close_move(c, s, os) matches MoveV::Step { id, body, .. } ==> id == "pr.close"@ && passed(os[0]) && (body matches BodyV::Close {
            name,
        } && s.repo == Some(name)),
        verify_move(c, s, os) matches MoveV::Step { id, body, .. } ==> id == "commit.verify"@ && (body matches BodyV::Verify { name, oid }
            && s.repo == Some(name) && found_in(os[0]) == Some(oid)),
        verify_move(c, s, os) matches MoveV::Look { body } ==> (body matches BodyV::BranchOid { branch, .. } && branch == "main"@),
{
}

} // verus!
