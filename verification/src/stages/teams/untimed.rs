//! The same verbs where a compensation has no time of its own: it follows the body, and only the step's
//! ceiling bounds the two.

use vstd::prelude::*;

use crate::json::{Doc, Json, arr0, int_doc, obj1, obj2, obj3, obj4, obj5, truth, txt};
use crate::reply::{
    all_in_turn, asks_view, call_error, call_failed, codes2, failed, lost_in, lost_within, made, made_full, made_full_of,
    made_of, not_answered, not_answered_by, numbered, numbered_of, take_all, tool_error, tool_error_in, tool_failed,
    tool_failed_in, undo_failed,
};
use crate::run::{Run, RunV, State, StateV, api, api_at, below, joined_path, name, named};
use crate::stages::git::{BASE_BRANCH, authed, authed_args, git, git_asks, http_remote, http_url, work, work_tree};
use crate::stages::identity::{minted_id, token_id_of};
use crate::stages::teams::membership::{
    is_member_body, is_member_next, lacks_pod, podless, team_exists_body, team_exists_next, team_ids, team_workspaces,
};
use crate::stages::teams::repos::{
    make_change_body, make_change_next, make_repo_body, make_repo_next, push_and_clone_body, push_and_clone_next, rewrite_allowed,
    rewrite_bad, rule_missing, rule_unlisted, trimmed_said, trimmed_said_of, work_tree_there_body, work_tree_there_next,
};
use crate::stages::teams::{
    MERGE_CAP_MS, PROTECTION_BODY_MS, PULL_MS, QUOTA_GB, TEAM_REPO_BODY_MS, TEAM_WS_MS, closed_branch, closed_branch_of, prot_branch,
    prot_branch_of, refused, shared_repo, shared_repo_of, team_slug, team_slug_of, unrefused,
};
use crate::text::{cat2, cat3, cat4, cat5, cat7, list2, list3, list4, list5, starts, starts_with, texts};
use crate::turn::{Move, MoveV, Outcome, OutcomeV, failure_or_empty, look, outcomes, passed, reports, reports_exactly, skip, step};
use crate::wait::{Wait, WaitV};
use crate::want::{Want, WantV};
use crate::wire::{
    Ask, AskV, Cluster, Kind, Log, LogV, Next, NextV, ReplyV, afterwards, also, close_after, closing, deleting, end, erase,
    err_of, finally, get, getting, link, post, post_nothing, posting, posting_nothing,
};

verus! {

/// The team's handle.
pub fn slug(c: &Run) -> (r: String)
    ensures
        r@ == team_slug_of(c@),
{
    team_slug(c)
}

/// A credential under the team, and what it is good for. It is revoked once the clone is over, as
/// far as that can be done: what became of the clone is what stands.
pub open spec fn repo_shared_next(c: RunV, slug: Seq<char>, name: Seq<char>, log: LogV) -> NextV {
    let token = made_full("a member could not mint a credential under the team"@, "token"@, "the answer carried no token"@, log.rs[0])->Ok_0;
    link(
        log.rs, 0,
        posting(
            api_at(c, "/v1/tokens"@), c.other_jwt,
            Doc::Obj(seq![("owner"@, Doc::Str(slug)), ("name"@, Doc::Str(c.run_id + "-team"@))]),
        ),
        err_of(made_full("a member could not mint a credential under the team"@, "token"@, "the answer carried no token"@, log.rs[0])),
        match minted_id(log.rs[0]) {
            Some(id) => finally(
                log, push_and_clone_next(c, slug, name, token, log.rs), deleting(api_at(c, "/v1/tokens/"@ + id), c.other_jwt),
            ),
            None => push_and_clone_next(c, slug, name, token, log.rs),
        },
    )
}

fn repo_shared_body(c: &Run, slug: &str, name: &str, log: &Log) -> (n: Next)
    ensures
        n@ == repo_shared_next(c@, slug@, name@, log@),
{
    if log.rs.len() <= 0 {
        return Next::Ask(post(
            api(c, "/v1/tokens"), c.other_jwt.as_str(),
            obj2("owner", txt(slug), "name", txt(cat2(c.run_id.as_str(), "-team").as_str())),
        ));
    }
    let token = match made_full_of("a member could not mint a credential under the team", "token", "the answer carried no token", &log.rs[0]) {
        Err(why) => {
            return Next::Fail(why);
        },
        Ok(t) => t,
    };
    let body = push_and_clone_body(c, slug, name, token.as_str(), log);
    match token_id_of(&log.rs[0]) {
        Some(id) => afterwards(log, body, erase(api(c, cat2("/v1/tokens/", id.as_str()).as_str()), c.other_jwt.as_str())),
        None => body,
    }
}

/// A workspace created under a team lands in the team's namespace and starts there.
pub open spec fn workspace_next(c: RunV, slug: Seq<char>, ns: Seq<char>, rs: Seq<ReplyV>) -> NextV {
    let id = made("could not create the team workspace"@, "id"@, "the answer carried no workspace id"@, rs[0])->Ok_0;
    link(
        rs, 0,
        posting(
            api_at(c, "/v1/workspaces"@), c.probe_jwt,
            Doc::Obj(seq![
                ("team"@, Doc::Str(slug)),
                ("name"@, Doc::Str(named(c, "-teamws"@))),
                ("region"@, Doc::Str(c.region)),
                ("quota_gb"@, Doc::Int(QUOTA_GB as int)),
                ("packages"@, Doc::Arr(seq![])),
            ]),
        ),
        err_of(made("could not create the team workspace"@, "id"@, "the answer carried no workspace id"@, rs[0])),
        link(
            rs, 1,
            AskV::Wait(WaitV::Doc {
                url: api_at(c, "/v1/workspaces/"@ + id),
                token: c.probe_jwt,
                want: WantV::Field { key: "state"@, value: "ready"@ },
                cap_ms: TEAM_WS_MS,
            }),
            lost_in("the team workspace never became ready"@, rs[1]),
            if !starts(ns, "wt-"@) {
                NextV::Fail("a team workspace's namespace is "@ + ns + ", not a team one"@)
            } else {
                link(
                    rs, 2,
                    AskV::Read { cluster: Cluster::Fleet, kind: Kind::Pod, ns, name: id }, podless(ns, rs[2]), NextV::Pass,
                )
            },
        ),
    )
}

fn workspace_body(c: &Run, slug: &str, ns: &str, log: &Log) -> (n: Next)
    ensures
        n@ == workspace_next(c@, slug@, ns@, log@.rs),
{
    if log.rs.len() <= 0 {
        return Next::Ask(post(
            api(c, "/v1/workspaces"), c.probe_jwt.as_str(),
            obj5(
                "team", txt(slug), "name", txt(name(c, "-teamws").as_str()), "region", txt(c.region.as_str()), "quota_gb",
                int_doc(QUOTA_GB), "packages", arr0(),
            ),
        ));
    }
    let id = match made_of("could not create the team workspace", "id", "the answer carried no workspace id", &log.rs[0]) {
        Err(why) => {
            return Next::Fail(why);
        },
        Ok(t) => t,
    };
    if log.rs.len() <= 1 {
        return Next::Ask(Ask::Wait(Wait::Doc {
            url: api(c, cat2("/v1/workspaces/", id.as_str()).as_str()),
            token: c.probe_jwt.clone(),
            want: Want::Field { key: "state".to_owned(), value: "ready".to_owned() },
            cap_ms: TEAM_WS_MS,
        }));
    }
    if let Some(why) = lost_within("the team workspace never became ready", &log.rs[1]) {
        return Next::Fail(why);
    }
    if !starts_with(ns, "wt-") {
        return Next::Fail(cat3("a team workspace's namespace is ", ns, ", not a team one"));
    }
    if log.rs.len() <= 2 {
        return Next::Ask(Ask::Read { cluster: Cluster::Fleet, kind: Kind::Pod, ns: ns.to_owned(), name: id.clone() });
    }
    end(lacks_pod(ns, &log.rs[2]))
}

/// The team's workspaces and its repository, taken away one after the other as far as they can be.
pub open spec fn clear_next(c: RunV, slug: Seq<char>, rs: Seq<ReplyV>) -> NextV {
    also(
        rs, 0, getting(api_at(c, "/v1/workspaces?team="@ + slug), c.probe_jwt),
        all_in_turn(clears_of(c, slug, team_ids(rs[0])), rs.skip(1)),
    )
}

pub open spec fn clears_of(c: RunV, slug: Seq<char>, ids: Seq<Seq<char>>) -> Seq<AskV> {
    Seq::new(ids.len(), |i: int| deleting(api_at(c, "/v1/workspaces/"@ + ids[i]), c.probe_jwt)).push(
        deleting(api_at(c, "/v1/repos/"@ + slug + "/"@ + shared_repo_of(c)), c.probe_jwt),
    )
}

fn clears(c: &Run, slug: &str, ids: &Vec<String>) -> (r: Vec<Ask>)
    ensures
        asks_view(r@) == clears_of(c@, slug@, texts(ids@)),
{
    let mut r: Vec<Ask> = Vec::new();
    let mut i: usize = 0;
    while i < ids.len()
        invariant
            i <= ids@.len(),
            r@.len() == i,
            forall|k: int| 0 <= k < i ==> (#[trigger] r@[k])@ == clears_of(c@, slug@, texts(ids@))[k],
        decreases ids.len() - i,
    {
        r.push(erase(api(c, cat2("/v1/workspaces/", ids[i].as_str()).as_str()), c.probe_jwt.as_str()));
        i = i + 1;
    }
    r.push(erase(api(c, cat4("/v1/repos/", slug, "/", shared_repo(c).as_str()).as_str()), c.probe_jwt.as_str()));
    proof {
        assert(asks_view(r@) =~= clears_of(c@, slug@, texts(ids@)));
    }
    r
}

fn clear_body(c: &Run, slug: &str, log: &Log) -> (n: Next)
    ensures
        n@ == clear_next(c@, slug@, log@.rs),
{
    if log.rs.len() <= 0 {
        return Next::Ask(get(api(c, cat2("/v1/workspaces?team=", slug).as_str()), c.probe_jwt.as_str()));
    }
    take_all(clears(c, slug, &team_workspaces(&log.rs[0])), &log.rs, 1)
}

/// The team goes, and its slug is refused.
pub open spec fn delete_next(c: RunV, slug: Seq<char>, rs: Seq<ReplyV>) -> NextV {
    link(
        rs, 0, deleting(api_at(c, "/v1/teams/"@ + slug), c.probe_jwt), call_failed("could not delete the team"@, rs[0]),
        link(rs, 1, getting(api_at(c, "/v1/teams/"@ + slug), c.probe_jwt), unrefused("a deleted team"@, rs[1]), NextV::Pass),
    )
}

fn delete_body(c: &Run, slug: &str, log: &Log) -> (n: Next)
    ensures
        n@ == delete_next(c@, slug@, log@.rs),
{
    if log.rs.len() <= 0 {
        return Next::Ask(erase(api(c, cat2("/v1/teams/", slug).as_str()), c.probe_jwt.as_str()));
    }
    if let Some(why) = failed("could not delete the team", &log.rs[0]) {
        return Next::Fail(why);
    }
    if log.rs.len() <= 1 {
        return Next::Ask(get(api(c, cat2("/v1/teams/", slug).as_str()), c.probe_jwt.as_str()));
    }
    end(refused("a deleted team", &log.rs[1]))
}

/// A rewrite of the branch is refused, and a change that goes through a pull request still lands.
/// The change is cut from the working tree's own copy of the branch.
pub open spec fn refuse_then_merge_next(c: RunV, name: Seq<char>, rs: Seq<ReplyV>) -> NextV {
    let target = trimmed_said(rs[11])->Ok_0;
    let number = numbered("could not open the change"@, rs[12])->Ok_0;
    link(
        rs, 2,
        git_asks(c, seq!["checkout"@, "-q"@, "--orphan"@, "rewrite"@], work_tree(c, name)), tool_error(rs[2]),
        link(
            rs, 3,
            git_asks(c, seq!["commit"@, "-q"@, "--allow-empty"@, "-m"@, "rewrite"@], work_tree(c, name)), tool_error(rs[3]),
            link(
                rs, 4,
                git_asks(
                    c,
                    authed_args(
                        c,
                        seq!["push"@, "-q"@, "--force"@, http_remote(c, c.probe_user, name), "rewrite:"@ + BASE_BRANCH@],
                    ),
                    work_tree(c, name),
                ),
                rewrite_allowed(rs[4]),
                link(
                    rs, 5,
                    git_asks(c, seq!["checkout"@, "-q"@, BASE_BRANCH@], work_tree(c, name)), tool_error(rs[5]),
                    link(
                        rs, 6,
                        git_asks(c, seq!["checkout"@, "-q"@, "-b"@, prot_branch_of(c)], work_tree(c, name)), tool_error(rs[6]),
                        link(
                            rs, 7,
                            AskV::Write { path: joined_path(work_tree(c, name), "protected.txt"@), text: c.run_id + "\n"@ },
                            tool_error_in("could not write protected.txt"@, rs[7]),
                            link(
                                rs, 8, git_asks(c, seq!["add"@, "-A"@], work_tree(c, name)), tool_error(rs[8]),
                                link(
                                    rs, 9,
                                    git_asks(c, seq!["commit"@, "-q"@, "-m"@, "through a pull request"@], work_tree(c, name)),
                                    tool_error(rs[9]),
                                    link(
                                        rs, 10,
                                        git_asks(
                                            c,
                                            authed_args(
                                                c,
                                                seq!["push"@, "-q"@, http_remote(c, c.probe_user, name), prot_branch_of(c)],
                                            ),
                                            work_tree(c, name),
                                        ),
                                        tool_error_in("could not push the change branch"@, rs[10]),
                                        link(
                                            rs, 11,
                                            git_asks(c, seq!["rev-parse"@, prot_branch_of(c)], work_tree(c, name)),
                                            err_of(trimmed_said(rs[11])),
                                            link(
                                                rs, 12,
                                                posting(
                                                    api_at(c, "/v1/repos/"@ + c.probe_user + "/"@ + name + "/pulls"@),
                                                    c.probe_jwt,
                                                    Doc::Obj(seq![
                                                        ("title"@, Doc::Str("slo protection "@ + c.run_id)),
                                                        ("base"@, Doc::Str(BASE_BRANCH@)),
                                                        ("head"@, Doc::Str(prot_branch_of(c))),
                                                    ]),
                                                ),
                                                err_of(numbered("could not open the change"@, rs[12])),
                                                link(
                                                    rs, 13,
                                                    posting(
                                                        api_at(
                                                            c,
                                                            "/v1/repos/"@ + c.probe_user + "/"@ + name + "/pulls/"@ + number
                                                                + "/merge?strategy=fast-forward"@,
                                                        ),
                                                        c.probe_jwt, Doc::Null,
                                                    ),
                                                    call_failed("could not ask for the merge"@, rs[13]),
                                                    link(
                                                        rs, 14,
                                                        AskV::Wait(WaitV::Doc {
                                                            url: api_at(c, "/api/"@ + c.probe_user + "/"@ + name + "/refs"@),
                                                            token: c.probe_jwt,
                                                            want: WantV::Branch { branch: BASE_BRANCH@, oid: target },
                                                            cap_ms: MERGE_CAP_MS,
                                                        }),
                                                        lost_in("the merge into a protected branch never landed"@, rs[14]),
                                                        NextV::Pass,
                                                    ),
                                                ),
                                            ),
                                        ),
                                    ),
                                ),
                            ),
                        ),
                    ),
                ),
            ),
        ),
    )
}

fn refuse_then_merge_body(c: &Run, name: &str, log: &Log) -> (n: Next)
    ensures
        n@ == refuse_then_merge_next(c@, name@, log@.rs),
{
    if log.rs.len() <= 2 {
        return Next::Ask(git(c, list4("checkout", "-q", "--orphan", "rewrite"), work(c, name)));
    }
    if let Some(why) = tool_failed(&log.rs[2]) {
        return Next::Fail(why);
    }
    if log.rs.len() <= 3 {
        return Next::Ask(git(c, list5("commit", "-q", "--allow-empty", "-m", "rewrite"), work(c, name)));
    }
    if let Some(why) = tool_failed(&log.rs[3]) {
        return Next::Fail(why);
    }
    if log.rs.len() <= 4 {
        return Next::Ask(git(
            c,
            authed(
                c,
                list5(
                    "push", "-q", "--force", http_url(c, c.probe_user.as_str(), name).as_str(),
                    cat2("rewrite:", BASE_BRANCH).as_str(),
                ),
            ),
            work(c, name),
        ));
    }
    if let Some(why) = rewrite_bad(&log.rs[4]) {
        return Next::Fail(why);
    }
    if log.rs.len() <= 5 {
        return Next::Ask(git(c, list3("checkout", "-q", BASE_BRANCH), work(c, name)));
    }
    if let Some(why) = tool_failed(&log.rs[5]) {
        return Next::Fail(why);
    }
    if log.rs.len() <= 6 {
        return Next::Ask(git(c, list4("checkout", "-q", "-b", prot_branch(c).as_str()), work(c, name)));
    }
    if let Some(why) = tool_failed(&log.rs[6]) {
        return Next::Fail(why);
    }
    if log.rs.len() <= 7 {
        return Next::Ask(Ask::Write {
            path: below(work(c, name).as_str(), "protected.txt"),
            text: cat2(c.run_id.as_str(), "\n"),
        });
    }
    if let Some(why) = tool_failed_in("could not write protected.txt", &log.rs[7]) {
        return Next::Fail(why);
    }
    if log.rs.len() <= 8 {
        return Next::Ask(git(c, list2("add", "-A"), work(c, name)));
    }
    if let Some(why) = tool_failed(&log.rs[8]) {
        return Next::Fail(why);
    }
    if log.rs.len() <= 9 {
        return Next::Ask(git(c, list4("commit", "-q", "-m", "through a pull request"), work(c, name)));
    }
    if let Some(why) = tool_failed(&log.rs[9]) {
        return Next::Fail(why);
    }
    if log.rs.len() <= 10 {
        return Next::Ask(git(
            c,
            authed(c, list4("push", "-q", http_url(c, c.probe_user.as_str(), name).as_str(), prot_branch(c).as_str())),
            work(c, name),
        ));
    }
    if let Some(why) = tool_failed_in("could not push the change branch", &log.rs[10]) {
        return Next::Fail(why);
    }
    if log.rs.len() <= 11 {
        return Next::Ask(git(c, list2("rev-parse", prot_branch(c).as_str()), work(c, name)));
    }
    let target = match trimmed_said_of(&log.rs[11]) {
        Err(why) => {
            return Next::Fail(why);
        },
        Ok(t) => t,
    };
    if log.rs.len() <= 12 {
        return Next::Ask(post(
            api(c, cat5("/v1/repos/", c.probe_user.as_str(), "/", name, "/pulls").as_str()), c.probe_jwt.as_str(),
            obj3(
                "title", txt(cat2("slo protection ", c.run_id.as_str()).as_str()), "base", txt(BASE_BRANCH), "head",
                txt(prot_branch(c).as_str()),
            ),
        ));
    }
    let number = match numbered_of("could not open the change", &log.rs[12]) {
        Err(why) => {
            return Next::Fail(why);
        },
        Ok(t) => t,
    };
    if log.rs.len() <= 13 {
        return Next::Ask(post(
            api(
                c,
                cat7(
                    "/v1/repos/", c.probe_user.as_str(), "/", name, "/pulls/", number.as_str(), "/merge?strategy=fast-forward",
                ).as_str(),
            ),
            c.probe_jwt.as_str(), Json::Null,
        ));
    }
    if let Some(why) = failed("could not ask for the merge", &log.rs[13]) {
        return Next::Fail(why);
    }
    if log.rs.len() <= 14 {
        return Next::Ask(Ask::Wait(Wait::Doc {
            url: api(c, cat5("/api/", c.probe_user.as_str(), "/", name, "/refs").as_str()),
            token: c.probe_jwt.clone(),
            want: Want::Branch { branch: BASE_BRANCH.to_owned(), oid: target.clone() },
            cap_ms: MERGE_CAP_MS,
        }));
    }
    end(lost_within("the merge into a protected branch never landed", &log.rs[14]))
}

/// The branch is protected for the length of one try, and unprotected once that is over.
pub open spec fn protection_next(c: RunV, name: Seq<char>, log: LogV) -> NextV {
    link(
        log.rs, 0,
        posting(
            api_at(c, "/v1/repos/"@ + c.probe_user + "/"@ + name + "/protection"@), c.probe_jwt,
            Doc::Obj(seq![("pattern"@, Doc::Str(BASE_BRANCH@))]),
        ),
        call_failed("could not protect the branch"@, log.rs[0]),
        link(
            log.rs, 1,
            getting(api_at(c, "/v1/repos/"@ + c.probe_user + "/"@ + name + "/protection"@), c.probe_jwt),
            rule_unlisted(log.rs[1]),
            closing(
                log, refuse_then_merge_next(c, name, log.rs),
                posting(
                    api_at(c, "/v1/repos/"@ + c.probe_user + "/"@ + name + "/protection"@), c.probe_jwt,
                    Doc::Obj(seq![("pattern"@, Doc::Str(BASE_BRANCH@)), ("remove"@, Doc::Bool(true))]),
                ),
                call_failed("`main` was left PROTECTED"@, log.us[0]),
            ),
        ),
    )
}

fn protection_body(c: &Run, name: &str, log: &Log) -> (n: Next)
    ensures
        n@ == protection_next(c@, name@, log@),
{
    if log.rs.len() <= 0 {
        return Next::Ask(post(
            api(c, cat5("/v1/repos/", c.probe_user.as_str(), "/", name, "/protection").as_str()), c.probe_jwt.as_str(),
            obj1("pattern", txt(BASE_BRANCH)),
        ));
    }
    if let Some(why) = failed("could not protect the branch", &log.rs[0]) {
        return Next::Fail(why);
    }
    if log.rs.len() <= 1 {
        return Next::Ask(get(
            api(c, cat5("/v1/repos/", c.probe_user.as_str(), "/", name, "/protection").as_str()), c.probe_jwt.as_str(),
        ));
    }
    if let Some(why) = rule_missing(&log.rs[1]) {
        return Next::Fail(why);
    }
    close_after(
        log, refuse_then_merge_body(c, name, log),
        post(
            api(c, cat5("/v1/repos/", c.probe_user.as_str(), "/", name, "/protection").as_str()), c.probe_jwt.as_str(),
            obj2("pattern", txt(BASE_BRANCH), "remove", truth(true)),
        ),
        undo_failed("`main` was left PROTECTED", log),
    )
}

/// A closed change is refused a merge: as a conflict of state, or as a request that cannot be met.
pub open spec fn close_next(c: RunV, name: Seq<char>, rs: Seq<ReplyV>) -> NextV {
    let number = numbered("could not open the change"@, rs[0])->Ok_0;
    link(
        rs, 0,
        posting(
            api_at(c, "/v1/repos/"@ + c.probe_user + "/"@ + name + "/pulls"@), c.probe_jwt,
            Doc::Obj(seq![
                ("title"@, Doc::Str("slo close "@ + c.run_id)),
                ("body"@, Doc::Str(""@)),
                ("base"@, Doc::Str(BASE_BRANCH@)),
                ("head"@, Doc::Str(closed_branch_of(c))),
            ]),
        ),
        err_of(numbered("could not open the change"@, rs[0])),
        link(
            rs, 1,
            posting(
                api_at(c, "/v1/repos/"@ + c.probe_user + "/"@ + name + "/pulls/"@ + number + "/close"@), c.probe_jwt,
                Doc::Null,
            ),
            call_failed("could not close the change"@, rs[1]),
            link(
                rs, 2,
                posting_nothing(
                    api_at(
                        c,
                        "/v1/repos/"@ + c.probe_user + "/"@ + name + "/pulls/"@ + number + "/merge?strategy=fast-forward"@,
                    ),
                    c.probe_jwt,
                ),
                not_answered("merging a closed change"@, seq![409u16, 400u16], rs[2]), NextV::Pass,
            ),
        ),
    )
}

fn close_body(c: &Run, name: &str, log: &Log) -> (n: Next)
    ensures
        n@ == close_next(c@, name@, log@.rs),
{
    if log.rs.len() <= 0 {
        return Next::Ask(post(
            api(c, cat5("/v1/repos/", c.probe_user.as_str(), "/", name, "/pulls").as_str()), c.probe_jwt.as_str(),
            obj4(
                "title", txt(cat2("slo close ", c.run_id.as_str()).as_str()), "body", txt(""), "base", txt(BASE_BRANCH),
                "head", txt(closed_branch(c).as_str()),
            ),
        ));
    }
    let number = match numbered_of("could not open the change", &log.rs[0]) {
        Err(why) => {
            return Next::Fail(why);
        },
        Ok(t) => t,
    };
    if log.rs.len() <= 1 {
        return Next::Ask(post(
            api(c, cat7("/v1/repos/", c.probe_user.as_str(), "/", name, "/pulls/", number.as_str(), "/close").as_str()),
            c.probe_jwt.as_str(), Json::Null,
        ));
    }
    if let Some(why) = failed("could not close the change", &log.rs[1]) {
        return Next::Fail(why);
    }
    if log.rs.len() <= 2 {
        return Next::Ask(post_nothing(
            api(
                c,
                cat7(
                    "/v1/repos/", c.probe_user.as_str(), "/", name, "/pulls/", number.as_str(), "/merge?strategy=fast-forward",
                ).as_str(),
            ),
            c.probe_jwt.as_str(),
        ));
    }
    end(not_answered_by("merging a closed change", &codes2(409, 400), &log.rs[2]))
}

pub enum Body {
    TeamExists { slug: String },
    IsMember { slug: String },
    MakeRepo { slug: String, name: String },
    RepoShared { slug: String, name: String },
    Workspace { slug: String, ns: String },
    Clear { slug: String },
    Delete { slug: String },
    WorkTree { name: String },
    Protection { name: String },
    MakeChange { name: String },
    Close { name: String },
}

pub enum BodyV {
    TeamExists { slug: Seq<char> },
    IsMember { slug: Seq<char> },
    MakeRepo { slug: Seq<char>, name: Seq<char> },
    RepoShared { slug: Seq<char>, name: Seq<char> },
    Workspace { slug: Seq<char>, ns: Seq<char> },
    Clear { slug: Seq<char> },
    Delete { slug: Seq<char> },
    WorkTree { name: Seq<char> },
    Protection { name: Seq<char> },
    MakeChange { name: Seq<char> },
    Close { name: Seq<char> },
}

impl View for Body {
    type V = BodyV;

    open spec fn view(&self) -> BodyV {
        match self {
            Body::TeamExists { slug } => BodyV::TeamExists { slug: slug@ },
            Body::IsMember { slug } => BodyV::IsMember { slug: slug@ },
            Body::MakeRepo { slug, name } => BodyV::MakeRepo { slug: slug@, name: name@ },
            Body::RepoShared { slug, name } => BodyV::RepoShared { slug: slug@, name: name@ },
            Body::Workspace { slug, ns } => BodyV::Workspace { slug: slug@, ns: ns@ },
            Body::Clear { slug } => BodyV::Clear { slug: slug@ },
            Body::Delete { slug } => BodyV::Delete { slug: slug@ },
            Body::WorkTree { name } => BodyV::WorkTree { name: name@ },
            Body::Protection { name } => BodyV::Protection { name: name@ },
            Body::MakeChange { name } => BodyV::MakeChange { name: name@ },
            Body::Close { name } => BodyV::Close { name: name@ },
        }
    }
}

/// What a body does next.
pub open spec fn body_next(c: RunV, b: BodyV, log: LogV) -> NextV {
    match b {
        BodyV::TeamExists { slug } => team_exists_next(c, slug, log.rs),
        BodyV::IsMember { slug } => is_member_next(c, slug, log.rs),
        BodyV::MakeRepo { slug, name } => make_repo_next(c, slug, name, log.rs),
        BodyV::RepoShared { slug, name } => repo_shared_next(c, slug, name, log),
        BodyV::Workspace { slug, ns } => workspace_next(c, slug, ns, log.rs),
        BodyV::Clear { slug } => clear_next(c, slug, log.rs),
        BodyV::Delete { slug } => delete_next(c, slug, log.rs),
        BodyV::WorkTree { name } => work_tree_there_next(c, name, log.rs),
        BodyV::Protection { name } => protection_next(c, name, log),
        BodyV::MakeChange { name } => make_change_next(c, name, log.rs),
        BodyV::Close { name } => close_next(c, name, log.rs),
    }
}

impl Body {
    pub fn next(&self, c: &Run, log: &Log) -> (n: Next)
        ensures
            n@ == body_next(c@, self@, log@),
    {
        match self {
            Body::TeamExists { slug } => team_exists_body(c, slug.as_str(), log),
            Body::IsMember { slug } => is_member_body(c, slug.as_str(), log),
            Body::MakeRepo { slug, name } => make_repo_body(c, slug.as_str(), name.as_str(), log),
            Body::RepoShared { slug, name } => repo_shared_body(c, slug.as_str(), name.as_str(), log),
            Body::Workspace { slug, ns } => workspace_body(c, slug.as_str(), ns.as_str(), log),
            Body::Clear { slug } => clear_body(c, slug.as_str(), log),
            Body::Delete { slug } => delete_body(c, slug.as_str(), log),
            Body::WorkTree { name } => work_tree_there_body(c, name.as_str(), log),
            Body::Protection { name } => protection_body(c, name.as_str(), log),
            Body::MakeChange { name } => make_change_body(c, name.as_str(), log),
            Body::Close { name } => close_body(c, name.as_str(), log),
        }
    }
}

pub open spec fn repo_shared_move(c: RunV, os: Seq<OutcomeV>) -> MoveV<BodyV> {
    let id = "team.repo.shared"@;
    let slug = team_slug_of(c);
    let name = shared_repo_of(c);
    if os.len() == 0 {
        MoveV::Look { body: BodyV::IsMember { slug } }
    } else if !passed(os[0]) {
        if os.len() == 1 { MoveV::Skip { id, why: "the second user never joined the team"@ } } else { MoveV::End }
    } else if os.len() == 1 {
        MoveV::Look { body: BodyV::MakeRepo { slug, name } }
    } else if os.len() == 2 {
        if passed(os[1]) {
            MoveV::Step { id, ceiling_ms: TEAM_REPO_BODY_MS, body: BodyV::RepoShared { slug, name } }
        } else {
            MoveV::Skip { id, why: "no team repo: "@ + failure_or_empty(os[1]) }
        }
    } else {
        MoveV::End
    }
}

/// `team.repo.shared`.
pub fn repo_shared(c: &Run, os: &Vec<Outcome>) -> (m: Move<Body>)
    ensures
        m@ == repo_shared_move(c@, outcomes(os@)),
{
    let id = "team.repo.shared";
    let name = shared_repo(c);
    if os.len() == 0 {
        look(Body::IsMember { slug: slug(c) })
    } else if !os[0].passed() {
        if os.len() == 1 { skip(id, "the second user never joined the team") } else { Move::End }
    } else if os.len() == 1 {
        look(Body::MakeRepo { slug: slug(c), name })
    } else if os.len() == 2 {
        if os[1].passed() {
            step(id, TEAM_REPO_BODY_MS, Body::RepoShared { slug: slug(c), name })
        } else {
            skip(id, cat2("no team repo: ", os[1].failure_or_empty().as_str()).as_str())
        }
    } else {
        Move::End
    }
}

pub open spec fn workspace_move(c: RunV, ns: Seq<char>, os: Seq<OutcomeV>) -> MoveV<BodyV> {
    let id = "team.workspace"@;
    if !c.has_kube {
        if os.len() == 0 { MoveV::Skip { id, why: "no kubeconfig"@ } } else { MoveV::End }
    } else if os.len() == 0 {
        MoveV::Look { body: BodyV::TeamExists { slug: team_slug_of(c) } }
    } else if !passed(os[0]) {
        if os.len() == 1 { MoveV::Skip { id, why: "the team was never created"@ } } else { MoveV::End }
    } else if os.len() == 1 {
        MoveV::Step { id, ceiling_ms: TEAM_WS_MS, body: BodyV::Workspace { slug: team_slug_of(c), ns } }
    } else {
        MoveV::End
    }
}

/// `team.workspace`. `ns` is the namespace the team's workspaces belong in.
pub fn workspace(c: &Run, ns: &str, os: &Vec<Outcome>) -> (m: Move<Body>)
    ensures
        m@ == workspace_move(c@, ns@, outcomes(os@)),
{
    let id = "team.workspace";
    if !c.has_kube {
        if os.len() == 0 { skip(id, "no kubeconfig") } else { Move::End }
    } else if os.len() == 0 {
        look(Body::TeamExists { slug: slug(c) })
    } else if !os[0].passed() {
        if os.len() == 1 { skip(id, "the team was never created") } else { Move::End }
    } else if os.len() == 1 {
        step(id, TEAM_WS_MS, Body::Workspace { slug: slug(c), ns: ns.to_owned() })
    } else {
        Move::End
    }
}

pub open spec fn delete_move(c: RunV, os: Seq<OutcomeV>) -> MoveV<BodyV> {
    let id = "team.delete"@;
    if os.len() == 0 {
        MoveV::Look { body: BodyV::TeamExists { slug: team_slug_of(c) } }
    } else if !passed(os[0]) {
        if os.len() == 1 { MoveV::Skip { id, why: "the team was never created"@ } } else { MoveV::End }
    } else if os.len() == 1 {
        MoveV::Look { body: BodyV::Clear { slug: team_slug_of(c) } }
    } else if os.len() == 2 {
        MoveV::Step { id, ceiling_ms: 30_000, body: BodyV::Delete { slug: team_slug_of(c) } }
    } else {
        MoveV::End
    }
}

/// `team.delete`: the workspaces and the repository go first, as far as they can.
pub fn delete(c: &Run, os: &Vec<Outcome>) -> (m: Move<Body>)
    ensures
        m@ == delete_move(c@, outcomes(os@)),
{
    let id = "team.delete";
    if os.len() == 0 {
        look(Body::TeamExists { slug: slug(c) })
    } else if !os[0].passed() {
        if os.len() == 1 { skip(id, "the team was never created") } else { Move::End }
    } else if os.len() == 1 {
        look(Body::Clear { slug: slug(c) })
    } else if os.len() == 2 {
        step(id, 30_000, Body::Delete { slug: slug(c) })
    } else {
        Move::End
    }
}

pub open spec fn protection_move(s: StateV, os: Seq<OutcomeV>) -> MoveV<BodyV> {
    let id = "repo.protection"@;
    match s.repo {
        None => if os.len() == 0 { MoveV::Skip { id, why: "no repo"@ } } else { MoveV::End },
        Some(name) => if os.len() == 0 {
            MoveV::Look { body: BodyV::WorkTree { name } }
        } else if os.len() == 1 {
            if passed(os[0]) { MoveV::Step { id, ceiling_ms: PROTECTION_BODY_MS, body: BodyV::Protection { name } } } else { MoveV::Skip { id, why: "the git stage left no working tree"@ } }
        } else {
            MoveV::End
        },
    }
}

/// `repo.protection`.
pub fn protection(s: &State, os: &Vec<Outcome>) -> (m: Move<Body>)
    ensures
        m@ == protection_move(s@, outcomes(os@)),
{
    let id = "repo.protection";
    match &s.repo {
        None => {
            if os.len() == 0 { skip(id, "no repo") } else { Move::End }
        },
        Some(name) => {
            if os.len() == 0 {
                look(Body::WorkTree { name: name.clone() })
            } else if os.len() == 1 {
                if os[0].passed() { step(id, PROTECTION_BODY_MS, Body::Protection { name: name.clone() }) } else { skip(id, "the git stage left no working tree") }
            } else {
                Move::End
            }
        },
    }
}

pub open spec fn close_move(s: StateV, os: Seq<OutcomeV>) -> MoveV<BodyV> {
    let id = "pr.close"@;
    match s.repo {
        None => if os.len() == 0 { MoveV::Skip { id, why: "no repo"@ } } else { MoveV::End },
        Some(name) => if os.len() == 0 {
            MoveV::Look { body: BodyV::MakeChange { name } }
        } else if os.len() == 1 {
            if passed(os[0]) { MoveV::Step { id, ceiling_ms: PULL_MS, body: BodyV::Close { name } } } else { MoveV::Skip { id, why: "no change to close: "@ + failure_or_empty(os[0]) } }
        } else {
            MoveV::End
        },
    }
}

/// `pr.close`.
pub fn close(s: &State, os: &Vec<Outcome>) -> (m: Move<Body>)
    ensures
        m@ == close_move(s@, outcomes(os@)),
{
    let id = "pr.close";
    match &s.repo {
        None => {
            if os.len() == 0 { skip(id, "no repo") } else { Move::End }
        },
        Some(name) => {
            if os.len() == 0 {
                look(Body::MakeChange { name: name.clone() })
            } else if os.len() == 1 {
                if os[0].passed() { step(id, PULL_MS, Body::Close { name: name.clone() }) } else { skip(id, cat2("no change to close: ", os[0].failure_or_empty().as_str()).as_str()) }
            } else {
                Move::End
            }
        },
    }
}

/// Each of the five ids is reported exactly once.
pub proof fn law_every_id_is_reported_once(c: RunV, s: StateV, ns: Seq<char>, os: Seq<OutcomeV>)
    ensures
        reports_exactly(|o: Seq<OutcomeV>| repo_shared_move(c, o), os, seq!["team.repo.shared"@], 3),
        reports_exactly(|o: Seq<OutcomeV>| workspace_move(c, ns, o), os, seq!["team.workspace"@], 3),
        reports_exactly(|o: Seq<OutcomeV>| delete_move(c, o), os, seq!["team.delete"@], 3),
        reports_exactly(|o: Seq<OutcomeV>| protection_move(s, o), os, seq!["repo.protection"@], 3),
        reports_exactly(|o: Seq<OutcomeV>| close_move(s, o), os, seq!["pr.close"@], 3),
    decreases os.len(),
{
    reveal_with_fuel(reports, 4);
    if os.len() > 3 {
        law_every_id_is_reported_once(c, s, ns, os.drop_last());
    }
}

/// Once the branch is protected and listed so, the body is not over before it was asked to be
/// unprotected.
pub proof fn law_the_branch_is_unprotected_again(c: RunV, name: Seq<char>, log: LogV)
    requires
        log.rs.len() > 1,
        call_error(log.rs[0]) is None,
        rule_unlisted(log.rs[1]) is None,
        log.us.len() == 0,
    ensures
        !(protection_next(c, name, log) is Pass),
        !(protection_next(c, name, log) is Fail),
{
}

} // verus!
