//! A team's shared repository, and the verbs of a repository and its changes: protection, an edit from
//! the web, a comparison, a comment, a close, a signature.

use vstd::prelude::*;

use crate::json::{
    Doc, Json, arr1, array_of, lemma_docs, member, obj1, obj2, obj3, obj4, row_in, row_named, rows_of, text_of, text_or,
    text_or_empty, truth, txt,
};
use crate::outside::{base64_text, encode64};
use crate::reply::{
    call_error, call_failed, codes1, codes3, doc, doc_of, error, failed, lost, lost_in, lost_of, lost_within, made, made_full,
    made_full_of, made_of, not_answered, not_answered_by, numbered, numbered_of, said, said_of, tool_error, tool_error_in,
    tool_failed, tool_failed_in, undo_failed,
};
use crate::run::{Run, RunV, State, StateV, api, api_at, below, joined_path, tmp, tmp_at};
use crate::stages::git::{
    BASE_BRANCH, authed, authed_args, git, git_asks, http_remote, http_url, oid_in, oid_of, work, work_tree,
};
use crate::stages::identity::{minted_id, token_id_of};
use crate::stages::teams::membership::{is_member_body, is_member_next};
use crate::stages::teams::{
    LOG_CAP_MS, MERGE_CAP_MS, PROTECTION_BODY_MS, PULL_MS, QUICK_MS, TEAM_REPO_BODY_MS, closed_branch, closed_branch_of, patch_branch,
    patch_branch_of, prot_branch, prot_branch_of, shared_repo, shared_repo_of, team_slug, team_slug_of,
};
use crate::text::{
    cat2, cat3, cat4, cat5, cat6, cat7, cat8, contains, dec, decimal, holds, list2, list3, list4, list5, texts, trim, trimmed,
};
use crate::turn::{
    Move, MoveV, Outcome, OutcomeV, failure_or_empty, found_in, look, more, one, one_move, outcomes, passed, reports,
    reports_exactly, skip, step,
};
use crate::wait::{Wait, WaitV};
use crate::want::{Want, WantV};
use crate::wire::{
    Ask, AskV, Log, LogV, Next, NextV, Reply, ReplyV, also, deleting, end, erase, err_of, get, getting, in_time, inside, link,
    opt, post, post_nothing, posting, posting_nothing, timed, undo_after, undoing, within,
};

verus! {

/// The arguments of a git command that carries one token as git's own Basic pair.
pub open spec fn token_args(token: Seq<char>, rest: Seq<Seq<char>>) -> Seq<Seq<char>> {
    seq!["-c"@, "http.extraHeader=Authorization: Basic "@ + base64_text("x:"@ + token)] + rest
}

/// The views of a slice of texts.
pub open spec fn words_view(v: Seq<&str>) -> Seq<Seq<char>> {
    Seq::new(v.len(), |i: int| v[i]@)
}

/// A git command under a credential of its own: every call here is made as the team, not as the
/// probe.
pub fn with_token(token: &str, rest: &[&str]) -> (r: Vec<String>)
    ensures
        texts(r@) == token_args(token@, words_view(rest@)),
{
    let pair = cat2("http.extraHeader=Authorization: Basic ", encode64(cat2("x:", token).as_str()).as_str());
    let mut r = list2("-c", pair.as_str());
    let ghost head = r@;
    proof {
        assert(texts(head).len() == head.len());
    }
    let mut i: usize = 0;
    while i < rest.len()
        invariant
            i <= rest@.len(),
            head.len() == 2,
            r@.len() == 2 + i,
            forall|k: int| 0 <= k < 2 ==> r@[k]@ == head[k]@,
            forall|k: int| 0 <= k < i ==> (#[trigger] r@[k + 2])@ == rest@[k]@,
        decreases rest.len() - i,
    {
        r.push(rest[i].to_owned());
        i = i + 1;
    }
    proof {
        let want = token_args(token@, words_view(rest@));
        assert(texts(head) =~= seq!["-c"@, "http.extraHeader=Authorization: Basic "@ + base64_text("x:"@ + token@)]);
        assert forall|k: int| 0 <= k < want.len() implies texts(r@)[k] == want[k] by {
            if k < 2 {
                assert(r@[k]@ == head[k]@);
                assert(texts(head)[k] == head[k]@);
            } else {
                let j = k - 2;
                assert(r@[j + 2]@ == rest@[j]@);
            }
        }
        assert(texts(r@) =~= want);
    }
    r
}

/// The same, of a list of arguments.
fn tokened(token: &str, rest: Vec<String>) -> (r: Vec<String>)
    ensures
        texts(r@) == token_args(token@, texts(rest@)),
{
    let mut r = with_token(token, &[]);
    let ghost head = r@;
    let mut tail = rest;
    r.append(&mut tail);
    proof {
        assert(texts(head) =~= token_args(token@, seq![]));
        assert(token_args(token@, texts(rest@)) =~= token_args(token@, seq![]) + texts(rest@));
        assert(texts(r@) =~= texts(head) + texts(rest@));
    }
    r
}

/// Why nobody at all could read a repository of the team's. A status tells a refusal from a name
/// that does not resolve; a command that failed does not.
pub open spec fn read_by_nobody(r: ReplyV) -> Option<Seq<char>> {
    not_answered("an anonymous read of a private team repo"@, seq![401u16, 403u16, 404u16], r)
}

fn nobody_reads(r: &Reply) -> (o: Option<String>)
    ensures
        opt(o) == read_by_nobody(r@),
{
    not_answered_by("an anonymous read of a private team repo", &codes3(401, 403, 404), r)
}

pub open spec fn make_repo_next(c: RunV, slug: Seq<char>, name: Seq<char>, rs: Seq<ReplyV>) -> NextV {
    link(
        rs, 0,
        posting(
            api_at(c, "/v1/repos"@), c.probe_jwt,
            Doc::Obj(seq![("owner"@, Doc::Str(slug)), ("name"@, Doc::Str(name)), ("visibility"@, Doc::Str("private"@))]),
        ),
        call_error(rs[0]),
        also(
            rs, 1, AskV::Discard { path: tmp_at(c, "team/"@ + name) },
            also(rs, 2, AskV::Discard { path: tmp_at(c, "team-clone"@) }, NextV::Pass),
        ),
    )
}

pub fn make_repo_body(c: &Run, slug: &str, name: &str, log: &Log) -> (n: Next)
    ensures
        n@ == make_repo_next(c@, slug@, name@, log@.rs),
{
    if log.rs.len() <= 0 {
        return Next::Ask(post(
            api(c, "/v1/repos"), c.probe_jwt.as_str(),
            obj3("owner", txt(slug), "name", txt(name), "visibility", txt("private")),
        ));
    }
    if let Some(why) = error(&log.rs[0]) {
        return Next::Fail(why);
    }
    if log.rs.len() <= 1 {
        return Next::Ask(Ask::Discard { path: tmp(c, cat2("team/", name).as_str()) });
    }
    if log.rs.len() <= 2 {
        return Next::Ask(Ask::Discard { path: tmp(c, "team-clone") });
    }
    Next::Pass
}

/// Seeded and pushed as the team, cloned back, and refused to a caller with no credential at all.
pub open spec fn push_and_clone_next(c: RunV, slug: Seq<char>, name: Seq<char>, token: Seq<char>, rs: Seq<ReplyV>) -> NextV {
    link(
        rs, 1, AskV::Mkdir { path: tmp_at(c, "team/"@ + name) },
        tool_error_in("could not make "@ + tmp_at(c, "team/"@ + name), rs[1]),
        link(
            rs, 2,
            git_asks(c, seq!["init"@, "-q"@, "--initial-branch="@ + BASE_BRANCH@], tmp_at(c, "team/"@ + name)),
            tool_error(rs[2]),
            link(
                rs, 3,
                AskV::Write { path: joined_path(tmp_at(c, "team/"@ + name), "README.md"@), text: "# shared\n"@ },
                tool_error_in("could not write README.md"@, rs[3]),
                link(
                    rs, 4,
                    git_asks(c, seq!["add"@, "-A"@], tmp_at(c, "team/"@ + name)), tool_error(rs[4]),
                    link(
                        rs, 5,
                        git_asks(c, seq!["commit"@, "-q"@, "-m"@, "seed"@], tmp_at(c, "team/"@ + name)), tool_error(rs[5]),
                        link(
                            rs, 6,
                            git_asks(
                                c,
                                token_args(token, seq!["push"@, "-q"@, http_remote(c, slug, name), BASE_BRANCH@]),
                                tmp_at(c, "team/"@ + name),
                            ),
                            tool_error_in("a member could not push to the team repo"@, rs[6]),
                            link(
                                rs, 7,
                                git_asks(
                                    c,
                                    token_args(
                                        token,
                                        seq!["clone"@, "-q"@, http_remote(c, slug, name), tmp_at(c, "team-clone"@)],
                                    ),
                                    seq![],
                                ),
                                tool_error_in("a member could not clone the team repo"@, rs[7]),
                                link(
                                    rs, 8,
                                    getting(http_remote(c, slug, name) + "/info/refs?service=git-upload-pack"@, ""@),
                                    read_by_nobody(rs[8]), NextV::Pass,
                                ),
                            ),
                        ),
                    ),
                ),
            ),
        ),
    )
}

pub fn push_and_clone_body(c: &Run, slug: &str, name: &str, token: &str, log: &Log) -> (n: Next)
    ensures
        n@ == push_and_clone_next(c@, slug@, name@, token@, log@.rs),
{
    if log.rs.len() <= 1 {
        return Next::Ask(Ask::Mkdir { path: tmp(c, cat2("team/", name).as_str()) });
    }
    if let Some(why) = tool_failed_in(
        cat2("could not make ", tmp(c, cat2("team/", name).as_str()).as_str()).as_str(), &log.rs[1],
    ) {
        return Next::Fail(why);
    }
    if log.rs.len() <= 2 {
        return Next::Ask(git(
            c,
            list3("init", "-q", cat2("--initial-branch=", BASE_BRANCH).as_str()), tmp(c, cat2("team/", name).as_str()),
        ));
    }
    if let Some(why) = tool_failed(&log.rs[2]) {
        return Next::Fail(why);
    }
    if log.rs.len() <= 3 {
        return Next::Ask(Ask::Write {
            path: below(tmp(c, cat2("team/", name).as_str()).as_str(), "README.md"),
            text: "# shared\n".to_owned(),
        });
    }
    if let Some(why) = tool_failed_in("could not write README.md", &log.rs[3]) {
        return Next::Fail(why);
    }
    if log.rs.len() <= 4 {
        return Next::Ask(git(c, list2("add", "-A"), tmp(c, cat2("team/", name).as_str())));
    }
    if let Some(why) = tool_failed(&log.rs[4]) {
        return Next::Fail(why);
    }
    if log.rs.len() <= 5 {
        return Next::Ask(git(c, list4("commit", "-q", "-m", "seed"), tmp(c, cat2("team/", name).as_str())));
    }
    if let Some(why) = tool_failed(&log.rs[5]) {
        return Next::Fail(why);
    }
    if log.rs.len() <= 6 {
        return Next::Ask(git(
            c,
            tokened(token, list4("push", "-q", http_url(c, slug, name).as_str(), BASE_BRANCH)),
            tmp(c, cat2("team/", name).as_str()),
        ));
    }
    if let Some(why) = tool_failed_in("a member could not push to the team repo", &log.rs[6]) {
        return Next::Fail(why);
    }
    if log.rs.len() <= 7 {
        return Next::Ask(git(
            c,
            tokened(token, list4("clone", "-q", http_url(c, slug, name).as_str(), tmp(c, "team-clone").as_str())),
            String::new(),
        ));
    }
    if let Some(why) = tool_failed_in("a member could not clone the team repo", &log.rs[7]) {
        return Next::Fail(why);
    }
    if log.rs.len() <= 8 {
        return Next::Ask(get(cat2(http_url(c, slug, name).as_str(), "/info/refs?service=git-upload-pack"), ""));
    }
    end(nobody_reads(&log.rs[8]))
}

/// A credential under the team, which only a member can mint, and what it is good for. It is revoked
/// whatever became of the clone and however long that took: it would outlive the team.
pub open spec fn repo_shared_next(c: RunV, slug: Seq<char>, name: Seq<char>, log: LogV) -> NextV {
    let token = made_full("a member could not mint a credential under the team"@, "token"@, "the answer carried no token"@, log.rs[0])->Ok_0;
    link(
        log.rs, 0,
        posting(
            api_at(c, "/v1/tokens"@), c.other_jwt,
            Doc::Obj(seq![("owner"@, Doc::Str(slug)), ("name"@, Doc::Str(c.run_id + "-team"@))]),
        ),
        err_of(made_full("a member could not mint a credential under the team"@, "token"@, "the answer carried no token"@, log.rs[0])),
        match minted_id(log.rs[0]) {
            Some(id) => undoing(
                log, TEAM_REPO_BODY_MS, push_and_clone_next(c, slug, name, token, log.rs),
                deleting(api_at(c, "/v1/tokens/"@ + id), c.other_jwt), call_failed("the team credential was left LIVE"@, log.us[0]),
            ),
            None => timed(log, TEAM_REPO_BODY_MS, push_and_clone_next(c, slug, name, token, log.rs)),
        },
    )
}

fn repo_shared_body(c: &Run, slug: &str, name: &str, log: &Log) -> (n: Next)
    ensures
        n@ == repo_shared_next(c@, slug@, name@, log@),
{
    if log.rs.len() <= 0 {
        return Next::Ask(post(
            api(c, "/v1/tokens"), c.other_jwt.as_str(),
            obj2("owner", txt(slug), "name", txt(cat2(c.run_id.as_str(), "-team").as_str())),
        ));
    }
    let token = match made_full_of("a member could not mint a credential under the team", "token", "the answer carried no token", &log.rs[0]) {
        Err(why) => {
            return Next::Fail(why);
        },
        Ok(t) => t,
    };
    let body = push_and_clone_body(c, slug, name, token.as_str(), log);
    match token_id_of(&log.rs[0]) {
        Some(id) => undo_after(
            log, TEAM_REPO_BODY_MS, body, erase(api(c, cat2("/v1/tokens/", id.as_str()).as_str()), c.other_jwt.as_str()),
            undo_failed("the team credential was left LIVE", log),
        ),
        None => in_time(log, TEAM_REPO_BODY_MS, body),
    }
}

pub open spec fn work_tree_there_next(c: RunV, name: Seq<char>, rs: Seq<ReplyV>) -> NextV {
    link(rs, 0, AskV::IsDir { path: work_tree(c, name) }, tool_error(rs[0]), NextV::Pass)
}

pub fn work_tree_there_body(c: &Run, name: &str, log: &Log) -> (n: Next)
    ensures
        n@ == work_tree_there_next(c@, name@, log@.rs),
{
    if log.rs.len() <= 0 {
        return Next::Ask(Ask::IsDir { path: work(c, name) });
    }
    end(tool_failed(&log.rs[0]))
}

/// Why a rewrite of a protected branch was not refused by the rule: whatever else makes git fail
/// protects nothing.
pub open spec fn rewrite_allowed(r: ReplyV) -> Option<Seq<char>> {
    match said_of(r) {
        Ok(_) => Some("a protected branch accepted a rewrite"@),
        Err(why) => if holds(why, "is protected"@) {
            None
        } else {
            Some("the push failed for some other reason than the rule: "@ + why)
        },
    }
}

pub fn rewrite_bad(r: &Reply) -> (o: Option<String>)
    ensures
        opt(o) == rewrite_allowed(r@),
{
    match said(r) {
        Ok(_) => Some("a protected branch accepted a rewrite".to_owned()),
        Err(why) => {
            if contains(why.as_str(), "is protected") {
                None
            } else {
                Some(cat2("the push failed for some other reason than the rule: ", why.as_str()))
            }
        },
    }
}

/// What a command printed, without the space around it.
pub open spec fn trimmed_said(r: ReplyV) -> Result<Seq<char>, Seq<char>> {
    match said_of(r) {
        Ok(t) => Ok(trimmed(t)),
        Err(why) => Err(why),
    }
}

pub fn trimmed_said_of(r: &Reply) -> (o: Result<String, String>)
    ensures
        (match o { Ok(t) => Ok(t@), Err(e) => Err(e@) }) == trimmed_said(r@),
{
    match said(r) {
        Ok(t) => Ok(trim(t.as_str())),
        Err(why) => Err(why),
    }
}

/// How a merge that never landed is told: the verdict of the worker that was to make it, as the
/// change has it.
pub open spec fn never_landed(change: ReplyV, why: Seq<char>) -> Seq<char> {
    let merge = match doc_of(change) {
        Ok(d) => match member(d, "merge"@) {
            Some(m) => m,
            None => Doc::Null,
        },
        Err(_) => Doc::Null,
    };
    let state = match text_of(merge, "state"@) {
        Some(t) => t,
        None => "no job"@,
    };
    within("the merge into a protected branch never landed: merge "@ + state + " "@ + text_or_empty(merge, "detail"@), why)
}

fn not_landed(change: &Reply, why: &str) -> (r: String)
    ensures
        r@ == never_landed(change@, why@),
{
    let mut state = "no job".to_owned();
    let mut detail = String::new();
    if let Ok(d) = doc(change) {
        if let Some(m) = d.get("merge") {
            if let Some(t) = m.text_at("state") {
                state = t;
            }
            detail = text_or(m, "detail");
        }
    }
    inside(cat4("the merge into a protected branch never landed: merge ", state.as_str(), " ", detail.as_str()).as_str(), why)
}

/// The wait for a merge; where it runs out, the change is read for the reason.
pub open spec fn landing(rs: Seq<ReplyV>, k: int, wait: AskV, change: AskV) -> NextV {
    if rs.len() <= k {
        NextV::Ask(wait)
    } else {
        match lost_of(rs[k]) {
            None => NextV::Pass,
            Some(why) => if rs.len() <= k + 1 { NextV::Ask(change) } else { NextV::Fail(never_landed(rs[k + 1], why)) },
        }
    }
}

/// A rewrite of the branch is refused, and a change that goes through a pull request still lands.
/// The rewrite is an orphan, so that it can be nothing else; the change is cut from the tip as it
/// is now.
pub open spec fn refuse_then_merge_next(c: RunV, name: Seq<char>, rs: Seq<ReplyV>) -> NextV {
    let target = trimmed_said(rs[11])->Ok_0;
    let number = numbered("could not open the change"@, rs[12])->Ok_0;
    link(
        rs, 2,
        git_asks(c, seq!["checkout"@, "-q"@, "--orphan"@, "rewrite"@], work_tree(c, name)), tool_error(rs[2]),
        link(
            rs, 3,
            git_asks(c, seq!["commit"@, "-q"@, "--allow-empty"@, "-m"@, "rewrite"@], work_tree(c, name)), tool_error(rs[3]),
            link(
                rs, 4,
                git_asks(
                    c,
                    authed_args(
                        c,
                        seq!["push"@, "-q"@, "--force"@, http_remote(c, c.probe_user, name), "rewrite:"@ + BASE_BRANCH@],
                    ),
                    work_tree(c, name),
                ),
                rewrite_allowed(rs[4]),
                link(
                    rs, 5,
                    git_asks(
                        c,
                        authed_args(c, seq!["fetch"@, "-q"@, http_remote(c, c.probe_user, name), BASE_BRANCH@]),
                        work_tree(c, name),
                    ),
                    tool_error_in("could not fetch the base branch"@, rs[5]),
                    link(
                        rs, 6,
                        git_asks(c, seq!["checkout"@, "-q"@, "-B"@, prot_branch_of(c), "FETCH_HEAD"@], work_tree(c, name)),
                        tool_error(rs[6]),
                        link(
                            rs, 7,
                            AskV::Write { path: joined_path(work_tree(c, name), "protected.txt"@), text: c.run_id + "\n"@ },
                            tool_error_in("could not write protected.txt"@, rs[7]),
                            link(
                                rs, 8, git_asks(c, seq!["add"@, "-A"@], work_tree(c, name)), tool_error(rs[8]),
                                link(
                                    rs, 9,
                                    git_asks(c, seq!["commit"@, "-q"@, "-m"@, "through a pull request"@], work_tree(c, name)),
                                    tool_error(rs[9]),
                                    link(
                                        rs, 10,
                                        git_asks(
                                            c,
                                            authed_args(
                                                c,
                                                seq!["push"@, "-q"@, http_remote(c, c.probe_user, name), prot_branch_of(c)],
                                            ),
                                            work_tree(c, name),
                                        ),
                                        tool_error_in("could not push the change branch"@, rs[10]),
                                        link(
                                            rs, 11,
                                            git_asks(c, seq!["rev-parse"@, prot_branch_of(c)], work_tree(c, name)),
                                            err_of(trimmed_said(rs[11])),
                                            link(
                                                rs, 12,
                                                posting(
                                                    api_at(c, "/v1/repos/"@ + c.probe_user + "/"@ + name + "/pulls"@),
                                                    c.probe_jwt,
                                                    Doc::Obj(seq![
                                                        ("title"@, Doc::Str("slo protection "@ + c.run_id)),
                                                        ("base"@, Doc::Str(BASE_BRANCH@)),
                                                        ("head"@, Doc::Str(prot_branch_of(c))),
                                                    ]),
                                                ),
                                                err_of(numbered("could not open the change"@, rs[12])),
                                                link(
                                                    rs, 13,
                                                    posting(
                                                        api_at(
                                                            c,
                                                            "/v1/repos/"@ + c.probe_user + "/"@ + name + "/pulls/"@ + number
                                                                + "/merge?strategy=fast-forward"@,
                                                        ),
                                                        c.probe_jwt, Doc::Null,
                                                    ),
                                                    call_failed("could not ask for the merge"@, rs[13]),
                                                    landing(
                                                        rs, 14,
                                                        AskV::Wait(WaitV::Doc {
                                                            url: api_at(c, "/api/"@ + c.probe_user + "/"@ + name + "/refs"@),
                                                            token: c.probe_jwt,
                                                            want: WantV::Branch { branch: BASE_BRANCH@, oid: target },
                                                            cap_ms: MERGE_CAP_MS,
                                                        }),
                                                        getting(
                                                            api_at(
                                                                c,
                                                                "/v1/repos/"@ + c.probe_user + "/"@ + name + "/pulls/"@ + number,
                                                            ),
                                                            c.probe_jwt,
                                                        ),
                                                    ),
                                                ),
                                            ),
                                        ),
                                    ),
                                ),
                            ),
                        ),
                    ),
                ),
            ),
        ),
    )
}

fn refuse_then_merge_body(c: &Run, name: &str, log: &Log) -> (n: Next)
    ensures
        n@ == refuse_then_merge_next(c@, name@, log@.rs),
{
    if log.rs.len() <= 2 {
        return Next::Ask(git(c, list4("checkout", "-q", "--orphan", "rewrite"), work(c, name)));
    }
    if let Some(why) = tool_failed(&log.rs[2]) {
        return Next::Fail(why);
    }
    if log.rs.len() <= 3 {
        return Next::Ask(git(c, list5("commit", "-q", "--allow-empty", "-m", "rewrite"), work(c, name)));
    }
    if let Some(why) = tool_failed(&log.rs[3]) {
        return Next::Fail(why);
    }
    if log.rs.len() <= 4 {
        return Next::Ask(git(
            c,
            authed(
                c,
                list5(
                    "push", "-q", "--force", http_url(c, c.probe_user.as_str(), name).as_str(),
                    cat2("rewrite:", BASE_BRANCH).as_str(),
                ),
            ),
            work(c, name),
        ));
    }
    if let Some(why) = rewrite_bad(&log.rs[4]) {
        return Next::Fail(why);
    }
    if log.rs.len() <= 5 {
        return Next::Ask(git(
            c,
            authed(c, list4("fetch", "-q", http_url(c, c.probe_user.as_str(), name).as_str(), BASE_BRANCH)), work(c, name),
        ));
    }
    if let Some(why) = tool_failed_in("could not fetch the base branch", &log.rs[5]) {
        return Next::Fail(why);
    }
    if log.rs.len() <= 6 {
        return Next::Ask(git(c, list5("checkout", "-q", "-B", prot_branch(c).as_str(), "FETCH_HEAD"), work(c, name)));
    }
    if let Some(why) = tool_failed(&log.rs[6]) {
        return Next::Fail(why);
    }
    if log.rs.len() <= 7 {
        return Next::Ask(Ask::Write {
            path: below(work(c, name).as_str(), "protected.txt"),
            text: cat2(c.run_id.as_str(), "\n"),
        });
    }
    if let Some(why) = tool_failed_in("could not write protected.txt", &log.rs[7]) {
        return Next::Fail(why);
    }
    if log.rs.len() <= 8 {
        return Next::Ask(git(c, list2("add", "-A"), work(c, name)));
    }
    if let Some(why) = tool_failed(&log.rs[8]) {
        return Next::Fail(why);
    }
    if log.rs.len() <= 9 {
        return Next::Ask(git(c, list4("commit", "-q", "-m", "through a pull request"), work(c, name)));
    }
    if let Some(why) = tool_failed(&log.rs[9]) {
        return Next::Fail(why);
    }
    if log.rs.len() <= 10 {
        return Next::Ask(git(
            c,
            authed(c, list4("push", "-q", http_url(c, c.probe_user.as_str(), name).as_str(), prot_branch(c).as_str())),
            work(c, name),
        ));
    }
    if let Some(why) = tool_failed_in("could not push the change branch", &log.rs[10]) {
        return Next::Fail(why);
    }
    if log.rs.len() <= 11 {
        return Next::Ask(git(c, list2("rev-parse", prot_branch(c).as_str()), work(c, name)));
    }
    let target = match trimmed_said_of(&log.rs[11]) {
        Err(why) => {
            return Next::Fail(why);
        },
        Ok(t) => t,
    };
    if log.rs.len() <= 12 {
        return Next::Ask(post(
            api(c, cat5("/v1/repos/", c.probe_user.as_str(), "/", name, "/pulls").as_str()), c.probe_jwt.as_str(),
            obj3(
                "title", txt(cat2("slo protection ", c.run_id.as_str()).as_str()), "base", txt(BASE_BRANCH), "head",
                txt(prot_branch(c).as_str()),
            ),
        ));
    }
    let number = match numbered_of("could not open the change", &log.rs[12]) {
        Err(why) => {
            return Next::Fail(why);
        },
        Ok(t) => t,
    };
    if log.rs.len() <= 13 {
        return Next::Ask(post(
            api(
                c,
                cat7(
                    "/v1/repos/", c.probe_user.as_str(), "/", name, "/pulls/", number.as_str(), "/merge?strategy=fast-forward",
                ).as_str(),
            ),
            c.probe_jwt.as_str(), Json::Null,
        ));
    }
    if let Some(why) = failed("could not ask for the merge", &log.rs[13]) {
        return Next::Fail(why);
    }
    if log.rs.len() <= 14 {
        return Next::Ask(Ask::Wait(Wait::Doc {
            url: api(c, cat5("/api/", c.probe_user.as_str(), "/", name, "/refs").as_str()),
            token: c.probe_jwt.clone(),
            want: Want::Branch { branch: BASE_BRANCH.to_owned(), oid: target.clone() },
            cap_ms: MERGE_CAP_MS,
        }));
    }
    match lost(&log.rs[14]) {
        None => Next::Pass,
        Some(why) => {
            if log.rs.len() <= 15 {
                return Next::Ask(get(
                    api(c, cat6("/v1/repos/", c.probe_user.as_str(), "/", name, "/pulls/", number.as_str()).as_str()),
                    c.probe_jwt.as_str(),
                ));
            }
            Next::Fail(not_landed(&log.rs[15], why.as_str()))
        },
    }
}

/// Why the rule is not among those of the repository.
pub open spec fn rule_unlisted(r: ReplyV) -> Option<Seq<char>> {
    match doc_of(r) {
        Err(why) => Some(within("could not read the rules back"@, why)),
        Ok(d) => if row_named(rows_of(Some(d)), "pattern"@, BASE_BRANCH@) is Some { None } else { Some("the rule was accepted but is not listed"@) },
    }
}

pub fn rule_missing(r: &Reply) -> (o: Option<String>)
    ensures
        opt(o) == rule_unlisted(r@),
{
    match doc(r) {
        Err(why) => Some(inside("could not read the rules back", why.as_str())),
        Ok(d) => {
            if row_in(Some(&d), "pattern", BASE_BRANCH).is_some() { None } else { Some("the rule was accepted but is not listed".to_owned()) }
        },
    }
}

/// The branch is protected for the length of one try, and unprotected whatever became of it: left
/// protected it would break the next run.
pub open spec fn protection_next(c: RunV, name: Seq<char>, log: LogV) -> NextV {
    link(
        log.rs, 0,
        posting(
            api_at(c, "/v1/repos/"@ + c.probe_user + "/"@ + name + "/protection"@), c.probe_jwt,
            Doc::Obj(seq![("pattern"@, Doc::Str(BASE_BRANCH@))]),
        ),
        call_failed("could not protect the branch"@, log.rs[0]),
        link(
            log.rs, 1,
            getting(api_at(c, "/v1/repos/"@ + c.probe_user + "/"@ + name + "/protection"@), c.probe_jwt),
            rule_unlisted(log.rs[1]),
            undoing(
                log, PROTECTION_BODY_MS, refuse_then_merge_next(c, name, log.rs),
                posting(
                    api_at(c, "/v1/repos/"@ + c.probe_user + "/"@ + name + "/protection"@), c.probe_jwt,
                    Doc::Obj(seq![("pattern"@, Doc::Str(BASE_BRANCH@)), ("remove"@, Doc::Bool(true))]),
                ),
                call_failed("`main` was left PROTECTED"@, log.us[0]),
            ),
        ),
    )
}

fn protection_body(c: &Run, name: &str, log: &Log) -> (n: Next)
    ensures
        n@ == protection_next(c@, name@, log@),
{
    if log.rs.len() <= 0 {
        return Next::Ask(post(
            api(c, cat5("/v1/repos/", c.probe_user.as_str(), "/", name, "/protection").as_str()), c.probe_jwt.as_str(),
            obj1("pattern", txt(BASE_BRANCH)),
        ));
    }
    if let Some(why) = failed("could not protect the branch", &log.rs[0]) {
        return Next::Fail(why);
    }
    if log.rs.len() <= 1 {
        return Next::Ask(get(
            api(c, cat5("/v1/repos/", c.probe_user.as_str(), "/", name, "/protection").as_str()), c.probe_jwt.as_str(),
        ));
    }
    if let Some(why) = rule_missing(&log.rs[1]) {
        return Next::Fail(why);
    }
    undo_after(
        log, PROTECTION_BODY_MS, refuse_then_merge_body(c, name, log),
        post(
            api(c, cat5("/v1/repos/", c.probe_user.as_str(), "/", name, "/protection").as_str()), c.probe_jwt.as_str(),
            obj2("pattern", txt(BASE_BRANCH), "remove", truth(true)),
        ),
        undo_failed("`main` was left PROTECTED", log),
    )
}

/// An edit as the web's editor makes one, on a new branch, read back out of the log: a commit
/// nobody can see is an edit that vanished.
pub open spec fn commit_patch_next(c: RunV, name: Seq<char>, rs: Seq<ReplyV>) -> NextV {
    let oid = made("could not commit the patch"@, "commit"@, "the commit answered no oid"@, rs[0])->Ok_0;
    link(
        rs, 0,
        posting(
            api_at(c, "/v1/repos/"@ + c.probe_user + "/"@ + name + "/commits"@), c.probe_jwt,
            Doc::Obj(seq![
                ("branch"@, Doc::Str(BASE_BRANCH@)),
                ("newBranch"@, Doc::Str(patch_branch_of(c))),
                ("message"@, Doc::Str("slo edit "@ + c.run_id)),
                (
                    "changes"@,
                    Doc::Arr(seq![
                        Doc::Obj(seq![
                            ("path"@, Doc::Str("experience.txt"@)),
                            ("contentBase64"@, Doc::Str(base64_text(("slo edit "@ + c.run_id) + "\n"@))),
                        ]),
                    ]),
                ),
            ]),
        ),
        err_of(made("could not commit the patch"@, "commit"@, "the commit answered no oid"@, rs[0])),
        link(
            rs, 1,
            AskV::Wait(WaitV::Doc {
                url: api_at(c, "/api/"@ + c.probe_user + "/"@ + name + "/log/"@ + oid),
                token: c.probe_jwt,
                want: WantV::FirstRow { key: "oid"@, value: oid },
                cap_ms: LOG_CAP_MS,
            }),
            lost_in("the commit never reached the log"@, rs[1]), NextV::Pass,
        ),
    )
}

fn commit_patch_body(c: &Run, name: &str, log: &Log) -> (n: Next)
    ensures
        n@ == commit_patch_next(c@, name@, log@.rs),
{
    if log.rs.len() <= 0 {
        return Next::Ask(post(
            api(c, cat5("/v1/repos/", c.probe_user.as_str(), "/", name, "/commits").as_str()), c.probe_jwt.as_str(),
            obj4(
                "branch", txt(BASE_BRANCH), "newBranch", txt(patch_branch(c).as_str()), "message",
                txt(cat2("slo edit ", c.run_id.as_str()).as_str()), "changes",
                arr1(obj2(
                    "path", txt("experience.txt"), "contentBase64",
                    txt(encode64(cat2(cat2("slo edit ", c.run_id.as_str()).as_str(), "\n").as_str()).as_str()),
                )),
            ),
        ));
    }
    let oid = match made_of("could not commit the patch", "commit", "the commit answered no oid", &log.rs[0]) {
        Err(why) => {
            return Next::Fail(why);
        },
        Ok(t) => t,
    };
    if log.rs.len() <= 1 {
        return Next::Ask(Ask::Wait(Wait::Doc {
            url: api(c, cat6("/api/", c.probe_user.as_str(), "/", name, "/log/", oid.as_str()).as_str()),
            token: c.probe_jwt.clone(),
            want: Want::FirstRow { key: "oid".to_owned(), value: oid.clone() },
            cap_ms: LOG_CAP_MS,
        }));
    }
    end(lost_within("the commit never reached the log", &log.rs[1]))
}

/// The refs, read for the tip of a branch; whatever they answer, nothing has failed.
pub open spec fn branch_oid_next(c: RunV, name: Seq<char>, rs: Seq<ReplyV>) -> NextV {
    also(rs, 0, getting(api_at(c, "/api/"@ + c.probe_user + "/"@ + name + "/refs"@), c.probe_jwt), NextV::Pass)
}

fn branch_oid_body(c: &Run, name: &str, log: &Log) -> (n: Next)
    ensures
        n@ == branch_oid_next(c@, name@, log@.rs),
{
    if log.rs.len() <= 0 {
        return Next::Ask(get(api(c, cat5("/api/", c.probe_user.as_str(), "/", name, "/refs").as_str()), c.probe_jwt.as_str()));
    }
    Next::Pass
}

/// The tip of a branch, where the refs answer with it.
pub open spec fn tip_in(branch: Seq<char>, r: ReplyV) -> Option<Seq<char>> {
    match doc_of(r) {
        Err(_) => None,
        Ok(d) => oid_in(d, branch),
    }
}

pub fn branch_oid(branch: &str, r: &Reply) -> (o: Option<String>)
    ensures
        opt(o) == tip_in(branch@, r@),
{
    match doc(r) {
        Err(_) => None,
        Ok(d) => oid_of(&d, branch),
    }
}

/// Why a comparison does not list exactly the one commit of the edit: the whole history and an empty
/// list render as nothing anybody can read, and answer 200 all the same.
pub open spec fn compares_otherwise(oid: Seq<char>, r: ReplyV) -> Option<Seq<char>> {
    match doc_of(r) {
        Err(why) => Some(within("could not compare"@, why)),
        Ok(d) => {
            let commits = rows_of(member(d, "commits"@));
            if commits.len() == 1 && text_of(commits[0], "oid"@) == Some(oid) {
                None
            } else {
                Some("the compare lists "@ + dec(commits.len()) + " commits, not the one edit"@)
            }
        },
    }
}

fn compared_otherwise(oid: &str, r: &Reply) -> (o: Option<String>)
    ensures
        opt(o) == compares_otherwise(oid@, r@),
{
    match doc(r) {
        Err(why) => Some(inside("could not compare", why.as_str())),
        Ok(d) => match array_of(d.get("commits")) {
            None => Some(cat3("the compare lists ", decimal(0).as_str(), " commits, not the one edit")),
            Some(rows) => {
                proof {
                    lemma_docs(rows@);
                }
                if rows.len() == 1 && rows[0].is_at("oid", oid) {
                    None
                } else {
                    Some(cat3("the compare lists ", decimal(rows.len() as u64).as_str(), " commits, not the one edit"))
                }
            },
        },
    }
}

pub open spec fn compare_next(c: RunV, name: Seq<char>, oid: Seq<char>, rs: Seq<ReplyV>) -> NextV {
    link(
        rs, 0,
        getting(
            api_at(
                c,
                "/v1/repos/"@ + c.probe_user + "/"@ + name + "/compare?base="@ + BASE_BRANCH@ + "&head="@ + patch_branch_of(c),
            ),
            c.probe_jwt,
        ),
        compares_otherwise(oid, rs[0]), NextV::Pass,
    )
}

fn compare_body(c: &Run, name: &str, oid: &str, log: &Log) -> (n: Next)
    ensures
        n@ == compare_next(c@, name@, oid@, log@.rs),
{
    if log.rs.len() <= 0 {
        return Next::Ask(get(
            api(
                c,
                cat8(
                    "/v1/repos/", c.probe_user.as_str(), "/", name, "/compare?base=", BASE_BRANCH, "&head=",
                    patch_branch(c).as_str(),
                ).as_str(),
            ),
            c.probe_jwt.as_str(),
        ));
    }
    end(compared_otherwise(oid, &log.rs[0]))
}

/// Why a change does not carry the comment.
pub open spec fn uncommented(said: Seq<char>, r: ReplyV) -> Option<Seq<char>> {
    match doc_of(r) {
        Err(why) => Some(within("could not read the change"@, why)),
        Ok(d) => if row_named(rows_of(member(d, "comments"@)), "body"@, said) is Some {
            None
        } else {
            Some("the comment was accepted but the change does not carry it"@)
        },
    }
}

fn comment_missing(said: &str, r: &Reply) -> (o: Option<String>)
    ensures
        opt(o) == uncommented(said@, r@),
{
    match doc(r) {
        Err(why) => Some(inside("could not read the change", why.as_str())),
        Ok(d) => {
            if row_in(d.get("comments"), "body", said).is_some() {
                None
            } else {
                Some("the comment was accepted but the change does not carry it".to_owned())
            }
        },
    }
}

pub open spec fn comment_next(c: RunV, name: Seq<char>, rs: Seq<ReplyV>) -> NextV {
    let number = numbered("could not open the change"@, rs[0])->Ok_0;
    link(
        rs, 0,
        posting(
            api_at(c, "/v1/repos/"@ + c.probe_user + "/"@ + name + "/pulls"@), c.probe_jwt,
            Doc::Obj(seq![
                ("title"@, Doc::Str("slo probe "@ + c.run_id)),
                ("body"@, Doc::Str(""@)),
                ("base"@, Doc::Str(BASE_BRANCH@)),
                ("head"@, Doc::Str(patch_branch_of(c))),
            ]),
        ),
        err_of(numbered("could not open the change"@, rs[0])),
        link(
            rs, 1,
            posting(
                api_at(c, "/v1/repos/"@ + c.probe_user + "/"@ + name + "/pulls/"@ + number + "/comments"@), c.probe_jwt,
                Doc::Obj(seq![("body"@, Doc::Str("slo probe "@ + c.run_id))]),
            ),
            call_failed("could not comment"@, rs[1]),
            link(
                rs, 2,
                getting(api_at(c, "/v1/repos/"@ + c.probe_user + "/"@ + name + "/pulls/"@ + number), c.probe_jwt),
                uncommented("slo probe "@ + c.run_id, rs[2]), NextV::Pass,
            ),
        ),
    )
}

fn comment_body(c: &Run, name: &str, log: &Log) -> (n: Next)
    ensures
        n@ == comment_next(c@, name@, log@.rs),
{
    if log.rs.len() <= 0 {
        return Next::Ask(post(
            api(c, cat5("/v1/repos/", c.probe_user.as_str(), "/", name, "/pulls").as_str()), c.probe_jwt.as_str(),
            obj4(
                "title", txt(cat2("slo probe ", c.run_id.as_str()).as_str()), "body", txt(""), "base", txt(BASE_BRANCH),
                "head", txt(patch_branch(c).as_str()),
            ),
        ));
    }
    let number = match numbered_of("could not open the change", &log.rs[0]) {
        Err(why) => {
            return Next::Fail(why);
        },
        Ok(t) => t,
    };
    if log.rs.len() <= 1 {
        return Next::Ask(post(
            api(c, cat7("/v1/repos/", c.probe_user.as_str(), "/", name, "/pulls/", number.as_str(), "/comments").as_str()),
            c.probe_jwt.as_str(),
            obj1("body", txt(cat2("slo probe ", c.run_id.as_str()).as_str())),
        ));
    }
    if let Some(why) = failed("could not comment", &log.rs[1]) {
        return Next::Fail(why);
    }
    if log.rs.len() <= 2 {
        return Next::Ask(get(
            api(c, cat6("/v1/repos/", c.probe_user.as_str(), "/", name, "/pulls/", number.as_str()).as_str()),
            c.probe_jwt.as_str(),
        ));
    }
    end(comment_missing(cat2("slo probe ", c.run_id.as_str()).as_str(), &log.rs[2]))
}

pub open spec fn make_change_next(c: RunV, name: Seq<char>, rs: Seq<ReplyV>) -> NextV {
    let oid = made("could not commit the patch"@, "commit"@, "the commit answered no oid"@, rs[0])->Ok_0;
    link(
        rs, 0,
        posting(
            api_at(c, "/v1/repos/"@ + c.probe_user + "/"@ + name + "/commits"@), c.probe_jwt,
            Doc::Obj(seq![
                ("branch"@, Doc::Str(BASE_BRANCH@)),
                ("newBranch"@, Doc::Str(closed_branch_of(c))),
                ("message"@, Doc::Str("slo close "@ + c.run_id)),
                (
                    "changes"@,
                    Doc::Arr(seq![
                        Doc::Obj(seq![
                            ("path"@, Doc::Str("closed.txt"@)),
                            ("contentBase64"@, Doc::Str(base64_text(("slo close "@ + c.run_id) + "\n"@))),
                        ]),
                    ]),
                ),
            ]),
        ),
        err_of(made("could not commit the patch"@, "commit"@, "the commit answered no oid"@, rs[0])), NextV::Pass,
    )
}

pub fn make_change_body(c: &Run, name: &str, log: &Log) -> (n: Next)
    ensures
        n@ == make_change_next(c@, name@, log@.rs),
{
    if log.rs.len() <= 0 {
        return Next::Ask(post(
            api(c, cat5("/v1/repos/", c.probe_user.as_str(), "/", name, "/commits").as_str()), c.probe_jwt.as_str(),
            obj4(
                "branch", txt(BASE_BRANCH), "newBranch", txt(closed_branch(c).as_str()), "message",
                txt(cat2("slo close ", c.run_id.as_str()).as_str()), "changes",
                arr1(obj2(
                    "path", txt("closed.txt"), "contentBase64",
                    txt(encode64(cat2(cat2("slo close ", c.run_id.as_str()).as_str(), "\n").as_str()).as_str()),
                )),
            ),
        ));
    }
    match made_of("could not commit the patch", "commit", "the commit answered no oid", &log.rs[0]) {
        Ok(_) => Next::Pass,
        Err(why) => Next::Fail(why),
    }
}

/// A closed change is refused a merge, as a conflict of state and as nothing else: a request the
/// tier could not read was refused nothing.
pub open spec fn close_next(c: RunV, name: Seq<char>, rs: Seq<ReplyV>) -> NextV {
    let number = numbered("could not open the change"@, rs[0])->Ok_0;
    link(
        rs, 0,
        posting(
            api_at(c, "/v1/repos/"@ + c.probe_user + "/"@ + name + "/pulls"@), c.probe_jwt,
            Doc::Obj(seq![
                ("title"@, Doc::Str("slo close "@ + c.run_id)),
                ("body"@, Doc::Str(""@)),
                ("base"@, Doc::Str(BASE_BRANCH@)),
                ("head"@, Doc::Str(closed_branch_of(c))),
            ]),
        ),
        err_of(numbered("could not open the change"@, rs[0])),
        link(
            rs, 1,
            posting(
                api_at(c, "/v1/repos/"@ + c.probe_user + "/"@ + name + "/pulls/"@ + number + "/close"@), c.probe_jwt,
                Doc::Null,
            ),
            call_failed("could not close the change"@, rs[1]),
            link(
                rs, 2,
                posting_nothing(
                    api_at(
                        c,
                        "/v1/repos/"@ + c.probe_user + "/"@ + name + "/pulls/"@ + number + "/merge?strategy=fast-forward"@,
                    ),
                    c.probe_jwt,
                ),
                not_answered("merging a closed change"@, seq![409u16], rs[2]), NextV::Pass,
            ),
        ),
    )
}

fn close_body(c: &Run, name: &str, log: &Log) -> (n: Next)
    ensures
        n@ == close_next(c@, name@, log@.rs),
{
    if log.rs.len() <= 0 {
        return Next::Ask(post(
            api(c, cat5("/v1/repos/", c.probe_user.as_str(), "/", name, "/pulls").as_str()), c.probe_jwt.as_str(),
            obj4(
                "title", txt(cat2("slo close ", c.run_id.as_str()).as_str()), "body", txt(""), "base", txt(BASE_BRANCH),
                "head", txt(closed_branch(c).as_str()),
            ),
        ));
    }
    let number = match numbered_of("could not open the change", &log.rs[0]) {
        Err(why) => {
            return Next::Fail(why);
        },
        Ok(t) => t,
    };
    if log.rs.len() <= 1 {
        return Next::Ask(post(
            api(c, cat7("/v1/repos/", c.probe_user.as_str(), "/", name, "/pulls/", number.as_str(), "/close").as_str()),
            c.probe_jwt.as_str(), Json::Null,
        ));
    }
    if let Some(why) = failed("could not close the change", &log.rs[1]) {
        return Next::Fail(why);
    }
    if log.rs.len() <= 2 {
        return Next::Ask(post_nothing(
            api(
                c,
                cat7(
                    "/v1/repos/", c.probe_user.as_str(), "/", name, "/pulls/", number.as_str(), "/merge?strategy=fast-forward",
                ).as_str(),
            ),
            c.probe_jwt.as_str(),
        ));
    }
    end(not_answered_by("merging a closed change", &codes1(409), &log.rs[2]))
}

/// The signature of a real commit is answered for; any verdict will do.
pub open spec fn verify_next(c: RunV, name: Seq<char>, oid: Seq<char>, rs: Seq<ReplyV>) -> NextV {
    link(
        rs, 0,
        getting(api_at(c, "/api/"@ + c.probe_user + "/"@ + name + "/signature/"@ + oid), c.probe_jwt), call_error(rs[0]),
        NextV::Pass,
    )
}

fn verify_body(c: &Run, name: &str, oid: &str, log: &Log) -> (n: Next)
    ensures
        n@ == verify_next(c@, name@, oid@, log@.rs),
{
    if log.rs.len() <= 0 {
        return Next::Ask(get(
            api(c, cat6("/api/", c.probe_user.as_str(), "/", name, "/signature/", oid).as_str()), c.probe_jwt.as_str(),
        ));
    }
    end(error(&log.rs[0]))
}

pub enum Body {
    IsMember { slug: String },
    /// The team's repository, and a clean place to work: no check of its own.
    MakeRepo { slug: String, name: String },
    RepoShared { slug: String, name: String },
    WorkTree { name: String },
    Protection { name: String },
    CommitPatch { name: String },
    BranchOid { name: String, branch: String },
    Compare { name: String, oid: String },
    Comment { name: String },
    MakeChange { name: String },
    Close { name: String },
    Verify { name: String, oid: String },
}

pub enum BodyV {
    IsMember { slug: Seq<char> },
    MakeRepo { slug: Seq<char>, name: Seq<char> },
    RepoShared { slug: Seq<char>, name: Seq<char> },
    WorkTree { name: Seq<char> },
    Protection { name: Seq<char> },
    CommitPatch { name: Seq<char> },
    BranchOid { name: Seq<char>, branch: Seq<char> },
    Compare { name: Seq<char>, oid: Seq<char> },
    Comment { name: Seq<char> },
    MakeChange { name: Seq<char> },
    Close { name: Seq<char> },
    Verify { name: Seq<char>, oid: Seq<char> },
}

impl View for Body {
    type V = BodyV;

    open spec fn view(&self) -> BodyV {
        match self {
            Body::IsMember { slug } => BodyV::IsMember { slug: slug@ },
            Body::MakeRepo { slug, name } => BodyV::MakeRepo { slug: slug@, name: name@ },
            Body::RepoShared { slug, name } => BodyV::RepoShared { slug: slug@, name: name@ },
            Body::WorkTree { name } => BodyV::WorkTree { name: name@ },
            Body::Protection { name } => BodyV::Protection { name: name@ },
            Body::CommitPatch { name } => BodyV::CommitPatch { name: name@ },
            Body::BranchOid { name, branch } => BodyV::BranchOid { name: name@, branch: branch@ },
            Body::Compare { name, oid } => BodyV::Compare { name: name@, oid: oid@ },
            Body::Comment { name } => BodyV::Comment { name: name@ },
            Body::MakeChange { name } => BodyV::MakeChange { name: name@ },
            Body::Close { name } => BodyV::Close { name: name@ },
            Body::Verify { name, oid } => BodyV::Verify { name: name@, oid: oid@ },
        }
    }
}

/// What a body does next.
pub open spec fn body_next(c: RunV, b: BodyV, log: LogV) -> NextV {
    match b {
        BodyV::IsMember { slug } => is_member_next(c, slug, log.rs),
        BodyV::MakeRepo { slug, name } => make_repo_next(c, slug, name, log.rs),
        BodyV::RepoShared { slug, name } => repo_shared_next(c, slug, name, log),
        BodyV::WorkTree { name } => work_tree_there_next(c, name, log.rs),
        BodyV::Protection { name } => protection_next(c, name, log),
        BodyV::CommitPatch { name } => commit_patch_next(c, name, log.rs),
        BodyV::BranchOid { name, .. } => branch_oid_next(c, name, log.rs),
        BodyV::Compare { name, oid } => compare_next(c, name, oid, log.rs),
        BodyV::Comment { name } => comment_next(c, name, log.rs),
        BodyV::MakeChange { name } => make_change_next(c, name, log.rs),
        BodyV::Close { name } => close_next(c, name, log.rs),
        BodyV::Verify { name, oid } => verify_next(c, name, oid, log.rs),
    }
}

/// The stretch of a body that has a time of its own: how many replies it begins after, and how long it
/// is given.
pub open spec fn body_region(b: BodyV) -> Option<(usize, u64)> {
    match b {
        BodyV::RepoShared { .. } => Some((1usize, TEAM_REPO_BODY_MS)),
        BodyV::Protection { .. } => Some((2usize, PROTECTION_BODY_MS)),
        _ => None,
    }
}

/// What a body has learned: the tip of the branch it was after.
pub open spec fn body_found(b: BodyV, log: LogV) -> Option<Seq<char>> {
    match b {
        BodyV::BranchOid { branch, .. } => if log.rs.len() > 0 { tip_in(branch, log.rs[0]) } else { None },
        _ => None,
    }
}

impl Body {
    pub fn next(&self, c: &Run, log: &Log) -> (n: Next)
        ensures
            n@ == body_next(c@, self@, log@),
    {
        match self {
            Body::IsMember { slug } => is_member_body(c, slug.as_str(), log),
            Body::MakeRepo { slug, name } => make_repo_body(c, slug.as_str(), name.as_str(), log),
            Body::RepoShared { slug, name } => repo_shared_body(c, slug.as_str(), name.as_str(), log),
            Body::WorkTree { name } => work_tree_there_body(c, name.as_str(), log),
            Body::Protection { name } => protection_body(c, name.as_str(), log),
            Body::CommitPatch { name } => commit_patch_body(c, name.as_str(), log),
            Body::BranchOid { name, .. } => branch_oid_body(c, name.as_str(), log),
            Body::Compare { name, oid } => compare_body(c, name.as_str(), oid.as_str(), log),
            Body::Comment { name } => comment_body(c, name.as_str(), log),
            Body::MakeChange { name } => make_change_body(c, name.as_str(), log),
            Body::Close { name } => close_body(c, name.as_str(), log),
            Body::Verify { name, oid } => verify_body(c, name.as_str(), oid.as_str(), log),
        }
    }

    pub fn region(&self) -> (r: Option<(usize, u64)>)
        ensures
            r == body_region(self@),
    {
        match self {
            Body::RepoShared { .. } => Some((1, TEAM_REPO_BODY_MS)),
            Body::Protection { .. } => Some((2, PROTECTION_BODY_MS)),
            _ => None,
        }
    }

    pub fn found(&self, log: &Log) -> (r: Option<String>)
        ensures
            opt(r) == body_found(self@, log@),
    {
        match self {
            Body::BranchOid { branch, .. } => {
                if log.rs.len() > 0 { branch_oid(branch.as_str(), &log.rs[0]) } else { None }
            },
            _ => None,
        }
    }
}

pub open spec fn repo_shared_move(c: RunV, os: Seq<OutcomeV>) -> MoveV<BodyV> {
    let id = "team.repo.shared"@;
    let slug = team_slug_of(c);
    let name = shared_repo_of(c);
    if os.len() == 0 {
        MoveV::Look { body: BodyV::IsMember { slug } }
    } else if !passed(os[0]) {
        if os.len() == 1 { MoveV::Skip { id, why: "the second user never joined the team"@ } } else { MoveV::End }
    } else if os.len() == 1 {
        MoveV::Look { body: BodyV::MakeRepo { slug, name } }
    } else if os.len() == 2 {
        if passed(os[1]) {
            MoveV::Step { id, ceiling_ms: more(TEAM_REPO_BODY_MS, c.undo_slack_ms), body: BodyV::RepoShared { slug, name } }
        } else {
            MoveV::Skip { id, why: "no team repo: "@ + failure_or_empty(os[1]) }
        }
    } else {
        MoveV::End
    }
}

/// `team.repo.shared`.
pub fn repo_shared(c: &Run, os: &Vec<Outcome>) -> (m: Move<Body>)
    ensures
        m@ == repo_shared_move(c@, outcomes(os@)),
{
    let id = "team.repo.shared";
    let slug = team_slug(c);
    let name = shared_repo(c);
    if os.len() == 0 {
        look(Body::IsMember { slug })
    } else if !os[0].passed() {
        if os.len() == 1 { skip(id, "the second user never joined the team") } else { Move::End }
    } else if os.len() == 1 {
        look(Body::MakeRepo { slug, name })
    } else if os.len() == 2 {
        if os[1].passed() {
            step(id, TEAM_REPO_BODY_MS.saturating_add(c.undo_slack_ms), Body::RepoShared { slug, name })
        } else {
            skip(id, cat2("no team repo: ", os[1].failure_or_empty().as_str()).as_str())
        }
    } else {
        Move::End
    }
}

pub open spec fn protection_move(c: RunV, s: StateV, os: Seq<OutcomeV>) -> MoveV<BodyV> {
    let id = "repo.protection"@;
    match s.repo {
        None => if os.len() == 0 { MoveV::Skip { id, why: "no repo"@ } } else { MoveV::End },
        Some(name) => if os.len() == 0 {
            MoveV::Look { body: BodyV::WorkTree { name } }
        } else if os.len() == 1 {
            if passed(os[0]) { MoveV::Step { id, ceiling_ms: more(PROTECTION_BODY_MS, c.undo_slack_ms), body: BodyV::Protection { name } } } else { MoveV::Skip { id, why: "the git stage left no working tree"@ } }
        } else {
            MoveV::End
        },
    }
}

/// `repo.protection`.
pub fn protection(c: &Run, s: &State, os: &Vec<Outcome>) -> (m: Move<Body>)
    ensures
        m@ == protection_move(c@, s@, outcomes(os@)),
{
    let id = "repo.protection";
    match &s.repo {
        None => {
            if os.len() == 0 { skip(id, "no repo") } else { Move::End }
        },
        Some(name) => {
            if os.len() == 0 {
                look(Body::WorkTree { name: name.clone() })
            } else if os.len() == 1 {
                if os[0].passed() { step(id, PROTECTION_BODY_MS.saturating_add(c.undo_slack_ms), Body::Protection { name: name.clone() }) } else { skip(id, "the git stage left no working tree") }
            } else {
                Move::End
            }
        },
    }
}

pub open spec fn commit_patch_move(s: StateV, os: Seq<OutcomeV>) -> MoveV<BodyV> {
    one_move(
        "repo.commit.patch"@, PULL_MS, "no repo"@,
        (match s.repo { Some(name) => Some(BodyV::CommitPatch { name }), None => None }), os,
    )
}

/// `repo.commit.patch`.
pub fn commit_patch(s: &State, os: &Vec<Outcome>) -> (m: Move<Body>)
    ensures
        m@ == commit_patch_move(s@, outcomes(os@)),
{
    let body = match &s.repo {
        Some(name) => Some(Body::CommitPatch { name: name.clone() }),
        None => None,
    };
    one("repo.commit.patch", PULL_MS, "no repo", body, os)
}

pub open spec fn compare_move(c: RunV, s: StateV, os: Seq<OutcomeV>) -> MoveV<BodyV> {
    let id = "repo.compare"@;
    match s.repo {
        None => if os.len() == 0 { MoveV::Skip { id, why: "no repo"@ } } else { MoveV::End },
        Some(name) => if os.len() == 0 {
            MoveV::Look { body: BodyV::BranchOid { name, branch: patch_branch_of(c) } }
        } else if os.len() == 1 {
            match found_in(os[0]) {
                Some(oid) => MoveV::Step { id, ceiling_ms: QUICK_MS, body: BodyV::Compare { name, oid } },
                None => MoveV::Skip { id, why: "the edit never made a branch to compare"@ },
            }
        } else {
            MoveV::End
        },
    }
}

/// `repo.compare`.
pub fn compare(c: &Run, s: &State, os: &Vec<Outcome>) -> (m: Move<Body>)
    ensures
        m@ == compare_move(c@, s@, outcomes(os@)),
{
    let id = "repo.compare";
    match &s.repo {
        None => {
            if os.len() == 0 { skip(id, "no repo") } else { Move::End }
        },
        Some(name) => {
            if os.len() == 0 {
                look(Body::BranchOid { name: name.clone(), branch: patch_branch(c) })
            } else if os.len() == 1 {
                match os[0].found() {
                    Some(oid) => step(id, QUICK_MS, Body::Compare { name: name.clone(), oid }),
                    None => skip(id, "the edit never made a branch to compare"),
                }
            } else {
                Move::End
            }
        },
    }
}

pub open spec fn comment_move(c: RunV, s: StateV, os: Seq<OutcomeV>) -> MoveV<BodyV> {
    let id = "pr.comment"@;
    match s.repo {
        None => if os.len() == 0 { MoveV::Skip { id, why: "no repo"@ } } else { MoveV::End },
        Some(name) => if os.len() == 0 {
            MoveV::Look { body: BodyV::BranchOid { name, branch: patch_branch_of(c) } }
        } else if os.len() == 1 {
            match found_in(os[0]) {
                Some(_) => MoveV::Step { id, ceiling_ms: PULL_MS, body: BodyV::Comment { name } },
                None => MoveV::Skip { id, why: "the edit never made a branch to open a change from"@ },
            }
        } else {
            MoveV::End
        },
    }
}

/// `pr.comment`.
pub fn comment(c: &Run, s: &State, os: &Vec<Outcome>) -> (m: Move<Body>)
    ensures
        m@ == comment_move(c@, s@, outcomes(os@)),
{
    let id = "pr.comment";
    match &s.repo {
        None => {
            if os.len() == 0 { skip(id, "no repo") } else { Move::End }
        },
        Some(name) => {
            if os.len() == 0 {
                look(Body::BranchOid { name: name.clone(), branch: patch_branch(c) })
            } else if os.len() == 1 {
                match os[0].found() {
                    Some(_) => step(id, PULL_MS, Body::Comment { name: name.clone() }),
                    None => skip(id, "the edit never made a branch to open a change from"),
                }
            } else {
                Move::End
            }
        },
    }
}

pub open spec fn close_move(c: RunV, s: StateV, os: Seq<OutcomeV>) -> MoveV<BodyV> {
    let id = "pr.close"@;
    match s.repo {
        None => if os.len() == 0 { MoveV::Skip { id, why: "no repo"@ } } else { MoveV::End },
        Some(name) => if os.len() == 0 {
            MoveV::Look { body: BodyV::MakeChange { name } }
        } else if os.len() == 1 {
            if passed(os[0]) { MoveV::Step { id, ceiling_ms: PULL_MS, body: BodyV::Close { name } } } else { MoveV::Skip { id, why: "no change to close: "@ + failure_or_empty(os[0]) } }
        } else {
            MoveV::End
        },
    }
}

/// `pr.close`: on a change of its own, whose branch is made before the step.
pub fn close(c: &Run, s: &State, os: &Vec<Outcome>) -> (m: Move<Body>)
    ensures
        m@ == close_move(c@, s@, outcomes(os@)),
{
    let id = "pr.close";
    match &s.repo {
        None => {
            if os.len() == 0 { skip(id, "no repo") } else { Move::End }
        },
        Some(name) => {
            if os.len() == 0 {
                look(Body::MakeChange { name: name.clone() })
            } else if os.len() == 1 {
                if os[0].passed() { step(id, PULL_MS, Body::Close { name: name.clone() }) } else { skip(id, cat2("no change to close: ", os[0].failure_or_empty().as_str()).as_str()) }
            } else {
                Move::End
            }
        },
    }
}

pub open spec fn verify_move(c: RunV, s: StateV, os: Seq<OutcomeV>) -> MoveV<BodyV> {
    let id = "commit.verify"@;
    match s.repo {
        None => if os.len() == 0 { MoveV::Skip { id, why: "no repo"@ } } else { MoveV::End },
        Some(name) => if os.len() == 0 {
            MoveV::Look { body: BodyV::BranchOid { name, branch: BASE_BRANCH@ } }
        } else if os.len() == 1 {
            match found_in(os[0]) {
                Some(oid) => MoveV::Step { id, ceiling_ms: QUICK_MS, body: BodyV::Verify { name, oid } },
                None => MoveV::Skip { id, why: "nothing was pushed"@ },
            }
        } else {
            MoveV::End
        },
    }
}

/// `commit.verify`.
pub fn verify(c: &Run, s: &State, os: &Vec<Outcome>) -> (m: Move<Body>)
    ensures
        m@ == verify_move(c@, s@, outcomes(os@)),
{
    let id = "commit.verify";
    match &s.repo {
        None => {
            if os.len() == 0 { skip(id, "no repo") } else { Move::End }
        },
        Some(name) => {
            if os.len() == 0 {
                look(Body::BranchOid { name: name.clone(), branch: BASE_BRANCH.to_owned() })
            } else if os.len() == 1 {
                match os[0].found() {
                    Some(oid) => step(id, QUICK_MS, Body::Verify { name: name.clone(), oid }),
                    None => skip(id, "nothing was pushed"),
                }
            } else {
                Move::End
            }
        },
    }
}

/// Each of the seven ids is reported exactly once, with a repo or without.
pub proof fn law_every_id_is_reported_once(c: RunV, s: StateV, os: Seq<OutcomeV>)
    ensures
        reports_exactly(|o: Seq<OutcomeV>| repo_shared_move(c, o), os, seq!["team.repo.shared"@], 3),
        reports_exactly(|o: Seq<OutcomeV>| protection_move(c, s, o), os, seq!["repo.protection"@], 3),
        reports_exactly(|o: Seq<OutcomeV>| commit_patch_move(s, o), os, seq!["repo.commit.patch"@], 3),
        reports_exactly(|o: Seq<OutcomeV>| compare_move(c, s, o), os, seq!["repo.compare"@], 3),
        reports_exactly(|o: Seq<OutcomeV>| comment_move(c, s, o), os, seq!["pr.comment"@], 3),
        reports_exactly(|o: Seq<OutcomeV>| close_move(c, s, o), os, seq!["pr.close"@], 3),
        reports_exactly(|o: Seq<OutcomeV>| verify_move(c, s, o), os, seq!["commit.verify"@], 3),
    decreases os.len(),
{
    reveal_with_fuel(reports, 4);
    if os.len() > 3 {
        law_every_id_is_reported_once(c, s, os.drop_last());
    }
}

/// Without a repo every id behind one is skipped at once: the repo's own failure was counted where
/// it happened.
pub proof fn law_without_a_repo_every_id_is_skipped(c: RunV, s: StateV)
    requires
        s.repo is None,
    ensures
        protection_move(c, s, seq![]) == (MoveV::<BodyV>::Skip { id: "repo.protection"@, why: "no repo"@ }),
        commit_patch_move(s, seq![]) == (MoveV::<BodyV>::Skip { id: "repo.commit.patch"@, why: "no repo"@ }),
        compare_move(c, s, seq![]) == (MoveV::<BodyV>::Skip { id: "repo.compare"@, why: "no repo"@ }),
        comment_move(c, s, seq![]) == (MoveV::<BodyV>::Skip { id: "pr.comment"@, why: "no repo"@ }),
        close_move(c, s, seq![]) == (MoveV::<BodyV>::Skip { id: "pr.close"@, why: "no repo"@ }),
        verify_move(c, s, seq![]) == (MoveV::<BodyV>::Skip { id: "commit.verify"@, why: "no repo"@ }),
{
}

/// Once the branch is protected and listed so, the body is not over before it was asked to be
/// unprotected, whatever was answered and however long it took.
pub proof fn law_the_branch_is_unprotected_again(c: RunV, name: Seq<char>, log: LogV)
    requires
        log.rs.len() > 1,
        call_error(log.rs[0]) is None,
        rule_unlisted(log.rs[1]) is None,
    ensures
        log.us.len() == 0 ==> !(protection_next(c, name, log) is Pass) && !(protection_next(c, name, log) is Fail),
        log.us.len() == 0 && log.cut ==> protection_next(c, name, log) is Undo,
        protection_next(c, name, log) is Pass ==> log.us.len() > 0 && call_error(log.us[0]) is None,
{
}

/// A credential minted under the team is revoked before the body is over, wherever it has an id to
/// be revoked by.
pub proof fn law_the_team_credential_is_revoked(c: RunV, slug: Seq<char>, name: Seq<char>, log: LogV)
    requires
        log.rs.len() > 0,
        made_full("a member could not mint a credential under the team"@, "token"@, "the answer carried no token"@, log.rs[0]) is Ok,
        minted_id(log.rs[0]) is Some,
    ensures
        log.us.len() == 0 ==> !(repo_shared_next(c, slug, name, log) is Pass) && !(repo_shared_next(c, slug, name, log) is Fail),
        repo_shared_next(c, slug, name, log) is Pass ==> log.us.len() > 0 && call_error(log.us[0]) is None,
{
}

/// Nothing but a conflict closes the door to a merge.
pub proof fn law_only_a_conflict_refuses_a_closed_change(r: ReplyV)
    ensures
        not_answered("merging a closed change"@, seq![409u16], r) is None <==> (r matches ReplyV::Answer { status, .. } && status == 409),
{
    let allowed = seq![409u16];
    assert(allowed[0] == 409);
    if let ReplyV::Answer { status, .. } = r {
        if status == 409 {
            assert(allowed.contains(status));
        }
    }
}

} // verus!
