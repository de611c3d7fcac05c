//! The verbs of a workspace: its packages and pins, the repo it is seeded from, the key behind that,
//! its tool server, and the home and the cache that travel with its volume.

use vstd::prelude::*;

use crate::json::{
    Doc, Json, arr0, arr1, arr2, doc_i64, i64_of, int_doc, member, member2, obj1, obj2, obj4, obj6, row_in, row_named, rows_of,
    text_of, text_or, text_or_empty, txt,
};
use crate::outside::{debug, debug_text, json_error, json_of, json_text, parse, parse_error, render, status_line, status_text};
use crate::probes::EXEC_MS;
use crate::reply::{
    call_failed, doc, doc_of, failed, id_in, id_of, lost, lost_in, lost_of, lost_within, made, made_of, object, object_of, ran,
    ran_of, raw, raw_of, ready_in, ready_of, said, said_of, tells_status,
};
use crate::run::{Run, RunV, State, StateV, api, api_at, law_names_carry_the_prefix, name, named, prefix_of, with_volume};
use crate::stages::git::{BASE_BRANCH, oid_in, oid_of, plain, plainly};
use crate::text::{
    cat2, cat3, cat4, cat5, cat6, cat7, cat8, chars_of, clipped, contains, dec, dec_int, decimal, decimal_int,
    eq_ignore_ascii_case, first_chars, halves, holds, lemma_holds_before, lines, lines_of, list10, list2, parse_up_to, same,
    same_letters, split_once, starts, starts_with, texts, trim, trimmed, unsigned_error, unsigned_of, why_unsigned,
};
use crate::turn::{
    Move, MoveV, Outcome, OutcomeV, found_in, learned, learned_by, look, one, one_move, outcomes, passed, passed_with, reports,
    reports_exactly, skip, step,
};
use crate::wait::{Wait, WaitV};
use crate::want::{Want, WantV};
use crate::wire::{
    Ask, AskV, Cluster, Kind, Log, LogV, Next, NextV, PayloadV, Program, Reply, ReplyV, afterwards, also, deleting, end, ending,
    erase, err_of, exec, finally, get, get_within, getting, getting_within, inside, judge, link, link_or, link_or2, opt,
    out_of_time, patch, patching, post, post_nothing, posting, posting_nothing, unless, unless2, within,
};

verus! {

pub const ADD_MS: u64 = 290_000;

pub const REMOVE_MS: u64 = 90_000;

pub const SEEDED_MS: u64 = 290_000;

pub const KEY_MS: u64 = 290_000;

pub const HOME_MS: u64 = 290_000;

/// Create, write, push, restore, read: two waits and a cut in one ceiling.
pub const CACHE_MS: u64 = 290_000;

/// A create and the server's own start.
pub const IDE_MS: u64 = 240_000;

pub const SEED_FAILED_MS: u64 = 240_000;

/// How long a create is given inside a step: below every ceiling, and long enough for the seeding's
/// own retries after a key was replaced.
pub const READY_MS: u64 = 240_000;

pub const QUOTA_GB: i64 = 1;

/// The package that is added and removed: small, with a command of its own name.
pub const PKG: &'static str = "cowsay";

/// The pinned entry, and what its lock has to begin with.
pub const PINNED: &'static str = "jq@1.7";

pub const PINNED_PREFIX: &'static str = "1.7.";

/// A version nobody published.
pub const UNKNOWN: &'static str = "jq@0.0.99";

/// A version that was published and never built: past its end of life no cache will ever hold it.
pub const UNCACHED: &'static str = "nodejs@20.20.2";

pub const PIN_IDS: [&'static str; 5] = [
    "ws.packages.pin", "ws.packages.pin.unknown", "ws.packages.pin.uncached", "ws.packages.update", "ws.packages.pin.lockshape",
];

pub const PIN_MS: u64 = 290_000;

pub const PIN_READ_MS: u64 = 60_000;

/// The bound of each read a failed seeding is explained by.
pub const DIAG_MS: u64 = 6_000;

/// The container that clones the repo.
pub const SEED_CONTAINER: &'static str = "git-seed";

/// Where a workspace's files are: the checkout is the workspace directory itself.
pub const WORKSPACE_DIR: &'static str = "/home/kl/workspace";

/// The workspace's whole home.
pub const HOME_DIR: &'static str = "/home/kl";

/// Where a workspace's credentials are mounted.
pub const USER_KEY_PATH: &'static str = "/etc/kloudlite/ssh";

/// The token the tool server takes.
pub const WS_TOKEN_FILE: &'static str = "/etc/kloudlite/ssh/workspace-token";

/// The subject of the first commit of a run's repo.
pub const SEED_SUBJECT: &'static str = "seed";

pub const DOTFILE: &'static str = "~/.config/kl-probe";

pub const TREE_FILE: &'static str = "~/workspace/probe.txt";

/// Why a command could not be run at all.
pub open spec fn unran(r: ReplyV) -> Option<Seq<char>> {
    match ran_of(r) {
        Ok(_) => None,
        Err(why) => Some(why),
    }
}

pub fn not_ran(r: &Reply) -> (o: Option<String>)
    ensures
        opt(o) == unran(r@),
{
    match ran(r) {
        Ok(_) => None,
        Err(why) => Some(why),
    }
}

/// Why a command that ran did not do: `before`, its code, and what it complained of.
pub open spec fn exits(before: Seq<char>, r: ReplyV) -> Option<Seq<char>> {
    match ran_of(r) {
        Ok((code, _, err)) => if code == 0 { None } else { Some(before + dec_int(code as int) + ": "@ + trimmed(err)) },
        Err(_) => None,
    }
}

pub fn exits_badly(before: &str, r: &Reply) -> (o: Option<String>)
    ensures
        opt(o) == exits(before@, r@),
{
    match ran(r) {
        Ok((code, _, err)) => {
            if code == 0 { None } else { Some(cat4(before, decimal_int(code).as_str(), ": ", trim(err.as_str()).as_str())) }
        },
        Err(_) => None,
    }
}

/// What a command printed, without the space around it; nothing where it did not run.
pub open spec fn printed(r: ReplyV) -> Seq<char> {
    match ran_of(r) {
        Ok((_, out, _)) => trimmed(out),
        Err(_) => seq![],
    }
}

pub fn printed_by(r: &Reply) -> (t: String)
    ensures
        t@ == printed(r@),
{
    match ran(r) {
        Ok((_, out, _)) => trim(out.as_str()),
        Err(_) => String::new(),
    }
}

/// Why a command did not print `want`.
pub open spec fn prints_otherwise(before: Seq<char>, want: Seq<char>, r: ReplyV) -> Option<Seq<char>> {
    if printed(r) == want { None } else { Some(before + debug_text(printed(r))) }
}

pub fn printed_otherwise(before: &str, want: &str, r: &Reply) -> (o: Option<String>)
    ensures
        opt(o) == prints_otherwise(before@, want@, r@),
{
    let got = printed_by(r);
    if same(got.as_str(), want) { None } else { Some(cat2(before, debug(got.as_str()).as_str())) }
}

/// An optional text as it is told.
pub open spec fn opt_told(t: Option<Seq<char>>) -> Seq<char> {
    match t {
        Some(t) => "Some("@ + debug_text(t) + ")"@,
        None => "None"@,
    }
}

pub fn opt_words(t: &Option<String>) -> (r: String)
    ensures
        r@ == opt_told(opt(*t)),
{
    match t {
        Some(t) => cat3("Some(", debug(t.as_str()).as_str(), ")"),
        None => "None".to_owned(),
    }
}

/// A body that learns from its `k`th reply whether its workspace was created: where the create was
/// refused, the body fails in words that hold the refusal's number.
pub open spec fn refusal_told(k: nat, log: LogV, n: NextV) -> bool {
    log.rs.len() > k && doc_of(log.rs[k as int]) is Err && (k == 1 ==> doc_of(log.rs[0]) is Ok) ==> {
        &&& !(n is Pass)
        &&& n matches NextV::Fail(why) ==> tells_status(why, log.rs[k as int])
    }
}

// ── packages ────────────────────────────────────────────────────────────────

/// A workspace of its own, whose package list then grows by one: the command is there once the
/// profile was rebuilt.
pub open spec fn packages_add_next(c: RunV, name: Seq<char>, rs: Seq<ReplyV>) -> NextV {
    let id = made("could not create "@ + name, "id"@, "the create answered no workspace id"@, rs[0])->Ok_0;
    link(
        rs, 0,
        posting(
            api_at(c, "/v1/workspaces"@), c.probe_jwt,
            Doc::Obj(seq![
                ("name"@, Doc::Str(name)),
                ("region"@, Doc::Str(c.region)),
                ("quota_gb"@, Doc::Int(QUOTA_GB as int)),
                ("packages"@, Doc::Arr(seq![Doc::Str("bash"@)])),
            ]),
        ),
        err_of(made("could not create "@ + name, "id"@, "the create answered no workspace id"@, rs[0])),
        link(
            rs, 1,
            AskV::Wait(WaitV::Doc {
                url: api_at(c, "/v1/workspaces/"@ + id),
                token: c.probe_jwt,
                want: WantV::Field { key: "state"@, value: "ready"@ },
                cap_ms: READY_MS,
            }),
            lost_in(name + " never became ready"@, rs[1]),
            link(
                rs, 2,
                patching(
                    api_at(c, "/v1/workspaces/"@ + id), c.probe_jwt,
                    Doc::Obj(seq![("packages"@, Doc::Arr(seq![Doc::Str("bash"@), Doc::Str(PKG@)]))]),
                ),
                call_failed("could not change the package list"@, rs[2]),
                link(
                    rs, 3,
                    AskV::Wait(WaitV::Which { ws: id, package: PKG@, want: true, cap_ms: ADD_MS }), lost_of(rs[3]), NextV::Pass,
                ),
            ),
        ),
    )
}

fn packages_add_body(c: &Run, name: &str, log: &Log) -> (n: Next)
    ensures
        n@ == packages_add_next(c@, name@, log@.rs),
        refusal_told(0, log@, n@),
{
    if log.rs.len() <= 0 {
        return Next::Ask(post(
            api(c, "/v1/workspaces"), c.probe_jwt.as_str(),
            obj4(
                "name", txt(name), "region", txt(c.region.as_str()), "quota_gb", int_doc(QUOTA_GB), "packages",
                arr1(txt("bash")),
            ),
        ));
    }
    let id = match made_of(cat2("could not create ", name).as_str(), "id", "the create answered no workspace id", &log.rs[0]) {
        Err(why) => {
            return Next::Fail(why);
        },
        Ok(t) => t,
    };
    if log.rs.len() <= 1 {
        return Next::Ask(Ask::Wait(Wait::Doc {
            url: api(c, cat2("/v1/workspaces/", id.as_str()).as_str()),
            token: c.probe_jwt.clone(),
            want: Want::Field { key: "state".to_owned(), value: "ready".to_owned() },
            cap_ms: READY_MS,
        }));
    }
    if let Some(why) = lost_within(cat2(name, " never became ready").as_str(), &log.rs[1]) {
        return Next::Fail(why);
    }
    if log.rs.len() <= 2 {
        return Next::Ask(patch(
            api(c, cat2("/v1/workspaces/", id.as_str()).as_str()), c.probe_jwt.as_str(),
            obj1("packages", arr2(txt("bash"), txt(PKG))),
        ));
    }
    if let Some(why) = failed("could not change the package list", &log.rs[2]) {
        return Next::Fail(why);
    }
    if log.rs.len() <= 3 {
        return Next::Ask(Ask::Wait(Wait::Which { ws: id.clone(), package: PKG.to_owned(), want: true, cap_ms: ADD_MS }));
    }
    end(lost(&log.rs[3]))
}

pub open spec fn packages_remove_next(c: RunV, ws: Seq<char>, rs: Seq<ReplyV>) -> NextV {
    link(
        rs, 0,
        patching(
            api_at(c, "/v1/workspaces/"@ + ws), c.probe_jwt,
            Doc::Obj(seq![("packages"@, Doc::Arr(seq![Doc::Str("bash"@)]))]),
        ),
        call_failed("could not change the package list"@, rs[0]),
        link(rs, 1, AskV::Wait(WaitV::Which { ws, package: PKG@, want: false, cap_ms: REMOVE_MS }), lost_of(rs[1]), NextV::Pass),
    )
}

fn packages_remove_body(c: &Run, ws: &str, log: &Log) -> (n: Next)
    ensures
        n@ == packages_remove_next(c@, ws@, log@.rs),
{
    if log.rs.len() <= 0 {
        return Next::Ask(patch(
            api(c, cat2("/v1/workspaces/", ws).as_str()), c.probe_jwt.as_str(), obj1("packages", arr1(txt("bash"))),
        ));
    }
    if let Some(why) = failed("could not change the package list", &log.rs[0]) {
        return Next::Fail(why);
    }
    if log.rs.len() <= 1 {
        return Next::Ask(Ask::Wait(Wait::Which { ws: ws.to_owned(), package: PKG.to_owned(), want: false, cap_ms: REMOVE_MS }));
    }
    end(lost(&log.rs[1]))
}

// ── seeding ─────────────────────────────────────────────────────────────────

/// Why the commit that is checked out is not the tip of the branch. The tip is read, not remembered:
/// the journey may have merged since.
pub open spec fn not_at_tip(head: ReplyV, refs: ReplyV) -> Option<Seq<char>> {
    match doc_of(refs) {
        Err(why) => Some(within("could not read the branch tip"@, why)),
        Ok(d) => match oid_in(d, BASE_BRANCH@) {
            None => Some("the branch has no tip"@),
            Some(tip) => if printed(head) == tip {
                None
            } else {
                Some("the checked-out commit is "@ + printed(head) + " but main is "@ + tip)
            },
        },
    }
}

fn off_tip(head: &Reply, refs: &Reply) -> (o: Option<String>)
    ensures
        opt(o) == not_at_tip(head@, refs@),
{
    match doc(refs) {
        Err(why) => Some(inside("could not read the branch tip", why.as_str())),
        Ok(d) => match oid_of(&d, BASE_BRANCH) {
            None => Some("the branch has no tip".to_owned()),
            Some(tip) => {
                let got = printed_by(head);
                if same(got.as_str(), tip.as_str()) {
                    None
                } else {
                    Some(cat4("the checked-out commit is ", got.as_str(), " but main is ", tip.as_str()))
                }
            },
        },
    }
}

/// Why the workspace does not say what it was seeded from.
pub open spec fn seed_unnamed(want: Seq<char>, r: ReplyV) -> Option<Seq<char>> {
    match doc_of(r) {
        Err(why) => Some(why),
        Ok(d) => {
            let repo = text_of(d, "repo"@);
            let branch = text_of(d, "branch"@);
            if repo == Some(want) && branch == Some(BASE_BRANCH@) {
                None
            } else {
                Some(
                    "the doc names "@ + opt_told(repo) + " at "@ + opt_told(branch) + ", not "@ + want + " at "@ + BASE_BRANCH@,
                )
            }
        },
    }
}

fn names_its_seed(want: &str, r: &Reply) -> (o: Option<String>)
    ensures
        opt(o) == seed_unnamed(want@, r@),
{
    match doc(r) {
        Err(why) => Some(why),
        Ok(d) => {
            let repo = d.text_at("repo");
            let branch = d.text_at("branch");
            if d.is_at("repo", want) && d.is_at("branch", BASE_BRANCH) {
                None
            } else {
                Some(cat8(
                    "the doc names ", opt_words(&repo).as_str(), " at ", opt_words(&branch).as_str(), ", not ", want, " at ", BASE_BRANCH,
                ))
            }
        },
    }
}

/// Why a command did not do, or could not be run.
pub open spec fn exits_or_unran(before: Seq<char>, r: ReplyV) -> Option<Seq<char>> {
    match unran(r) {
        Some(why) => Some(why),
        None => exits(before, r),
    }
}

pub fn ran_badly(before: &str, r: &Reply) -> (o: Option<String>)
    ensures
        opt(o) == exits_or_unran(before@, r@),
{
    match not_ran(r) {
        Some(why) => Some(why),
        None => exits_badly(before, r),
    }
}

/// The clone is the run's own repo at its own tip, read inside the pod, and the workspace says
/// where it came from.
pub open spec fn checked_out_next(c: RunV, id: Seq<char>, repo: Seq<char>, rs: Seq<ReplyV>) -> NextV {
    link(
        rs, 2,
        AskV::Exec { ws: id, script: "git -C "@ + WORKSPACE_DIR@ + " rev-parse HEAD"@, bound_ms: EXEC_MS },
        exits_or_unran("the clone is not there: exit "@, rs[2]),
        link(
            rs, 3,
            getting(api_at(c, "/api/"@ + c.probe_user + "/"@ + repo + "/refs"@), c.probe_jwt), not_at_tip(rs[2], rs[3]),
            link(
                rs, 4, getting(api_at(c, "/v1/workspaces/"@ + id), c.probe_jwt),
                seed_unnamed(c.probe_user + "/"@ + repo, rs[4]), NextV::Pass,
            ),
        ),
    )
}

fn checked_out_body(c: &Run, id: &str, repo: &str, log: &Log) -> (n: Next)
    ensures
        n@ == checked_out_next(c@, id@, repo@, log@.rs),
{
    if log.rs.len() <= 2 {
        return Next::Ask(exec(id, cat3("git -C ", WORKSPACE_DIR, " rev-parse HEAD"), EXEC_MS));
    }
    if let Some(why) = ran_badly("the clone is not there: exit ", &log.rs[2]) {
        return Next::Fail(why);
    }
    if log.rs.len() <= 3 {
        return Next::Ask(get(api(c, cat5("/api/", c.probe_user.as_str(), "/", repo, "/refs").as_str()), c.probe_jwt.as_str()));
    }
    if let Some(why) = off_tip(&log.rs[2], &log.rs[3]) {
        return Next::Fail(why);
    }
    if log.rs.len() <= 4 {
        return Next::Ask(get(api(c, cat2("/v1/workspaces/", id).as_str()), c.probe_jwt.as_str()));
    }
    end(names_its_seed(cat3(c.probe_user.as_str(), "/", repo).as_str(), &log.rs[4]))
}

/// A workspace made from the repo has that clone checked out; it is taken away afterwards.
pub open spec fn seeded_next(c: RunV, name: Seq<char>, repo: Seq<char>, log: LogV) -> NextV {
    let id = made("could not create "@ + name, "id"@, "the create answered no workspace id"@, log.rs[0])->Ok_0;
    link(
        log.rs, 0,
        posting(
            api_at(c, "/v1/workspaces"@), c.probe_jwt,
            Doc::Obj(seq![
                ("name"@, Doc::Str(name)),
                ("region"@, Doc::Str(c.region)),
                ("quota_gb"@, Doc::Int(QUOTA_GB as int)),
                ("repo"@, Doc::Str(c.probe_user + "/"@ + repo)),
                ("branch"@, Doc::Str(BASE_BRANCH@)),
                ("packages"@, Doc::Arr(seq![])),
            ]),
        ),
        err_of(made("could not create "@ + name, "id"@, "the create answered no workspace id"@, log.rs[0])),
        link(
            log.rs, 1,
            AskV::Wait(WaitV::Doc {
                url: api_at(c, "/v1/workspaces/"@ + id),
                token: c.probe_jwt,
                want: WantV::Field { key: "state"@, value: "ready"@ },
                cap_ms: READY_MS,
            }),
            lost_in(name + " never became ready"@, log.rs[1]),
            finally(log, checked_out_next(c, id, repo, log.rs), deleting(api_at(c, "/v1/workspaces/"@ + id), c.probe_jwt)),
        ),
    )
}

fn seeded_body(c: &Run, name: &str, repo: &str, log: &Log) -> (n: Next)
    ensures
        n@ == seeded_next(c@, name@, repo@, log@),
        refusal_told(0, log@, n@),
{
    if log.rs.len() <= 0 {
        return Next::Ask(post(
            api(c, "/v1/workspaces"), c.probe_jwt.as_str(),
            obj6(
                "name", txt(name), "region", txt(c.region.as_str()), "quota_gb", int_doc(QUOTA_GB), "repo",
                txt(cat3(c.probe_user.as_str(), "/", repo).as_str()), "branch", txt(BASE_BRANCH), "packages", arr0(),
            ),
        ));
    }
    let id = match made_of(cat2("could not create ", name).as_str(), "id", "the create answered no workspace id", &log.rs[0]) {
        Err(why) => {
            return Next::Fail(why);
        },
        Ok(t) => t,
    };
    if log.rs.len() <= 1 {
        return Next::Ask(Ask::Wait(Wait::Doc {
            url: api(c, cat2("/v1/workspaces/", id.as_str()).as_str()),
            token: c.probe_jwt.clone(),
            want: Want::Field { key: "state".to_owned(), value: "ready".to_owned() },
            cap_ms: READY_MS,
        }));
    }
    if let Some(why) = lost_within(cat2(name, " never became ready").as_str(), &log.rs[1]) {
        return Next::Fail(why);
    }
    afterwards(
        log, checked_out_body(c, id.as_str(), repo, log),
        erase(api(c, cat2("/v1/workspaces/", id.as_str()).as_str()), c.probe_jwt.as_str()),
    )
}

pub open spec fn seed_told_next(id: Seq<char>, rs: Seq<ReplyV>) -> NextV {
    link(rs, 1, AskV::Wait(WaitV::SeedFailed { ws: id, cap_ms: (SEED_FAILED_MS - 20_000) as u64 }), lost_of(rs[1]), NextV::Pass)
}

fn seed_told_body(id: &str, log: &Log) -> (n: Next)
    ensures
        n@ == seed_told_next(id@, log@.rs),
{
    if log.rs.len() <= 1 {
        return Next::Ask(Ask::Wait(Wait::SeedFailed { ws: id.to_owned(), cap_ms: SEED_FAILED_MS - 20_000 }));
    }
    end(lost(&log.rs[1]))
}

/// A workspace made from a repo that is not there says so, instead of coming up for ever.
pub open spec fn seed_failed_next(c: RunV, name: Seq<char>, log: LogV) -> NextV {
    let id = made("could not create the workspace"@, "id"@, "the create answered no workspace id"@, log.rs[0])->Ok_0;
    link(
        log.rs, 0,
        posting(
            api_at(c, "/v1/workspaces"@), c.probe_jwt,
            Doc::Obj(seq![
                ("name"@, Doc::Str(name)),
                ("region"@, Doc::Str(c.region)),
                ("quota_gb"@, Doc::Int(QUOTA_GB as int)),
                ("repo"@, Doc::Str(c.probe_user + "/"@ + name + "-does-not-exist"@)),
                ("branch"@, Doc::Str(BASE_BRANCH@)),
                ("packages"@, Doc::Arr(seq![])),
            ]),
        ),
        err_of(made("could not create the workspace"@, "id"@, "the create answered no workspace id"@, log.rs[0])),
        finally(log, seed_told_next(id, log.rs), deleting(api_at(c, "/v1/workspaces/"@ + id), c.probe_jwt)),
    )
}

fn seed_failed_body(c: &Run, name: &str, log: &Log) -> (n: Next)
    ensures
        n@ == seed_failed_next(c@, name@, log@),
        refusal_told(0, log@, n@),
{
    if log.rs.len() <= 0 {
        return Next::Ask(post(
            api(c, "/v1/workspaces"), c.probe_jwt.as_str(),
            obj6(
                "name", txt(name), "region", txt(c.region.as_str()), "quota_gb", int_doc(QUOTA_GB), "repo",
                txt(cat4(c.probe_user.as_str(), "/", name, "-does-not-exist").as_str()), "branch", txt(BASE_BRANCH),
                "packages", arr0(),
            ),
        ));
    }
    let id = match made_of("could not create the workspace", "id", "the create answered no workspace id", &log.rs[0]) {
        Err(why) => {
            return Next::Fail(why);
        },
        Ok(t) => t,
    };
    afterwards(
        log, seed_told_body(id.as_str(), log),
        erase(api(c, cat2("/v1/workspaces/", id.as_str()).as_str()), c.probe_jwt.as_str()),
    )
}

/// The fingerprint the api reports for the platform key.
pub open spec fn fingerprint_told(r: ReplyV) -> Seq<char> {
    match doc_of(r) {
        Ok(d) => match text_of(d, "fingerprint"@) {
            Some(t) => t,
            None => "unreadable"@,
        },
        Err(_) => "unreadable"@,
    }
}

fn fingerprint(r: &Reply) -> (t: String)
    ensures
        t@ == fingerprint_told(r@),
{
    match doc(r) {
        Ok(d) => match d.text_at("fingerprint") {
            Some(t) => t,
            None => "unreadable".to_owned(),
        },
        Err(_) => "unreadable".to_owned(),
    }
}

/// What the git tier makes of the probe's own key.
pub open spec fn own_key_told(r: ReplyV) -> Seq<char> {
    match said_of(r) {
        Ok(_) => "the probe's own key authenticates"@,
        Err(why) => if why == out_of_time(DIAG_MS) {
            "the ssh check timed out"@
        } else if holds(why, "Permission denied"@) {
            "the git tier REFUSES the probe's own key"@
        } else {
            "ssh said "@ + clipped(why, 120)
        },
    }
}

fn own_key(r: &Reply) -> (t: String)
    ensures
        t@ == own_key_told(r@),
{
    match said(r) {
        Ok(_) => "the probe's own key authenticates".to_owned(),
        Err(why) => {
            if same(why.as_str(), cat3("timed out after ", decimal(DIAG_MS).as_str(), " ms").as_str()) {
                "the ssh check timed out".to_owned()
            } else if contains(why.as_str(), "Permission denied") {
                "the git tier REFUSES the probe's own key".to_owned()
            } else {
                cat2("ssh said ", first_chars(why.as_str(), 120).as_str())
            }
        },
    }
}

/// The last line a container logged.
pub open spec fn last_line(r: ReplyV) -> Seq<char> {
    match said_of(r) {
        Ok(text) => {
            let lines = lines_of(text);
            if lines.len() == 0 { seq![] } else { clipped(lines.last(), 160) }
        },
        Err(_) => "unreadable"@,
    }
}

fn last_logged(r: &Reply) -> (t: String)
    ensures
        t@ == last_line(r@),
{
    match said(r) {
        Ok(text) => {
            let all = lines(text.as_str());
            proof {
                assert(texts(all@).len() == all@.len());
                assert(all@.len() > 0 ==> texts(all@).last() == all@.last()@);
            }
            if all.len() == 0 { String::new() } else { first_chars(all[all.len() - 1].as_str(), 160) }
        },
        Err(_) => "unreadable".to_owned(),
    }
}

/// The server's own account of a seeding that failed: the key the api reports, what the git tier
/// makes of the probe's own, and what the seeding last said. Fingerprints only, never a key.
pub open spec fn seeding_told(key: ReplyV, ssh: ReplyV, log: ReplyV) -> Seq<char> {
    "the api now reports platform key "@ + fingerprint_told(key) + "; "@ + own_key_told(ssh) + "; the seed container last said "@
        + debug_text(last_line(log))
}

fn why_seeding_failed(key: &Reply, ssh: &Reply, log: &Reply) -> (t: String)
    ensures
        t@ == seeding_told(key@, ssh@, log@),
{
    cat6(
        "the api now reports platform key ", fingerprint(key).as_str(), "; ", own_key(ssh).as_str(), "; the seed container last said ",
        debug(last_logged(log).as_str()).as_str(),
    )
}

/// A seeding that failed, explained: three reads, each bounded, none of which can fail the body in
/// another way. `k` is the place of the first.
pub open spec fn explained(c: RunV, name: Seq<char>, why: Seq<char>, rs: Seq<ReplyV>, k: nat) -> NextV {
    also(
        rs, k, getting_within(api_at(c, "/v1/platform-key?owner="@ + c.probe_user), c.probe_jwt, DIAG_MS),
        also(
            rs, k + 1, ssh_check(c),
            also(
                rs, k + 2,
                AskV::Logs { ns: c.own_ns, pod: name, container: SEED_CONTAINER@, lines: 3, bound_ms: DIAG_MS },
                NextV::Fail(why + "; "@ + seeding_told(rs[k as int], rs[k as int + 1], rs[k as int + 2])),
            ),
        ),
    )
}

/// One try of the probe's own key against the git tier.
pub open spec fn ssh_check(c: RunV) -> AskV {
    plainly(
        Program::Ssh,
        seq![
            "-o"@,
            "BatchMode=yes"@,
            "-o"@,
            "StrictHostKeyChecking=no"@,
            "-o"@,
            "UserKnownHostsFile=/dev/null"@,
            "-p"@,
            dec(c.ssh_port as nat),
            "-i"@,
            c.ssh_key_path,
        ] + seq!["-T"@, "git@"@ + c.ssh_host],
        DIAG_MS,
    )
}

fn check_ssh(c: &Run) -> (r: Ask)
    ensures
        r@ == ssh_check(c@),
{
    let mut argv = list10(
        "-o", "BatchMode=yes", "-o", "StrictHostKeyChecking=no", "-o", "UserKnownHostsFile=/dev/null", "-p",
        decimal(c.ssh_port as u64).as_str(), "-i", c.ssh_key_path.as_str(),
    );
    let ghost first = argv@;
    let mut rest = list2("-T", cat2("git@", c.ssh_host.as_str()).as_str());
    let ghost second = rest@;
    argv.append(&mut rest);
    proof {
        assert(texts(argv@) =~= texts(first) + texts(second));
    }
    plain(Program::Ssh, argv, DIAG_MS)
}

fn explain(c: &Run, name: &str, why: &str, log: &Log, k: usize) -> (n: Next)
    requires
        k < 10,
    ensures
        n@ == explained(c@, name@, why@, log@.rs, k as nat),
        n@ matches NextV::Fail(told) ==> forall|p: Seq<char>| holds(why@, p) ==> #[trigger] holds(told, p),
{
    if log.rs.len() <= k {
        return Next::Ask(get_within(
            api(c, cat2("/v1/platform-key?owner=", c.probe_user.as_str()).as_str()), c.probe_jwt.as_str(), DIAG_MS,
        ));
    }
    if log.rs.len() <= k + 1 {
        return Next::Ask(check_ssh(c));
    }
    if log.rs.len() <= k + 2 {
        return Next::Ask(Ask::Logs {
            ns: c.own_ns.clone(),
            pod: name.to_owned(),
            container: SEED_CONTAINER.to_owned(),
            lines: 3,
            bound_ms: DIAG_MS,
        });
    }
    let told = why_seeding_failed(&log.rs[k], &log.rs[k + 1], &log.rs[k + 2]);
    proof {
        assert(why@ + "; "@ + told@ =~= why@ + ("; "@ + told@));
        assert forall|p: Seq<char>| holds(why@, p) implies #[trigger] holds(why@ + "; "@ + told@, p) by {
            lemma_holds_before(why@, "; "@ + told@, p);
        }
    }
    Next::Fail(cat3(why, "; ", told.as_str()))
}

pub open spec fn recloned_next(c: RunV, id: Seq<char>, repo: Seq<char>, rs: Seq<ReplyV>) -> NextV {
    link(
        rs, 3,
        AskV::Exec { ws: id, script: "git -C "@ + WORKSPACE_DIR@ + " rev-parse HEAD"@, bound_ms: EXEC_MS },
        exits_or_unran("the clone is not there: exit "@, rs[3]),
        link(
            rs, 4,
            getting(api_at(c, "/api/"@ + c.probe_user + "/"@ + repo + "/refs"@), c.probe_jwt), not_at_tip(rs[3], rs[4]),
            NextV::Pass,
        ),
    )
}

fn recloned_body(c: &Run, id: &str, repo: &str, log: &Log) -> (n: Next)
    ensures
        n@ == recloned_next(c@, id@, repo@, log@.rs),
{
    if log.rs.len() <= 3 {
        return Next::Ask(exec(id, cat3("git -C ", WORKSPACE_DIR, " rev-parse HEAD"), EXEC_MS));
    }
    if let Some(why) = ran_badly("the clone is not there: exit ", &log.rs[3]) {
        return Next::Fail(why);
    }
    if log.rs.len() <= 4 {
        return Next::Ask(get(api(c, cat5("/api/", c.probe_user.as_str(), "/", repo, "/refs").as_str()), c.probe_jwt.as_str()));
    }
    end(off_tip(&log.rs[3], &log.rs[4]))
}

/// The key that seeding runs on is replaced, and a workspace made after that still clones: an answer
/// that a key was written says nothing of who accepts it. A seeding that fails is explained.
pub open spec fn platform_key_next(c: RunV, name: Seq<char>, repo: Seq<char>, log: LogV) -> NextV {
    let rs = log.rs;
    let id = made("could not create "@ + name, "id"@, "the create answered no workspace id"@, rs[1])->Ok_0;
    link(
        rs, 0, posting(api_at(c, "/v1/platform-key?owner="@ + c.probe_user), c.probe_jwt, Doc::Null),
        call_failed("could not regenerate the platform key"@, rs[0]),
        if rs.len() <= 1 {
            NextV::Ask(
                posting(
                    api_at(c, "/v1/workspaces"@), c.probe_jwt,
                    Doc::Obj(seq![
                        ("name"@, Doc::Str(name)),
                        ("region"@, Doc::Str(c.region)),
                        ("quota_gb"@, Doc::Int(QUOTA_GB as int)),
                        ("repo"@, Doc::Str(c.probe_user + "/"@ + repo)),
                        ("branch"@, Doc::Str(BASE_BRANCH@)),
                        ("packages"@, Doc::Arr(seq![])),
                    ]),
                ),
            )
        } else {
            match made("could not create "@ + name, "id"@, "the create answered no workspace id"@, rs[1]) {
                Err(why) => explained(c, name, why, rs, 2),
                Ok(_) => if rs.len() <= 2 {
                    NextV::Ask(
                        AskV::Wait(WaitV::Doc {
                            url: api_at(c, "/v1/workspaces/"@ + id),
                            token: c.probe_jwt,
                            want: WantV::Field { key: "state"@, value: "ready"@ },
                            cap_ms: READY_MS,
                        }),
                    )
                } else {
                    match lost_in(name + " never became ready"@, rs[2]) {
                        Some(why) => explained(c, name, why, rs, 3),
                        None => finally(log, recloned_next(c, id, repo, rs), deleting(api_at(c, "/v1/workspaces/"@ + id), c.probe_jwt)),
                    }
                },
            }
        },
    )
}

fn platform_key_body(c: &Run, name: &str, repo: &str, log: &Log) -> (n: Next)
    ensures
        n@ == platform_key_next(c@, name@, repo@, log@),
        refusal_told(1, log@, n@),
{
    if log.rs.len() <= 0 {
        return Next::Ask(post(
            api(c, cat2("/v1/platform-key?owner=", c.probe_user.as_str()).as_str()), c.probe_jwt.as_str(), Json::Null,
        ));
    }
    if let Some(why) = failed("could not regenerate the platform key", &log.rs[0]) {
        return Next::Fail(why);
    }
    if log.rs.len() <= 1 {
        return Next::Ask(post(
            api(c, "/v1/workspaces"), c.probe_jwt.as_str(),
            obj6(
                "name", txt(name), "region", txt(c.region.as_str()), "quota_gb", int_doc(QUOTA_GB), "repo",
                txt(cat3(c.probe_user.as_str(), "/", repo).as_str()), "branch", txt(BASE_BRANCH), "packages", arr0(),
            ),
        ));
    }
    let id = match made_of(cat2("could not create ", name).as_str(), "id", "the create answered no workspace id", &log.rs[1]) {
        Err(why) => {
            return explain(c, name, why.as_str(), log, 2);
        },
        Ok(t) => t,
    };
    if log.rs.len() <= 2 {
        return Next::Ask(Ask::Wait(Wait::Doc {
            url: api(c, cat2("/v1/workspaces/", id.as_str()).as_str()),
            token: c.probe_jwt.clone(),
            want: Want::Field { key: "state".to_owned(), value: "ready".to_owned() },
            cap_ms: READY_MS,
        }));
    }
    if let Some(why) = lost_within(cat2(name, " never became ready").as_str(), &log.rs[2]) {
        return explain(c, name, why.as_str(), log, 3);
    }
    let url = api(c, cat2("/v1/workspaces/", id.as_str()).as_str());
    afterwards(log, recloned_body(c, id.as_str(), repo, log), erase(url, c.probe_jwt.as_str()))
}

// ── what travels ────────────────────────────────────────────────────────────

/// Why a fresh workspace is not one: `what` is in it already.
pub open spec fn already_there(what: Seq<char>, r: ReplyV) -> Option<Seq<char>> {
    match ran_of(r) {
        Ok((code, out, _)) => if code == 0 {
            Some("a fresh workspace of the same owner already had the "@ + what + ": "@ + debug_text(trimmed(out)))
        } else {
            None
        },
        Err(_) => None,
    }
}

fn is_there(what: &str, r: &Reply) -> (o: Option<String>)
    ensures
        opt(o) == already_there(what@, r@),
{
    match ran(r) {
        Ok((code, out, _)) => {
            if code == 0 {
                Some(cat4(
                    "a fresh workspace of the same owner already had the ", what, ": ", debug(trim(out.as_str()).as_str()).as_str(),
                ))
            } else {
                None
            }
        },
        Err(_) => None,
    }
}

/// A dotfile and a file of the tree, written in one workspace, are in the copy restored from its
/// push and not in a fresh workspace of the same owner: the home travels with the workspace, not
/// with the person. Each workspace goes as soon as it is done with.
pub open spec fn home_travels_next(c: RunV, a: Seq<char>, b: Seq<char>, fresh: Seq<char>, rs: Seq<ReplyV>) -> NextV {
    let snap = made("could not push"@, "id"@, "the push answered no snapshot id"@, rs[1])->Ok_0;
    let copy = made("could not restore"@, "id"@, "the restore answered no workspace id"@, rs[3])->Ok_0;
    let other = made("could not create "@ + fresh, "id"@, "the create answered no workspace id"@, rs[9])->Ok_0;
    link(
        rs, 0,
        AskV::Exec {
            ws: a,
            script: "set -e\nmkdir -p ~/.config ~/workspace\nprintf %s "@ + c.run_id + " > "@ + DOTFILE@ + "\nprintf %s "@
                + c.run_id + " > "@ + TREE_FILE@ + "\nsync "@ + DOTFILE@ + " "@ + TREE_FILE@,
            bound_ms: EXEC_MS,
        },
        unran(rs[0]),
        unless(
            rs, 1, exits("writing the home files exited "@, rs[0]), deleting(api_at(c, "/v1/workspaces/"@ + a), c.probe_jwt),
            link_or(
                rs, 1,
                posting(api_at(c, "/v1/workspaces/"@ + a) + "/push"@, c.probe_jwt, Doc::Obj(seq![("message"@, Doc::Str(b))])),
                err_of(made("could not push"@, "id"@, "the push answered no snapshot id"@, rs[1])),
                deleting(api_at(c, "/v1/workspaces/"@ + a), c.probe_jwt),
                link_or(
                    rs, 2,
                    AskV::Wait(WaitV::Doc {
                        url: api_at(c, "/v1/volumes/"@ + a + "/history"@),
                        token: c.probe_jwt,
                        want: WantV::RowReady { id: snap },
                        cap_ms: (CACHE_MS / 2) as u64,
                    }),
                    lost_in("the snapshot never turned ready"@, rs[2]),
                    deleting(api_at(c, "/v1/workspaces/"@ + a), c.probe_jwt),
                    link_or(
                        rs, 3,
                        posting(
                            api_at(c, "/v1/workspaces/restore"@), c.probe_jwt,
                            Doc::Obj(seq![("name"@, Doc::Str(b)), ("snapshot_id"@, Doc::Str(snap))]),
                        ),
                        err_of(made("could not restore"@, "id"@, "the restore answered no workspace id"@, rs[3])),
                        deleting(api_at(c, "/v1/workspaces/"@ + a), c.probe_jwt),
                        link_or(
                            rs, 4,
                            AskV::Wait(WaitV::Doc {
                                url: api_at(c, "/v1/workspaces/"@ + copy),
                                token: c.probe_jwt,
                                want: WantV::Field { key: "state"@, value: "ready"@ },
                                cap_ms: (CACHE_MS / 2) as u64,
                            }),
                            lost_of(rs[4]), deleting(api_at(c, "/v1/workspaces/"@ + a), c.probe_jwt),
                            also(
                                rs, 5, deleting(api_at(c, "/v1/workspaces/"@ + a), c.probe_jwt),
                                link(
                                    rs, 6,
                                    AskV::Exec { ws: copy, script: "cat "@ + DOTFILE@, bound_ms: EXEC_MS }, unran(rs[6]),
                                    unless(
                                        rs, 7,
                                        exits("reading the dotfile in the restored copy exited "@, rs[6]),
                                        deleting(api_at(c, "/v1/workspaces/"@ + copy), c.probe_jwt),
                                        link(
                                            rs, 7,
                                            AskV::Exec { ws: copy, script: "cat "@ + TREE_FILE@, bound_ms: EXEC_MS },
                                            unran(rs[7]),
                                            also(
                                                rs, 8, deleting(api_at(c, "/v1/workspaces/"@ + copy), c.probe_jwt),
                                                judge(
                                                    exits("reading the tree file in the restored copy exited "@, rs[7]),
                                                    judge(
                                                        prints_otherwise(
                                                            "the restored copy's dotfile read back "@, c.run_id, rs[6],
                                                        ),
                                                        judge(
                                                            prints_otherwise(
                                                                "the restored copy's tree file read back "@, c.run_id, rs[7],
                                                            ),
                                                            link(
                                                                rs, 9,
                                                                posting(
                                                                    api_at(c, "/v1/workspaces"@), c.probe_jwt,
                                                                    Doc::Obj(seq![
                                                                        ("name"@, Doc::Str(fresh)),
                                                                        ("region"@, Doc::Str(c.region)),
                                                                        ("quota_gb"@, Doc::Int(QUOTA_GB as int)),
                                                                        ("packages"@, Doc::Arr(seq![])),
                                                                    ]),
                                                                ),
                                                                err_of(made(
                                                                    "could not create "@ + fresh, "id"@,
                                                                    "the create answered no workspace id"@, rs[9],
                                                                )),
                                                                link(
                                                                    rs, 10,
                                                                    AskV::Wait(WaitV::Doc {
                                                                        url: api_at(c, "/v1/workspaces/"@ + other),
                                                                        token: c.probe_jwt,
                                                                        want: WantV::Field { key: "state"@, value: "ready"@ },
                                                                        cap_ms: READY_MS,
                                                                    }),
                                                                    lost_in(fresh + " never became ready"@, rs[10]),
                                                                    link(
                                                                        rs, 11,
                                                                        AskV::Exec {
                                                                            ws: other,
                                                                            script: "test -e "@ + DOTFILE@,
                                                                            bound_ms: EXEC_MS,
                                                                        },
                                                                        unran(rs[11]),
                                                                        link(
                                                                            rs, 12,
                                                                            AskV::Exec {
                                                                                ws: other,
                                                                                script: "test -e "@ + TREE_FILE@,
                                                                                bound_ms: EXEC_MS,
                                                                            },
                                                                            unran(rs[12]),
                                                                            also(
                                                                                rs, 13,
                                                                                deleting(
                                                                                    api_at(c, "/v1/workspaces/"@ + other),
                                                                                    c.probe_jwt,
                                                                                ),
                                                                                judge(
                                                                                    already_there("dotfile"@, rs[11]),
                                                                                    ending(already_there("tree file"@, rs[12])),
                                                                                ),
                                                                            ),
                                                                        ),
                                                                    ),
                                                                ),
                                                            ),
                                                        ),
                                                    ),
                                                ),
                                            ),
                                        ),
                                    ),
                                ),
                            ),
                        ),
                    ),
                ),
            ),
        ),
    )
}

fn home_travels_body(c: &Run, a: &str, b: &str, fresh: &str, log: &Log) -> (n: Next)
    ensures
        n@ == home_travels_next(c@, a@, b@, fresh@, log@.rs),
{
    if log.rs.len() <= 0 {
        return Next::Ask(exec(
            a,
            cat5(
                cat8(
                    "set -e\nmkdir -p ~/.config ~/workspace\nprintf %s ", c.run_id.as_str(), " > ", DOTFILE, "\nprintf %s ",
                    c.run_id.as_str(), " > ", TREE_FILE,
                ).as_str(),
                "\nsync ", DOTFILE, " ", TREE_FILE,
            ),
            EXEC_MS,
        ));
    }
    if let Some(why) = not_ran(&log.rs[0]) {
        return Next::Fail(why);
    }
    if let Some(why) = exits_badly("writing the home files exited ", &log.rs[0]) {
        if log.rs.len() <= 1 {
            return Next::Ask(erase(api(c, cat2("/v1/workspaces/", a).as_str()), c.probe_jwt.as_str()));
        }
        return Next::Fail(why);
    }
    if log.rs.len() <= 1 {
        return Next::Ask(post(
            cat2(api(c, cat2("/v1/workspaces/", a).as_str()).as_str(), "/push"), c.probe_jwt.as_str(), obj1("message", txt(b)),
        ));
    }
    let snap = match made_of("could not push", "id", "the push answered no snapshot id", &log.rs[1]) {
        Err(why) => {
            if log.rs.len() <= 2 {
                return Next::Ask(erase(api(c, cat2("/v1/workspaces/", a).as_str()), c.probe_jwt.as_str()));
            }
            return Next::Fail(why);
        },
        Ok(t) => t,
    };
    if log.rs.len() <= 2 {
        return Next::Ask(Ask::Wait(Wait::Doc {
            url: api(c, cat3("/v1/volumes/", a, "/history").as_str()),
            token: c.probe_jwt.clone(),
            want: Want::RowReady { id: snap.clone() },
            cap_ms: CACHE_MS / 2,
        }));
    }
    if let Some(why) = lost_within("the snapshot never turned ready", &log.rs[2]) {
        if log.rs.len() <= 3 {
            return Next::Ask(erase(api(c, cat2("/v1/workspaces/", a).as_str()), c.probe_jwt.as_str()));
        }
        return Next::Fail(why);
    }
    if log.rs.len() <= 3 {
        return Next::Ask(post(
            api(c, "/v1/workspaces/restore"), c.probe_jwt.as_str(), obj2("name", txt(b), "snapshot_id", txt(snap.as_str())),
        ));
    }
    let copy = match made_of("could not restore", "id", "the restore answered no workspace id", &log.rs[3]) {
        Err(why) => {
            if log.rs.len() <= 4 {
                return Next::Ask(erase(api(c, cat2("/v1/workspaces/", a).as_str()), c.probe_jwt.as_str()));
            }
            return Next::Fail(why);
        },
        Ok(t) => t,
    };
    if log.rs.len() <= 4 {
        return Next::Ask(Ask::Wait(Wait::Doc {
            url: api(c, cat2("/v1/workspaces/", copy.as_str()).as_str()),
            token: c.probe_jwt.clone(),
            want: Want::Field { key: "state".to_owned(), value: "ready".to_owned() },
            cap_ms: CACHE_MS / 2,
        }));
    }
    if let Some(why) = lost(&log.rs[4]) {
        if log.rs.len() <= 5 {
            return Next::Ask(erase(api(c, cat2("/v1/workspaces/", a).as_str()), c.probe_jwt.as_str()));
        }
        return Next::Fail(why);
    }
    if log.rs.len() <= 5 {
        return Next::Ask(erase(api(c, cat2("/v1/workspaces/", a).as_str()), c.probe_jwt.as_str()));
    }
    if log.rs.len() <= 6 {
        return Next::Ask(exec(copy.as_str(), cat2("cat ", DOTFILE), EXEC_MS));
    }
    if let Some(why) = not_ran(&log.rs[6]) {
        return Next::Fail(why);
    }
    if let Some(why) = exits_badly("reading the dotfile in the restored copy exited ", &log.rs[6]) {
        if log.rs.len() <= 7 {
            return Next::Ask(erase(api(c, cat2("/v1/workspaces/", copy.as_str()).as_str()), c.probe_jwt.as_str()));
        }
        return Next::Fail(why);
    }
    if log.rs.len() <= 7 {
        return Next::Ask(exec(copy.as_str(), cat2("cat ", TREE_FILE), EXEC_MS));
    }
    if let Some(why) = not_ran(&log.rs[7]) {
        return Next::Fail(why);
    }
    if log.rs.len() <= 8 {
        return Next::Ask(erase(api(c, cat2("/v1/workspaces/", copy.as_str()).as_str()), c.probe_jwt.as_str()));
    }
    if let Some(why) = exits_badly("reading the tree file in the restored copy exited ", &log.rs[7]) {
        return Next::Fail(why);
    }
    if let Some(why) = printed_otherwise("the restored copy's dotfile read back ", c.run_id.as_str(), &log.rs[6]) {
        return Next::Fail(why);
    }
    if let Some(why) = printed_otherwise("the restored copy's tree file read back ", c.run_id.as_str(), &log.rs[7]) {
        return Next::Fail(why);
    }
    if log.rs.len() <= 9 {
        return Next::Ask(post(
            api(c, "/v1/workspaces"), c.probe_jwt.as_str(),
            obj4("name", txt(fresh), "region", txt(c.region.as_str()), "quota_gb", int_doc(QUOTA_GB), "packages", arr0()),
        ));
    }
    let other = match made_of(cat2("could not create ", fresh).as_str(), "id", "the create answered no workspace id", &log.rs[9]) {
        Err(why) => {
            return Next::Fail(why);
        },
        Ok(t) => t,
    };
    if log.rs.len() <= 10 {
        return Next::Ask(Ask::Wait(Wait::Doc {
            url: api(c, cat2("/v1/workspaces/", other.as_str()).as_str()),
            token: c.probe_jwt.clone(),
            want: Want::Field { key: "state".to_owned(), value: "ready".to_owned() },
            cap_ms: READY_MS,
        }));
    }
    if let Some(why) = lost_within(cat2(fresh, " never became ready").as_str(), &log.rs[10]) {
        return Next::Fail(why);
    }
    if log.rs.len() <= 11 {
        return Next::Ask(exec(other.as_str(), cat2("test -e ", DOTFILE), EXEC_MS));
    }
    if let Some(why) = not_ran(&log.rs[11]) {
        return Next::Fail(why);
    }
    if log.rs.len() <= 12 {
        return Next::Ask(exec(other.as_str(), cat2("test -e ", TREE_FILE), EXEC_MS));
    }
    if let Some(why) = not_ran(&log.rs[12]) {
        return Next::Fail(why);
    }
    if log.rs.len() <= 13 {
        return Next::Ask(erase(api(c, cat2("/v1/workspaces/", other.as_str()).as_str()), c.probe_jwt.as_str()));
    }
    if let Some(why) = is_there("dotfile", &log.rs[11]) {
        return Next::Fail(why);
    }
    end(is_there("tree file", &log.rs[12]))
}

/// What is built under the workspace's cache is in the copy restored from its push: read in the
/// copy, since the source proves nothing. The pushed volume outlives both workspaces and goes last.
pub open spec fn cache_travels_next(c: RunV, name: Seq<char>, rs: Seq<ReplyV>) -> NextV {
    let src = made("could not create "@ + name, "id"@, "the create answered no workspace id"@, rs[0])->Ok_0;
    let snap = made("could not push"@, "id"@, "the push answered no snapshot id"@, rs[3])->Ok_0;
    let copy = made("could not restore"@, "id"@, "the restore answered no workspace id"@, rs[5])->Ok_0;
    link(
        rs, 0,
        posting(
            api_at(c, "/v1/workspaces"@), c.probe_jwt,
            Doc::Obj(seq![
                ("name"@, Doc::Str(name)),
                ("region"@, Doc::Str(c.region)),
                ("quota_gb"@, Doc::Int(QUOTA_GB as int)),
                ("packages"@, Doc::Arr(seq![])),
            ]),
        ),
        err_of(made("could not create "@ + name, "id"@, "the create answered no workspace id"@, rs[0])),
        link(
            rs, 1,
            AskV::Wait(WaitV::Doc {
                url: api_at(c, "/v1/workspaces/"@ + src),
                token: c.probe_jwt,
                want: WantV::Field { key: "state"@, value: "ready"@ },
                cap_ms: READY_MS,
            }),
            lost_in(name + " never became ready"@, rs[1]),
            link(
                rs, 2,
                AskV::Exec {
                    ws: src,
                    script: "set -e\nmkdir -p \"$CARGO_TARGET_DIR\"\nprintf %s "@ + c.run_id
                        + " > \"$CARGO_TARGET_DIR/marker\"\nsync \"$CARGO_TARGET_DIR/marker\""@,
                    bound_ms: EXEC_MS,
                },
                unran(rs[2]),
                unless2(
                    rs, 3, exits("writing under the cache exited "@, rs[2]),
                    deleting(api_at(c, "/v1/workspaces/"@ + src), c.probe_jwt),
                    deleting(api_at(c, "/v1/volumes/"@ + src), c.probe_jwt),
                    link_or2(
                        rs, 3,
                        posting(
                            api_at(c, "/v1/workspaces/"@ + src) + "/push"@, c.probe_jwt,
                            Doc::Obj(seq![("message"@, Doc::Str(name))]),
                        ),
                        err_of(made("could not push"@, "id"@, "the push answered no snapshot id"@, rs[3])),
                        deleting(api_at(c, "/v1/workspaces/"@ + src), c.probe_jwt),
                        deleting(api_at(c, "/v1/volumes/"@ + src), c.probe_jwt),
                        link_or2(
                            rs, 4,
                            AskV::Wait(WaitV::Doc {
                                url: api_at(c, "/v1/volumes/"@ + src + "/history"@),
                                token: c.probe_jwt,
                                want: WantV::RowReady { id: snap },
                                cap_ms: (CACHE_MS / 2) as u64,
                            }),
                            lost_in("the snapshot never turned ready"@, rs[4]),
                            deleting(api_at(c, "/v1/workspaces/"@ + src), c.probe_jwt),
                            deleting(api_at(c, "/v1/volumes/"@ + src), c.probe_jwt),
                            link_or2(
                                rs, 5,
                                posting(
                                    api_at(c, "/v1/workspaces/restore"@), c.probe_jwt,
                                    Doc::Obj(seq![("name"@, Doc::Str(name + "-r"@)), ("snapshot_id"@, Doc::Str(snap))]),
                                ),
                                err_of(made("could not restore"@, "id"@, "the restore answered no workspace id"@, rs[5])),
                                deleting(api_at(c, "/v1/workspaces/"@ + src), c.probe_jwt),
                                deleting(api_at(c, "/v1/volumes/"@ + src), c.probe_jwt),
                                link_or2(
                                    rs, 6,
                                    AskV::Wait(WaitV::Doc {
                                        url: api_at(c, "/v1/workspaces/"@ + copy),
                                        token: c.probe_jwt,
                                        want: WantV::Field { key: "state"@, value: "ready"@ },
                                        cap_ms: (CACHE_MS / 2) as u64,
                                    }),
                                    lost_of(rs[6]), deleting(api_at(c, "/v1/workspaces/"@ + src), c.probe_jwt),
                                    deleting(api_at(c, "/v1/volumes/"@ + src), c.probe_jwt),
                                    also(
                                        rs, 7, deleting(api_at(c, "/v1/workspaces/"@ + src), c.probe_jwt),
                                        link(
                                            rs, 8,
                                            AskV::Exec {
                                                ws: copy,
                                                script: "cat \"$CARGO_TARGET_DIR/marker\""@,
                                                bound_ms: EXEC_MS,
                                            },
                                            unran(rs[8]),
                                            also(
                                                rs, 9, deleting(api_at(c, "/v1/workspaces/"@ + copy), c.probe_jwt),
                                                also(
                                                    rs, 10, deleting(api_at(c, "/v1/volumes/"@ + src), c.probe_jwt),
                                                    judge(
                                                        exits("the restored copy has no marker under its cache: exit "@, rs[8]),
                                                        ending(prints_otherwise(
                                                            "the restored copy read back "@, c.run_id, rs[8],
                                                        )),
                                                    ),
                                                ),
                                            ),
                                        ),
                                    ),
                                ),
                            ),
                        ),
                    ),
                ),
            ),
        ),
    )
}

fn cache_travels_body(c: &Run, name: &str, log: &Log) -> (n: Next)
    ensures
        n@ == cache_travels_next(c@, name@, log@.rs),
        refusal_told(0, log@, n@),
{
    if log.rs.len() <= 0 {
        return Next::Ask(post(
            api(c, "/v1/workspaces"), c.probe_jwt.as_str(),
            obj4("name", txt(name), "region", txt(c.region.as_str()), "quota_gb", int_doc(QUOTA_GB), "packages", arr0()),
        ));
    }
    let src = match made_of(cat2("could not create ", name).as_str(), "id", "the create answered no workspace id", &log.rs[0]) {
        Err(why) => {
            return Next::Fail(why);
        },
        Ok(t) => t,
    };
    if log.rs.len() <= 1 {
        return Next::Ask(Ask::Wait(Wait::Doc {
            url: api(c, cat2("/v1/workspaces/", src.as_str()).as_str()),
            token: c.probe_jwt.clone(),
            want: Want::Field { key: "state".to_owned(), value: "ready".to_owned() },
            cap_ms: READY_MS,
        }));
    }
    if let Some(why) = lost_within(cat2(name, " never became ready").as_str(), &log.rs[1]) {
        return Next::Fail(why);
    }
    if log.rs.len() <= 2 {
        return Next::Ask(exec(
            src.as_str(),
            cat3(
                "set -e\nmkdir -p \"$CARGO_TARGET_DIR\"\nprintf %s ", c.run_id.as_str(),
                " > \"$CARGO_TARGET_DIR/marker\"\nsync \"$CARGO_TARGET_DIR/marker\"",
            ),
            EXEC_MS,
        ));
    }
    if let Some(why) = not_ran(&log.rs[2]) {
        return Next::Fail(why);
    }
    if let Some(why) = exits_badly("writing under the cache exited ", &log.rs[2]) {
        if log.rs.len() <= 3 {
            return Next::Ask(erase(api(c, cat2("/v1/workspaces/", src.as_str()).as_str()), c.probe_jwt.as_str()));
        }
        if log.rs.len() <= 4 {
            return Next::Ask(erase(api(c, cat2("/v1/volumes/", src.as_str()).as_str()), c.probe_jwt.as_str()));
        }
        return Next::Fail(why);
    }
    if log.rs.len() <= 3 {
        return Next::Ask(post(
            cat2(api(c, cat2("/v1/workspaces/", src.as_str()).as_str()).as_str(), "/push"), c.probe_jwt.as_str(),
            obj1("message", txt(name)),
        ));
    }
    let snap = match made_of("could not push", "id", "the push answered no snapshot id", &log.rs[3]) {
        Err(why) => {
            if log.rs.len() <= 4 {
                return Next::Ask(erase(api(c, cat2("/v1/workspaces/", src.as_str()).as_str()), c.probe_jwt.as_str()));
            }
            if log.rs.len() <= 5 {
                return Next::Ask(erase(api(c, cat2("/v1/volumes/", src.as_str()).as_str()), c.probe_jwt.as_str()));
            }
            return Next::Fail(why);
        },
        Ok(t) => t,
    };
    if log.rs.len() <= 4 {
        return Next::Ask(Ask::Wait(Wait::Doc {
            url: api(c, cat3("/v1/volumes/", src.as_str(), "/history").as_str()),
            token: c.probe_jwt.clone(),
            want: Want::RowReady { id: snap.clone() },
            cap_ms: CACHE_MS / 2,
        }));
    }
    if let Some(why) = lost_within("the snapshot never turned ready", &log.rs[4]) {
        if log.rs.len() <= 5 {
            return Next::Ask(erase(api(c, cat2("/v1/workspaces/", src.as_str()).as_str()), c.probe_jwt.as_str()));
        }
        if log.rs.len() <= 6 {
            return Next::Ask(erase(api(c, cat2("/v1/volumes/", src.as_str()).as_str()), c.probe_jwt.as_str()));
        }
        return Next::Fail(why);
    }
    if log.rs.len() <= 5 {
        return Next::Ask(post(
            api(c, "/v1/workspaces/restore"), c.probe_jwt.as_str(),
            obj2("name", txt(cat2(name, "-r").as_str()), "snapshot_id", txt(snap.as_str())),
        ));
    }
    let copy = match made_of("could not restore", "id", "the restore answered no workspace id", &log.rs[5]) {
        Err(why) => {
            if log.rs.len() <= 6 {
                return Next::Ask(erase(api(c, cat2("/v1/workspaces/", src.as_str()).as_str()), c.probe_jwt.as_str()));
            }
            if log.rs.len() <= 7 {
                return Next::Ask(erase(api(c, cat2("/v1/volumes/", src.as_str()).as_str()), c.probe_jwt.as_str()));
            }
            return Next::Fail(why);
        },
        Ok(t) => t,
    };
    if log.rs.len() <= 6 {
        return Next::Ask(Ask::Wait(Wait::Doc {
            url: api(c, cat2("/v1/workspaces/", copy.as_str()).as_str()),
            token: c.probe_jwt.clone(),
            want: Want::Field { key: "state".to_owned(), value: "ready".to_owned() },
            cap_ms: CACHE_MS / 2,
        }));
    }
    if let Some(why) = lost(&log.rs[6]) {
        if log.rs.len() <= 7 {
            return Next::Ask(erase(api(c, cat2("/v1/workspaces/", src.as_str()).as_str()), c.probe_jwt.as_str()));
        }
        if log.rs.len() <= 8 {
            return Next::Ask(erase(api(c, cat2("/v1/volumes/", src.as_str()).as_str()), c.probe_jwt.as_str()));
        }
        return Next::Fail(why);
    }
    if log.rs.len() <= 7 {
        return Next::Ask(erase(api(c, cat2("/v1/workspaces/", src.as_str()).as_str()), c.probe_jwt.as_str()));
    }
    if log.rs.len() <= 8 {
        return Next::Ask(exec(copy.as_str(), "cat \"$CARGO_TARGET_DIR/marker\"".to_owned(), EXEC_MS));
    }
    if let Some(why) = not_ran(&log.rs[8]) {
        return Next::Fail(why);
    }
    if log.rs.len() <= 9 {
        return Next::Ask(erase(api(c, cat2("/v1/workspaces/", copy.as_str()).as_str()), c.probe_jwt.as_str()));
    }
    if log.rs.len() <= 10 {
        return Next::Ask(erase(api(c, cat2("/v1/volumes/", src.as_str()).as_str()), c.probe_jwt.as_str()));
    }
    if let Some(why) = exits_badly("the restored copy has no marker under its cache: exit ", &log.rs[8]) {
        return Next::Fail(why);
    }
    end(printed_otherwise("the restored copy read back ", c.run_id.as_str(), &log.rs[8]))
}

// ── the tool server ─────────────────────────────────────────────────────────

/// How one character stands inside single quotes of a shell.
pub open spec fn quoted_char(ch: char) -> Seq<char> {
    if ch == '\'' { "'\\''"@ } else { seq![ch] }
}

/// A text inside single quotes of a shell.
pub open spec fn quoted(s: Seq<char>) -> Seq<char>
    decreases s.len(),
{
    if s.len() == 0 { seq![] } else { quoted(s.drop_last()) + quoted_char(s.last()) }
}

pub fn quote(s: &str) -> (r: String)
    ensures
        r@ == quoted(s@),
{
    let v = chars_of(s);
    let mut r = String::new();
    let mut i: usize = 0;
    proof {
        assert(s@.take(0) =~= Seq::<char>::empty());
    }
    while i < v.len()
        invariant
            v@ == s@,
            i <= v@.len(),
            r@ == quoted(s@.take(i as int)),
        decreases v.len() - i,
    {
        proof {
            assert(s@.take(i + 1).drop_last() =~= s@.take(i as int));
            assert(s@.take(i + 1).last() == v@[i as int]);
        }
        let ch = v[i];
        if ch == '\'' {
            r = r.concat("'\\''");
        } else {
            let ghost before = r@;
            r.push(ch);
            proof {
                assert(r@ =~= before + seq![ch]);
            }
        }
        i = i + 1;
    }
    proof {
        assert(s@.take(s@.len() as int) =~= s@);
    }
    r
}

/// A call of one tool, made inside the pod with the pod's own token, as a session makes it. It prints
/// the status and then the answer, so that a refusal can be told from another.
pub open spec fn tool_script(tool: Seq<char>, args: Doc) -> Seq<char> {
    "curl -s -o /tmp/kl-tool.out -w '%{http_code}' -X POST http://127.0.0.1:7788/tools/"@ + tool + " -H 'content-type: application/json' -H \"authorization: Bearer $(cat "@ + WS_TOKEN_FILE@ + ")\" -d '"@ + quoted(json_text(args)) + "'; echo; cat /tmp/kl-tool.out"@
}

/// The same, within a bound of its own.
pub fn ws_tool_within(ws: &str, tool: &str, args: &Json, bound_ms: u64) -> (r: Ask)
    ensures
        r@ == (AskV::Exec { ws: ws@, script: tool_script(tool@, args@), bound_ms }),
{
    let body = quote(render(args).as_str());
    let script = cat7("curl -s -o /tmp/kl-tool.out -w '%{http_code}' -X POST http://127.0.0.1:7788/tools/", tool, " -H 'content-type: application/json' -H \"authorization: Bearer $(cat ", WS_TOKEN_FILE, ")\" -d '", body.as_str(), "'; echo; cat /tmp/kl-tool.out");
    exec(ws, script, bound_ms)
}

pub fn ws_tool(ws: &str, tool: &str, args: &Json) -> (r: Ask)
    ensures
        r@ == (AskV::Exec { ws: ws@, script: tool_script(tool@, args@), bound_ms: EXEC_MS }),
{
    ws_tool_within(ws, tool, args, EXEC_MS)
}

/// The status and the text of a tool's answer.
pub open spec fn tool_answer(r: ReplyV) -> Result<(u16, Seq<char>), Seq<char>> {
    match ran_of(r) {
        Err(why) => Err(why),
        Ok((code, out, err)) => if code != 0 {
            Err("the tool call could not be made: exit "@ + dec_int(code as int) + ": "@ + trimmed(err))
        } else {
            match halves(out, '\n') {
                None => Err("no status line in "@ + debug_text(out)),
                Some((status, body)) => match unsigned_of(trimmed(status), 65_535) {
                    Some(n) => Ok((n as u16, body)),
                    None => Err(within("status was "@ + debug_text(status), unsigned_error(trimmed(status)))),
                },
            }
        },
    }
}

pub fn tool_answered(r: &Reply) -> (o: Result<(u16, String), String>)
    ensures
        (match o { Ok(p) => Ok((p.0, p.1@)), Err(e) => Err(e@) }) == tool_answer(r@),
{
    match ran(r) {
        Err(why) => Err(why),
        Ok((code, out, err)) => {
            if code != 0 {
                return Err(cat4("the tool call could not be made: exit ", decimal_int(code).as_str(), ": ", trim(err.as_str()).as_str()));
            }
            match split_once(out.as_str(), '\n') {
                None => Err(cat2("no status line in ", debug(out.as_str()).as_str())),
                Some((status, body)) => {
                    let t = trim(status.as_str());
                    match parse_up_to(t.as_str(), 65_535) {
                        Some(n) => Ok((n as u16, body)),
                        None => Err(inside(
                            cat2("status was ", debug(status.as_str()).as_str()).as_str(), why_unsigned(t.as_str()).as_str(),
                        )),
                    }
                },
            }
        },
    }
}

/// The tool server is up in a fresh pod.
pub open spec fn ide_up_next(c: RunV, name: Seq<char>, rs: Seq<ReplyV>) -> NextV {
    let id = made("could not create "@ + name, "id"@, "the create answered no workspace id"@, rs[0])->Ok_0;
    link(
        rs, 0,
        posting(
            api_at(c, "/v1/workspaces"@), c.probe_jwt,
            Doc::Obj(seq![
                ("name"@, Doc::Str(name)),
                ("region"@, Doc::Str(c.region)),
                ("quota_gb"@, Doc::Int(QUOTA_GB as int)),
                ("packages"@, Doc::Arr(seq![])),
            ]),
        ),
        err_of(made("could not create "@ + name, "id"@, "the create answered no workspace id"@, rs[0])),
        link(
            rs, 1,
            AskV::Wait(WaitV::Doc {
                url: api_at(c, "/v1/workspaces/"@ + id),
                token: c.probe_jwt,
                want: WantV::Field { key: "state"@, value: "ready"@ },
                cap_ms: READY_MS,
            }),
            lost_in(name + " never became ready"@, rs[1]),
            link(rs, 2, AskV::Wait(WaitV::Health { ws: id, cap_ms: (IDE_MS - 10_000) as u64 }), lost_of(rs[2]), NextV::Pass),
        ),
    )
}

fn ide_up_body(c: &Run, name: &str, log: &Log) -> (n: Next)
    ensures
        n@ == ide_up_next(c@, name@, log@.rs),
        refusal_told(0, log@, n@),
{
    if log.rs.len() <= 0 {
        return Next::Ask(post(
            api(c, "/v1/workspaces"), c.probe_jwt.as_str(),
            obj4("name", txt(name), "region", txt(c.region.as_str()), "quota_gb", int_doc(QUOTA_GB), "packages", arr0()),
        ));
    }
    let id = match made_of(cat2("could not create ", name).as_str(), "id", "the create answered no workspace id", &log.rs[0]) {
        Err(why) => {
            return Next::Fail(why);
        },
        Ok(t) => t,
    };
    if log.rs.len() <= 1 {
        return Next::Ask(Ask::Wait(Wait::Doc {
            url: api(c, cat2("/v1/workspaces/", id.as_str()).as_str()),
            token: c.probe_jwt.clone(),
            want: Want::Field { key: "state".to_owned(), value: "ready".to_owned() },
            cap_ms: READY_MS,
        }));
    }
    if let Some(why) = lost_within(cat2(name, " never became ready").as_str(), &log.rs[1]) {
        return Next::Fail(why);
    }
    if log.rs.len() <= 2 {
        return Next::Ask(Ask::Wait(Wait::Health { ws: id.clone(), cap_ms: IDE_MS - 10_000 }));
    }
    end(lost(&log.rs[2]))
}

/// Why a tool call did not run the command as the workspace's own user: its output is read, since a
/// shell that died exits zero too.
pub open spec fn tool_unrun(r: ReplyV) -> Option<Seq<char>> {
    match ran_of(r) {
        Err(why) => Some(why),
        Ok((code, out, err)) => if code != 0 {
            Some("the tool call exited "@ + dec_int(code as int) + ": "@ + trimmed(err))
        } else if !holds(out, "\"exit_code\":0"@) || !holds(out, "ide-kl"@) {
            Some("exec through the tool server did not run as kl with exit_code 0: "@ + trimmed(out))
        } else {
            None
        },
    }
}

fn tool_not_run(r: &Reply) -> (o: Option<String>)
    ensures
        opt(o) == tool_unrun(r@),
{
    match ran(r) {
        Err(why) => Some(why),
        Ok((code, out, err)) => {
            if code != 0 {
                Some(cat4("the tool call exited ", decimal_int(code).as_str(), ": ", trim(err.as_str()).as_str()))
            } else if !contains(out.as_str(), "\"exit_code\":0") || !contains(out.as_str(), "ide-kl") {
                Some(cat2("exec through the tool server did not run as kl with exit_code 0: ", trim(out.as_str()).as_str()))
            } else {
                None
            }
        },
    }
}

pub open spec fn ide_exec_next(ws: Seq<char>, rs: Seq<ReplyV>) -> NextV {
    link(
        rs, 0,
        AskV::Exec {
            ws: ws,
            script: "curl -sf -X POST http://127.0.0.1:7788/tools/exec -H 'content-type: application/json' -H \"authorization: Bearer $(cat "@
                + WS_TOKEN_FILE@ + ")\" -d '{\"cmd\":\"echo ide-$(id -un)\"}'"@,
            bound_ms: EXEC_MS,
        },
        tool_unrun(rs[0]), NextV::Pass,
    )
}

fn ide_exec_body(ws: &str, log: &Log) -> (n: Next)
    ensures
        n@ == ide_exec_next(ws@, log@.rs),
{
    if log.rs.len() <= 0 {
        return Next::Ask(exec(
            ws,
            cat3(
                "curl -sf -X POST http://127.0.0.1:7788/tools/exec -H 'content-type: application/json' -H \"authorization: Bearer $(cat ",
                WS_TOKEN_FILE, ")\" -d '{\"cmd\":\"echo ide-$(id -un)\"}'",
            ),
            EXEC_MS,
        ));
    }
    end(tool_not_run(&log.rs[0]))
}

/// The last line that tells why there is no sandbox.
pub open spec fn last_holding(lines: Seq<Seq<char>>, t: Seq<char>) -> Option<Seq<char>>
    decreases lines.len(),
{
    if lines.len() == 0 {
        None
    } else if holds(lines.last(), t) {
        Some(lines.last())
    } else {
        last_holding(lines.drop_last(), t)
    }
}

fn last_with(all: &Vec<String>, t: &str) -> (r: Option<String>)
    ensures
        opt(r) == last_holding(texts(all@), t@),
{
    let ghost lines = texts(all@);
    let mut i: usize = all.len();
    proof {
        assert(lines.take(lines.len() as int) =~= lines);
    }
    while i > 0
        invariant
            i <= all@.len(),
            lines == texts(all@),
            last_holding(lines, t@) == last_holding(lines.take(i as int), t@),
        decreases i,
    {
        proof {
            assert(lines.take(i as int).drop_last() =~= lines.take(i - 1));
            assert(lines.take(i as int).last() == all@[i - 1]@);
        }
        if contains(all[i - 1].as_str(), t) {
            return Some(all[i - 1].clone());
        }
        i = i - 1;
    }
    None
}

/// Why the server's own log does not say that it wrapped an exec. Only a positive line counts: a log
/// that says nothing is what a server that has run nothing has.
pub open spec fn unsandboxed(log_path: Seq<char>, r: ReplyV) -> Option<Seq<char>> {
    match ran_of(r) {
        Err(why) => Some(why),
        Ok((code, out, _)) => if code != 0 {
            Some("could not read "@ + log_path + ": exit "@ + dec_int(code as int))
        } else if holds(out, "ide.sandbox.active"@) {
            None
        } else {
            Some(
                "execs are not sandboxed: "@ + (match last_holding(lines_of(out), "ide.sandbox.unavailable"@) {
                    Some(line) => clipped(trimmed(line), 200),
                    None => "the server said nothing about the sandbox at all"@,
                }),
            )
        },
    }
}

fn sandbox_off(log_path: &str, r: &Reply) -> (o: Option<String>)
    ensures
        opt(o) == unsandboxed(log_path@, r@),
{
    match ran(r) {
        Err(why) => Some(why),
        Ok((code, out, _)) => {
            if code != 0 {
                return Some(cat4("could not read ", log_path, ": exit ", decimal_int(code).as_str()));
            }
            if contains(out.as_str(), "ide.sandbox.active") {
                return None;
            }
            let why = match last_with(&lines(out.as_str()), "ide.sandbox.unavailable") {
                Some(line) => first_chars(trim(line.as_str()).as_str(), 200),
                None => "the server said nothing about the sandbox at all".to_owned(),
            };
            Some(cat2("execs are not sandboxed: ", why.as_str()))
        },
    }
}

/// Why a fetch from inside a wrapped exec did not work.
pub open spec fn unfetched(url: Seq<char>, r: ReplyV) -> Option<Seq<char>> {
    match tool_answer(r) {
        Err(why) => Some(why),
        Ok((status, body)) => if status != 200 {
            Some("the tool server answered "@ + dec(status as nat) + ": "@ + trimmed(body))
        } else {
            match json_of(body) {
                None => Some(within("parsing the exec answer"@, (match json_error(body) { Some(e) => e, None => seq![] }))),
                Some(d) => {
                    let code = match doc_i64(member(d, "exit_code"@)) {
                        Some(n) => n,
                        None => -1,
                    };
                    let out = trimmed(text_or_empty(d, "stdout"@));
                    let err = trimmed(text_or_empty(d, "stderr"@));
                    if code != 0 {
                        Some(
                            "an HTTPS fetch from inside a wrapped exec failed (curl "@ + dec_int(code) + ")"@ + (if holds(err, "certificate"@)
                                || code == 60 {
                                " — the sandbox has no readable CA bundle"@
                            } else {
                                ""@
                            }) + ": "@ + err,
                        )
                    } else if !starts(out, "2"@) && !starts(out, "3"@) {
                        Some(url + " answered "@ + out + " from inside the sandbox"@)
                    } else {
                        None
                    }
                },
            }
        },
    }
}

fn not_fetched(url: &str, r: &Reply) -> (o: Option<String>)
    ensures
        opt(o) == unfetched(url@, r@),
{
    match tool_answered(r) {
        Err(why) => Some(why),
        Ok((status, body)) => {
            if status != 200 {
                return Some(cat4("the tool server answered ", decimal(status as u64).as_str(), ": ", trim(body.as_str()).as_str()));
            }
            match parse(body.as_str()) {
                None => {
                    let e = match parse_error(body.as_str()) {
                        Some(e) => e,
                        None => String::new(),
                    };
                    Some(inside("parsing the exec answer", e.as_str()))
                },
                Some(d) => {
                    let code: i64 = match i64_of(d.get("exit_code")) {
                        Some(n) => n,
                        None => -1,
                    };
                    let out = trim(text_or(&d, "stdout").as_str());
                    let err = trim(text_or(&d, "stderr").as_str());
                    if code != 0 {
                        let hint = if contains(err.as_str(), "certificate") || code == 60 {
                            " — the sandbox has no readable CA bundle"
                        } else {
                            ""
                        };
                        Some(cat6(
                            "an HTTPS fetch from inside a wrapped exec failed (curl ", decimal_int(code).as_str(), ")", hint, ": ",
                            err.as_str(),
                        ))
                    } else if !starts_with(out.as_str(), "2") && !starts_with(out.as_str(), "3") {
                        Some(cat4(url, " answered ", out.as_str(), " from inside the sandbox"))
                    } else {
                        None
                    }
                },
            }
        },
    }
}

pub open spec fn sandbox_next(c: RunV, ws: Seq<char>, rs: Seq<ReplyV>) -> NextV {
    link(
        rs, 0,
        AskV::Exec { ws: ws, script: "cat "@ + c.ide_log + " 2>&1 || true"@, bound_ms: EXEC_MS }, unsandboxed(c.ide_log, rs[0]),
        NextV::Pass,
    )
}

fn sandbox_body(c: &Run, ws: &str, log: &Log) -> (n: Next)
    ensures
        n@ == sandbox_next(c@, ws@, log@.rs),
{
    if log.rs.len() <= 0 {
        return Next::Ask(exec(ws, cat3("cat ", c.ide_log.as_str(), " 2>&1 || true"), EXEC_MS));
    }
    end(sandbox_off(c.ide_log.as_str(), &log.rs[0]))
}

/// A wrapped exec can still fetch over HTTPS, from an address of our own: an address that is not
/// HTTPS would prove nothing.
pub open spec fn https_next(c: RunV, ws: Seq<char>, rs: Seq<ReplyV>) -> NextV {
    if !starts(c.web_url, "https://"@) {
        NextV::Fail(c.web_url + " is not https, so this proves nothing about the trust store"@)
    } else {
        link(
            rs, 0,
            AskV::Exec {
                ws,
                script: tool_script(
                    "exec"@,
                    Doc::Obj(seq![("cmd"@, Doc::Str("curl -sS -m 10 -o /dev/null -w '%{http_code}' "@ + c.web_url))]),
                ),
                bound_ms: EXEC_MS,
            },
            unfetched(c.web_url, rs[0]), NextV::Pass,
        )
    }
}

fn https_body(c: &Run, ws: &str, log: &Log) -> (n: Next)
    ensures
        n@ == https_next(c@, ws@, log@.rs),
{
    if !starts_with(c.web_url.as_str(), "https://") {
        return Next::Fail(cat2(c.web_url.as_str(), " is not https, so this proves nothing about the trust store"));
    }
    if log.rs.len() <= 0 {
        return Next::Ask(ws_tool(
            ws, "exec",
            &obj1("cmd", txt(cat2("curl -sS -m 10 -o /dev/null -w '%{http_code}' ", c.web_url.as_str()).as_str())),
        ));
    }
    end(not_fetched(c.web_url.as_str(), &log.rs[0]))
}

pub open spec fn drop_ws_next(c: RunV, ws: Seq<char>, rs: Seq<ReplyV>) -> NextV {
    also(rs, 0, deleting(api_at(c, "/v1/workspaces/"@ + ws), c.probe_jwt), NextV::Pass)
}

fn drop_ws_body(c: &Run, ws: &str, log: &Log) -> (n: Next)
    ensures
        n@ == drop_ws_next(c@, ws@, log@.rs),
{
    if log.rs.len() <= 0 {
        return Next::Ask(erase(api(c, cat2("/v1/workspaces/", ws).as_str()), c.probe_jwt.as_str()));
    }
    Next::Pass
}

/// A workspace that is done with but for its disk is stopped, as far as it can be.
pub open spec fn park_next(c: RunV, ws: Seq<char>, rs: Seq<ReplyV>) -> NextV {
    also(rs, 0, posting_nothing(api_at(c, "/v1/workspaces/"@ + ws) + "/stop"@, c.probe_jwt), NextV::Pass)
}

fn park_body(c: &Run, ws: &str, log: &Log) -> (n: Next)
    ensures
        n@ == park_next(c@, ws@, log@.rs),
{
    if log.rs.len() <= 0 {
        return Next::Ask(post_nothing(
            cat2(api(c, cat2("/v1/workspaces/", ws).as_str()).as_str(), "/stop"), c.probe_jwt.as_str(),
        ));
    }
    Next::Pass
}

// ── pins ────────────────────────────────────────────────────────────────────

pub open spec fn hex_char(ch: char) -> bool {
    ('0' <= ch && ch <= '9') || ('a' <= ch && ch <= 'f')
}

/// A revision: forty characters of lower-case hex.
pub open spec fn is_rev(t: Seq<char>) -> bool {
    t.len() == 40 && forall|i: int| 0 <= i < t.len() ==> hex_char(#[trigger] t[i])
}

fn rev_shaped(t: &str) -> (r: bool)
    ensures
        r == is_rev(t@),
{
    let v = chars_of(t);
    if v.len() != 40 {
        return false;
    }
    let mut i: usize = 0;
    while i < v.len()
        invariant
            v@ == t@,
            i <= v@.len(),
            forall|k: int| 0 <= k < i ==> hex_char(#[trigger] v@[k]),
        decreases v.len() - i,
    {
        let ch = v[i];
        if !(('0' <= ch && ch <= '9') || ('a' <= ch && ch <= 'f')) {
            proof {
                assert(!hex_char(t@[i as int]));
            }
            return false;
        }
        i = i + 1;
    }
    true
}

/// What the pinned entry resolves to, in a workspace's own document; the revision it is built from
/// has to be one that can be fetched.
pub open spec fn locked(r: ReplyV) -> Result<Seq<char>, Seq<char>> {
    match doc_of(r) {
        Err(why) => Err(within("could not read the workspace"@, why)),
        Ok(d) => match row_named(rows_of(member(d, "locks"@)), "entry"@, PINNED@) {
            None => Err("the workspace carries no lock for "@ + PINNED@),
            Some(lock) => {
                let version = text_or_empty(lock, "version"@);
                let rev = text_or_empty(lock, "rev"@);
                if version.len() == 0 {
                    Err("the lock for "@ + PINNED@ + " names no version"@)
                } else if !is_rev(rev) {
                    Err("the lock's rev is "@ + debug_text(rev) + ", not a 40-character nixpkgs revision"@)
                } else {
                    Ok(version)
                }
            },
        },
    }
}

pub fn locked_version(r: &Reply) -> (o: Result<String, String>)
    ensures
        (match o { Ok(t) => Ok(t@), Err(e) => Err(e@) }) == locked(r@),
{
    match doc(r) {
        Err(why) => Err(inside("could not read the workspace", why.as_str())),
        Ok(d) => match row_in(d.get("locks"), "entry", PINNED) {
            None => Err(cat2("the workspace carries no lock for ", PINNED)),
            Some(lock) => {
                let version = text_or(lock, "version");
                let rev = text_or(lock, "rev");
                if version.as_str().is_empty() {
                    Err(cat3("the lock for ", PINNED, " names no version"))
                } else if !rev_shaped(rev.as_str()) {
                    Err(cat3("the lock's rev is ", debug(rev.as_str()).as_str(), ", not a 40-character nixpkgs revision"))
                } else {
                    Ok(version)
                }
            },
        },
    }
}

/// Why the pod does not run the version the lock names.
pub open spec fn runs_otherwise(version: Seq<char>, r: ReplyV) -> Option<Seq<char>> {
    match ran_of(r) {
        Err(why) => Some(why),
        Ok((code, out, err)) => if code != 0 {
            Some("`jq --version` exits "@ + dec_int(code as int) + ": "@ + trimmed(err))
        } else if !holds(out, version) {
            Some("the lock says "@ + version + " but the pod says "@ + trimmed(out))
        } else {
            None
        },
    }
}

fn run_otherwise(version: &str, r: &Reply) -> (o: Option<String>)
    ensures
        opt(o) == runs_otherwise(version@, r@),
{
    match ran(r) {
        Err(why) => Some(why),
        Ok((code, out, err)) => {
            if code != 0 {
                Some(cat4("`jq --version` exits ", decimal_int(code).as_str(), ": ", trim(err.as_str()).as_str()))
            } else if !contains(out.as_str(), version) {
                Some(cat4("the lock says ", version, " but the pod says ", trim(out.as_str()).as_str()))
            } else {
                None
            }
        },
    }
}

/// Why a package list was not turned down with what a person could ask for instead: the answer is to
/// be 422, and to hold both texts.
pub open spec fn taken(entry: Seq<char>, has: Seq<char>, also_has: Seq<char>, lacking: Seq<char>, r: ReplyV) -> Option<Seq<char>> {
    match raw_of(r) {
        Err(why) => Some(why),
        Ok((status, text)) => if status != 422 {
            Some(entry + " answered "@ + status_line(status) + ", not 422: "@ + trimmed(text))
        } else if !holds(text, has) || !holds(text, also_has) {
            Some(lacking + trimmed(text))
        } else {
            None
        },
    }
}

fn not_refused(entry: &str, has: &str, also_has: &str, lacking: &str, r: &Reply) -> (o: Option<String>)
    ensures
        opt(o) == taken(entry@, has@, also_has@, lacking@, r@),
{
    match raw(r) {
        Err(why) => Some(why),
        Ok((status, text)) => {
            if status != 422 {
                Some(cat5(entry, " answered ", status_text(status).as_str(), ", not 422: ", trim(text.as_str()).as_str()))
            } else if !contains(text.as_str(), has) || !contains(text.as_str(), also_has) {
                Some(cat2(lacking, trim(text.as_str()).as_str()))
            } else {
                None
            }
        },
    }
}

/// Why the lock in the workspace object has no shape: only one that the index answered carries a
/// store path.
pub open spec fn misshapen(id: Seq<char>, r: ReplyV) -> Option<Seq<char>> {
    match object_of(r) {
        Err(why) => Some("could not read the Workspace "@ + id + ": "@ + why),
        Ok(d) => match row_named(rows_of(member2(d, "spec"@, "locks"@)), "entry"@, PINNED@) {
            None => Some("the spec carries no lock for "@ + PINNED@),
            Some(lock) => {
                let path = text_or_empty(lock, "storePath"@);
                if same_letters(text_or_empty(lock, "source"@), "nixhub"@) && !starts(path, "/nix/store/"@) {
                    Some("the lock's store path is "@ + debug_text(path) + ", not a /nix/store one"@)
                } else {
                    None
                }
            },
        },
    }
}

fn lock_shape(id: &str, r: &Reply) -> (o: Option<String>)
    ensures
        opt(o) == misshapen(id@, r@),
{
    match object(r) {
        Err(why) => Some(cat4("could not read the Workspace ", id, ": ", why.as_str())),
        Ok(d) => match row_in(d.get2("spec", "locks"), "entry", PINNED) {
            None => Some(cat2("the spec carries no lock for ", PINNED)),
            Some(lock) => {
                let path = text_or(lock, "storePath");
                if eq_ignore_ascii_case(text_or(lock, "source").as_str(), "nixhub") && !starts_with(path.as_str(), "/nix/store/") {
                    Some(cat3("the lock's store path is ", debug(path.as_str()).as_str(), ", not a /nix/store one"))
                } else {
                    None
                }
            },
        },
    }
}

/// A pinned entry is locked to a version of its kind, and the pod itself runs that version: a lock
/// nobody installed is a row in a document.
pub open spec fn pin_next(c: RunV, name: Seq<char>, rs: Seq<ReplyV>) -> NextV {
    let id = made("could not create "@ + name, "id"@, "the create answered no workspace id"@, rs[0])->Ok_0;
    let version = locked(rs[2])->Ok_0;
    link(
        rs, 0,
        posting(
            api_at(c, "/v1/workspaces"@), c.probe_jwt,
            Doc::Obj(seq![
                ("name"@, Doc::Str(name)),
                ("region"@, Doc::Str(c.region)),
                ("quota_gb"@, Doc::Int(QUOTA_GB as int)),
                ("packages"@, Doc::Arr(seq![Doc::Str(PINNED@)])),
            ]),
        ),
        err_of(made("could not create "@ + name, "id"@, "the create answered no workspace id"@, rs[0])),
        link(
            rs, 1,
            AskV::Wait(WaitV::Doc {
                url: api_at(c, "/v1/workspaces/"@ + id),
                token: c.probe_jwt,
                want: WantV::Field { key: "state"@, value: "ready"@ },
                cap_ms: READY_MS,
            }),
            lost_in(name + " never became ready"@, rs[1]),
            link(
                rs, 2, getting(api_at(c, "/v1/workspaces/"@ + id), c.probe_jwt), err_of(locked(rs[2])),
                if !starts(version, PINNED_PREFIX@) {
                    NextV::Fail(PINNED@ + " locked "@ + version + ", which is not a "@ + PINNED_PREFIX@ + "x"@)
                } else {
                    link(
                        rs, 3,
                        AskV::Exec { ws: id, script: "jq --version"@, bound_ms: EXEC_MS }, runs_otherwise(version, rs[3]),
                        NextV::Pass,
                    )
                },
            ),
        ),
    )
}

fn pin_body(c: &Run, name: &str, log: &Log) -> (n: Next)
    ensures
        n@ == pin_next(c@, name@, log@.rs),
        refusal_told(0, log@, n@),
{
    if log.rs.len() <= 0 {
        return Next::Ask(post(
            api(c, "/v1/workspaces"), c.probe_jwt.as_str(),
            obj4(
                "name", txt(name), "region", txt(c.region.as_str()), "quota_gb", int_doc(QUOTA_GB), "packages",
                arr1(txt(PINNED)),
            ),
        ));
    }
    let id = match made_of(cat2("could not create ", name).as_str(), "id", "the create answered no workspace id", &log.rs[0]) {
        Err(why) => {
            return Next::Fail(why);
        },
        Ok(t) => t,
    };
    if log.rs.len() <= 1 {
        return Next::Ask(Ask::Wait(Wait::Doc {
            url: api(c, cat2("/v1/workspaces/", id.as_str()).as_str()),
            token: c.probe_jwt.clone(),
            want: Want::Field { key: "state".to_owned(), value: "ready".to_owned() },
            cap_ms: READY_MS,
        }));
    }
    if let Some(why) = lost_within(cat2(name, " never became ready").as_str(), &log.rs[1]) {
        return Next::Fail(why);
    }
    if log.rs.len() <= 2 {
        return Next::Ask(get(api(c, cat2("/v1/workspaces/", id.as_str()).as_str()), c.probe_jwt.as_str()));
    }
    let version = match locked_version(&log.rs[2]) {
        Err(why) => {
            return Next::Fail(why);
        },
        Ok(t) => t,
    };
    if !starts_with(version.as_str(), PINNED_PREFIX) {
        return Next::Fail(cat6(PINNED, " locked ", version.as_str(), ", which is not a ", PINNED_PREFIX, "x"));
    }
    if log.rs.len() <= 3 {
        return Next::Ask(exec(id.as_str(), "jq --version".to_owned(), EXEC_MS));
    }
    end(run_otherwise(version.as_str(), &log.rs[3]))
}

pub open spec fn pin_unknown_next(c: RunV, ws: Seq<char>, rs: Seq<ReplyV>) -> NextV {
    link(
        rs, 0,
        patching(
            api_at(c, "/v1/workspaces/"@ + ws), c.probe_jwt,
            Doc::Obj(seq![("packages"@, Doc::Arr(seq![Doc::Str(UNKNOWN@)]))]),
        ),
        taken(UNKNOWN@, "nearest:"@, "nearest:"@, "the refusal names no nearer version: "@, rs[0]), NextV::Pass,
    )
}

fn pin_unknown_body(c: &Run, ws: &str, log: &Log) -> (n: Next)
    ensures
        n@ == pin_unknown_next(c@, ws@, log@.rs),
{
    if log.rs.len() <= 0 {
        return Next::Ask(patch(
            api(c, cat2("/v1/workspaces/", ws).as_str()), c.probe_jwt.as_str(), obj1("packages", arr1(txt(UNKNOWN))),
        ));
    }
    end(not_refused(UNKNOWN, "nearest:", "nearest:", "the refusal names no nearer version: ", &log.rs[0]))
}

pub open spec fn pin_uncached_next(c: RunV, ws: Seq<char>, rs: Seq<ReplyV>) -> NextV {
    link(
        rs, 0,
        patching(
            api_at(c, "/v1/workspaces/"@ + ws), c.probe_jwt,
            Doc::Obj(seq![("packages"@, Doc::Arr(seq![Doc::Str(UNCACHED@)]))]),
        ),
        taken(UNCACHED@, "no cached build"@, "nearest cached:"@, "the refusal names no cached alternative: "@, rs[0]),
        NextV::Pass,
    )
}

fn pin_uncached_body(c: &Run, ws: &str, log: &Log) -> (n: Next)
    ensures
        n@ == pin_uncached_next(c@, ws@, log@.rs),
{
    if log.rs.len() <= 0 {
        return Next::Ask(patch(
            api(c, cat2("/v1/workspaces/", ws).as_str()), c.probe_jwt.as_str(), obj1("packages", arr1(txt(UNCACHED))),
        ));
    }
    end(not_refused(UNCACHED, "no cached build", "nearest cached:", "the refusal names no cached alternative: ", &log.rs[0]))
}

/// An exact pin has one answer: an update that moved it would rebuild what nobody asked to change.
pub open spec fn update_next(c: RunV, ws: Seq<char>, rs: Seq<ReplyV>) -> NextV {
    let before = locked(rs[0])->Ok_0;
    let after = locked(rs[2])->Ok_0;
    link(
        rs, 0, getting(api_at(c, "/v1/workspaces/"@ + ws), c.probe_jwt), err_of(locked(rs[0])),
        link(
            rs, 1,
            posting(api_at(c, "/v1/workspaces/"@ + ws) + "/packages/update"@, c.probe_jwt, Doc::Null),
            call_failed("the update pass was refused"@, rs[1]),
            link(
                rs, 2, getting(api_at(c, "/v1/workspaces/"@ + ws), c.probe_jwt), err_of(locked(rs[2])),
                if before != after {
                    NextV::Fail("the update moved "@ + PINNED@ + " from "@ + before + " to "@ + after)
                } else {
                    NextV::Pass
                },
            ),
        ),
    )
}

fn update_body(c: &Run, ws: &str, log: &Log) -> (n: Next)
    ensures
        n@ == update_next(c@, ws@, log@.rs),
{
    if log.rs.len() <= 0 {
        return Next::Ask(get(api(c, cat2("/v1/workspaces/", ws).as_str()), c.probe_jwt.as_str()));
    }
    let before = match locked_version(&log.rs[0]) {
        Err(why) => {
            return Next::Fail(why);
        },
        Ok(t) => t,
    };
    if log.rs.len() <= 1 {
        return Next::Ask(post(
            cat2(api(c, cat2("/v1/workspaces/", ws).as_str()).as_str(), "/packages/update"), c.probe_jwt.as_str(),
            Json::Null,
        ));
    }
    if let Some(why) = failed("the update pass was refused", &log.rs[1]) {
        return Next::Fail(why);
    }
    if log.rs.len() <= 2 {
        return Next::Ask(get(api(c, cat2("/v1/workspaces/", ws).as_str()), c.probe_jwt.as_str()));
    }
    let after = match locked_version(&log.rs[2]) {
        Err(why) => {
            return Next::Fail(why);
        },
        Ok(t) => t,
    };
    if !same(before.as_str(), after.as_str()) {
        return Next::Fail(cat6("the update moved ", PINNED, " from ", before.as_str(), " to ", after.as_str()));
    }
    Next::Pass
}

pub open spec fn lock_shape_next(c: RunV, ws: Seq<char>, rs: Seq<ReplyV>) -> NextV {
    link(
        rs, 0, getting(api_at(c, "/v1/workspaces/"@ + ws), c.probe_jwt), err_of(locked(rs[0])),
        link(
            rs, 1,
            AskV::Read { cluster: Cluster::Fleet, kind: Kind::Workspace, ns: seq![], name: ws }, misshapen(ws, rs[1]),
            NextV::Pass,
        ),
    )
}

fn lock_shape_body(c: &Run, ws: &str, log: &Log) -> (n: Next)
    ensures
        n@ == lock_shape_next(c@, ws@, log@.rs),
{
    if log.rs.len() <= 0 {
        return Next::Ask(get(api(c, cat2("/v1/workspaces/", ws).as_str()), c.probe_jwt.as_str()));
    }
    if let Err(why) = locked_version(&log.rs[0]) {
        return Next::Fail(why);
    }
    if log.rs.len() <= 1 {
        return Next::Ask(Ask::Read { cluster: Cluster::Fleet, kind: Kind::Workspace, ns: String::new(), name: ws.to_owned() });
    }
    end(lock_shape(ws, &log.rs[1]))
}

// ── the bodies ──────────────────────────────────────────────────────────────

pub enum Body {
    PackagesAdd { name: String },
    PackagesRemove { ws: String },
    Seeded { name: String, repo: String },
    SeedFailed { name: String },
    PlatformKey { name: String, repo: String },
    HomeTravels { a: String, b: String, fresh: String },
    CacheTravels { name: String },
    IdeUp { name: String },
    IdeExec { ws: String },
    Sandbox { ws: String },
    Https { ws: String },
    DropWs { ws: String },
    Park { ws: String },
    Pin { name: String },
    PinUnknown { ws: String },
    PinUncached { ws: String },
    Update { ws: String },
    LockShape { ws: String },
}

pub enum BodyV {
    PackagesAdd { name: Seq<char> },
    PackagesRemove { ws: Seq<char> },
    Seeded { name: Seq<char>, repo: Seq<char> },
    SeedFailed { name: Seq<char> },
    PlatformKey { name: Seq<char>, repo: Seq<char> },
    HomeTravels { a: Seq<char>, b: Seq<char>, fresh: Seq<char> },
    CacheTravels { name: Seq<char> },
    IdeUp { name: Seq<char> },
    IdeExec { ws: Seq<char> },
    Sandbox { ws: Seq<char> },
    Https { ws: Seq<char> },
    DropWs { ws: Seq<char> },
    Park { ws: Seq<char> },
    Pin { name: Seq<char> },
    PinUnknown { ws: Seq<char> },
    PinUncached { ws: Seq<char> },
    Update { ws: Seq<char> },
    LockShape { ws: Seq<char> },
}

impl View for Body {
    type V = BodyV;

    open spec fn view(&self) -> BodyV {
        match self {
            Body::PackagesAdd { name } => BodyV::PackagesAdd { name: name@ },
            Body::PackagesRemove { ws } => BodyV::PackagesRemove { ws: ws@ },
            Body::Seeded { name, repo } => BodyV::Seeded { name: name@, repo: repo@ },
            Body::SeedFailed { name } => BodyV::SeedFailed { name: name@ },
            Body::PlatformKey { name, repo } => BodyV::PlatformKey { name: name@, repo: repo@ },
            Body::HomeTravels { a, b, fresh } => BodyV::HomeTravels { a: a@, b: b@, fresh: fresh@ },
            Body::CacheTravels { name } => BodyV::CacheTravels { name: name@ },
            Body::IdeUp { name } => BodyV::IdeUp { name: name@ },
            Body::IdeExec { ws } => BodyV::IdeExec { ws: ws@ },
            Body::Sandbox { ws } => BodyV::Sandbox { ws: ws@ },
            Body::Https { ws } => BodyV::Https { ws: ws@ },
            Body::DropWs { ws } => BodyV::DropWs { ws: ws@ },
            Body::Park { ws } => BodyV::Park { ws: ws@ },
            Body::Pin { name } => BodyV::Pin { name: name@ },
            Body::PinUnknown { ws } => BodyV::PinUnknown { ws: ws@ },
            Body::PinUncached { ws } => BodyV::PinUncached { ws: ws@ },
            Body::Update { ws } => BodyV::Update { ws: ws@ },
            Body::LockShape { ws } => BodyV::LockShape { ws: ws@ },
        }
    }
}

/// What a body does next.
pub open spec fn body_next(c: RunV, b: BodyV, log: LogV) -> NextV {
    match b {
        BodyV::PackagesAdd { name } => packages_add_next(c, name, log.rs),
        BodyV::PackagesRemove { ws } => packages_remove_next(c, ws, log.rs),
        BodyV::Seeded { name, repo } => seeded_next(c, name, repo, log),
        BodyV::SeedFailed { name } => seed_failed_next(c, name, log),
        BodyV::PlatformKey { name, repo } => platform_key_next(c, name, repo, log),
        BodyV::HomeTravels { a, b, fresh } => home_travels_next(c, a, b, fresh, log.rs),
        BodyV::CacheTravels { name } => cache_travels_next(c, name, log.rs),
        BodyV::IdeUp { name } => ide_up_next(c, name, log.rs),
        BodyV::IdeExec { ws } => ide_exec_next(ws, log.rs),
        BodyV::Sandbox { ws } => sandbox_next(c, ws, log.rs),
        BodyV::Https { ws } => https_next(c, ws, log.rs),
        BodyV::DropWs { ws } => drop_ws_next(c, ws, log.rs),
        BodyV::Park { ws } => park_next(c, ws, log.rs),
        BodyV::Pin { name } => pin_next(c, name, log.rs),
        BodyV::PinUnknown { ws } => pin_unknown_next(c, ws, log.rs),
        BodyV::PinUncached { ws } => pin_uncached_next(c, ws, log.rs),
        BodyV::Update { ws } => update_next(c, ws, log.rs),
        BodyV::LockShape { ws } => lock_shape_next(c, ws, log.rs),
    }
}

/// What a body has learned: the id of the workspace it made, as soon as there is one, whatever becomes
/// of the rest, or of the one it restored. A workspace's volume has its id for a name.
pub open spec fn body_found(b: BodyV, log: LogV) -> Option<Seq<char>> {
    match b {
        BodyV::PackagesAdd { .. } | BodyV::Pin { .. } | BodyV::IdeUp { .. } | BodyV::CacheTravels { .. } => ready_in(log.rs),
        BodyV::HomeTravels { .. } => if log.rs.len() > 3 && lost_of(log.rs[2]) is None { id_in(log.rs[3]) } else { None },
        _ => None,
    }
}

/// At which reply a body learns whether the workspace it is about was created.
pub open spec fn created_at(b: BodyV) -> Option<nat> {
    match b {
        BodyV::PackagesAdd { .. } | BodyV::Seeded { .. } | BodyV::SeedFailed { .. } | BodyV::CacheTravels { .. } => Some(0nat),
        BodyV::IdeUp { .. } | BodyV::Pin { .. } => Some(0nat),
        BodyV::PlatformKey { .. } => Some(1nat),
        _ => None,
    }
}

impl Body {
    pub fn next(&self, c: &Run, log: &Log) -> (n: Next)
        ensures
            n@ == body_next(c@, self@, log@),
            created_at(self@) matches Some(k) ==> refusal_told(k, log@, n@),
    {
        match self {
            Body::PackagesAdd { name } => packages_add_body(c, name.as_str(), log),
            Body::PackagesRemove { ws } => packages_remove_body(c, ws.as_str(), log),
            Body::Seeded { name, repo } => seeded_body(c, name.as_str(), repo.as_str(), log),
            Body::SeedFailed { name } => seed_failed_body(c, name.as_str(), log),
            Body::PlatformKey { name, repo } => platform_key_body(c, name.as_str(), repo.as_str(), log),
            Body::HomeTravels { a, b, fresh } => home_travels_body(c, a.as_str(), b.as_str(), fresh.as_str(), log),
            Body::CacheTravels { name } => cache_travels_body(c, name.as_str(), log),
            Body::IdeUp { name } => ide_up_body(c, name.as_str(), log),
            Body::IdeExec { ws } => ide_exec_body(ws.as_str(), log),
            Body::Sandbox { ws } => sandbox_body(c, ws.as_str(), log),
            Body::Https { ws } => https_body(c, ws.as_str(), log),
            Body::DropWs { ws } => drop_ws_body(c, ws.as_str(), log),
            Body::Park { ws } => park_body(c, ws.as_str(), log),
            Body::Pin { name } => pin_body(c, name.as_str(), log),
            Body::PinUnknown { ws } => pin_unknown_body(c, ws.as_str(), log),
            Body::PinUncached { ws } => pin_uncached_body(c, ws.as_str(), log),
            Body::Update { ws } => update_body(c, ws.as_str(), log),
            Body::LockShape { ws } => lock_shape_body(c, ws.as_str(), log),
        }
    }

    pub fn found(&self, log: &Log) -> (r: Option<String>)
        ensures
            opt(r) == body_found(self@, log@),
    {
        match self {
            Body::PackagesAdd { .. } | Body::Pin { .. } | Body::IdeUp { .. } | Body::CacheTravels { .. } => ready_of(&log.rs),
            Body::HomeTravels { .. } => {
                if log.rs.len() > 3 && lost(&log.rs[2]).is_none() { id_of(&log.rs[3]) } else { None }
            },
            _ => None,
        }
    }
}

// ── the journeys ────────────────────────────────────────────────────────────

pub open spec fn packages_move(c: RunV, os: Seq<OutcomeV>) -> MoveV<BodyV> {
    let add = "ws.packages.add"@;
    let remove = "ws.packages.remove"@;
    if !c.has_kube {
        if os.len() == 0 {
            MoveV::Skip { id: add, why: "no kubeconfig"@ }
        } else if os.len() == 1 {
            MoveV::Skip { id: remove, why: "no kubeconfig"@ }
        } else {
            MoveV::End
        }
    } else if os.len() == 0 {
        MoveV::Step { id: add, ceiling_ms: ADD_MS, body: BodyV::PackagesAdd { name: named(c, "-x"@) } }
    } else if os.len() == 1 {
        match found_in(os[0]) {
            None => MoveV::Skip { id: remove, why: "the workspace was never created"@ },
            Some(ws) => if passed(os[0]) {
                MoveV::Step { id: remove, ceiling_ms: REMOVE_MS, body: BodyV::PackagesRemove { ws } }
            } else {
                MoveV::Skip { id: remove, why: "the package was never added"@ }
            },
        }
    } else {
        MoveV::End
    }
}

/// `ws.packages.add` and `ws.packages.remove`: the create is inside the first, so that one that never
/// becomes ready fails it with the reason.
pub fn packages(c: &Run, os: &Vec<Outcome>) -> (m: Move<Body>)
    ensures
        m@ == packages_move(c@, outcomes(os@)),
{
    let add = "ws.packages.add";
    let remove = "ws.packages.remove";
    if !c.has_kube {
        if os.len() == 0 {
            skip(add, "no kubeconfig")
        } else if os.len() == 1 {
            skip(remove, "no kubeconfig")
        } else {
            Move::End
        }
    } else if os.len() == 0 {
        step(add, ADD_MS, Body::PackagesAdd { name: name(c, "-x") })
    } else if os.len() == 1 {
        match os[0].found() {
            None => skip(remove, "the workspace was never created"),
            Some(ws) => {
                if os[0].passed() {
                    step(remove, REMOVE_MS, Body::PackagesRemove { ws })
                } else {
                    skip(remove, "the package was never added")
                }
            },
        }
    } else {
        Move::End
    }
}

pub open spec fn seeded_move(c: RunV, s: StateV, os: Seq<OutcomeV>) -> MoveV<BodyV> {
    one_move(
        "ws.seeded"@, SEEDED_MS, if c.has_kube { "the run pushed no repo"@ } else { "no kubeconfig"@ },
        (match s.repo {
            Some(repo) => if c.has_kube { Some(BodyV::Seeded { name: named(c, "-seed"@), repo }) } else { None },
            None => None,
        }),
        os,
    )
}

/// `ws.seeded`.
pub fn seeded(c: &Run, s: &State, os: &Vec<Outcome>) -> (m: Move<Body>)
    ensures
        m@ == seeded_move(c@, s@, outcomes(os@)),
{
    let body = match &s.repo {
        Some(repo) => {
            if c.has_kube { Some(Body::Seeded { name: name(c, "-seed"), repo: repo.clone() }) } else { None }
        },
        None => None,
    };
    let why = if c.has_kube { "the run pushed no repo" } else { "no kubeconfig" };
    one("ws.seeded", SEEDED_MS, why, body, os)
}

pub open spec fn seed_failed_move(c: RunV, os: Seq<OutcomeV>) -> MoveV<BodyV> {
    one_move(
        "ws.seed.failed"@, SEED_FAILED_MS, "no kubeconfig"@, if c.has_kube { Some(BodyV::SeedFailed { name: named(c, "-noseed"@) }) } else { None }, os,
    )
}

/// `ws.seed.failed`.
pub fn seed_failed(c: &Run, os: &Vec<Outcome>) -> (m: Move<Body>)
    ensures
        m@ == seed_failed_move(c@, outcomes(os@)),
{
    let body = if c.has_kube { Some(Body::SeedFailed { name: name(c, "-noseed") }) } else { None };
    one("ws.seed.failed", SEED_FAILED_MS, "no kubeconfig", body, os)
}

pub open spec fn platform_key_move(c: RunV, s: StateV, os: Seq<OutcomeV>) -> MoveV<BodyV> {
    one_move(
        "key.platform.regenerate"@, KEY_MS, if c.has_kube { "the run pushed no repo"@ } else { "no kubeconfig"@ },
        (match s.repo {
            Some(repo) => if c.has_kube { Some(BodyV::PlatformKey { name: named(c, "-seed2"@), repo }) } else { None },
            None => None,
        }),
        os,
    )
}

/// `key.platform.regenerate`.
pub fn platform_key(c: &Run, s: &State, os: &Vec<Outcome>) -> (m: Move<Body>)
    ensures
        m@ == platform_key_move(c@, s@, outcomes(os@)),
{
    let body = match &s.repo {
        Some(repo) => {
            if c.has_kube { Some(Body::PlatformKey { name: name(c, "-seed2"), repo: repo.clone() }) } else { None }
        },
        None => None,
    };
    let why = if c.has_kube { "the run pushed no repo" } else { "no kubeconfig" };
    one("key.platform.regenerate", KEY_MS, why, body, os)
}

pub open spec fn home_travels_move(c: RunV, s: StateV, os: Seq<OutcomeV>) -> MoveV<BodyV> {
    one_move(
        "home.travels"@, HOME_MS, if c.has_kube { "no workspace to write the home from"@ } else { "no kubeconfig"@ },
        (match s.ux_workspace {
            Some(a) => if c.has_kube {
                Some(BodyV::HomeTravels { a, b: named(c, "-home-b"@), fresh: named(c, "-home-c"@) })
            } else {
                None
            },
            None => None,
        }),
        os,
    )
}

/// `home.travels`.
pub fn home_travels(c: &Run, s: &State, os: &Vec<Outcome>) -> (m: Move<Body>)
    ensures
        m@ == home_travels_move(c@, s@, outcomes(os@)),
{
    let body = match &s.ux_workspace {
        Some(a) => {
            if c.has_kube {
                Some(Body::HomeTravels { a: a.clone(), b: name(c, "-home-b"), fresh: name(c, "-home-c") })
            } else {
                None
            }
        },
        None => None,
    };
    let why = if c.has_kube { "no workspace to write the home from" } else { "no kubeconfig" };
    one("home.travels", HOME_MS, why, body, os)
}

pub open spec fn cache_in_tree_move(c: RunV, os: Seq<OutcomeV>) -> MoveV<BodyV> {
    one_move(
        "ws.cache.travels"@, CACHE_MS, "no kubeconfig"@, if c.has_kube { Some(BodyV::CacheTravels { name: named(c, "-cache"@) }) } else { None }, os,
    )
}

/// `ws.cache.travels`.
pub fn cache_in_tree(c: &Run, os: &Vec<Outcome>) -> (m: Move<Body>)
    ensures
        m@ == cache_in_tree_move(c@, outcomes(os@)),
{
    let body = if c.has_kube { Some(Body::CacheTravels { name: name(c, "-cache") }) } else { None };
    one("ws.cache.travels", CACHE_MS, "no kubeconfig", body, os)
}

/// The ids of the tool server, in order.
pub const IDE_IDS: [&'static str; 4] = ["ide.serve.up", "ide.exec", "ide.sandbox.active", "ide.exec.https"];

pub open spec fn ide_server_move(c: RunV, os: Seq<OutcomeV>) -> MoveV<BodyV> {
    if !c.has_kube {
        if os.len() < 4 { MoveV::Skip { id: IDE_IDS[os.len() as int]@, why: "no kubeconfig"@ } } else { MoveV::End }
    } else if os.len() == 0 {
        MoveV::Step { id: IDE_IDS[0]@, ceiling_ms: IDE_MS, body: BodyV::IdeUp { name: named(c, "-ide"@) } }
    } else {
        match passed_with(os[0]) {
            None => if os.len() < 4 {
                MoveV::Skip { id: IDE_IDS[os.len() as int]@, why: "the tool server never came up"@ }
            } else {
                MoveV::End
            },
            Some(ws) => if os.len() == 1 {
                MoveV::Step { id: IDE_IDS[1]@, ceiling_ms: EXEC_MS, body: BodyV::IdeExec { ws } }
            } else if os.len() == 2 {
                MoveV::Step { id: IDE_IDS[2]@, ceiling_ms: EXEC_MS, body: BodyV::Sandbox { ws } }
            } else if os.len() == 3 {
                MoveV::Step { id: IDE_IDS[3]@, ceiling_ms: EXEC_MS, body: BodyV::Https { ws } }
            } else if os.len() == 4 {
                MoveV::Look { body: BodyV::DropWs { ws } }
            } else {
                MoveV::End
            },
        }
    }
}

/// `ide.serve.up`, `ide.exec`, `ide.sandbox.active` and `ide.exec.https`: the sandbox is set up by the
/// first exec, so it is looked for after one.
pub fn ide_server(c: &Run, os: &Vec<Outcome>) -> (m: Move<Body>)
    ensures
        m@ == ide_server_move(c@, outcomes(os@)),
{
    if !c.has_kube {
        if os.len() < 4 { skip(IDE_IDS[os.len()], "no kubeconfig") } else { Move::End }
    } else if os.len() == 0 {
        step(IDE_IDS[0], IDE_MS, Body::IdeUp { name: name(c, "-ide") })
    } else {
        match os[0].passed_with() {
            None => {
                if os.len() < 4 { skip(IDE_IDS[os.len()], "the tool server never came up") } else { Move::End }
            },
            Some(ws) => {
                if os.len() == 1 {
                    step(IDE_IDS[1], EXEC_MS, Body::IdeExec { ws })
                } else if os.len() == 2 {
                    step(IDE_IDS[2], EXEC_MS, Body::Sandbox { ws })
                } else if os.len() == 3 {
                    step(IDE_IDS[3], EXEC_MS, Body::Https { ws })
                } else if os.len() == 4 {
                    look(Body::DropWs { ws })
                } else {
                    Move::End
                }
            },
        }
    }
}

pub open spec fn pin_move(c: RunV, os: Seq<OutcomeV>) -> MoveV<BodyV> {
    if !c.has_kube {
        if os.len() < 5 { MoveV::Skip { id: PIN_IDS[os.len() as int]@, why: "no kubeconfig"@ } } else { MoveV::End }
    } else if os.len() == 0 {
        MoveV::Step { id: PIN_IDS[0]@, ceiling_ms: PIN_MS, body: BodyV::Pin { name: named(c, "-pin"@) } }
    } else {
        match found_in(os[0]) {
            None => if os.len() < 5 {
                MoveV::Skip { id: PIN_IDS[os.len() as int]@, why: "the pinned workspace was never created"@ }
            } else {
                MoveV::End
            },
            Some(ws) => if os.len() == 1 {
                MoveV::Step { id: PIN_IDS[1]@, ceiling_ms: PIN_READ_MS, body: BodyV::PinUnknown { ws } }
            } else if os.len() == 2 {
                MoveV::Step { id: PIN_IDS[2]@, ceiling_ms: PIN_READ_MS, body: BodyV::PinUncached { ws } }
            } else if os.len() == 3 {
                if passed(os[0]) {
                    MoveV::Step { id: PIN_IDS[3]@, ceiling_ms: PIN_READ_MS, body: BodyV::Update { ws } }
                } else {
                    MoveV::Skip { id: PIN_IDS[3]@, why: "the pin never resolved"@ }
                }
            } else if os.len() == 4 {
                if passed(os[0]) {
                    MoveV::Step { id: PIN_IDS[4]@, ceiling_ms: PIN_READ_MS, body: BodyV::LockShape { ws } }
                } else {
                    MoveV::Skip { id: PIN_IDS[4]@, why: "the pin never resolved"@ }
                }
            } else if os.len() == 5 {
                MoveV::Look { body: BodyV::Park { ws } }
            } else {
                MoveV::End
            },
        }
    }
}

/// The pin's five ids, of one workspace: the two refusals need it only to be there, the update and the
/// lock need it pinned. It is stopped at the end.
pub fn pin(c: &Run, os: &Vec<Outcome>) -> (m: Move<Body>)
    ensures
        m@ == pin_move(c@, outcomes(os@)),
{
    if !c.has_kube {
        if os.len() < 5 { skip(PIN_IDS[os.len()], "no kubeconfig") } else { Move::End }
    } else if os.len() == 0 {
        step(PIN_IDS[0], PIN_MS, Body::Pin { name: name(c, "-pin") })
    } else {
        match os[0].found() {
            None => {
                if os.len() < 5 { skip(PIN_IDS[os.len()], "the pinned workspace was never created") } else { Move::End }
            },
            Some(ws) => {
                if os.len() == 1 {
                    step(PIN_IDS[1], PIN_READ_MS, Body::PinUnknown { ws })
                } else if os.len() == 2 {
                    step(PIN_IDS[2], PIN_READ_MS, Body::PinUncached { ws })
                } else if os.len() == 3 {
                    if os[0].passed() {
                        step(PIN_IDS[3], PIN_READ_MS, Body::Update { ws })
                    } else {
                        skip(PIN_IDS[3], "the pin never resolved")
                    }
                } else if os.len() == 4 {
                    if os[0].passed() {
                        step(PIN_IDS[4], PIN_READ_MS, Body::LockShape { ws })
                    } else {
                        skip(PIN_IDS[4], "the pin never resolved")
                    }
                } else if os.len() == 5 {
                    look(Body::Park { ws })
                } else {
                    Move::End
                }
            },
        }
    }
}

/// Whatever comes back, with a kubeconfig or without, each id is reported exactly once.
pub proof fn law_every_id_is_reported_once(c: RunV, s: StateV, os: Seq<OutcomeV>)
    ensures
        reports_exactly(|o: Seq<OutcomeV>| packages_move(c, o), os, seq!["ws.packages.add"@, "ws.packages.remove"@], 6),
        reports_exactly(
            |o: Seq<OutcomeV>| pin_move(c, o), os,
            seq![PIN_IDS[0]@, PIN_IDS[1]@, PIN_IDS[2]@, PIN_IDS[3]@, PIN_IDS[4]@], 6,
        ),
        reports_exactly(|o: Seq<OutcomeV>| seeded_move(c, s, o), os, seq!["ws.seeded"@], 6),
        reports_exactly(|o: Seq<OutcomeV>| seed_failed_move(c, o), os, seq!["ws.seed.failed"@], 6),
        reports_exactly(|o: Seq<OutcomeV>| platform_key_move(c, s, o), os, seq!["key.platform.regenerate"@], 6),
        reports_exactly(|o: Seq<OutcomeV>| home_travels_move(c, s, o), os, seq!["home.travels"@], 6),
        reports_exactly(|o: Seq<OutcomeV>| cache_in_tree_move(c, o), os, seq!["ws.cache.travels"@], 6),
    decreases os.len(),
{
    reveal_with_fuel(reports, 7);
    if os.len() > 6 {
        law_every_id_is_reported_once(c, s, os.drop_last());
    }
}

/// The tool server's ids, each once, whether a server came up or not.
pub proof fn law_the_tool_server_is_reported_once(c: RunV, os: Seq<OutcomeV>)
    ensures
        reports_exactly(
            |o: Seq<OutcomeV>| ide_server_move(c, o), os, seq![IDE_IDS[0]@, IDE_IDS[1]@, IDE_IDS[2]@, IDE_IDS[3]@], 5,
        ),
    decreases os.len(),
{
    reveal_with_fuel(reports, 6);
    if os.len() > 5 {
        law_the_tool_server_is_reported_once(c, os.drop_last());
    }
}

/// A workspace that could not be made is one failure: what depends on it is skipped.
pub proof fn law_a_refused_create_fails_once(c: RunV, os: Seq<OutcomeV>)
    requires
        c.has_kube,
        os.len() == 1,
        !passed(os[0]),
        found_in(os[0]) is None,
    ensures
        packages_move(c, os) is Skip,
        pin_move(c, os) is Skip,
        ide_server_move(c, os) is Skip,
{
}

/// A workspace that never became ready is none to work with: nothing is learned of it, so what depends
/// on it is skipped as if it had never been made.
pub proof fn law_only_a_ready_workspace_is_worked_with(c: RunV, name: Seq<char>, log: LogV)
    requires
        log.rs.len() < 2 || lost_of(log.rs[1]) is Some,
    ensures
        body_found(BodyV::PackagesAdd { name }, log) is None,
        body_found(BodyV::Pin { name }, log) is None,
        body_found(BodyV::IdeUp { name }, log) is None,
        log.rs.len() >= 2 ==> body_next(c, BodyV::PackagesAdd { name }, log) is Fail,
        log.rs.len() >= 2 ==> body_next(c, BodyV::Pin { name }, log) is Fail,
        log.rs.len() >= 2 ==> body_next(c, BodyV::IdeUp { name }, log) is Fail,
{
}

/// The volume of a cache that travels is known as soon as its workspace is there, before the write and
/// the push that could fail; and it is known to every body that asks for either.
pub proof fn law_the_volume_is_known_before_the_push(c: RunV, name: Seq<char>, log: LogV)
    requires
        log.rs.len() > 1,
        made("could not create "@ + name, "id"@, "the create answered no workspace id"@, log.rs[0]) is Ok,
        lost_of(log.rs[1]) is None,
    ensures
        log.rs.len() == 2 ==> body_next(c, BodyV::CacheTravels { name }, log) is Ask,
        body_found(BodyV::CacheTravels { name }, log) == Some(
            made("could not create "@ + name, "id"@, "the create answered no workspace id"@, log.rs[0])->Ok_0,
        ),
{
}

/// A push that travels is made under the run's prefix: its message is all that a volume without a
/// workspace keeps, and what the sweep finds it by.
pub proof fn law_the_push_carries_the_prefix(c: RunV, log: LogV)
    requires
        log.rs.len() == 3,
        made("could not create "@ + named(c, "-cache"@), "id"@, "the create answered no workspace id"@, log.rs[0]) is Ok,
        lost_of(log.rs[1]) is None,
        unran(log.rs[2]) is None,
        exits("writing under the cache exited "@, log.rs[2]) is None,
    ensures
        body_next(c, BodyV::CacheTravels { name: named(c, "-cache"@) }, log) matches NextV::Ask(
            AskV::Call { load: PayloadV::Doc(Doc::Obj(fields)), .. },
        ) && fields == seq![("message"@, Doc::Str(named(c, "-cache"@)))] && starts(named(c, "-cache"@), prefix_of(c)),
{
    law_names_carry_the_prefix(c, "-cache"@);
}

/// What the packages leave for the rest: their workspace, once it was ready, whatever became of the package.
pub open spec fn packages_left(s: StateV, os: Seq<OutcomeV>) -> StateV {
    match learned_by(os, 0) {
        Some(ws) => StateV { ux_workspace: Some(ws), ..s },
        None => s,
    }
}

pub fn packages_leave(s: &State, os: &Vec<Outcome>) -> (t: State)
    ensures
        t@ == packages_left(s@, outcomes(os@)),
{
    let mut t = s.copy();
    if let Some(ws) = learned(os, 0) {
        t.ux_workspace = Some(ws);
    }
    t
}

/// What `ws.cache.travels` leaves for the teardown: its volume, which no prefix finds, whatever became of
/// the push.
pub open spec fn cache_left(s: StateV, os: Seq<OutcomeV>) -> StateV {
    with_volume(s, learned_by(os, 0))
}

pub fn cache_leaves(s: &State, os: &Vec<Outcome>) -> (t: State)
    ensures
        t@ == cache_left(s@, outcomes(os@)),
{
    s.remembering(learned(os, 0))
}

} // verus!
