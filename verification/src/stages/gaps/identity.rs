//! A person's identity: their handle and profile, the CLI's logins and the host block it writes, and
//! a key's whole life.

use vstd::prelude::*;

use crate::json::{Doc, obj1, obj2, obj4, row_in, row_named, rows_of, text_of, txt};
use crate::outside::{json_text, render};
use crate::reply::{
    call_error, call_failed, codes2, doc, doc_of, failed, lost, lost_of, made, made_full, made_full_of, made_of, raw, raw_of,
    said, said_of, tell, told, tool_error_in, tool_failed_in, unanswered, unanswered_bare, unanswered_bare_by, unanswered_by,
    undo_failed,
};
use crate::run::{Run, RunV, State, StateV, api, api_at, below, joined_path, name, named, tmp, tmp_at};
use crate::stages::gaps::{KEY_BODY_MS, KL_SSH_CONFIG, QUICK_MS, READ_MS, REVOCATION_MS, SSHCONFIG_MS, path_seg, segment};
use crate::stages::git::{
    hosts_path, known_hosts, known_hosts_next, plain, plainly, ssh_at, ssh_command, ssh_command_of, ssh_env, ssh_env_of, ssh_url,
    throwaway, throwaway_next,
};
use crate::stages::identity::{filled, filled_at};
use crate::stages::security::failing;
use crate::text::{
    at, cat2, cat3, cat4, chars_of, clipped, contains, dec, decimal, first_chars, holds, is_white, list2, list3, stands_at, trim,
    trimmed, white,
};
use crate::turn::{
    Move, MoveV, Outcome, OutcomeV, failure_or_empty, look, more, one, one_move, outcomes, passed, passed_with, reports,
    reports_exactly, skip, step,
};
use crate::wait::{Wait, WaitV};
use crate::wire::{
    Ask, AskV, Log, LogV, Next, NextV, Program, Reply, ReplyV, and_on, deleting, end, env2, erase, err_of, get, getting, inside,
    link, opt, pairs, post, posting, undo_after, undoing, within,
};

verus! {

/// Why a second claim was not turned down as irreversible.
pub open spec fn unreclaimed(r: ReplyV) -> Option<Seq<char>> {
    match raw_of(r) {
        Err(why) => Some(why),
        Ok((status, body)) => if status == 400 && holds(body, "already set"@) {
            None
        } else {
            Some("re-claiming a handle answered "@ + told(status, body, 200))
        },
    }
}

fn reclaim_bad(r: &Reply) -> (o: Option<String>)
    ensures
        opt(o) == unreclaimed(r@),
{
    match raw(r) {
        Err(why) => Some(why),
        Ok((status, body)) => {
            if status == 400 && contains(body.as_str(), "already set") {
                None
            } else {
                Some(cat2("re-claiming a handle answered ", tell(status, body.as_str(), 200).as_str()))
            }
        },
    }
}

/// Why a malformed handle was not turned down for its shape.
pub open spec fn malformed_allowed(r: ReplyV) -> Option<Seq<char>> {
    match raw_of(r) {
        Err(why) => Some(why),
        Ok((status, body)) => if status == 400 && !holds(body, "already set"@) {
            None
        } else {
            Some("claiming a malformed handle answered "@ + dec(status as nat) + ": "@ + clipped(body, 200))
        },
    }
}

fn malformed_bad(r: &Reply) -> (o: Option<String>)
    ensures
        opt(o) == malformed_allowed(r@),
{
    match raw(r) {
        Err(why) => Some(why),
        Ok((status, body)) => {
            if status == 400 && !contains(body.as_str(), "already set") {
                None
            } else {
                Some(cat4(
                    "claiming a malformed handle answered ", decimal(status as u64).as_str(), ": ",
                    first_chars(body.as_str(), 200).as_str(),
                ))
            }
        },
    }
}

/// A handle is claimed once: a second claim is turned down, and a malformed handle is turned down
/// before anybody is asked. Either alone would be passed by a route that refused everything.
pub open spec fn username_next(c: RunV, rs: Seq<ReplyV>) -> NextV {
    link(
        rs, 0,
        posting(api_at(c, "/v1/users/username"@), c.probe_jwt, Doc::Obj(seq![("username"@, Doc::Str(c.probe_user + "2"@))])),
        unreclaimed(rs[0]),
        link(
            rs, 1,
            posting(api_at(c, "/v1/users/username"@), c.probe_jwt, Doc::Obj(seq![("username"@, Doc::Str("-Not A Handle-"@))])),
            malformed_allowed(rs[1]), NextV::Pass,
        ),
    )
}

fn username_body(c: &Run, log: &Log) -> (n: Next)
    ensures
        n@ == username_next(c@, log@.rs),
{
    if log.rs.len() <= 0 {
        return Next::Ask(post(
            api(c, "/v1/users/username"), c.probe_jwt.as_str(),
            obj1("username", txt(cat2(c.probe_user.as_str(), "2").as_str())),
        ));
    }
    if let Some(why) = reclaim_bad(&log.rs[0]) {
        return Next::Fail(why);
    }
    if log.rs.len() <= 1 {
        return Next::Ask(post(api(c, "/v1/users/username"), c.probe_jwt.as_str(), obj1("username", txt("-Not A Handle-"))));
    }
    end(malformed_bad(&log.rs[1]))
}

/// A session must not be able to renew itself: the write that mints one is refused to it.
pub open spec fn profile_upsert_next(c: RunV, rs: Seq<ReplyV>) -> NextV {
    link(
        rs, 0,
        posting(
            api_at(c, "/v1/users"@), c.probe_jwt,
            Doc::Obj(seq![("email"@, Doc::Str(c.probe_email)), ("name"@, Doc::Str("kloudlite slo probe"@))]),
        ),
        unanswered("the session-minting upsert answered "@, seq![401u16, 403u16], " to a session token: "@, rs[0]),
        NextV::Pass,
    )
}

fn profile_upsert_body(c: &Run, log: &Log) -> (n: Next)
    ensures
        n@ == profile_upsert_next(c@, log@.rs),
{
    if log.rs.len() <= 0 {
        return Next::Ask(post(
            api(c, "/v1/users"), c.probe_jwt.as_str(),
            obj2("email", txt(c.probe_email.as_str()), "name", txt("kloudlite slo probe")),
        ));
    }
    end(unanswered_by("the session-minting upsert answered ", &codes2(401, 403), " to a session token: ", &log.rs[0]))
}

/// The code and the poll of a login that was begun.
pub open spec fn handshake(r: ReplyV) -> Result<(Seq<char>, Seq<char>), Seq<char>> {
    match doc_of(r) {
        Err(why) => Err(within("the login handshake was refused"@, why)),
        Ok(d) => match (filled(d, "code"@), filled(d, "poll"@)) {
            (Some(code), Some(poll)) => Ok((code, poll)),
            _ => Err("the login handshake answered no code"@),
        },
    }
}

pub fn handshake_of(r: &Reply) -> (o: Result<(String, String), String>)
    ensures
        (match o { Ok(p) => Ok((p.0@, p.1@)), Err(e) => Err(e@) }) == handshake(r@),
{
    match doc(r) {
        Err(why) => Err(inside("the login handshake was refused", why.as_str())),
        Ok(d) => match (filled_at(&d, "code"), filled_at(&d, "poll")) {
            (Some(code), Some(poll)) => Ok((code, poll)),
            _ => Err("the login handshake answered no code".to_owned()),
        },
    }
}

/// The id of the login of `device`, in a listing of them.
pub open spec fn listed_id(device: Seq<char>, r: ReplyV) -> Result<Seq<char>, Seq<char>> {
    let missing = "the minted CLI token is not listed by name"@;
    match doc_of(r) {
        Err(why) => Err(within("could not list the CLI tokens"@, why)),
        Ok(d) => match row_named(rows_of(Some(d)), "name"@, device) {
            Some(row) => match text_of(row, "id"@) {
                Some(id) => Ok(id),
                None => Err(missing),
            },
            None => Err(missing),
        },
    }
}

pub fn listed_id_of(device: &str, r: &Reply) -> (o: Result<String, String>)
    ensures
        (match o { Ok(t) => Ok(t@), Err(e) => Err(e@) }) == listed_id(device@, r@),
{
    let missing = "the minted CLI token is not listed by name";
    match doc(r) {
        Err(why) => Err(inside("could not list the CLI tokens", why.as_str())),
        Ok(d) => match row_in(Some(&d), "name", device) {
            Some(row) => match row.text_at("id") {
                Some(id) => Ok(id),
                None => Err(missing.to_owned()),
            },
            None => Err(missing.to_owned()),
        },
    }
}

/// Why a listing does not hold the login `id`.
pub open spec fn unlisted(id: Seq<char>, r: ReplyV) -> Option<Seq<char>> {
    match doc_of(r) {
        Err(why) => Some(within("could not list the CLI tokens"@, why)),
        Ok(d) => if row_named(rows_of(Some(d)), "id"@, id) is Some {
            None
        } else {
            Some("the CLI token was minted but is not listed"@)
        },
    }
}

fn unlisted_in(id: &str, r: &Reply) -> (o: Option<String>)
    ensures
        opt(o) == unlisted(id@, r@),
{
    match doc(r) {
        Err(why) => Some(inside("could not list the CLI tokens", why.as_str())),
        Ok(d) => {
            if row_in(Some(&d), "id", id).is_some() {
                None
            } else {
                Some("the CLI token was minted but is not listed".to_owned())
            }
        },
    }
}

/// A login of its own, walked through the whole handshake; its token is honoured, listed, revoked,
/// and refused from then on.
pub open spec fn cli_tokens_next(c: RunV, device: Seq<char>, rs: Seq<ReplyV>) -> NextV {
    let code = (handshake(rs[0])->Ok_0).0;
    let poll = (handshake(rs[0])->Ok_0).1;
    let token = made_full("the token collection failed"@, "token"@, "the approved login handed back no token"@, rs[2])->Ok_0;
    let id = listed_id(device, rs[3])->Ok_0;
    link(
        rs, 0,
        posting(api_at(c, "/v1/cli/code"@), ""@, Doc::Obj(seq![("device"@, Doc::Str(device))])), err_of(handshake(rs[0])),
        link(
            rs, 1,
            posting(api_at(c, "/v1/cli/approve"@), c.probe_jwt, Doc::Obj(seq![("code"@, Doc::Str(code))])),
            call_failed("the approval was refused"@, rs[1]),
            link(
                rs, 2, getting(api_at(c, "/v1/cli/token?poll="@ + poll), ""@),
                err_of(made_full("the token collection failed"@, "token"@, "the approved login handed back no token"@, rs[2])),
                link(
                    rs, 3, getting(api_at(c, "/v1/cli/tokens"@), c.probe_jwt), err_of(listed_id(device, rs[3])),
                    link(
                        rs, 4, getting(api_at(c, "/v1/cli/tokens"@), token),
                        call_failed("a fresh CLI token was not honoured"@, rs[4]),
                        link(
                            rs, 5, getting(api_at(c, "/v1/cli/tokens"@), c.probe_jwt), unlisted(id, rs[5]),
                            link(
                                rs, 6, deleting(api_at(c, "/v1/cli/tokens/"@ + id), c.probe_jwt),
                                call_failed("could not revoke the CLI token"@, rs[6]),
                                link(
                                    rs, 7, getting(api_at(c, "/v1/cli/tokens"@), token),
                                    unanswered_bare("a revoked CLI token answered "@, seq![401u16, 403u16], rs[7]), NextV::Pass,
                                ),
                            ),
                        ),
                    ),
                ),
            ),
        ),
    )
}

fn cli_tokens_body(c: &Run, device: &str, log: &Log) -> (n: Next)
    ensures
        n@ == cli_tokens_next(c@, device@, log@.rs),
{
    if log.rs.len() <= 0 {
        return Next::Ask(post(api(c, "/v1/cli/code"), "", obj1("device", txt(device))));
    }
    let (code, poll) = match handshake_of(&log.rs[0]) {
        Err(why) => {
            return Next::Fail(why);
        },
        Ok(t) => t,
    };
    if log.rs.len() <= 1 {
        return Next::Ask(post(api(c, "/v1/cli/approve"), c.probe_jwt.as_str(), obj1("code", txt(code.as_str()))));
    }
    if let Some(why) = failed("the approval was refused", &log.rs[1]) {
        return Next::Fail(why);
    }
    if log.rs.len() <= 2 {
        return Next::Ask(get(api(c, cat2("/v1/cli/token?poll=", poll.as_str()).as_str()), ""));
    }
    let token = match made_full_of("the token collection failed", "token", "the approved login handed back no token", &log.rs[2]) {
        Err(why) => {
            return Next::Fail(why);
        },
        Ok(t) => t,
    };
    if log.rs.len() <= 3 {
        return Next::Ask(get(api(c, "/v1/cli/tokens"), c.probe_jwt.as_str()));
    }
    let id = match listed_id_of(device, &log.rs[3]) {
        Err(why) => {
            return Next::Fail(why);
        },
        Ok(t) => t,
    };
    if log.rs.len() <= 4 {
        return Next::Ask(get(api(c, "/v1/cli/tokens"), token.as_str()));
    }
    if let Some(why) = failed("a fresh CLI token was not honoured", &log.rs[4]) {
        return Next::Fail(why);
    }
    if log.rs.len() <= 5 {
        return Next::Ask(get(api(c, "/v1/cli/tokens"), c.probe_jwt.as_str()));
    }
    if let Some(why) = unlisted_in(id.as_str(), &log.rs[5]) {
        return Next::Fail(why);
    }
    if log.rs.len() <= 6 {
        return Next::Ask(erase(api(c, cat2("/v1/cli/tokens/", id.as_str()).as_str()), c.probe_jwt.as_str()));
    }
    if let Some(why) = failed("could not revoke the CLI token", &log.rs[6]) {
        return Next::Fail(why);
    }
    if log.rs.len() <= 7 {
        return Next::Ask(get(api(c, "/v1/cli/tokens"), token.as_str()));
    }
    end(unanswered_bare_by("a revoked CLI token answered ", &codes2(401, 403), &log.rs[7]))
}

/// `p` stands somewhere in `s`, and no longer word does there: it is followed by the end or by a space.
pub open spec fn holds_whole(s: Seq<char>, p: Seq<char>) -> bool {
    exists|i: int| #[trigger] stands_whole_at(s, p, i)
}

pub open spec fn stands_whole_at(s: Seq<char>, p: Seq<char>, i: int) -> bool {
    stands_at(s, p, i) && (i + p.len() == s.len() || is_white(s[i + p.len()]))
}

fn whole_in(s: &str, p: &str) -> (r: bool)
    ensures
        r == holds_whole(s@, p@),
{
    let v = chars_of(s);
    let q = chars_of(p);
    let mut i: usize = 0;
    while i < v.len()
        invariant
            v@ == s@,
            q@ == p@,
            i <= v@.len(),
            forall|k: int| 0 <= k < i ==> !stands_whole_at(s@, p@, k),
        decreases v.len() - i,
    {
        if at(&v, &q, i) && (v.len() - i == q.len() || white(v[i + q.len()])) {
            proof {
                assert(stands_whole_at(s@, p@, i as int));
            }
            return true;
        }
        i = i + 1;
    }
    if q.len() == 0 {
        proof {
            assert(s@.subrange(s@.len() as int, s@.len() as int) =~= p@);
            assert(stands_whole_at(s@, p@, s@.len() as int));
        }
        return true;
    }
    false
}

/// What is missing of a host block for the workspace `id`: its name, or the proxy that reaches it.
pub open spec fn block_lacks(block: Seq<char>, id: Seq<char>) -> Option<Seq<char>> {
    if !holds_whole(block, "HostName "@ + id) {
        Some("the ssh config carries no block for "@ + id)
    } else if !holds_whole(block, "ProxyCommand kl-connect ws proxy "@ + id) {
        Some(id + "'s block has no ProxyCommand through the gateway"@)
    } else {
        None
    }
}

/// The rendered block names the workspace and gives ssh the proxy that reaches it: a file with a
/// header and no host block is what the command writes when it skipped every workspace. The id has to
/// end there: the block of a workspace with a longer id is another's.
pub fn has_host_block(block: &str, id: &str) -> (r: Result<(), String>)
    ensures
        failing(r) == block_lacks(block@, id@),
{
    if !whole_in(block, cat2("HostName ", id).as_str()) {
        return Err(cat2("the ssh config carries no block for ", id));
    }
    if !whole_in(block, cat2("ProxyCommand kl-connect ws proxy ", id).as_str()) {
        return Err(cat2(id, "'s block has no ProxyCommand through the gateway"));
    }
    Ok(())
}

/// Why the file that was written is of no use to ssh.
pub open spec fn config_lacks(id: Seq<char>, r: ReplyV) -> Option<Seq<char>> {
    match said_of(r) {
        Err(why) => Some(within("no ~/.ssh/kloudlite_config was written"@, why)),
        Ok(block) => block_lacks(block, id),
    }
}

fn config_bad(id: &str, r: &Reply) -> (o: Option<String>)
    ensures
        opt(o) == config_lacks(id@, r@),
{
    match said(r) {
        Err(why) => Some(inside("no ~/.ssh/kloudlite_config was written", why.as_str())),
        Ok(block) => match has_host_block(block.as_str(), id) {
            Ok(_) => None,
            Err(why) => Some(why),
        },
    }
}

/// The login is staged as the CLI stores it, and the block the real program writes is read. The
/// exit code alone says nothing: a workspace whose name cannot stand in a config is skipped.
pub open spec fn config_next(c: RunV, ws: Seq<char>, token: Seq<char>, rs: Seq<ReplyV>) -> NextV {
    link(
        rs, 4,
        AskV::Mkdir { path: joined_path(tmp_at(c, "klhome"@), ".config/kl-connect"@) },
        tool_error_in("could not make "@ + joined_path(tmp_at(c, "klhome"@), ".config/kl-connect"@), rs[4]),
        link(
            rs, 5,
            AskV::Write {
                path: joined_path(joined_path(tmp_at(c, "klhome"@), ".config/kl-connect"@), "config.json"@),
                text: json_text(Doc::Obj(seq![
                    ("api"@, Doc::Str(c.api_url)),
                    ("token"@, Doc::Str(token)),
                    ("expires_at"@, Doc::Str("2099-01-01T00:00:00Z"@)),
                    ("username"@, Doc::Str(c.probe_user)),
                ])),
            },
            tool_error_in("could not stage the CLI login"@, rs[5]),
            link(
                rs, 6,
                AskV::Tool {
                    program: Program::Kl,
                    argv: seq!["ws"@, KL_SSH_CONFIG@],
                    env: seq![
                        ("HOME"@, tmp_at(c, "klhome"@)),
                        ("KL_CONFIG_DIR"@, joined_path(tmp_at(c, "klhome"@), ".config/kl-connect"@)),
                    ],
                    dir: ""@,
                    bound_ms: SSHCONFIG_MS,
                },
                tool_error_in("`kl-connect ws "@ + KL_SSH_CONFIG@ + "` failed"@, rs[6]),
                link(
                    rs, 7,
                    AskV::ReadText { path: joined_path(tmp_at(c, "klhome"@), ".ssh/kloudlite_config"@) },
                    config_lacks(ws, rs[7]), NextV::Pass,
                ),
            ),
        ),
    )
}

fn config_body(c: &Run, ws: &str, token: &str, log: &Log) -> (n: Next)
    ensures
        n@ == config_next(c@, ws@, token@, log@.rs),
{
    if log.rs.len() <= 4 {
        return Next::Ask(Ask::Mkdir { path: below(tmp(c, "klhome").as_str(), ".config/kl-connect") });
    }
    if let Some(why) = tool_failed_in(
        cat2("could not make ", below(tmp(c, "klhome").as_str(), ".config/kl-connect").as_str()).as_str(), &log.rs[4],
    ) {
        return Next::Fail(why);
    }
    if log.rs.len() <= 5 {
        return Next::Ask(Ask::Write {
            path: below(below(tmp(c, "klhome").as_str(), ".config/kl-connect").as_str(), "config.json"),
            text: render(&obj4(
                "api", txt(c.api_url.as_str()), "token", txt(token), "expires_at", txt("2099-01-01T00:00:00Z"), "username",
                txt(c.probe_user.as_str()),
            )),
        });
    }
    if let Some(why) = tool_failed_in("could not stage the CLI login", &log.rs[5]) {
        return Next::Fail(why);
    }
    if log.rs.len() <= 6 {
        return Next::Ask(Ask::Tool {
            program: Program::Kl,
            argv: list2("ws", KL_SSH_CONFIG),
            env: env2(
                "HOME", tmp(c, "klhome").as_str(), "KL_CONFIG_DIR",
                below(tmp(c, "klhome").as_str(), ".config/kl-connect").as_str(),
            ),
            dir: "".to_owned(),
            bound_ms: SSHCONFIG_MS,
        });
    }
    if let Some(why) = tool_failed_in(cat3("`kl-connect ws ", KL_SSH_CONFIG, "` failed").as_str(), &log.rs[6]) {
        return Next::Fail(why);
    }
    if log.rs.len() <= 7 {
        return Next::Ask(Ask::ReadText { path: below(tmp(c, "klhome").as_str(), ".ssh/kloudlite_config") });
    }
    end(config_bad(ws, &log.rs[7]))
}

/// The login is revoked whatever became of the block: it would be a standing credential.
pub open spec fn sshconfig_next(c: RunV, ws: Seq<char>, device: Seq<char>, log: LogV) -> NextV {
    let code = (handshake(log.rs[0])->Ok_0).0;
    let poll = (handshake(log.rs[0])->Ok_0).1;
    let token = made_full("the token collection failed"@, "token"@, "the approved login handed back no token"@, log.rs[2])->Ok_0;
    let id = listed_id(device, log.rs[3])->Ok_0;
    link(
        log.rs, 0,
        posting(api_at(c, "/v1/cli/code"@), ""@, Doc::Obj(seq![("device"@, Doc::Str(device))])), err_of(handshake(log.rs[0])),
        link(
            log.rs, 1,
            posting(api_at(c, "/v1/cli/approve"@), c.probe_jwt, Doc::Obj(seq![("code"@, Doc::Str(code))])),
            call_failed("the approval was refused"@, log.rs[1]),
            link(
                log.rs, 2, getting(api_at(c, "/v1/cli/token?poll="@ + poll), ""@),
                err_of(made_full(
                    "the token collection failed"@, "token"@, "the approved login handed back no token"@, log.rs[2],
                )),
                link(
                    log.rs, 3, getting(api_at(c, "/v1/cli/tokens"@), c.probe_jwt), err_of(listed_id(device, log.rs[3])),
                    undoing(
                        log, (SSHCONFIG_MS - 10_000) as u64, config_next(c, ws, token, log.rs),
                        deleting(api_at(c, "/v1/cli/tokens/"@ + id), c.probe_jwt),
                        call_failed("the CLI token was left LIVE"@, log.us[0]),
                    ),
                ),
            ),
        ),
    )
}

fn sshconfig_body(c: &Run, ws: &str, device: &str, log: &Log) -> (n: Next)
    ensures
        n@ == sshconfig_next(c@, ws@, device@, log@),
{
    if log.rs.len() <= 0 {
        return Next::Ask(post(api(c, "/v1/cli/code"), "", obj1("device", txt(device))));
    }
    let (code, poll) = match handshake_of(&log.rs[0]) {
        Err(why) => {
            return Next::Fail(why);
        },
        Ok(t) => t,
    };
    if log.rs.len() <= 1 {
        return Next::Ask(post(api(c, "/v1/cli/approve"), c.probe_jwt.as_str(), obj1("code", txt(code.as_str()))));
    }
    if let Some(why) = failed("the approval was refused", &log.rs[1]) {
        return Next::Fail(why);
    }
    if log.rs.len() <= 2 {
        return Next::Ask(get(api(c, cat2("/v1/cli/token?poll=", poll.as_str()).as_str()), ""));
    }
    let token = match made_full_of("the token collection failed", "token", "the approved login handed back no token", &log.rs[2]) {
        Err(why) => {
            return Next::Fail(why);
        },
        Ok(t) => t,
    };
    if log.rs.len() <= 3 {
        return Next::Ask(get(api(c, "/v1/cli/tokens"), c.probe_jwt.as_str()));
    }
    let id = match listed_id_of(device, &log.rs[3]) {
        Err(why) => {
            return Next::Fail(why);
        },
        Ok(t) => t,
    };
    undo_after(
        log, (SSHCONFIG_MS - 10_000), config_body(c, ws, token.as_str(), log),
        erase(api(c, cat2("/v1/cli/tokens/", id.as_str()).as_str()), c.probe_jwt.as_str()),
        undo_failed("the CLI token was left LIVE", log),
    )
}

/// The SSH url of one of the probe's own repos.
pub fn ssh_remote(c: &Run, repo: &str) -> (r: String)
    ensures
        r@ == ssh_at(c@, repo@),
{
    ssh_url(c, repo)
}

/// The environment a clone with the throwaway key runs in.
pub open spec fn lifecycle_env(c: RunV) -> Seq<(Seq<char>, Seq<char>)> {
    ssh_env_of(c, ssh_command_of(c, tmp_at(c, "lifecycle-key"@), hosts_path(c)))
}

fn key_env(c: &Run) -> (r: Vec<(String, String)>)
    ensures
        pairs(r@) == lifecycle_env(c@),
{
    ssh_env(c, ssh_command(c, tmp(c, "lifecycle-key").as_str(), tmp(c, "known_hosts").as_str()))
}

pub open spec fn key_works_next(c: RunV, repo: Seq<char>, rs: Seq<ReplyV>) -> NextV {
    link(
        rs, 1,
        AskV::Wait(WaitV::Cloned {
            argv: seq!["ls-remote"@, ssh_at(c, repo)],
            env: lifecycle_env(c),
            cap_ms: (KEY_BODY_MS - 20_000) as u64,
        }),
        lost_of(rs[1]), NextV::Pass,
    )
}

fn key_works_body(c: &Run, repo: &str, log: &Log) -> (n: Next)
    ensures
        n@ == key_works_next(c@, repo@, log@.rs),
{
    if log.rs.len() <= 1 {
        return Next::Ask(Ask::Wait(Wait::Cloned {
            argv: list2("ls-remote", ssh_remote(c, repo).as_str()),
            env: key_env(c),
            cap_ms: KEY_BODY_MS - 20_000,
        }));
    }
    end(lost(&log.rs[1]))
}

/// A key a person adds works, and stops working once they take it away. Taking it away is the
/// second half of the check and the compensation both: a key left behind would be a standing
/// credential.
pub open spec fn key_lifecycle_next(c: RunV, repo: Seq<char>, public: Seq<char>, log: LogV) -> NextV {
    let id = made("could not add the key"@, "_id"@, "the answer carried no key id"@, log.rs[0])->Ok_0;
    link(
        log.rs, 0,
        posting(
            api_at(c, "/v1/keys"@), c.probe_jwt,
            Doc::Obj(seq![("name"@, Doc::Str(named(c, "-lifecycle"@))), ("key"@, Doc::Str(public))]),
        ),
        err_of(made("could not add the key"@, "_id"@, "the answer carried no key id"@, log.rs[0])),
        and_on(
            undoing(
                log, KEY_BODY_MS, key_works_next(c, repo, log.rs),
                deleting(api_at(c, "/v1/keys/"@ + segment(id)), c.probe_jwt),
                call_failed("the throwaway key was left REGISTERED"@, log.us[0]),
            ),
            link(
                log.rs, 2,
                AskV::Wait(WaitV::Denied {
                    argv: seq!["ls-remote"@, ssh_at(c, repo)],
                    env: lifecycle_env(c),
                    cap_ms: REVOCATION_MS,
                }),
                lost_of(log.rs[2]), NextV::Pass,
            ),
        ),
    )
}

fn key_lifecycle_body(c: &Run, repo: &str, public: &str, log: &Log) -> (n: Next)
    ensures
        n@ == key_lifecycle_next(c@, repo@, public@, log@),
{
    if log.rs.len() <= 0 {
        return Next::Ask(post(
            api(c, "/v1/keys"), c.probe_jwt.as_str(),
            obj2("name", txt(name(c, "-lifecycle").as_str()), "key", txt(public)),
        ));
    }
    let id = match made_of("could not add the key", "_id", "the answer carried no key id", &log.rs[0]) {
        Err(why) => {
            return Next::Fail(why);
        },
        Ok(t) => t,
    };
    match undo_after(
        log, KEY_BODY_MS, key_works_body(c, repo, log),
        erase(api(c, cat2("/v1/keys/", path_seg(id.as_str()).as_str()).as_str()), c.probe_jwt.as_str()),
        undo_failed("the throwaway key was left REGISTERED", log),
    ) {
        Next::Pass => {},
        other => {
            return other;
        },
    }
    if log.rs.len() <= 2 {
        return Next::Ask(Ask::Wait(Wait::Denied {
            argv: list2("ls-remote", ssh_remote(c, repo).as_str()),
            env: key_env(c),
            cap_ms: REVOCATION_MS,
        }));
    }
    end(lost(&log.rs[2]))
}

pub open spec fn public_key_next(c: RunV, rs: Seq<ReplyV>) -> NextV {
    link(
        rs, 0,
        plainly(Program::SshKeygen, seq!["-y"@, "-f"@, tmp_at(c, "lifecycle-key"@)], 10_000),
        tool_error_in("could not read the throwaway key"@, rs[0]), NextV::Pass,
    )
}

fn public_key_body(c: &Run, log: &Log) -> (n: Next)
    ensures
        n@ == public_key_next(c@, log@.rs),
{
    if log.rs.len() <= 0 {
        return Next::Ask(plain(Program::SshKeygen, list3("-y", "-f", tmp(c, "lifecycle-key").as_str()), 10_000));
    }
    end(tool_failed_in("could not read the throwaway key", &log.rs[0]))
}

// ── the bodies ──────────────────────────────────────────────────────────────

pub enum Body {
    Username,
    ProfileUpsert,
    CliTokens { device: String },
    SshConfig { ws: String, device: String },
    KnownHosts,
    Throwaway,
    /// The public half of the throwaway key.
    PublicKey,
    KeyLifecycle { repo: String, public: String },
}

pub enum BodyV {
    Username,
    ProfileUpsert,
    CliTokens { device: Seq<char> },
    SshConfig { ws: Seq<char>, device: Seq<char> },
    KnownHosts,
    Throwaway,
    PublicKey,
    KeyLifecycle { repo: Seq<char>, public: Seq<char> },
}

impl View for Body {
    type V = BodyV;

    open spec fn view(&self) -> BodyV {
        match self {
            Body::Username => BodyV::Username,
            Body::ProfileUpsert => BodyV::ProfileUpsert,
            Body::CliTokens { device } => BodyV::CliTokens { device: device@ },
            Body::SshConfig { ws, device } => BodyV::SshConfig { ws: ws@, device: device@ },
            Body::KnownHosts => BodyV::KnownHosts,
            Body::Throwaway => BodyV::Throwaway,
            Body::PublicKey => BodyV::PublicKey,
            Body::KeyLifecycle { repo, public } => BodyV::KeyLifecycle { repo: repo@, public: public@ },
        }
    }
}

/// What a body does next.
pub open spec fn body_next(c: RunV, b: BodyV, log: LogV) -> NextV {
    match b {
        BodyV::Username => username_next(c, log.rs),
        BodyV::ProfileUpsert => profile_upsert_next(c, log.rs),
        BodyV::CliTokens { device } => cli_tokens_next(c, device, log.rs),
        BodyV::SshConfig { ws, device } => sshconfig_next(c, ws, device, log),
        BodyV::KnownHosts => known_hosts_next(c, log.rs),
        BodyV::Throwaway => throwaway_next(c, "lifecycle-key"@, "slo lifecycle"@, log.rs),
        BodyV::PublicKey => public_key_next(c, log.rs),
        BodyV::KeyLifecycle { repo, public } => key_lifecycle_next(c, repo, public, log),
    }
}

/// The stretch of a body that has a time of its own: how many replies it begins after, and how long it
/// is given.
pub open spec fn body_region(b: BodyV) -> Option<(usize, u64)> {
    match b {
        BodyV::SshConfig { .. } => Some((4usize, (SSHCONFIG_MS - 10_000) as u64)),
        BodyV::KeyLifecycle { .. } => Some((1usize, KEY_BODY_MS)),
        _ => None,
    }
}

/// What a body has learned: the public half of the throwaway key.
pub open spec fn body_found(b: BodyV, log: LogV) -> Option<Seq<char>> {
    match b {
        BodyV::PublicKey => if log.rs.len() > 0 {
            match said_of(log.rs[0]) {
                Ok(t) => Some(trimmed(t)),
                Err(_) => None,
            }
        } else {
            None
        },
        _ => None,
    }
}

impl Body {
    pub fn next(&self, c: &Run, log: &Log) -> (n: Next)
        ensures
            n@ == body_next(c@, self@, log@),
    {
        match self {
            Body::Username => username_body(c, log),
            Body::ProfileUpsert => profile_upsert_body(c, log),
            Body::CliTokens { device } => cli_tokens_body(c, device.as_str(), log),
            Body::SshConfig { ws, device } => sshconfig_body(c, ws.as_str(), device.as_str(), log),
            Body::KnownHosts => known_hosts(c, log),
            Body::Throwaway => throwaway(c, "lifecycle-key", "slo lifecycle", log),
            Body::PublicKey => public_key_body(c, log),
            Body::KeyLifecycle { repo, public } => key_lifecycle_body(c, repo.as_str(), public.as_str(), log),
        }
    }

    pub fn region(&self) -> (r: Option<(usize, u64)>)
        ensures
            r == body_region(self@),
    {
        match self {
            Body::SshConfig { .. } => Some((4, SSHCONFIG_MS - 10_000)),
            Body::KeyLifecycle { .. } => Some((1, KEY_BODY_MS)),
            _ => None,
        }
    }

    pub fn found(&self, log: &Log) -> (r: Option<String>)
        ensures
            opt(r) == body_found(self@, log@),
    {
        match self {
            Body::PublicKey => {
                if log.rs.len() > 0 {
                    match said(&log.rs[0]) {
                        Ok(t) => Some(trim(t.as_str())),
                        Err(_) => None,
                    }
                } else {
                    None
                }
            },
            _ => None,
        }
    }
}

// ── the journeys ────────────────────────────────────────────────────────────

pub open spec fn username_move(os: Seq<OutcomeV>) -> MoveV<BodyV> {
    one_move("id.username"@, QUICK_MS, ""@, Some(BodyV::Username), os)
}

/// `id.username`.
pub fn username(os: &Vec<Outcome>) -> (m: Move<Body>)
    ensures
        m@ == username_move(outcomes(os@)),
{
    one("id.username", QUICK_MS, "", Some(Body::Username), os)
}

pub open spec fn profile_upsert_move(os: Seq<OutcomeV>) -> MoveV<BodyV> {
    one_move("id.profile.upsert"@, READ_MS, ""@, Some(BodyV::ProfileUpsert), os)
}

/// `id.profile.upsert`.
pub fn profile_upsert(os: &Vec<Outcome>) -> (m: Move<Body>)
    ensures
        m@ == profile_upsert_move(outcomes(os@)),
{
    one("id.profile.upsert", READ_MS, "", Some(Body::ProfileUpsert), os)
}

pub open spec fn cli_tokens_move(c: RunV, os: Seq<OutcomeV>) -> MoveV<BodyV> {
    one_move("id.cli.tokens"@, QUICK_MS, ""@, Some(BodyV::CliTokens { device: named(c, "-rev"@) }), os)
}

/// `id.cli.tokens`.
pub fn cli_tokens(c: &Run, os: &Vec<Outcome>) -> (m: Move<Body>)
    ensures
        m@ == cli_tokens_move(c@, outcomes(os@)),
{
    one("id.cli.tokens", QUICK_MS, "", Some(Body::CliTokens { device: name(c, "-rev") }), os)
}

/// The workspace a host block is asked for: the one a person's journey made, or the stage's own.
pub open spec fn config_subject(s: StateV) -> Option<Seq<char>> {
    match s.ux_workspace {
        Some(ws) => Some(ws),
        None => s.workspace,
    }
}

pub open spec fn sshconfig_move(c: RunV, s: StateV, os: Seq<OutcomeV>) -> MoveV<BodyV> {
    one_move(
        "id.cli.sshconfig"@, SSHCONFIG_MS, "no workspace to write a host block for"@,
        (match config_subject(s) { Some(ws) => Some(BodyV::SshConfig { ws, device: named(c, "-cli"@) }), None => None }), os,
    )
}

/// `id.cli.sshconfig`.
pub fn sshconfig(c: &Run, s: &State, os: &Vec<Outcome>) -> (m: Move<Body>)
    ensures
        m@ == sshconfig_move(c@, s@, outcomes(os@)),
{
    let body = match (&s.ux_workspace, &s.workspace) {
        (Some(ws), _) => Some(Body::SshConfig { ws: ws.clone(), device: name(c, "-cli") }),
        (None, Some(ws)) => Some(Body::SshConfig { ws: ws.clone(), device: name(c, "-cli") }),
        (None, None) => None,
    };
    one("id.cli.sshconfig", SSHCONFIG_MS, "no workspace to write a host block for", body, os)
}

/// The key's body, and the time its compensation is given on top.
pub open spec fn key_ceiling(c: RunV) -> u64 {
    more(KEY_BODY_MS, c.undo_slack_ms)
}

/// The throwaway key is made before the step: a step that could not make one has nothing to try.
pub open spec fn key_lifecycle_move(c: RunV, s: StateV, os: Seq<OutcomeV>) -> MoveV<BodyV> {
    let id = "key.ssh.lifecycle"@;
    match s.repo {
        None => if os.len() == 0 { MoveV::Skip { id, why: "no repo to clone"@ } } else { MoveV::End },
        Some(repo) => if os.len() == 0 {
            MoveV::Look { body: BodyV::KnownHosts }
        } else if !passed(os[0]) {
            if os.len() == 1 { MoveV::Skip { id, why: failure_or_empty(os[0]) } } else { MoveV::End }
        } else if os.len() == 1 {
            MoveV::Look { body: BodyV::Throwaway }
        } else if !passed(os[1]) {
            if os.len() == 2 { MoveV::Skip { id, why: failure_or_empty(os[1]) } } else { MoveV::End }
        } else if os.len() == 2 {
            MoveV::Look { body: BodyV::PublicKey }
        } else if os.len() == 3 {
            match passed_with(os[2]) {
                None => MoveV::Skip { id, why: failure_or_empty(os[2]) },
                Some(public) => MoveV::Step { id, ceiling_ms: key_ceiling(c), body: BodyV::KeyLifecycle { repo, public } },
            }
        } else {
            MoveV::End
        },
    }
}

/// `key.ssh.lifecycle`: a key of its own, never the mounted one, which the rest of the run needs.
pub fn key_lifecycle(c: &Run, s: &State, os: &Vec<Outcome>) -> (m: Move<Body>)
    ensures
        m@ == key_lifecycle_move(c@, s@, outcomes(os@)),
{
    let id = "key.ssh.lifecycle";
    match &s.repo {
        None => {
            if os.len() == 0 { skip(id, "no repo to clone") } else { Move::End }
        },
        Some(repo) => {
            if os.len() == 0 {
                look(Body::KnownHosts)
            } else if !os[0].passed() {
                if os.len() == 1 { skip(id, os[0].failure_or_empty().as_str()) } else { Move::End }
            } else if os.len() == 1 {
                look(Body::Throwaway)
            } else if !os[1].passed() {
                if os.len() == 2 { skip(id, os[1].failure_or_empty().as_str()) } else { Move::End }
            } else if os.len() == 2 {
                look(Body::PublicKey)
            } else if os.len() == 3 {
                match os[2].passed_with() {
                    None => skip(id, os[2].failure_or_empty().as_str()),
                    Some(public) => step(id, KEY_BODY_MS.saturating_add(c.undo_slack_ms), Body::KeyLifecycle { repo: repo.clone(), public }),
                }
            } else {
                Move::End
            }
        },
    }
}

/// Whatever comes back, each of the five ids is reported exactly once.
pub proof fn law_every_id_is_reported_once(c: RunV, s: StateV, os: Seq<OutcomeV>)
    ensures
        reports_exactly(|o: Seq<OutcomeV>| username_move(o), os, seq!["id.username"@], 4),
        reports_exactly(|o: Seq<OutcomeV>| profile_upsert_move(o), os, seq!["id.profile.upsert"@], 4),
        reports_exactly(|o: Seq<OutcomeV>| cli_tokens_move(c, o), os, seq!["id.cli.tokens"@], 4),
        reports_exactly(|o: Seq<OutcomeV>| sshconfig_move(c, s, o), os, seq!["id.cli.sshconfig"@], 4),
        reports_exactly(|o: Seq<OutcomeV>| key_lifecycle_move(c, s, o), os, seq!["key.ssh.lifecycle"@], 4),
    decreases os.len(),
{
    reveal_with_fuel(reports, 5);
    if os.len() > 4 {
        law_every_id_is_reported_once(c, s, os.drop_last());
    }
}

/// Once the throwaway key is registered, the body is not over before its removal was asked for,
/// whatever was answered and however long it took.
pub proof fn law_the_throwaway_key_is_removed(c: RunV, repo: Seq<char>, public: Seq<char>, log: LogV)
    requires
        log.rs.len() > 0,
        made("could not add the key"@, "_id"@, "the answer carried no key id"@, log.rs[0]) is Ok,
        log.us.len() == 0,
    ensures
        !(key_lifecycle_next(c, repo, public, log) is Pass),
        !(key_lifecycle_next(c, repo, public, log) is Fail),
        log.cut ==> key_lifecycle_next(c, repo, public, log) == NextV::Undo(
            deleting(
                api_at(c, "/v1/keys/"@ + segment(made("could not add the key"@, "_id"@, "the answer carried no key id"@, log.rs[0])->Ok_0)),
                c.probe_jwt,
            ),
        ),
{
}

/// A login that was collected for the CLI is revoked before the body is over.
pub proof fn law_the_login_is_revoked(c: RunV, ws: Seq<char>, device: Seq<char>, log: LogV)
    requires
        log.rs.len() > 3,
        listed_id(device, log.rs[3]) is Ok,
        handshake(log.rs[0]) is Ok,
        call_error(log.rs[1]) is None,
        made_full("the token collection failed"@, "token"@, "the approved login handed back no token"@, log.rs[2]) is Ok,
        log.us.len() == 0,
    ensures
        !(sshconfig_next(c, ws, device, log) is Pass),
        !(sshconfig_next(c, ws, device, log) is Fail),
{
}

} // verus!
