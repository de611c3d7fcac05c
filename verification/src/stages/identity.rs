//! Stage 1 · Identity: the credentials the rest of the journey is carried out with.

use vstd::prelude::*;

use crate::json::{Doc, Json, obj1, obj2, obj3, row_in, row_named, rows_of, text_of, txt};
use crate::reply::{call_error, call_failed, doc, doc_of, error, failed, said, said_of, tool_error_in, tool_failed_in};
use crate::run::{Run, RunV, State, StateV, api, api_at, prefix, prefix_of};
use crate::stages::git::{authed, authed_args, browse_at, browse_url, git_env, git_env_of, http_remote, http_url, plain, plainly};
use crate::text::{cat2, list2, list3, trim, trimmed};
use crate::turn::{Move, MoveV, Outcome, OutcomeV, did_pass, learned, learned_by, look, outcomes, passed_by, reports, reports_exactly, step};
use crate::wire::{
    Ask, AskV, Log, LogV, Next, NextV, Program, Reply, ReplyV, also, end, err_of, get, getting, inside, link, opt, post, posting,
};

verus! {

/// Looser than the target on purpose: a call that took longer is a breach with a number.
pub const KEY_MS: u64 = 60_000;

/// One token, three tiers: `/v1`, the browse API through the api's forwarder, and git over HTTP.
/// Each tier checks the token against its own copy of the secret.
pub open spec fn tiers_next(c: RunV, repo: Seq<char>, rs: Seq<ReplyV>) -> NextV {
    link(
        rs, 0, getting(api_at(c, "/v1/repos?owner="@ + c.probe_user), c.probe_jwt), call_failed("/v1"@, rs[0]),
        link(
            rs, 1, getting(browse_at(c, c.probe_user, repo, "/refs"@), c.probe_jwt), call_failed("browse"@, rs[1]),
            link(
                rs, 2,
                AskV::Tool {
                    program: Program::Git,
                    argv: authed_args(c, seq!["ls-remote"@, http_remote(c, c.probe_user, repo)]),
                    env: git_env_of(c),
                    dir: seq![],
                    bound_ms: 30_000,
                },
                tool_error_in("git over HTTP"@, rs[2]),
                NextV::Pass,
            ),
        ),
    )
}

pub fn tiers_body(c: &Run, repo: &str, log: &Log) -> (n: Next)
    ensures
        n@ == tiers_next(c@, repo@, log@.rs),
{
    if log.rs.len() <= 0 {
        return Next::Ask(get(api(c, cat2("/v1/repos?owner=", c.probe_user.as_str()).as_str()), c.probe_jwt.as_str()));
    }
    if let Some(why) = failed("/v1", &log.rs[0]) {
        return Next::Fail(why);
    }
    if log.rs.len() <= 1 {
        return Next::Ask(get(browse_url(c, c.probe_user.as_str(), repo, "/refs"), c.probe_jwt.as_str()));
    }
    if let Some(why) = failed("browse", &log.rs[1]) {
        return Next::Fail(why);
    }
    if log.rs.len() <= 2 {
        let url = http_url(c, c.probe_user.as_str(), repo);
        return Next::Ask(Ask::Tool {
            program: Program::Git,
            argv: authed(c, list2("ls-remote", url.as_str())),
            env: git_env(c),
            dir: String::new(),
            bound_ms: 30_000,
        });
    }
    end(tool_failed_in("git over HTTP", &log.rs[2]))
}

// ── the bodies ──────────────────────────────────────────────────────────────

pub enum Body {
    /// The owner's platform key is made on its first read, and a workspace trusts only an owner
    /// who has one.
    PlatformKey,
    SignIn,
    Mint { name: String },
    Key { name: String },
    CliFlow { name: String },
}

pub enum BodyV {
    PlatformKey,
    SignIn,
    Mint { name: Seq<char> },
    Key { name: Seq<char> },
    CliFlow { name: Seq<char> },
}

impl View for Body {
    type V = BodyV;

    open spec fn view(&self) -> BodyV {
        match self {
            Body::PlatformKey => BodyV::PlatformKey,
            Body::SignIn => BodyV::SignIn,
            Body::Mint { name } => BodyV::Mint { name: name@ },
            Body::Key { name } => BodyV::Key { name: name@ },
            Body::CliFlow { name } => BodyV::CliFlow { name: name@ },
        }
    }
}

/// A text field that has to hold something.
pub open spec fn filled(d: Doc, key: Seq<char>) -> Option<Seq<char>> {
    match text_of(d, key) {
        Some(t) => if t.len() == 0 { None } else { Some(t) },
        None => None,
    }
}

pub fn filled_at(d: &Json, key: &str) -> (r: Option<String>)
    ensures
        opt(r) == filled(d@, key@),
{
    match d.text_at(key) {
        Some(t) => {
            if t.as_str().is_empty() { None } else { Some(t) }
        },
        None => None,
    }
}

/// The secret of a token that was minted: the one time it is readable.
pub open spec fn minted_secret(r: ReplyV) -> Result<Seq<char>, Seq<char>> {
    match doc_of(r) {
        Err(why) => Err(why),
        Ok(d) => match filled(d, "token"@) {
            Some(t) => Ok(t),
            None => Err("the answer carried no token"@),
        },
    }
}

pub fn secret_of(r: &Reply) -> (o: Result<String, String>)
    ensures
        (match o { Ok(t) => Ok(t@), Err(e) => Err(e@) }) == minted_secret(r@),
{
    match doc(r) {
        Err(why) => Err(why),
        Ok(d) => match filled_at(&d, "token") {
            Some(t) => Ok(t),
            None => Err("the answer carried no token".to_owned()),
        },
    }
}

/// The id a token that was minted is revoked by.
pub open spec fn minted_id(r: ReplyV) -> Option<Seq<char>> {
    match doc_of(r) {
        Err(_) => None,
        Ok(d) => text_of(d, "_id"@),
    }
}

pub fn token_id_of(r: &Reply) -> (o: Option<String>)
    ensures
        opt(o) == minted_id(r@),
{
    match doc(r) {
        Err(_) => None,
        Ok(d) => d.text_at("_id"),
    }
}

pub open spec fn mint_next(c: RunV, name: Seq<char>, rs: Seq<ReplyV>) -> NextV {
    link(
        rs, 0,
        posting(
            api_at(c, "/v1/tokens"@),
            c.probe_jwt,
            Doc::Obj(seq![("owner"@, Doc::Str(c.probe_user)), ("name"@, Doc::Str(name))]),
        ),
        err_of(minted_secret(rs[0])),
        NextV::Pass,
    )
}

fn mint_body(c: &Run, name: &str, log: &Log) -> (n: Next)
    ensures
        n@ == mint_next(c@, name@, log@.rs),
{
    if log.rs.len() <= 0 {
        let body = obj2("owner", txt(c.probe_user.as_str()), "name", txt(name));
        return Next::Ask(post(api(c, "/v1/tokens"), c.probe_jwt.as_str(), body));
    }
    match secret_of(&log.rs[0]) {
        Ok(_) => Next::Pass,
        Err(why) => Next::Fail(why),
    }
}

/// Why a listing does not hold the key `name`.
pub open spec fn key_unlisted(name: Seq<char>, r: ReplyV) -> Option<Seq<char>> {
    match doc_of(r) {
        Err(why) => Some(why),
        Ok(d) => if row_named(rows_of(Some(d)), "name"@, name) is Some {
            None
        } else {
            Some("the key was accepted but is not listed"@)
        },
    }
}

/// The public half of the mounted key is registered, and then listed: a key that was accepted but
/// never listed is one a clone would fail on with no clue why.
pub open spec fn key_next(c: RunV, name: Seq<char>, rs: Seq<ReplyV>) -> NextV {
    link(
        rs, 0, plainly(Program::SshKeygen, seq!["-y"@, "-f"@, c.ssh_key_path], 10_000),
        tool_error_in("could not read the probe's public key"@, rs[0]),
        link(
            rs, 1,
            posting(
                api_at(c, "/v1/keys"@),
                c.probe_jwt,
                Doc::Obj(seq![
                    ("owner"@, Doc::Str(c.probe_user)),
                    ("name"@, Doc::Str(name)),
                    ("key"@, Doc::Str(trimmed(said_of(rs[0])->Ok_0))),
                ]),
            ),
            call_failed("could not register the key"@, rs[1]),
            link(
                rs, 2, getting(api_at(c, "/v1/keys?owner="@ + c.probe_user), c.probe_jwt), key_unlisted(name, rs[2]),
                NextV::Pass,
            ),
        ),
    )
}

fn key_body(c: &Run, name: &str, log: &Log) -> (n: Next)
    ensures
        n@ == key_next(c@, name@, log@.rs),
{
    if log.rs.len() <= 0 {
        return Next::Ask(plain(Program::SshKeygen, list3("-y", "-f", c.ssh_key_path.as_str()), 10_000));
    }
    let public = match said(&log.rs[0]) {
        Err(why) => {
            return Next::Fail(inside("could not read the probe's public key", why.as_str()));
        },
        Ok(t) => trim(t.as_str()),
    };
    if log.rs.len() <= 1 {
        let body = obj3("owner", txt(c.probe_user.as_str()), "name", txt(name), "key", txt(public.as_str()));
        return Next::Ask(post(api(c, "/v1/keys"), c.probe_jwt.as_str(), body));
    }
    if let Some(why) = failed("could not register the key", &log.rs[1]) {
        return Next::Fail(why);
    }
    if log.rs.len() <= 2 {
        return Next::Ask(get(api(c, cat2("/v1/keys?owner=", c.probe_user.as_str()).as_str()), c.probe_jwt.as_str()));
    }
    match doc(&log.rs[2]) {
        Err(why) => Next::Fail(why),
        Ok(d) => {
            if row_in(Some(&d), "name", name).is_some() {
                Next::Pass
            } else {
                Next::Fail("the key was accepted but is not listed".to_owned())
            }
        },
    }
}

/// The code and the poll of a login that was begun.
pub open spec fn login_begun(r: ReplyV) -> Result<(Seq<char>, Seq<char>), Seq<char>> {
    match doc_of(r) {
        Err(why) => Err(why),
        Ok(d) => match (filled(d, "code"@), filled(d, "poll"@)) {
            (Some(code), Some(poll)) => Ok((code, poll)),
            _ => Err("the login handshake answered no code"@),
        },
    }
}

pub fn login_of(r: &Reply) -> (o: Result<(String, String), String>)
    ensures
        (match o { Ok(p) => Ok((p.0@, p.1@)), Err(e) => Err(e@) }) == login_begun(r@),
{
    match doc(r) {
        Err(why) => Err(why),
        Ok(d) => match (filled_at(&d, "code"), filled_at(&d, "poll")) {
            (Some(code), Some(poll)) => Ok((code, poll)),
            _ => Err("the login handshake answered no code".to_owned()),
        },
    }
}

/// The token of a login that was approved.
pub open spec fn login_token(r: ReplyV) -> Result<Seq<char>, Seq<char>> {
    match doc_of(r) {
        Err(why) => Err(why),
        Ok(d) => match filled(d, "token"@) {
            Some(t) => Ok(t),
            None => Err("the approved login handed back no token"@),
        },
    }
}

pub fn login_token_of(r: &Reply) -> (o: Result<String, String>)
    ensures
        (match o { Ok(t) => Ok(t@), Err(e) => Err(e@) }) == login_token(r@),
{
    match doc(r) {
        Err(why) => Err(why),
        Ok(d) => match filled_at(&d, "token") {
            Some(t) => Ok(t),
            None => Err("the approved login handed back no token".to_owned()),
        },
    }
}

/// The id of the login named `name`, in a listing of them.
pub open spec fn login_id(name: Seq<char>, r: ReplyV) -> Option<Seq<char>> {
    match doc_of(r) {
        Err(_) => None,
        Ok(d) => match row_named(rows_of(Some(d)), "name"@, name) {
            Some(row) => text_of(row, "id"@),
            None => None,
        },
    }
}

pub fn list_cli_token_id(name: &str, r: &Reply) -> (o: Option<String>)
    ensures
        opt(o) == login_id(name@, r@),
{
    match doc(r) {
        Err(_) => None,
        Ok(d) => match row_in(Some(&d), "name", name) {
            Some(row) => row.text_at("id"),
            None => None,
        },
    }
}

/// The device login a person walks: a code without credentials, approved as the signed-in person,
/// and a token collected once. One poll, not a loop: approving is synchronous. The listing at the
/// end is for the id alone, and whatever it answers the login has worked.
pub open spec fn cli_flow_next(c: RunV, name: Seq<char>, rs: Seq<ReplyV>) -> NextV {
    link(
        rs, 0, posting(api_at(c, "/v1/cli/code"@), ""@, Doc::Obj(seq![("device"@, Doc::Str(name))])), err_of(login_begun(rs[0])),
        link(
            rs, 1,
            posting(api_at(c, "/v1/cli/approve"@), c.probe_jwt, Doc::Obj(seq![("code"@, Doc::Str((login_begun(rs[0])->Ok_0).0))])),
            call_error(rs[1]),
            link(
                rs, 2, getting(api_at(c, "/v1/cli/token?poll="@ + (login_begun(rs[0])->Ok_0).1), ""@), err_of(login_token(rs[2])),
                also(rs, 3, getting(api_at(c, "/v1/cli/tokens"@), c.probe_jwt), NextV::Pass),
            ),
        ),
    )
}

fn cli_flow_body(c: &Run, name: &str, log: &Log) -> (n: Next)
    ensures
        n@ == cli_flow_next(c@, name@, log@.rs),
{
    if log.rs.len() <= 0 {
        return Next::Ask(post(api(c, "/v1/cli/code"), "", obj1("device", txt(name))));
    }
    let (code, poll) = match login_of(&log.rs[0]) {
        Err(why) => {
            return Next::Fail(why);
        },
        Ok(p) => p,
    };
    if log.rs.len() <= 1 {
        return Next::Ask(post(api(c, "/v1/cli/approve"), c.probe_jwt.as_str(), obj1("code", txt(code.as_str()))));
    }
    if let Some(why) = error(&log.rs[1]) {
        return Next::Fail(why);
    }
    if log.rs.len() <= 2 {
        return Next::Ask(get(api(c, cat2("/v1/cli/token?poll=", poll.as_str()).as_str()), ""));
    }
    if let Err(why) = login_token_of(&log.rs[2]) {
        return Next::Fail(why);
    }
    if log.rs.len() <= 3 {
        return Next::Ask(get(api(c, "/v1/cli/tokens"), c.probe_jwt.as_str()));
    }
    Next::Pass
}

pub open spec fn body_next(c: RunV, b: BodyV, log: LogV) -> NextV {
    match b {
        BodyV::PlatformKey => link(
            log.rs, 0, getting(api_at(c, "/v1/platform-key?owner="@ + c.probe_user), c.probe_jwt), call_error(log.rs[0]), NextV::Pass,
        ),
        BodyV::SignIn => link(log.rs, 0, getting(api_at(c, "/v1/cli/tokens"@), c.probe_jwt), call_error(log.rs[0]), NextV::Pass),
        BodyV::Mint { name } => mint_next(c, name, log.rs),
        BodyV::Key { name } => key_next(c, name, log.rs),
        BodyV::CliFlow { name } => cli_flow_next(c, name, log.rs),
    }
}

/// What a body has learned: a token's secret, the name a key is registered under, or the id of a
/// login.
pub open spec fn body_found(b: BodyV, log: LogV) -> Option<Seq<char>> {
    match b {
        BodyV::Mint { .. } => if log.rs.len() > 0 {
            match minted_secret(log.rs[0]) {
                Ok(t) => Some(t),
                Err(_) => None,
            }
        } else {
            None
        },
        BodyV::Key { name } => if log.rs.len() > 2 && key_unlisted(name, log.rs[2]) is None { Some(name) } else { None },
        BodyV::CliFlow { name } => if log.rs.len() > 3 { login_id(name, log.rs[3]) } else { None },
        _ => None,
    }
}

impl Body {
    pub fn next(&self, c: &Run, log: &Log) -> (n: Next)
        ensures
            n@ == body_next(c@, self@, log@),
    {
        match self {
            Body::PlatformKey => {
                if log.rs.len() <= 0 {
                    Next::Ask(get(api(c, cat2("/v1/platform-key?owner=", c.probe_user.as_str()).as_str()), c.probe_jwt.as_str()))
                } else {
                    end(error(&log.rs[0]))
                }
            },
            Body::SignIn => {
                if log.rs.len() <= 0 {
                    Next::Ask(get(api(c, "/v1/cli/tokens"), c.probe_jwt.as_str()))
                } else {
                    end(error(&log.rs[0]))
                }
            },
            Body::Mint { name } => mint_body(c, name.as_str(), log),
            Body::Key { name } => key_body(c, name.as_str(), log),
            Body::CliFlow { name } => cli_flow_body(c, name.as_str(), log),
        }
    }

    pub fn found(&self, log: &Log) -> (r: Option<String>)
        ensures
            opt(r) == body_found(self@, log@),
    {
        match self {
            Body::Mint { .. } => {
                if log.rs.len() > 0 {
                    match secret_of(&log.rs[0]) {
                        Ok(t) => Some(t),
                        Err(_) => None,
                    }
                } else {
                    None
                }
            },
            Body::Key { name } => {
                if log.rs.len() > 2 {
                    match doc(&log.rs[2]) {
                        Err(_) => None,
                        Ok(d) => {
                            if row_in(Some(&d), "name", name.as_str()).is_some() { Some(name.clone()) } else { None }
                        },
                    }
                } else {
                    None
                }
            },
            Body::CliFlow { name } => {
                if log.rs.len() > 3 { list_cli_token_id(name.as_str(), &log.rs[3]) } else { None }
            },
            _ => None,
        }
    }
}

// ── the stage ───────────────────────────────────────────────────────────────

pub const IDS: [&'static str; 4] = ["id.signin", "id.token.mint", "id.key.usable", "id.cli.flow"];

pub open spec fn run_move(c: RunV, os: Seq<OutcomeV>) -> MoveV<BodyV> {
    if os.len() == 0 {
        MoveV::Look { body: BodyV::PlatformKey }
    } else if os.len() == 1 {
        MoveV::Step { id: IDS[0]@, ceiling_ms: c.step_ms, body: BodyV::SignIn }
    } else if os.len() == 2 {
        MoveV::Step { id: IDS[1]@, ceiling_ms: c.step_ms, body: BodyV::Mint { name: prefix_of(c) } }
    } else if os.len() == 3 {
        MoveV::Step { id: IDS[2]@, ceiling_ms: KEY_MS, body: BodyV::Key { name: prefix_of(c) } }
    } else if os.len() == 4 {
        MoveV::Step { id: IDS[3]@, ceiling_ms: 45_000, body: BodyV::CliFlow { name: prefix_of(c) } }
    } else {
        MoveV::End
    }
}

/// The four ids, each a step of its own whatever became of those before: a broken key is
/// `id.key.usable` failing, not a dead run.
pub fn run(c: &Run, os: &Vec<Outcome>) -> (m: Move<Body>)
    ensures
        m@ == run_move(c@, outcomes(os@)),
{
    if os.len() == 0 {
        look(Body::PlatformKey)
    } else if os.len() == 1 {
        step(IDS[0], c.step_ms, Body::SignIn)
    } else if os.len() == 2 {
        step(IDS[1], c.step_ms, Body::Mint { name: prefix(c) })
    } else if os.len() == 3 {
        step(IDS[2], KEY_MS, Body::Key { name: prefix(c) })
    } else if os.len() == 4 {
        step(IDS[3], 45_000, Body::CliFlow { name: prefix(c) })
    } else {
        Move::End
    }
}

/// Whatever comes back, the four ids are reported exactly once, in order.
pub proof fn law_every_id_is_reported_once(c: RunV, os: Seq<OutcomeV>)
    ensures
        reports_exactly(|o: Seq<OutcomeV>| run_move(c, o), os, seq![IDS[0]@, IDS[1]@, IDS[2]@, IDS[3]@], 5),
    decreases os.len(),
{
    reveal_with_fuel(reports, 6);
    if os.len() > 5 {
        law_every_id_is_reported_once(c, os.drop_last());
    }
}

/// What the stage leaves for the next, `mint` being what the mint was answered: the token and its secret as
/// soon as one was minted, the key once it is usable, and the login once it was collected.
pub open spec fn left(s: StateV, mint: LogV, os: Seq<OutcomeV>) -> StateV {
    let minted = mint.rs.len() > 0 && doc_of(mint.rs[0]) is Ok;
    StateV {
        token: if minted { minted_id(mint.rs[0]) } else { s.token },
        token_value: if minted {
            match minted_secret(mint.rs[0]) {
                Ok(t) => Some(t),
                Err(_) => None,
            }
        } else {
            s.token_value
        },
        key: if passed_by(os, 3) { learned_by(os, 3) } else { s.key },
        cli_token: if passed_by(os, 4) { learned_by(os, 4) } else { s.cli_token },
        ..s
    }
}

pub fn leaves(s: &State, mint: &Log, os: &Vec<Outcome>) -> (t: State)
    ensures
        t@ == left(s@, mint@, outcomes(os@)),
{
    let mut t = s.copy();
    if mint.rs.len() > 0 && doc(&mint.rs[0]).is_ok() {
        t.token = token_id_of(&mint.rs[0]);
        t.token_value = match secret_of(&mint.rs[0]) {
            Ok(t) => Some(t),
            Err(_) => None,
        };
    }
    if did_pass(os, 3) {
        t.key = learned(os, 3);
    }
    if did_pass(os, 4) {
        t.cli_token = learned(os, 4);
    }
    t
}

/// A token that was minted is remembered by its id even where its secret was not answered, so that it can
/// be revoked; the secret is then not known.
pub proof fn law_what_was_minted_is_remembered(s: StateV, mint: LogV, os: Seq<OutcomeV>)
    requires
        mint.rs.len() > 0,
        minted_id(mint.rs[0]) is Some,
    ensures
        left(s, mint, os).token == minted_id(mint.rs[0]),
        minted_secret(mint.rs[0]) is Err ==> left(s, mint, os).token_value is None,
{
}

} // verus!
