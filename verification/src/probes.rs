//! The tries a wait is made of: what each asks for, and what a reply comes to.

use vstd::prelude::*;

use crate::json::{Doc, doc_i64, i64_of, member, member2, row_in, row_named, rows_of, text_of, text_or, text_or_empty};
use crate::outside::{
    base64_bytes, base64_error, debug, debug_text, decode64, json_text, lossy, lossy_text, render, status_line, status_text,
    why_no_base64,
};
use crate::reply::{doc, doc_of, is_success, object, object_of, ran, ran_of, raw, raw_of, success, tool_error, tool_failed};
use crate::stages::git::{oid_in, oid_of, BASE_BRANCH};
use crate::text::{
    cat2, cat3, cat4, cat5, cat6, cat8, clipped, contains, copy_texts, dec_int, decimal_int, eq_ignore_ascii_case, first_chars,
    holds, list3, same, same_letters, texts, trim, trimmed,
};
use crate::want::{Want, WantV, says};
use crate::wire::{Ask, AskV, Program, Reply, ReplyV, copy_pairs, get, getting, inside, pairs, seen, within};

verus! {

/// What one try of a wait came to.
pub enum Tried {
    /// It needs one more thing.
    Ask(Ask),
    Yes,
    NotYet(String),
    /// Not yet, and nothing new to tell.
    Still,
    /// It will never be so.
    Broken(String),
}

pub enum TriedV {
    Ask(AskV),
    Yes,
    NotYet(Seq<char>),
    Still,
    Broken(Seq<char>),
}

impl View for Tried {
    type V = TriedV;

    open spec fn view(&self) -> TriedV {
        match self {
            Tried::Ask(a) => TriedV::Ask(a@),
            Tried::Yes => TriedV::Yes,
            Tried::NotYet(w) => TriedV::NotYet(w@),
            Tried::Still => TriedV::Still,
            Tried::Broken(w) => TriedV::Broken(w@),
        }
    }
}

/// A try of one ask.
pub open spec fn tried_once(rs: Seq<ReplyV>, ask: AskV, tried: TriedV) -> TriedV {
    if rs.len() == 0 { TriedV::Ask(ask) } else { tried }
}

/// What a read of a document that is waited for comes to.
pub open spec fn doc_tried(want: WantV, r: ReplyV) -> TriedV {
    match doc_of(r) {
        Err(why) => TriedV::NotYet(why),
        Ok(d) => if says(want, d) {
            TriedV::Yes
        } else {
            TriedV::NotYet("the answer does not have it yet; last answer: "@ + clipped(json_text(d), 160))
        },
    }
}

pub fn try_doc(want: &Want, r: &Reply) -> (t: Tried)
    ensures
        t@ == doc_tried(want@, r@),
{
    match doc(r) {
        Err(why) => Tried::NotYet(why),
        Ok(j) => {
            if want.met(&j) {
                Tried::Yes
            } else {
                Tried::NotYet(cat2("the answer does not have it yet; last answer: ", first_chars(render(&j).as_str(), 160).as_str()))
            }
        },
    }
}

/// The script that looks for a package's command.
pub open spec fn which_script(package: Seq<char>) -> Seq<char> {
    "command -v "@ + package
}

pub open spec fn which_tried(package: Seq<char>, want: bool, r: ReplyV) -> TriedV {
    match ran_of(r) {
        Err(why) => TriedV::NotYet(why),
        Ok((code, _, _)) => if (code == 0) == want {
            TriedV::Yes
        } else {
            TriedV::NotYet("`"@ + which_script(package) + "` exits "@ + dec_int(code as int))
        },
    }
}

pub fn try_which(package: &str, want: bool, r: &Reply) -> (t: Tried)
    ensures
        t@ == which_tried(package@, want, r@),
{
    match ran(r) {
        Err(why) => Tried::NotYet(why),
        Ok((code, _, _)) => {
            if (code == 0) == want {
                Tried::Yes
            } else {
                Tried::NotYet(cat4("`", cat2("command -v ", package).as_str(), "` exits ", decimal_int(code).as_str()))
            }
        },
    }
}

/// The script that asks the tool server how it is.
pub const HEALTHZ: &'static str = "curl -sf http://127.0.0.1:7788/healthz";

/// How a command that did not do is told: its code, its output and what it complained of.
pub open spec fn exit_told(code: i64, out: Seq<char>, err: Seq<char>) -> Seq<char> {
    "exit "@ + dec_int(code as int) + ": "@ + trimmed(out) + " "@ + trimmed(err)
}

pub fn exit_words(code: i64, out: &str, err: &str) -> (r: String)
    ensures
        r@ == exit_told(code, out@, err@),
{
    cat6("exit ", decimal_int(code).as_str(), ": ", trim(out).as_str(), " ", trim(err).as_str())
}

pub open spec fn health_tried(r: ReplyV) -> TriedV {
    match ran_of(r) {
        Err(why) => TriedV::Broken(why),
        Ok((code, out, err)) => if code == 0 && holds(out, "\"ok\":true"@) {
            TriedV::Yes
        } else {
            TriedV::NotYet(exit_told(code, out, err))
        },
    }
}

pub fn try_health(r: &Reply) -> (t: Tried)
    ensures
        t@ == health_tried(r@),
{
    match ran(r) {
        Err(why) => Tried::Broken(why),
        Ok((code, out, err)) => {
            if code == 0 && contains(out.as_str(), "\"ok\":true") {
                Tried::Yes
            } else {
                Tried::NotYet(exit_words(code, out.as_str(), err.as_str()))
            }
        },
    }
}

/// The `Ready` condition of a workspace object.
pub open spec fn ready_condition(ws: Doc) -> Option<Doc> {
    match member(ws, "status"@) {
        None => None,
        Some(st) => row_named(rows_of(member(st, "conditions"@)), "type"@, "Ready"@),
    }
}

/// A workspace that is to say that its seeding failed: it is not ready, for that reason, and it says where
/// the log is.
pub open spec fn seed_tried(ws: Seq<char>, r: ReplyV) -> TriedV {
    match object_of(r) {
        Err(why) => TriedV::Broken("could not read the Workspace "@ + ws + ": "@ + why),
        Ok(d) => match ready_condition(d) {
            None => TriedV::Still,
            Some(cond) => {
                let reason = text_or_empty(cond, "reason"@);
                let message = text_or_empty(cond, "message"@);
                if reason == "SeedFailed"@ && text_or_empty(cond, "status"@) == "False"@ {
                    if holds(message, "git-seed"@) {
                        TriedV::Yes
                    } else {
                        TriedV::Broken("SeedFailed without the log pointer: "@ + message)
                    }
                } else {
                    TriedV::NotYet(reason + "/"@ + message)
                }
            },
        },
    }
}

pub fn try_seed(ws: &str, r: &Reply) -> (t: Tried)
    ensures
        t@ == seed_tried(ws@, r@),
{
    match object(r) {
        Err(why) => Tried::Broken(cat4("could not read the Workspace ", ws, ": ", why.as_str())),
        Ok(d) => {
            let cond = match d.get("status") {
                None => None,
                Some(st) => row_in(st.get("conditions"), "type", "Ready"),
            };
            match cond {
                None => Tried::Still,
                Some(c) => {
                    let reason = text_or(c, "reason");
                    let message = text_or(c, "message");
                    if same(reason.as_str(), "SeedFailed") && same(text_or(c, "status").as_str(), "False") {
                        if contains(message.as_str(), "git-seed") {
                            Tried::Yes
                        } else {
                            Tried::Broken(cat2("SeedFailed without the log pointer: ", message.as_str()))
                        }
                    } else {
                        Tried::NotYet(cat3(reason.as_str(), "/", message.as_str()))
                    }
                },
            }
        },
    }
}

/// One command inside a pod is given this long.
pub const EXEC_MS: u64 = 20_000;

/// A read by its owner of a thing that is to be gone; a tier that does not answer has not lost it.
pub open spec fn gone_tried(r: ReplyV) -> TriedV {
    match raw_of(r) {
        Err(why) => TriedV::Broken(why),
        Ok((status, _)) => if status == 404 { TriedV::Yes } else { TriedV::NotYet(status_line(status)) },
    }
}

pub fn try_gone(r: &Reply) -> (t: Tried)
    ensures
        t@ == gone_tried(r@),
{
    match raw(r) {
        Err(why) => Tried::Broken(why),
        Ok((status, _)) => {
            if status == 404 { Tried::Yes } else { Tried::NotYet(status_text(status)) }
        },
    }
}

/// One try of a clone.
pub open spec fn clone_asks(argv: Seq<Seq<char>>, env: Seq<(Seq<char>, Seq<char>)>) -> AskV {
    AskV::Tool { program: Program::Git, argv, env, dir: ""@, bound_ms: 30_000 }
}

fn clone_ask(argv: &Vec<String>, env: &Vec<(String, String)>) -> (r: Ask)
    ensures
        r@ == clone_asks(texts(argv@), pairs(env@)),
{
    Ask::Tool { program: Program::Git, argv: copy_texts(argv), env: copy_pairs(env), dir: "".to_owned(), bound_ms: 30_000 }
}

pub open spec fn cloned_probe(argv: Seq<Seq<char>>, env: Seq<(Seq<char>, Seq<char>)>, rs: Seq<ReplyV>) -> TriedV {
    tried_once(
        rs, clone_asks(argv, env),
        match tool_error(rs[0]) {
            None => TriedV::Yes,
            Some(why) => TriedV::NotYet(why),
        },
    )
}

pub fn probe_cloned(argv: &Vec<String>, env: &Vec<(String, String)>, rs: &Vec<Reply>) -> (t: Tried)
    ensures
        t@ == cloned_probe(texts(argv@), pairs(env@), seen(rs@)),
{
    if rs.len() == 0 {
        return Tried::Ask(clone_ask(argv, env));
    }
    match tool_failed(&rs[0]) {
        None => Tried::Yes,
        Some(why) => Tried::NotYet(why),
    }
}

/// Only `Permission denied` is a refusal: whatever else goes wrong is neither that nor an
/// acceptance.
pub open spec fn denied_probe(argv: Seq<Seq<char>>, env: Seq<(Seq<char>, Seq<char>)>, rs: Seq<ReplyV>) -> TriedV {
    tried_once(
        rs, clone_asks(argv, env),
        match tool_error(rs[0]) {
            None => TriedV::Still,
            Some(why) => if holds(why, "Permission denied"@) { TriedV::Yes } else { TriedV::Still },
        },
    )
}

pub fn probe_denied(argv: &Vec<String>, env: &Vec<(String, String)>, rs: &Vec<Reply>) -> (t: Tried)
    ensures
        t@ == denied_probe(texts(argv@), pairs(env@), seen(rs@)),
{
    if rs.len() == 0 {
        return Tried::Ask(clone_ask(argv, env));
    }
    match tool_failed(&rs[0]) {
        None => Tried::Still,
        Some(why) => {
            if contains(why.as_str(), "Permission denied") { Tried::Yes } else { Tried::Still }
        },
    }
}

/// The tip of the base branch, in an answer of the refs.
pub open spec fn base_tip(r: ReplyV) -> Result<Seq<char>, Seq<char>> {
    match doc_of(r) {
        Err(why) => Err(within("could not read the refs"@, why)),
        Ok(d) => match oid_in(d, BASE_BRANCH@) {
            Some(oid) => Ok(oid),
            None => Err("`"@ + BASE_BRANCH@ + "` has no tip"@),
        },
    }
}

fn base_tip_of(r: &Reply) -> (o: Result<String, String>)
    ensures
        (match o { Ok(t) => Ok(t@), Err(e) => Err(e@) }) == base_tip(r@),
{
    match doc(r) {
        Err(why) => Err(inside("could not read the refs", why.as_str())),
        Ok(d) => match oid_of(&d, BASE_BRANCH) {
            Some(oid) => Ok(oid),
            None => Err(cat3("`", BASE_BRANCH, "` has no tip")),
        },
    }
}

/// What a blob's answer comes to, where the file `path` at `head` is to hold `text`.
pub open spec fn blob_tried(path: Seq<char>, head: Seq<char>, text: Seq<char>, r: ReplyV) -> TriedV {
    match doc_of(r) {
        Err(why) => TriedV::NotYet(within("`"@ + path + "` is not on `"@ + BASE_BRANCH@ + "` at "@ + head, why)),
        Ok(d) => match text_of(d, "bytes_base64"@) {
            None => TriedV::NotYet("the blob answer carried no bytes"@),
            Some(b64) => match base64_bytes(b64) {
                None => TriedV::NotYet(within("the blob is not base64"@, (match base64_error(b64) { Some(e) => e, None => seq![] }))),
                Some(bytes) => if lossy_text(bytes) == text {
                    TriedV::Yes
                } else {
                    TriedV::NotYet(
                        "`"@ + path + "` on `"@ + BASE_BRANCH@ + "` holds "@ + debug_text(lossy_text(bytes)) + ", not "@ + debug_text(text),
                    )
                },
            },
        },
    }
}

fn try_blob(path: &str, head: &str, text: &str, r: &Reply) -> (t: Tried)
    ensures
        t@ == blob_tried(path@, head@, text@, r@),
{
    match doc(r) {
        Err(why) => Tried::NotYet(inside(cat6("`", path, "` is not on `", BASE_BRANCH, "` at ", head).as_str(), why.as_str())),
        Ok(d) => match d.text_at("bytes_base64") {
            None => Tried::NotYet("the blob answer carried no bytes".to_owned()),
            Some(b64) => match decode64(b64.as_str()) {
                None => {
                    let e = match why_no_base64(b64.as_str()) {
                        Some(e) => e,
                        None => String::new(),
                    };
                    Tried::NotYet(inside("the blob is not base64", e.as_str()))
                },
                Some(bytes) => {
                    let got = lossy(&bytes);
                    if same(got.as_str(), text) {
                        Tried::Yes
                    } else {
                        Tried::NotYet(cat8(
                            "`", path, "` on `", BASE_BRANCH, "` holds ", debug(got.as_str()).as_str(), ", not ", debug(text).as_str(),
                        ))
                    }
                },
            },
        },
    }
}

/// The file `path` as the base branch now has it: the branch's tip, and the blob there.
pub open spec fn landed_probe(
    refs: Seq<char>,
    blobs: Seq<char>,
    token: Seq<char>,
    path: Seq<char>,
    text: Seq<char>,
    rs: Seq<ReplyV>,
) -> TriedV {
    if rs.len() == 0 {
        TriedV::Ask(getting(refs, token))
    } else {
        match base_tip(rs[0]) {
            Err(why) => TriedV::NotYet(why),
            Ok(head) => if rs.len() == 1 {
                TriedV::Ask(getting(blobs + "/"@ + head + "/"@ + path, token))
            } else {
                blob_tried(path, head, text, rs[1])
            },
        }
    }
}

pub fn probe_landed(refs: &str, blobs: &str, token: &str, path: &str, text: &str, rs: &Vec<Reply>) -> (t: Tried)
    ensures
        t@ == landed_probe(refs@, blobs@, token@, path@, text@, seen(rs@)),
{
    if rs.len() == 0 {
        return Tried::Ask(get(refs.to_owned(), token));
    }
    match base_tip_of(&rs[0]) {
        Err(why) => Tried::NotYet(why),
        Ok(head) => {
            if rs.len() == 1 {
                Tried::Ask(get(cat5(blobs, "/", head.as_str(), "/", path), token))
            } else {
                try_blob(path, head.as_str(), text, &rs[1])
            }
        },
    }
}

/// A stateful set with a ready replica.
pub open spec fn replica_tried(r: ReplyV) -> TriedV {
    match object_of(r) {
        Err(why) => TriedV::NotYet(why),
        Ok(d) => match doc_i64(member2(d, "status"@, "readyReplicas"@)) {
            Some(n) => if n >= 1 { TriedV::Yes } else { TriedV::NotYet("no replica is ready"@) },
            None => TriedV::NotYet("no replica is ready"@),
        },
    }
}

pub fn try_replica(r: &Reply) -> (t: Tried)
    ensures
        t@ == replica_tried(r@),
{
    match object(r) {
        Err(why) => Tried::NotYet(why),
        Ok(d) => match i64_of(d.get2("status", "readyReplicas")) {
            Some(n) => {
                if n >= 1 { Tried::Yes } else { Tried::NotYet("no replica is ready".to_owned()) }
            },
            None => Tried::NotYet("no replica is ready".to_owned()),
        },
    }
}

/// The script that asks the redis service of its own namespace.
pub const PING: &'static str = "getent hosts redis >/dev/null && redis-cli -h redis ping";

/// A redis service that resolves inside its own namespace and answers there.
pub open spec fn pong_probe(ns: Seq<char>, rs: Seq<ReplyV>) -> TriedV {
    tried_once(
        rs, AskV::PodExec { ns, pod: "redis-0"@, container: ""@, argv: seq!["sh"@, "-c"@, PING@], bound_ms: 20_000 },
        match ran_of(rs[0]) {
            Err(why) => TriedV::NotYet(why),
            Ok((code, out, err)) => if code == 0 && same_letters(trimmed(out), "pong"@) {
                TriedV::Yes
            } else {
                TriedV::NotYet("exit "@ + dec_int(code as int) + ": "@ + trimmed(err))
            },
        },
    )
}

pub fn probe_pong(ns: &str, rs: &Vec<Reply>) -> (t: Tried)
    ensures
        t@ == pong_probe(ns@, seen(rs@)),
{
    if rs.len() == 0 {
        return Tried::Ask(Ask::PodExec {
            ns: ns.to_owned(),
            pod: "redis-0".to_owned(),
            container: "".to_owned(),
            argv: list3("sh", "-c", PING),
            bound_ms: 20_000,
        });
    }
    match ran(&rs[0]) {
        Err(why) => Tried::NotYet(why),
        Ok((code, out, err)) => {
            if code == 0 && eq_ignore_ascii_case(trim(out.as_str()).as_str(), "pong") {
                Tried::Yes
            } else {
                Tried::NotYet(cat4("exit ", decimal_int(code).as_str(), ": ", trim(err.as_str()).as_str()))
            }
        },
    }
}

/// Whether a network policy is there. A namespace that cannot be read is no answer: an error read
/// as "it is gone" would pass through a cluster that stopped answering.
pub open spec fn policy_tried(ns: Seq<char>, name: Seq<char>, want: bool, r: ReplyV) -> TriedV {
    match raw_of(r) {
        Err(why) => TriedV::Broken("could not read "@ + ns + "/"@ + name + ": "@ + why),
        Ok((status, text)) => if is_success(status) || status == 404 {
            if is_success(status) == want { TriedV::Yes } else { TriedV::Still }
        } else {
            TriedV::Broken("could not read "@ + ns + "/"@ + name + ": "@ + text)
        },
    }
}

pub fn try_policy(ns: &str, name: &str, want: bool, r: &Reply) -> (t: Tried)
    ensures
        t@ == policy_tried(ns@, name@, want, r@),
{
    match raw(r) {
        Err(why) => Tried::Broken(cat6("could not read ", ns, "/", name, ": ", why.as_str())),
        Ok((status, text)) => {
            if success(status) || status == 404 {
                if success(status) == want { Tried::Yes } else { Tried::Still }
            } else {
                Tried::Broken(cat6("could not read ", ns, "/", name, ": ", text.as_str()))
            }
        },
    }
}

} // verus!
