//! The trees a subagent works in: cut of a workspace, fenced from it, not carried with its push, and
//! collected when it is closed. All but one of the looks go through the workspace's own tool server,
//! as a session would make them.

use vstd::prelude::*;

use crate::json::{Doc, Json, arr0, array_of, docs, int_doc, lemma_docs, member, obj1, obj2, obj3, obj4, rows_of, text_of, truth, txt};
use crate::outside::{debug, debug_text, json_error, json_of, parse, parse_error};
use crate::probes::EXEC_MS;
use crate::reply::{call_failed, failed, id_in, id_of, lost, lost_in, lost_of, lost_within, made, made_of, ran, ran_of, ready_in, ready_of};
use crate::run::{Run, RunV, api, api_at, name, named};
use crate::stages::ws::{CACHE_MS, HOME_DIR, QUOTA_GB, READY_MS, tool_answer, tool_answered, tool_script, ws_tool};
use crate::text::{
    cat2, cat3, cat4, cat6, contains, dec, dec_int, decimal, decimal_int, halves, holds, join, joined, lines, lines_of,
    parse_up_to, same, same_texts, sort, sorted, split_once, texts, trim, trimmed, unsigned_error, unsigned_of, why_unsigned,
    words, words_of,
};
use crate::turn::{Move, MoveV, Outcome, OutcomeV, outcomes, passed_with, reports, reports_exactly, skip, step};
use crate::wait::{Wait, WaitV};
use crate::want::{Want, WantV};
use crate::wire::{
    Ask, AskV, Log, LogV, Next, NextV, Reply, ReplyV, also, deleting, end, erase, err_of, exec, inside, link, opt, post, posting,
    within,
};

verus! {

/// A create and the server's start, and the cut.
pub const CUT_MS: u64 = 60_000;

/// Two writes and two reads through a server that is already up.
pub const QUICK_MS: u64 = 30_000;

/// A push, a snapshot, a restore and a wait.
pub const TRAVEL_MS: u64 = 290_000;

/// A delete and one pass of the agent, and then the workspace's own delete with a tree on it.
pub const CLOSED_MS: u64 = 120_000;

/// How long the agent is given to cut or to collect a tree.
pub const PASS_MS: u64 = 30_000;

/// How long the tool server is given to come up.
pub const SERVER_MS: u64 = 120_000;

/// The tree every step works in.
pub const TREE: &'static str = "probe";

/// The tree a workspace is deleted with.
pub const LEFTOVER: &'static str = "leftover";

/// A file of the tree, as the workspace would reach for it.
pub const FENCED: &'static str = "../.agents/probe/x";

/// What holds a port: a listener whose shell simply waits.
pub const HOLDER: &'static str = "ttyd -p 20001 -i 127.0.0.1 sleep 600";

/// How a clash on the held port is told.
pub const IN_USE: &'static str = "port 20001 in use";

/// The ids, in the order they are skipped in.
pub const IDS: [&'static str; 5] = ["ws.tree.cut", "ws.tree.isolated", "ws.tree.no_travel", "ws.tree.ports", "ws.tree.closed"];

/// Why a tool did not answer 200.
pub open spec fn tool_refusal(before: Seq<char>, r: ReplyV) -> Option<Seq<char>> {
    match tool_answer(r) {
        Err(why) => Some(why),
        Ok((status, body)) => if status == 200 { None } else { Some(before + dec(status as nat) + ": "@ + trimmed(body)) },
    }
}

fn tool_refused(before: &str, r: &Reply) -> (o: Option<String>)
    ensures
        opt(o) == tool_refusal(before@, r@),
{
    match tool_answered(r) {
        Err(why) => Some(why),
        Ok((status, body)) => {
            if status == 200 {
                None
            } else {
                Some(cat4(before, decimal(status as u64).as_str(), ": ", trim(body.as_str()).as_str()))
            }
        },
    }
}

/// The parse error of a text that is no JSON; nothing of one that is.
pub open spec fn json_error_of(text: Seq<char>) -> Seq<char> {
    match json_error(text) {
        Some(e) => e,
        None => seq![],
    }
}

fn parse_error_of(text: &str) -> (r: String)
    ensures
        r@ == json_error_of(text@),
{
    match parse_error(text) {
        Some(e) => e,
        None => String::new(),
    }
}

/// A text field of a tool's answer; the answer itself is in the error.
pub open spec fn answer_field(body: Seq<char>, key: Seq<char>) -> Result<Seq<char>, Seq<char>> {
    match json_of(body) {
        None => Err(within("the tool answered "@ + debug_text(body), json_error_of(body))),
        Some(d) => match text_of(d, key) {
            Some(t) => Ok(t),
            None => Err("no `"@ + key + "` in "@ + body),
        },
    }
}

pub fn field(body: &str, key: &str) -> (r: Result<String, String>)
    ensures
        (match r { Ok(t) => Ok(t@), Err(e) => Err(e@) }) == answer_field(body@, key@),
{
    match parse(body) {
        None => Err(inside(cat2("the tool answered ", debug(body).as_str()).as_str(), parse_error_of(body).as_str())),
        Some(d) => match d.text_at(key) {
            Some(t) => Ok(t),
            None => Err(cat4("no `", key, "` in ", body)),
        },
    }
}

/// The texts of a list, whatever else is in it.
pub open spec fn strings_in(rows: Seq<Doc>) -> Seq<Seq<char>>
    decreases rows.len(),
{
    if rows.len() == 0 {
        seq![]
    } else {
        match rows.last() {
            Doc::Str(t) => strings_in(rows.drop_last()).push(t),
            _ => strings_in(rows.drop_last()),
        }
    }
}

fn strings_of(rows: &Vec<Json>) -> (r: Vec<String>)
    ensures
        texts(r@) == strings_in(docs(rows@)),
{
    let mut r: Vec<String> = Vec::new();
    let mut i: usize = 0;
    let ghost all = docs(rows@);
    proof {
        lemma_docs(rows@);
        assert(all.take(0) =~= Seq::<Doc>::empty());
        assert(texts(r@) =~= Seq::<Seq<char>>::empty());
    }
    while i < rows.len()
        invariant
            i <= rows@.len(),
            all == docs(rows@),
            all.len() == rows@.len(),
            forall|k: int| 0 <= k < rows@.len() ==> all[k] == (#[trigger] rows@[k])@,
            texts(r@) == strings_in(all.take(i as int)),
        decreases rows.len() - i,
    {
        let ghost before = r@;
        proof {
            assert(all.take(i + 1).drop_last() =~= all.take(i as int));
            assert(all.take(i + 1).last() == rows@[i as int]@);
        }
        match &rows[i] {
            Json::Str(t) => {
                r.push(t.clone());
                proof {
                    assert(texts(r@) =~= texts(before).push(t@));
                }
            },
            _ => {},
        }
        i = i + 1;
    }
    proof {
        assert(all.take(all.len() as int) =~= all);
    }
    r
}

/// Everything a glob found, in order.
pub open spec fn listed(r: ReplyV) -> Result<Seq<Seq<char>>, Seq<char>> {
    match tool_answer(r) {
        Err(why) => Err(why),
        Ok((status, body)) => if status != 200 {
            Err("glob answered "@ + dec(status as nat) + ": "@ + trimmed(body))
        } else {
            match json_of(body) {
                None => Err(json_error_of(body)),
                Some(d) => Ok(sorted(strings_in(rows_of(member(d, "paths"@))))),
            }
        },
    }
}

fn list(r: &Reply) -> (o: Result<Vec<String>, String>)
    ensures
        (match o { Ok(v) => Ok(texts(v@)), Err(e) => Err(e@) }) == listed(r@),
{
    match tool_answered(r) {
        Err(why) => Err(why),
        Ok((status, body)) => {
            if status != 200 {
                return Err(cat4("glob answered ", decimal(status as u64).as_str(), ": ", trim(body.as_str()).as_str()));
            }
            match parse(body.as_str()) {
                None => Err(parse_error_of(body.as_str())),
                Some(d) => match array_of(d.get("paths")) {
                    Some(rows) => Ok(sort(&strings_of(rows))),
                    None => {
                        let none: Vec<String> = Vec::new();
                        proof {
                            assert(texts(none@) =~= Seq::<Seq<char>>::empty());
                        }
                        Ok(sort(&none))
                    },
                },
            }
        },
    }
}

/// Each text as it is told.
pub open spec fn each_told(v: Seq<Seq<char>>) -> Seq<Seq<char>> {
    Seq::new(v.len(), |i: int| debug_text(v[i]))
}

/// A list of texts as it is told.
pub open spec fn list_told(v: Seq<Seq<char>>) -> Seq<char> {
    "["@ + joined(each_told(v), ", "@) + "]"@
}

pub fn list_words(v: &Vec<String>) -> (r: String)
    ensures
        r@ == list_told(texts(v@)),
{
    let mut each: Vec<String> = Vec::new();
    let mut i: usize = 0;
    while i < v.len()
        invariant
            i <= v@.len(),
            each@.len() == i,
            forall|k: int| 0 <= k < i ==> (#[trigger] each@[k])@ == debug_text(v@[k]@),
        decreases v.len() - i,
    {
        each.push(debug(v[i].as_str()));
        i = i + 1;
    }
    proof {
        assert(texts(each@) =~= each_told(texts(v@)));
    }
    cat3("[", join(&each, ", ").as_str(), "]")
}

/// Why a tree is not its workspace's snapshot: a listing of each is compared, since neither is empty.
pub open spec fn differs(main: ReplyV, tree: ReplyV) -> Option<Seq<char>> {
    match listed(tree) {
        Err(why) => Some(why),
        Ok(t) => match listed(main) {
            Err(why) => Some(why),
            Ok(m) => if t == m { None } else { Some("the tree listed "@ + list_told(t) + ", the workspace "@ + list_told(m)) },
        },
    }
}

fn different(main: &Reply, tree: &Reply) -> (o: Option<String>)
    ensures
        opt(o) == differs(main@, tree@),
{
    match list(tree) {
        Err(why) => Some(why),
        Ok(t) => match list(main) {
            Err(why) => Some(why),
            Ok(m) => {
                if same_texts(&t, &m) {
                    None
                } else {
                    Some(cat4("the tree listed ", list_words(&t).as_str(), ", the workspace ", list_words(&m).as_str()))
                }
            },
        },
    }
}

/// Why a listing could not be had.
pub open spec fn unlisted(r: ReplyV) -> Option<Seq<char>> {
    match listed(r) {
        Err(why) => Some(why),
        Ok(_) => None,
    }
}

fn not_listed(r: &Reply) -> (o: Option<String>)
    ensures
        opt(o) == unlisted(r@),
{
    match list(r) {
        Err(why) => Some(why),
        Ok(_) => None,
    }
}

/// Why a read across the fence was not turned down by name: a 403 that holds the path, never a bare
/// denial, and never a 404 that reads as a file to be made.
pub open spec fn unfenced(r: ReplyV) -> Option<Seq<char>> {
    match tool_answer(r) {
        Err(why) => Some(why),
        Ok((status, body)) => if status != 403 || !holds(body, FENCED@) {
            Some("main read under .agents answered "@ + dec(status as nat) + ": "@ + trimmed(body))
        } else {
            None
        },
    }
}

fn not_fenced(r: &Reply) -> (o: Option<String>)
    ensures
        opt(o) == unfenced(r@),
{
    match tool_answered(r) {
        Err(why) => Some(why),
        Ok((status, body)) => {
            if status != 403 || !contains(body.as_str(), FENCED) {
                Some(cat4(
                    "main read under .agents answered ", decimal(status as u64).as_str(), ": ", trim(body.as_str()).as_str(),
                ))
            } else {
                None
            }
        },
    }
}

/// Why a file could be read where it must not be.
pub open spec fn readable(before: Seq<char>, r: ReplyV) -> Option<Seq<char>> {
    match tool_answer(r) {
        Err(why) => Some(why),
        Ok((status, body)) => if status == 200 { Some(before + trimmed(body)) } else { None },
    }
}

fn can_read(before: &str, r: &Reply) -> (o: Option<String>)
    ensures
        opt(o) == readable(before@, r@),
{
    match tool_answered(r) {
        Err(why) => Some(why),
        Ok((status, body)) => {
            if status == 200 { Some(cat2(before, trim(body.as_str()).as_str())) } else { None }
        },
    }
}

/// A port, or why it is none.
pub open spec fn port_of(t: Seq<char>) -> Result<u16, Seq<char>> {
    match unsigned_of(t, 65_535) {
        Some(n) => Ok(n as u16),
        None => Err(unsigned_error(t)),
    }
}

fn port(t: &str) -> (r: Result<u16, String>)
    ensures
        (match r { Ok(n) => Ok(n), Err(e) => Err(e@) }) == port_of(t@),
{
    match parse_up_to(t, 65_535) {
        Some(n) => Ok(n as u16),
        None => Err(why_unsigned(t)),
    }
}

/// Why what a tree's exec printed is no block of ports of its own: the port is to be inside the range,
/// and the range above the fleet's.
pub open spec fn block_wrong(out: Seq<char>) -> Option<Seq<char>> {
    let words = words_of(out);
    if words.len() < 2 {
        Some("the tree's exec printed no port block: "@ + debug_text(out))
    } else {
        match port_of(words[0]) {
            Err(why) => Some(within("PORT was "@ + debug_text(words[0]), why)),
            Ok(p) => match halves(words[1], '-') {
                None => Some("KL_PORT_RANGE was "@ + debug_text(words[1])),
                Some((lo, hi)) => match port_of(lo) {
                    Err(why) => Some(why),
                    Ok(l) => match port_of(hi) {
                        Err(why) => Some(why),
                        Ok(h) => if p < l || h < p || l < 20_000 {
                            Some(
                                "PORT "@ + dec(p as nat) + " is not inside the tree's block "@ + dec(l as nat) + "-"@ + dec(h as nat),
                            )
                        } else {
                            None
                        },
                    },
                },
            },
        }
    }
}

pub fn wrong_block(out: &str) -> (o: Option<String>)
    ensures
        opt(o) == block_wrong(out@),
{
    let all = words(out);
    proof {
        assert(texts(all@).len() == all@.len());
        assert(forall|k: int| 0 <= k < all@.len() ==> texts(all@)[k] == (#[trigger] all@[k])@);
    }
    if all.len() < 2 {
        return Some(cat2("the tree's exec printed no port block: ", debug(out).as_str()));
    }
    let p: u16 = match port(all[0].as_str()) {
        Err(why) => {
            return Some(inside(cat2("PORT was ", debug(all[0].as_str()).as_str()).as_str(), why.as_str()));
        },
        Ok(p) => p,
    };
    match split_once(all[1].as_str(), '-') {
        None => Some(cat2("KL_PORT_RANGE was ", debug(all[1].as_str()).as_str())),
        Some((lo, hi)) => match port(lo.as_str()) {
            Err(why) => Some(why),
            Ok(l) => match port(hi.as_str()) {
                Err(why) => Some(why),
                Ok(h) => {
                    if p < l || h < p || l < 20_000 {
                        Some(cat6(
                            "PORT ", decimal(p as u64).as_str(), " is not inside the tree's block ", decimal(l as u64).as_str(), "-",
                            decimal(h as u64).as_str(),
                        ))
                    } else {
                        None
                    }
                },
            },
        },
    }
}

/// Why the tree's exec did not print a block of its own.
pub open spec fn unblocked(r: ReplyV) -> Option<Seq<char>> {
    match tool_answer(r) {
        Err(why) => Some(why),
        Ok((status, body)) => if status != 200 {
            Some("the exec answered "@ + dec(status as nat) + ": "@ + trimmed(body))
        } else {
            match answer_field(body, "stdout"@) {
                Err(why) => Some(why),
                Ok(out) => block_wrong(out),
            }
        },
    }
}

fn not_blocked(r: &Reply) -> (o: Option<String>)
    ensures
        opt(o) == unblocked(r@),
{
    match tool_answered(r) {
        Err(why) => Some(why),
        Ok((status, body)) => {
            if status != 200 {
                return Some(cat4("the exec answered ", decimal(status as u64).as_str(), ": ", trim(body.as_str()).as_str()));
            }
            match field(body.as_str(), "stdout") {
                Err(why) => Some(why),
                Ok(out) => wrong_block(out.as_str()),
            }
        },
    }
}

/// Why the listener that holds the port could not be started, which is a gap in the probe and not in
/// the fence.
pub open spec fn unheld(r: ReplyV) -> Option<Seq<char>> {
    match tool_answer(r) {
        Err(why) => Some(why),
        Ok((status, _)) => if status == 200 {
            None
        } else {
            Some("could not start the holding listener (is ttyd in the profile?)"@)
        },
    }
}

fn not_held(r: &Reply) -> (o: Option<String>)
    ensures
        opt(o) == unheld(r@),
{
    match tool_answered(r) {
        Err(why) => Some(why),
        Ok((status, _)) => {
            if status == 200 { None } else { Some("could not start the holding listener (is ttyd in the profile?)".to_owned()) }
        },
    }
}

/// The process a detached exec runs as.
pub open spec fn process_of(r: ReplyV) -> Result<Seq<char>, Seq<char>> {
    match tool_answer(r) {
        Err(why) => Err(why),
        Ok((_, body)) => answer_field(body, "id"@),
    }
}

fn process(r: &Reply) -> (o: Result<String, String>)
    ensures
        (match o { Ok(t) => Ok(t@), Err(e) => Err(e@) }) == process_of(r@),
{
    match tool_answered(r) {
        Err(why) => Err(why),
        Ok((_, body)) => field(body.as_str(), "id"),
    }
}

/// Why a listener on a held port was not told so in words.
pub open spec fn unreported(r: ReplyV) -> Option<Seq<char>> {
    match tool_answer(r) {
        Err(why) => Some(why),
        Ok((_, body)) => if holds(body, IN_USE@) {
            None
        } else {
            Some("a clashing listener was not reported as a port conflict: "@ + trimmed(body))
        },
    }
}

fn not_reported(r: &Reply) -> (o: Option<String>)
    ensures
        opt(o) == unreported(r@),
{
    match tool_answered(r) {
        Err(why) => Some(why),
        Ok((_, body)) => {
            if contains(body.as_str(), IN_USE) {
                None
            } else {
                Some(cat2("a clashing listener was not reported as a port conflict: ", trim(body.as_str()).as_str()))
            }
        },
    }
}

/// The lines that hold something, without the space around them.
pub open spec fn filled(lines: Seq<Seq<char>>) -> Seq<Seq<char>>
    decreases lines.len(),
{
    if lines.len() == 0 {
        seq![]
    } else if trimmed(lines.last()).len() == 0 {
        filled(lines.drop_last())
    } else {
        filled(lines.drop_last()).push(trimmed(lines.last()))
    }
}

fn filled_of(all: &Vec<String>, from: usize) -> (r: Vec<String>)
    requires
        from <= all@.len(),
    ensures
        texts(r@) == filled(texts(all@).skip(from as int)),
{
    let ghost lines = texts(all@).skip(from as int);
    let mut r: Vec<String> = Vec::new();
    let mut i: usize = from;
    proof {
        assert(lines.take(0) =~= Seq::<Seq<char>>::empty());
        assert(texts(r@) =~= Seq::<Seq<char>>::empty());
    }
    while i < all.len()
        invariant
            from <= i <= all@.len(),
            lines == texts(all@).skip(from as int),
            texts(r@) == filled(lines.take(i - from)),
        decreases all.len() - i,
    {
        let ghost before = r@;
        proof {
            assert(lines.take(i + 1 - from).drop_last() =~= lines.take(i - from));
            assert(lines.take(i + 1 - from).last() == all@[i as int]@);
        }
        let t = trim(all[i].as_str());
        if !t.as_str().is_empty() {
            r.push(t);
            proof {
                assert(texts(r@) =~= texts(before).push(trimmed(all@[i as int]@)));
            }
        }
        i = i + 1;
    }
    proof {
        assert(lines.take(lines.len() as int) =~= lines);
    }
    r
}

/// Why a tree has travelled: its directory is there and holds something. One that is there and empty is
/// what a send leaves of it, and one that is not there is nothing of it.
pub open spec fn travelled(r: ReplyV) -> Option<Seq<char>> {
    match ran_of(r) {
        Err(why) => Some(why),
        Ok((code, out, err)) => if code != 0 {
            Some("could not look at the restored .agents/probe: exit "@ + dec_int(code as int) + ": "@ + trimmed(err))
        } else {
            let lines = lines_of(out);
            if lines.len() > 0 && trimmed(lines[0]) == "PRESENT"@ && filled(lines.skip(1)).len() > 0 {
                Some("a tree travelled with the push; the copy holds "@ + list_told(filled(lines.skip(1))))
            } else {
                None
            }
        },
    }
}

pub fn has_travelled(r: &Reply) -> (o: Option<String>)
    ensures
        opt(o) == travelled(r@),
{
    match ran(r) {
        Err(why) => Some(why),
        Ok((code, out, err)) => {
            if code != 0 {
                return Some(cat4(
                    "could not look at the restored .agents/probe: exit ", decimal_int(code).as_str(), ": ",
                    trim(err.as_str()).as_str(),
                ));
            }
            let all = lines(out.as_str());
            proof {
                assert(texts(all@).len() == all@.len());
                assert(all@.len() > 0 ==> texts(all@)[0] == all@[0]@);
            }
            if all.len() == 0 || !same(trim(all[0].as_str()).as_str(), "PRESENT") {
                return None;
            }
            let held = filled_of(&all, 1);
            proof {
                assert(texts(held@).len() == held@.len());
            }
            if held.len() == 0 {
                None
            } else {
                Some(cat2("a tree travelled with the push; the copy holds ", list_words(&held).as_str()))
            }
        },
    }
}

/// Why a tree's subvolume is still there, once its row has gone.
pub open spec fn still_on_disk(r: ReplyV) -> Option<Seq<char>> {
    match ran_of(r) {
        Err(why) => Some(why),
        Ok((_, out, _)) => if holds(out, TREE@) {
            Some("the subvolume is still on disk: "@ + debug_text(trimmed(out)))
        } else {
            None
        },
    }
}

fn on_disk(r: &Reply) -> (o: Option<String>)
    ensures
        opt(o) == still_on_disk(r@),
{
    match ran(r) {
        Err(why) => Some(why),
        Ok((_, out, _)) => {
            if contains(out.as_str(), TREE) {
                Some(cat2("the subvolume is still on disk: ", debug(trim(out.as_str()).as_str()).as_str()))
            } else {
                None
            }
        },
    }
}

/// A tree is cut of a fresh workspace: it lists what the workspace lists, and the workspace cannot
/// read into it.
pub open spec fn cut_next(c: RunV, name: Seq<char>, rs: Seq<ReplyV>) -> NextV {
    let id = made("could not create "@ + name, "id"@, "the create answered no workspace id"@, rs[0])->Ok_0;
    link(
        rs, 0,
        posting(
            api_at(c, "/v1/workspaces"@), c.probe_jwt,
            Doc::Obj(seq![
                ("name"@, Doc::Str(name)),
                ("region"@, Doc::Str(c.region)),
                ("quota_gb"@, Doc::Int(QUOTA_GB as int)),
                ("packages"@, Doc::Arr(seq![])),
            ]),
        ),
        err_of(made("could not create "@ + name, "id"@, "the create answered no workspace id"@, rs[0])),
        link(
            rs, 1,
            AskV::Wait(WaitV::Doc {
                url: api_at(c, "/v1/workspaces/"@ + id),
                token: c.probe_jwt,
                want: WantV::Field { key: "state"@, value: "ready"@ },
                cap_ms: READY_MS,
            }),
            lost_in(name + " never became ready"@, rs[1]),
            link(
                rs, 2, AskV::Wait(WaitV::Health { ws: id, cap_ms: SERVER_MS }), lost_of(rs[2]),
                link(
                    rs, 3,
                    posting(
                        api_at(c, "/v1/workspaces/"@ + id) + "/trees"@, c.probe_jwt, Doc::Obj(seq![("name"@, Doc::Str(TREE@))]),
                    ),
                    call_failed("could not ask for tree "@ + TREE@, rs[3]),
                    link(
                        rs, 4,
                        AskV::Wait(WaitV::Doc {
                            url: api_at(c, "/v1/workspaces/"@ + id),
                            token: c.probe_jwt,
                            want: WantV::TreeReady { name: TREE@ },
                            cap_ms: PASS_MS,
                        }),
                        lost_in("tree "@ + TREE@ + " never turned ready"@, rs[4]),
                        link(
                            rs, 5,
                            AskV::Exec {
                                ws: id,
                                script: tool_script("glob"@, Doc::Obj(seq![("pattern"@, Doc::Str("*"@))])),
                                bound_ms: EXEC_MS,
                            },
                            unlisted(rs[5]),
                            link(
                                rs, 6,
                                AskV::Exec {
                                    ws: id,
                                    script: tool_script(
                                        "glob"@,
                                        Doc::Obj(seq![("pattern"@, Doc::Str("*"@)), ("tree"@, Doc::Str(TREE@))]),
                                    ),
                                    bound_ms: EXEC_MS,
                                },
                                differs(rs[5], rs[6]),
                                link(
                                    rs, 7,
                                    AskV::Exec {
                                        ws: id,
                                        script: tool_script("read"@, Doc::Obj(seq![("path"@, Doc::Str(FENCED@))])),
                                        bound_ms: EXEC_MS,
                                    },
                                    unfenced(rs[7]), NextV::Pass,
                                ),
                            ),
                        ),
                    ),
                ),
            ),
        ),
    )
}

fn cut_body(c: &Run, name: &str, log: &Log) -> (n: Next)
    ensures
        n@ == cut_next(c@, name@, log@.rs),
{
    if log.rs.len() <= 0 {
        return Next::Ask(post(
            api(c, "/v1/workspaces"), c.probe_jwt.as_str(),
            obj4("name", txt(name), "region", txt(c.region.as_str()), "quota_gb", int_doc(QUOTA_GB), "packages", arr0()),
        ));
    }
    let id = match made_of(cat2("could not create ", name).as_str(), "id", "the create answered no workspace id", &log.rs[0]) {
        Err(why) => {
            return Next::Fail(why);
        },
        Ok(t) => t,
    };
    if log.rs.len() <= 1 {
        return Next::Ask(Ask::Wait(Wait::Doc {
            url: api(c, cat2("/v1/workspaces/", id.as_str()).as_str()),
            token: c.probe_jwt.clone(),
            want: Want::Field { key: "state".to_owned(), value: "ready".to_owned() },
            cap_ms: READY_MS,
        }));
    }
    if let Some(why) = lost_within(cat2(name, " never became ready").as_str(), &log.rs[1]) {
        return Next::Fail(why);
    }
    if log.rs.len() <= 2 {
        return Next::Ask(Ask::Wait(Wait::Health { ws: id.clone(), cap_ms: SERVER_MS }));
    }
    if let Some(why) = lost(&log.rs[2]) {
        return Next::Fail(why);
    }
    if log.rs.len() <= 3 {
        return Next::Ask(post(
            cat2(api(c, cat2("/v1/workspaces/", id.as_str()).as_str()).as_str(), "/trees"), c.probe_jwt.as_str(),
            obj1("name", txt(TREE)),
        ));
    }
    if let Some(why) = failed(cat2("could not ask for tree ", TREE).as_str(), &log.rs[3]) {
        return Next::Fail(why);
    }
    if log.rs.len() <= 4 {
        return Next::Ask(Ask::Wait(Wait::Doc {
            url: api(c, cat2("/v1/workspaces/", id.as_str()).as_str()),
            token: c.probe_jwt.clone(),
            want: Want::TreeReady { name: TREE.to_owned() },
            cap_ms: PASS_MS,
        }));
    }
    if let Some(why) = lost_within(cat3("tree ", TREE, " never turned ready").as_str(), &log.rs[4]) {
        return Next::Fail(why);
    }
    if log.rs.len() <= 5 {
        return Next::Ask(ws_tool(id.as_str(), "glob", &obj1("pattern", txt("*"))));
    }
    if let Some(why) = not_listed(&log.rs[5]) {
        return Next::Fail(why);
    }
    if log.rs.len() <= 6 {
        return Next::Ask(ws_tool(id.as_str(), "glob", &obj2("pattern", txt("*"), "tree", txt(TREE))));
    }
    if let Some(why) = different(&log.rs[5], &log.rs[6]) {
        return Next::Fail(why);
    }
    if log.rs.len() <= 7 {
        return Next::Ask(ws_tool(id.as_str(), "read", &obj1("path", txt(FENCED))));
    }
    end(not_fenced(&log.rs[7]))
}

/// Neither side sees what the other writes after the cut.
pub open spec fn isolated_next(ws: Seq<char>, rs: Seq<ReplyV>) -> NextV {
    link(
        rs, 0,
        AskV::Exec {
            ws: ws,
            script: tool_script(
                "write"@,
                Doc::Obj(seq![
                    ("path"@, Doc::Str("in-tree.txt"@)),
                    ("content"@, Doc::Str("from the tree"@)),
                    ("tree"@, Doc::Str(TREE@)),
                ]),
            ),
            bound_ms: EXEC_MS,
        },
        tool_refusal("write of "@ + "in-tree.txt"@ + " answered "@, rs[0]),
        link(
            rs, 1,
            AskV::Exec {
                ws: ws,
                script: tool_script(
                    "write"@,
                    Doc::Obj(seq![("path"@, Doc::Str("in-main.txt"@)), ("content"@, Doc::Str("from main"@))]),
                ),
                bound_ms: EXEC_MS,
            },
            tool_refusal("write of "@ + "in-main.txt"@ + " answered "@, rs[1]),
            link(
                rs, 2,
                AskV::Exec {
                    ws: ws,
                    script: tool_script("read"@, Doc::Obj(seq![("path"@, Doc::Str("in-tree.txt"@))])),
                    bound_ms: EXEC_MS,
                },
                readable("main can read the tree's file: "@, rs[2]),
                link(
                    rs, 3,
                    AskV::Exec {
                        ws: ws,
                        script: tool_script(
                            "read"@,
                            Doc::Obj(seq![("path"@, Doc::Str("in-main.txt"@)), ("tree"@, Doc::Str(TREE@))]),
                        ),
                        bound_ms: EXEC_MS,
                    },
                    readable("the tree can read main's file: "@, rs[3]), NextV::Pass,
                ),
            ),
        ),
    )
}

fn isolated_body(ws: &str, log: &Log) -> (n: Next)
    ensures
        n@ == isolated_next(ws@, log@.rs),
{
    if log.rs.len() <= 0 {
        return Next::Ask(ws_tool(
            ws, "write",
            &obj3("path", txt("in-tree.txt"), "content", txt("from the tree"), "tree", txt(TREE)),
        ));
    }
    if let Some(why) = tool_refused(cat3("write of ", "in-tree.txt", " answered ").as_str(), &log.rs[0]) {
        return Next::Fail(why);
    }
    if log.rs.len() <= 1 {
        return Next::Ask(ws_tool(ws, "write", &obj2("path", txt("in-main.txt"), "content", txt("from main"))));
    }
    if let Some(why) = tool_refused(cat3("write of ", "in-main.txt", " answered ").as_str(), &log.rs[1]) {
        return Next::Fail(why);
    }
    if log.rs.len() <= 2 {
        return Next::Ask(ws_tool(ws, "read", &obj1("path", txt("in-tree.txt"))));
    }
    if let Some(why) = can_read("main can read the tree's file: ", &log.rs[2]) {
        return Next::Fail(why);
    }
    if log.rs.len() <= 3 {
        return Next::Ask(ws_tool(ws, "read", &obj2("path", txt("in-main.txt"), "tree", txt(TREE))));
    }
    end(can_read("the tree can read main's file: ", &log.rs[3]))
}

/// A tree has a block of ports of its own, and a listener on a port that is held is told so.
pub open spec fn ports_next(ws: Seq<char>, rs: Seq<ReplyV>) -> NextV {
    let pid = process_of(rs[3])->Ok_0;
    link(
        rs, 0,
        AskV::Exec {
            ws: ws,
            script: tool_script(
                "exec"@,
                Doc::Obj(seq![("cmd"@, Doc::Str("echo $PORT $KL_PORT_RANGE"@)), ("tree"@, Doc::Str(TREE@))]),
            ),
            bound_ms: EXEC_MS,
        },
        unblocked(rs[0]),
        link(
            rs, 1,
            AskV::Exec {
                ws: ws,
                script: tool_script("exec"@, Doc::Obj(seq![("cmd"@, Doc::Str(HOLDER@)), ("detach"@, Doc::Bool(true))])),
                bound_ms: EXEC_MS,
            },
            unheld(rs[1]),
            also(
                rs, 2, AskV::Sleep { ms: 3000 },
                link(
                    rs, 3,
                    AskV::Exec {
                        ws: ws,
                        script: tool_script(
                            "exec"@,
                            Doc::Obj(seq![
                                ("cmd"@, Doc::Str(HOLDER@)),
                                ("detach"@, Doc::Bool(true)),
                                ("tree"@, Doc::Str(TREE@)),
                            ]),
                        ),
                        bound_ms: EXEC_MS,
                    },
                    err_of(process_of(rs[3])),
                    also(
                        rs, 4, AskV::Sleep { ms: 3000 },
                        link(
                            rs, 5,
                            AskV::Exec {
                                ws: ws,
                                script: tool_script(
                                    "process_output"@,
                                    Doc::Obj(seq![("id"@, Doc::Str(pid)), ("tree"@, Doc::Str(TREE@))]),
                                ),
                                bound_ms: EXEC_MS,
                            },
                            unreported(rs[5]), NextV::Pass,
                        ),
                    ),
                ),
            ),
        ),
    )
}

fn ports_body(ws: &str, log: &Log) -> (n: Next)
    ensures
        n@ == ports_next(ws@, log@.rs),
{
    if log.rs.len() <= 0 {
        return Next::Ask(ws_tool(ws, "exec", &obj2("cmd", txt("echo $PORT $KL_PORT_RANGE"), "tree", txt(TREE))));
    }
    if let Some(why) = not_blocked(&log.rs[0]) {
        return Next::Fail(why);
    }
    if log.rs.len() <= 1 {
        return Next::Ask(ws_tool(ws, "exec", &obj2("cmd", txt(HOLDER), "detach", truth(true))));
    }
    if let Some(why) = not_held(&log.rs[1]) {
        return Next::Fail(why);
    }
    if log.rs.len() <= 2 {
        return Next::Ask(Ask::Sleep { ms: 3000 });
    }
    if log.rs.len() <= 3 {
        return Next::Ask(ws_tool(ws, "exec", &obj3("cmd", txt(HOLDER), "detach", truth(true), "tree", txt(TREE))));
    }
    let pid = match process(&log.rs[3]) {
        Err(why) => {
            return Next::Fail(why);
        },
        Ok(t) => t,
    };
    if log.rs.len() <= 4 {
        return Next::Ask(Ask::Sleep { ms: 3000 });
    }
    if log.rs.len() <= 5 {
        return Next::Ask(ws_tool(ws, "process_output", &obj2("id", txt(pid.as_str()), "tree", txt(TREE))));
    }
    end(not_reported(&log.rs[5]))
}

/// A tree does not travel with a push: the restored copy is looked at with a shell, since no tree
/// was ever asked for there.
pub open spec fn no_travel_next(c: RunV, ws: Seq<char>, copy: Seq<char>, rs: Seq<ReplyV>) -> NextV {
    let snap = made("could not push"@, "id"@, "the push answered no snapshot id"@, rs[1])->Ok_0;
    let id = made("could not restore"@, "id"@, "the restore answered no workspace id"@, rs[3])->Ok_0;
    link(
        rs, 0,
        AskV::Exec {
            ws: ws,
            script: tool_script(
                "write"@,
                Doc::Obj(seq![
                    ("path"@, Doc::Str("only-here.txt"@)),
                    ("content"@, Doc::Str("a subagent's work"@)),
                    ("tree"@, Doc::Str(TREE@)),
                ]),
            ),
            bound_ms: EXEC_MS,
        },
        tool_refusal("write of "@ + "only-here.txt"@ + " answered "@, rs[0]),
        link(
            rs, 1,
            posting(
                api_at(c, "/v1/workspaces/"@ + ws) + "/push"@, c.probe_jwt, Doc::Obj(seq![("message"@, Doc::Str("trees"@))]),
            ),
            err_of(made("could not push"@, "id"@, "the push answered no snapshot id"@, rs[1])),
            link(
                rs, 2,
                AskV::Wait(WaitV::Doc {
                    url: api_at(c, "/v1/volumes/"@ + ws + "/history"@),
                    token: c.probe_jwt,
                    want: WantV::RowReady { id: snap },
                    cap_ms: (CACHE_MS / 2) as u64,
                }),
                lost_in("the snapshot never turned ready"@, rs[2]),
                link(
                    rs, 3,
                    posting(
                        api_at(c, "/v1/workspaces/restore"@), c.probe_jwt,
                        Doc::Obj(seq![("name"@, Doc::Str(copy)), ("snapshot_id"@, Doc::Str(snap))]),
                    ),
                    err_of(made("could not restore"@, "id"@, "the restore answered no workspace id"@, rs[3])),
                    link(
                        rs, 4,
                        AskV::Wait(WaitV::Doc {
                            url: api_at(c, "/v1/workspaces/"@ + id),
                            token: c.probe_jwt,
                            want: WantV::Field { key: "state"@, value: "ready"@ },
                            cap_ms: (CACHE_MS / 2) as u64,
                        }),
                        lost_of(rs[4]),
                        link(
                            rs, 5,
                            AskV::Exec {
                                ws: id,
                                script: "d="@ + HOME_DIR@
                                    + "/.agents/probe; if [ -d \"$d\" ]; then echo PRESENT; ls -A \"$d\"; else echo ABSENT; fi"@,
                                bound_ms: EXEC_MS,
                            },
                            travelled(rs[5]), NextV::Pass,
                        ),
                    ),
                ),
            ),
        ),
    )
}

fn no_travel_body(c: &Run, ws: &str, copy: &str, log: &Log) -> (n: Next)
    ensures
        n@ == no_travel_next(c@, ws@, copy@, log@.rs),
{
    if log.rs.len() <= 0 {
        return Next::Ask(ws_tool(
            ws, "write",
            &obj3("path", txt("only-here.txt"), "content", txt("a subagent's work"), "tree", txt(TREE)),
        ));
    }
    if let Some(why) = tool_refused(cat3("write of ", "only-here.txt", " answered ").as_str(), &log.rs[0]) {
        return Next::Fail(why);
    }
    if log.rs.len() <= 1 {
        return Next::Ask(post(
            cat2(api(c, cat2("/v1/workspaces/", ws).as_str()).as_str(), "/push"), c.probe_jwt.as_str(),
            obj1("message", txt("trees")),
        ));
    }
    let snap = match made_of("could not push", "id", "the push answered no snapshot id", &log.rs[1]) {
        Err(why) => {
            return Next::Fail(why);
        },
        Ok(t) => t,
    };
    if log.rs.len() <= 2 {
        return Next::Ask(Ask::Wait(Wait::Doc {
            url: api(c, cat3("/v1/volumes/", ws, "/history").as_str()),
            token: c.probe_jwt.clone(),
            want: Want::RowReady { id: snap.clone() },
            cap_ms: CACHE_MS / 2,
        }));
    }
    if let Some(why) = lost_within("the snapshot never turned ready", &log.rs[2]) {
        return Next::Fail(why);
    }
    if log.rs.len() <= 3 {
        return Next::Ask(post(
            api(c, "/v1/workspaces/restore"), c.probe_jwt.as_str(), obj2("name", txt(copy), "snapshot_id", txt(snap.as_str())),
        ));
    }
    let id = match made_of("could not restore", "id", "the restore answered no workspace id", &log.rs[3]) {
        Err(why) => {
            return Next::Fail(why);
        },
        Ok(t) => t,
    };
    if log.rs.len() <= 4 {
        return Next::Ask(Ask::Wait(Wait::Doc {
            url: api(c, cat2("/v1/workspaces/", id.as_str()).as_str()),
            token: c.probe_jwt.clone(),
            want: Want::Field { key: "state".to_owned(), value: "ready".to_owned() },
            cap_ms: CACHE_MS / 2,
        }));
    }
    if let Some(why) = lost(&log.rs[4]) {
        return Next::Fail(why);
    }
    if log.rs.len() <= 5 {
        return Next::Ask(exec(
            id.as_str(),
            cat3("d=", HOME_DIR, "/.agents/probe; if [ -d \"$d\" ]; then echo PRESENT; ls -A \"$d\"; else echo ABSENT; fi"),
            EXEC_MS,
        ));
    }
    end(has_travelled(&log.rs[5]))
}

/// A tree that is deleted leaves both the status and the disk, and a workspace with a tree on it
/// still deletes: one whose trees are not swept first would never go.
pub open spec fn closed_next(c: RunV, ws: Seq<char>, rs: Seq<ReplyV>) -> NextV {
    link(
        rs, 0,
        deleting(api_at(c, "/v1/workspaces/"@ + ws) + "/trees/"@ + TREE@, c.probe_jwt),
        call_failed("could not delete the tree"@, rs[0]),
        link(
            rs, 1,
            AskV::Wait(WaitV::Doc {
                url: api_at(c, "/v1/workspaces/"@ + ws),
                token: c.probe_jwt,
                want: WantV::TreeGone { name: TREE@ },
                cap_ms: PASS_MS,
            }),
            lost_in("the tree never left status.trees"@, rs[1]),
            link(
                rs, 2,
                AskV::Exec { ws: ws, script: "ls -A "@ + HOME_DIR@ + "/.agents 2>&1 || true"@, bound_ms: EXEC_MS },
                still_on_disk(rs[2]),
                link(
                    rs, 3,
                    posting(
                        api_at(c, "/v1/workspaces/"@ + ws) + "/trees"@, c.probe_jwt,
                        Doc::Obj(seq![("name"@, Doc::Str(LEFTOVER@))]),
                    ),
                    call_failed("could not ask for tree "@ + LEFTOVER@, rs[3]),
                    link(
                        rs, 4,
                        AskV::Wait(WaitV::Doc {
                            url: api_at(c, "/v1/workspaces/"@ + ws),
                            token: c.probe_jwt,
                            want: WantV::TreeReady { name: LEFTOVER@ },
                            cap_ms: PASS_MS,
                        }),
                        lost_in("tree "@ + LEFTOVER@ + " never turned ready"@, rs[4]),
                        link(
                            rs, 5, deleting(api_at(c, "/v1/workspaces/"@ + ws), c.probe_jwt),
                            call_failed("the workspace refused to delete with a live tree"@, rs[5]),
                            link(
                                rs, 6,
                                AskV::Wait(WaitV::Away { url: api_at(c, "/v1/workspaces/"@ + ws), token: c.probe_jwt, cap_ms: PASS_MS }),
                                lost_in("the workspace never went with a live tree on it"@, rs[6]), NextV::Pass,
                            ),
                        ),
                    ),
                ),
            ),
        ),
    )
}

fn closed_body(c: &Run, ws: &str, log: &Log) -> (n: Next)
    ensures
        n@ == closed_next(c@, ws@, log@.rs),
{
    if log.rs.len() <= 0 {
        return Next::Ask(erase(
            cat3(api(c, cat2("/v1/workspaces/", ws).as_str()).as_str(), "/trees/", TREE), c.probe_jwt.as_str(),
        ));
    }
    if let Some(why) = failed("could not delete the tree", &log.rs[0]) {
        return Next::Fail(why);
    }
    if log.rs.len() <= 1 {
        return Next::Ask(Ask::Wait(Wait::Doc {
            url: api(c, cat2("/v1/workspaces/", ws).as_str()),
            token: c.probe_jwt.clone(),
            want: Want::TreeGone { name: TREE.to_owned() },
            cap_ms: PASS_MS,
        }));
    }
    if let Some(why) = lost_within("the tree never left status.trees", &log.rs[1]) {
        return Next::Fail(why);
    }
    if log.rs.len() <= 2 {
        return Next::Ask(exec(ws, cat3("ls -A ", HOME_DIR, "/.agents 2>&1 || true"), EXEC_MS));
    }
    if let Some(why) = on_disk(&log.rs[2]) {
        return Next::Fail(why);
    }
    if log.rs.len() <= 3 {
        return Next::Ask(post(
            cat2(api(c, cat2("/v1/workspaces/", ws).as_str()).as_str(), "/trees"), c.probe_jwt.as_str(),
            obj1("name", txt(LEFTOVER)),
        ));
    }
    if let Some(why) = failed(cat2("could not ask for tree ", LEFTOVER).as_str(), &log.rs[3]) {
        return Next::Fail(why);
    }
    if log.rs.len() <= 4 {
        return Next::Ask(Ask::Wait(Wait::Doc {
            url: api(c, cat2("/v1/workspaces/", ws).as_str()),
            token: c.probe_jwt.clone(),
            want: Want::TreeReady { name: LEFTOVER.to_owned() },
            cap_ms: PASS_MS,
        }));
    }
    if let Some(why) = lost_within(cat3("tree ", LEFTOVER, " never turned ready").as_str(), &log.rs[4]) {
        return Next::Fail(why);
    }
    if log.rs.len() <= 5 {
        return Next::Ask(erase(api(c, cat2("/v1/workspaces/", ws).as_str()), c.probe_jwt.as_str()));
    }
    if let Some(why) = failed("the workspace refused to delete with a live tree", &log.rs[5]) {
        return Next::Fail(why);
    }
    if log.rs.len() <= 6 {
        return Next::Ask(Ask::Wait(Wait::Away {
            url: api(c, cat2("/v1/workspaces/", ws).as_str()),
            token: c.probe_jwt.clone(),
            cap_ms: PASS_MS,
        }));
    }
    end(lost_within("the workspace never went with a live tree on it", &log.rs[6]))
}

// ── the bodies ──────────────────────────────────────────────────────────────

pub enum Body {
    Cut { name: String },
    Isolated { ws: String },
    Ports { ws: String },
    NoTravel { ws: String, copy: String },
    Closed { ws: String },
}

pub enum BodyV {
    Cut { name: Seq<char> },
    Isolated { ws: Seq<char> },
    Ports { ws: Seq<char> },
    NoTravel { ws: Seq<char>, copy: Seq<char> },
    Closed { ws: Seq<char> },
}

impl View for Body {
    type V = BodyV;

    open spec fn view(&self) -> BodyV {
        match self {
            Body::Cut { name } => BodyV::Cut { name: name@ },
            Body::Isolated { ws } => BodyV::Isolated { ws: ws@ },
            Body::Ports { ws } => BodyV::Ports { ws: ws@ },
            Body::NoTravel { ws, copy } => BodyV::NoTravel { ws: ws@, copy: copy@ },
            Body::Closed { ws } => BodyV::Closed { ws: ws@ },
        }
    }
}

/// What a body does next.
pub open spec fn body_next(c: RunV, b: BodyV, log: LogV) -> NextV {
    match b {
        BodyV::Cut { name } => cut_next(c, name, log.rs),
        BodyV::Isolated { ws } => isolated_next(ws, log.rs),
        BodyV::Ports { ws } => ports_next(ws, log.rs),
        BodyV::NoTravel { ws, copy } => no_travel_next(c, ws, copy, log.rs),
        BodyV::Closed { ws } => closed_next(c, ws, log.rs),
    }
}

/// The workspace a body made, as soon as its id is known.
pub open spec fn body_found(b: BodyV, log: LogV) -> Option<Seq<char>> {
    match b {
        BodyV::Cut { .. } => ready_in(log.rs),
        BodyV::NoTravel { .. } => if log.rs.len() > 3 { id_in(log.rs[3]) } else { None },
        _ => None,
    }
}

impl Body {
    pub fn next(&self, c: &Run, log: &Log) -> (n: Next)
        ensures
            n@ == body_next(c@, self@, log@),
    {
        match self {
            Body::Cut { name } => cut_body(c, name.as_str(), log),
            Body::Isolated { ws } => isolated_body(ws.as_str(), log),
            Body::Ports { ws } => ports_body(ws.as_str(), log),
            Body::NoTravel { ws, copy } => no_travel_body(c, ws.as_str(), copy.as_str(), log),
            Body::Closed { ws } => closed_body(c, ws.as_str(), log),
        }
    }

    pub fn found(&self, log: &Log) -> (r: Option<String>)
        ensures
            opt(r) == body_found(self@, log@),
    {
        match self {
            Body::Cut { .. } => ready_of(&log.rs),
            Body::NoTravel { .. } => {
                if log.rs.len() > 3 { id_of(&log.rs[3]) } else { None }
            },
            _ => None,
        }
    }
}

// ── the journey ─────────────────────────────────────────────────────────────

pub open spec fn trees_move(c: RunV, os: Seq<OutcomeV>) -> MoveV<BodyV> {
    if !c.has_kube {
        if os.len() < 5 { MoveV::Skip { id: IDS[os.len() as int]@, why: "no kubeconfig"@ } } else { MoveV::End }
    } else if os.len() == 0 {
        MoveV::Step { id: IDS[0]@, ceiling_ms: CUT_MS, body: BodyV::Cut { name: named(c, "-tree"@) } }
    } else {
        match passed_with(os[0]) {
            None => if os.len() < 5 {
                MoveV::Skip { id: IDS[os.len() as int]@, why: "no workspace with a tree to probe"@ }
            } else {
                MoveV::End
            },
            Some(ws) => if os.len() == 1 {
                MoveV::Step { id: IDS[1]@, ceiling_ms: QUICK_MS, body: BodyV::Isolated { ws } }
            } else if os.len() == 2 {
                MoveV::Step { id: IDS[3]@, ceiling_ms: QUICK_MS, body: BodyV::Ports { ws } }
            } else if os.len() == 3 {
                MoveV::Step { id: IDS[2]@, ceiling_ms: TRAVEL_MS, body: BodyV::NoTravel { ws, copy: named(c, "-tree-r"@) } }
            } else if os.len() == 4 {
                MoveV::Step { id: IDS[4]@, ceiling_ms: CLOSED_MS, body: BodyV::Closed { ws } }
            } else {
                MoveV::End
            },
        }
    }
}

/// The trees of one workspace: each id is reported, though an earlier one failed, and where there is
/// no tree to probe, that is said of each.
pub fn trees(c: &Run, os: &Vec<Outcome>) -> (m: Move<Body>)
    ensures
        m@ == trees_move(c@, outcomes(os@)),
{
    if !c.has_kube {
        if os.len() < 5 { skip(IDS[os.len()], "no kubeconfig") } else { Move::End }
    } else if os.len() == 0 {
        step(IDS[0], CUT_MS, Body::Cut { name: name(c, "-tree") })
    } else {
        match os[0].passed_with() {
            None => {
                if os.len() < 5 {
                skip(IDS[os.len()], "no workspace with a tree to probe")
            } else {
                Move::End
            }
            },
            Some(ws) => {
                if os.len() == 1 {
                step(IDS[1], QUICK_MS, Body::Isolated { ws })
            } else if os.len() == 2 {
                step(IDS[3], QUICK_MS, Body::Ports { ws })
            } else if os.len() == 3 {
                step(IDS[2], TRAVEL_MS, Body::NoTravel { ws, copy: name(c, "-tree-r") })
            } else if os.len() == 4 {
                step(IDS[4], CLOSED_MS, Body::Closed { ws })
            } else {
                Move::End
            }
            },
        }
    }
}

/// Whatever comes back, each of the five ids is reported exactly once.
pub proof fn law_every_id_is_reported_once(c: RunV, os: Seq<OutcomeV>)
    ensures
        !c.has_kube || (os.len() > 0 && passed_with(os[0]) is None) ==> reports_exactly(
            |o: Seq<OutcomeV>| trees_move(c, o), os, seq![IDS[0]@, IDS[1]@, IDS[2]@, IDS[3]@, IDS[4]@], 5,
        ),
        c.has_kube && os.len() > 0 && passed_with(os[0]) is Some ==> reports_exactly(
            |o: Seq<OutcomeV>| trees_move(c, o), os, seq![IDS[0]@, IDS[1]@, IDS[3]@, IDS[2]@, IDS[4]@], 5,
        ),
    decreases os.len(),
{
    reveal_with_fuel(reports, 6);
    if os.len() > 5 {
        law_every_id_is_reported_once(c, os.drop_last());
    }
}

/// A port outside the block, and a block of the fleet's own, are both faults; one inside a block of
/// its own is not.
pub proof fn law_a_port_is_inside_its_own_block(out: Seq<char>)
    requires
        block_wrong(out) is None,
    ensures
        words_of(out).len() >= 2,
        halves(words_of(out)[1], '-') is Some,
        ({
            let p = port_of(words_of(out)[0])->Ok_0;
            let ends = halves(words_of(out)[1], '-')->Some_0;
            20_000 <= port_of(ends.0)->Ok_0 <= p <= port_of(ends.1)->Ok_0
        }),
{
}

/// A copy that holds nothing of the tree, whether its directory is there or not, is no fault; one
/// line of content is.
pub proof fn law_only_content_has_travelled(code: i64, out: Seq<char>, err: Seq<char>)
    requires
        code == 0,
    ensures
        travelled(ReplyV::Ran { code, out, err }) is Some <==> lines_of(out).len() > 0 && trimmed(lines_of(out)[0]) == "PRESENT"@
            && filled(lines_of(out).skip(1)).len() > 0,
{
}

} // verus!
