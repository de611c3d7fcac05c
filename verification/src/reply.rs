//! Reading a reply: what each kind of call makes of it.

use vstd::prelude::*;

use crate::json::{Doc, Json, doc_i64, i64_of, member, text_of};
use crate::outside::{json_of, parse, status_line, status_text};
use crate::text::{
    cat2, cat3, cat4, cat5, clipped, dec, dec_int, decimal, decimal_int, first_chars, holds, lemma_holds_after, stands_at,
    starts,
};
use crate::wire::{Ask, AskV, Log, Next, NextV, Reply, ReplyV, inside, link, opt, seen, within};

verus! {

/// The words for a reply of a kind that was not asked for.
pub const ODD: &'static str = "the reply is of another kind than was asked for";

/// A 2xx status.
pub open spec fn is_success(status: u16) -> bool {
    200 <= status < 300
}

pub fn success(status: u16) -> (r: bool)
    ensures
        r == is_success(status),
{
    200 <= status && status < 300
}

/// The status and the text of an answer, whatever they are.
pub open spec fn raw_of(r: ReplyV) -> Result<(u16, Seq<char>), Seq<char>> {
    match r {
        ReplyV::Answer { status, text } => Ok((status, text)),
        ReplyV::Lost(why) => Err(why),
        _ => Err(ODD@),
    }
}

pub fn raw(r: &Reply) -> (o: Result<(u16, String), String>)
    ensures
        (match o { Ok(p) => Ok((p.0, p.1@)), Err(e) => Err(e@) }) == raw_of(r@),
{
    match r {
        Reply::Answer { status, text } => Ok((*status, text.clone())),
        Reply::Lost(why) => Err(why.clone()),
        _ => Err(ODD.to_owned()),
    }
}

/// How a failed answer is told: its status, and the first `n` characters of its text.
pub open spec fn told(status: u16, text: Seq<char>, n: nat) -> Seq<char> {
    status_line(status) + ": "@ + clipped(text, n)
}

pub fn tell(status: u16, text: &str, n: usize) -> (r: String)
    ensures
        r@ == told(status, text@, n as nat),
        starts(r@, dec(status as nat)),
{
    let line = status_text(status);
    let r = cat3(line.as_str(), ": ", first_chars(text, n).as_str());
    proof {
        let d = dec(status as nat);
        assert(r@.subrange(0, d.len() as int) =~= line@.subrange(0, d.len() as int));
    }
    r
}

/// Whether the words for a refused answer hold the number it was refused with. Other replies have none.
pub open spec fn tells_status(why: Seq<char>, r: ReplyV) -> bool {
    match r {
        ReplyV::Answer { status, .. } => !is_success(status) ==> holds(why, dec(status as nat)),
        _ => true,
    }
}

/// A number that stands in the words stands in them in a context too.
pub proof fn law_a_context_keeps_the_number(context: Seq<char>, why: Seq<char>, r: ReplyV)
    requires
        tells_status(why, r),
    ensures
        tells_status(within(context, why), r),
{
    if let ReplyV::Answer { status, .. } = r {
        if !is_success(status) {
            lemma_holds_after(context + ": "@, why, dec(status as nat));
        }
    }
}

/// The document of a successful answer; a text that is no JSON is the null document. Anything but
/// a 2xx is a failure that carries the status and the start of the text.
pub open spec fn doc_of(r: ReplyV) -> Result<Doc, Seq<char>> {
    match raw_of(r) {
        Err(why) => Err(why),
        Ok((status, text)) => if is_success(status) {
            Ok(match json_of(text) {
                Some(d) => d,
                None => Doc::Null,
            })
        } else {
            Err(told(status, text, 300))
        },
    }
}

pub fn doc(r: &Reply) -> (o: Result<Json, String>)
    ensures
        (match o { Ok(j) => Ok(j@), Err(e) => Err(e@) }) == doc_of(r@),
        o matches Err(e) ==> tells_status(e@, r@),
{
    match raw(r) {
        Err(why) => Err(why),
        Ok((status, text)) => {
            if success(status) {
                match parse(text.as_str()) {
                    Some(j) => Ok(j),
                    None => Ok(Json::Null),
                }
            } else {
                let why = tell(status, text.as_str(), 300);
                proof {
                    assert(stands_at(why@, dec(status as nat), 0));
                }
                Err(why)
            }
        },
    }
}

/// A cluster object that was read; one that is not there is a failure, in the cluster's words.
pub open spec fn object_of(r: ReplyV) -> Result<Doc, Seq<char>> {
    match raw_of(r) {
        Err(why) => Err(why),
        Ok((status, text)) => if is_success(status) {
            Ok(match json_of(text) {
                Some(d) => d,
                None => Doc::Null,
            })
        } else {
            Err(text)
        },
    }
}

pub fn object(r: &Reply) -> (o: Result<Json, String>)
    ensures
        (match o { Ok(j) => Ok(j@), Err(e) => Err(e@) }) == object_of(r@),
{
    match raw(r) {
        Err(why) => Err(why),
        Ok((status, text)) => {
            if success(status) {
                match parse(text.as_str()) {
                    Some(j) => Ok(j),
                    None => Ok(Json::Null),
                }
            } else {
                Err(text)
            }
        },
    }
}

/// Why a cluster object, or a list of them, could not be had, in a context.
pub open spec fn unread(context: Seq<char>, r: ReplyV) -> Option<Seq<char>> {
    match object_of(r) {
        Ok(_) => None,
        Err(why) => Some(within(context, why)),
    }
}

pub fn not_read(context: &str, r: &Reply) -> (o: Option<String>)
    ensures
        opt(o) == unread(context@, r@),
{
    match object(r) {
        Ok(_) => None,
        Err(why) => Some(inside(context, why.as_str())),
    }
}

/// Why a call did not do what it was for, in a context; nothing where it did.
pub open spec fn call_failed(context: Seq<char>, r: ReplyV) -> Option<Seq<char>> {
    match doc_of(r) {
        Ok(_) => None,
        Err(why) => Some(within(context, why)),
    }
}

pub fn failed(context: &str, r: &Reply) -> (o: Option<String>)
    ensures
        opt(o) == call_failed(context@, r@),
        o matches Some(why) ==> tells_status(why@, r@),
{
    match doc(r) {
        Ok(_) => None,
        Err(why) => {
            proof {
                law_a_context_keeps_the_number(context@, why@, r@);
            }
            Some(inside(context, why.as_str()))
        },
    }
}

/// Why a call failed, without a context.
pub open spec fn call_error(r: ReplyV) -> Option<Seq<char>> {
    match doc_of(r) {
        Ok(_) => None,
        Err(why) => Some(why),
    }
}

pub fn error(r: &Reply) -> (o: Option<String>)
    ensures
        opt(o) == call_error(r@),
        o matches Some(why) ==> tells_status(why@, r@),
{
    match doc(r) {
        Ok(_) => None,
        Err(why) => Some(why),
    }
}

/// Why a compensation failed, in a context, once it was answered.
pub fn undo_failed(context: &str, log: &Log) -> (o: Option<String>)
    ensures
        log@.us.len() > 0 ==> opt(o) == call_failed(context@, log@.us[0]),
{
    if log.us.len() > 0 { failed(context, &log.us[0]) } else { None }
}

/// The same, without a context.
pub fn undo_error(log: &Log) -> (o: Option<String>)
    ensures
        log@.us.len() > 0 ==> opt(o) == call_error(log@.us[0]),
{
    if log.us.len() > 0 { error(&log.us[0]) } else { None }
}

/// Why a compensation that is a wait came to nothing, in a context, once it was answered.
pub fn undo_lost(context: &str, log: &Log) -> (o: Option<String>)
    ensures
        log@.us.len() > 0 ==> opt(o) == lost_in(context@, log@.us[0]),
{
    if log.us.len() > 0 { lost_within(context, &log.us[0]) } else { None }
}

/// The text field `key` of a document that was answered. A failed call is told in a context, and a
/// document without the field in the words `missing`.
pub open spec fn made(context: Seq<char>, key: Seq<char>, missing: Seq<char>, r: ReplyV) -> Result<Seq<char>, Seq<char>> {
    match doc_of(r) {
        Err(why) => Err(within(context, why)),
        Ok(d) => match text_of(d, key) {
            Some(t) => Ok(t),
            None => Err(missing),
        },
    }
}

pub fn made_of(context: &str, key: &str, missing: &str, r: &Reply) -> (o: Result<String, String>)
    ensures
        (match o { Ok(t) => Ok(t@), Err(e) => Err(e@) }) == made(context@, key@, missing@, r@),
        o matches Err(why) ==> tells_status(why@, r@),
{
    match doc(r) {
        Err(why) => {
            proof {
                law_a_context_keeps_the_number(context@, why@, r@);
            }
            Err(inside(context, why.as_str()))
        },
        Ok(d) => match d.text_at(key) {
            Some(t) => Ok(t),
            None => Err(missing.to_owned()),
        },
    }
}

/// The same, of a field that has to hold something.
pub open spec fn made_full(context: Seq<char>, key: Seq<char>, missing: Seq<char>, r: ReplyV) -> Result<Seq<char>, Seq<char>> {
    match made(context, key, missing, r) {
        Err(why) => Err(why),
        Ok(t) => if t.len() == 0 { Err(missing) } else { Ok(t) },
    }
}

pub fn made_full_of(context: &str, key: &str, missing: &str, r: &Reply) -> (o: Result<String, String>)
    ensures
        (match o { Ok(t) => Ok(t@), Err(e) => Err(e@) }) == made_full(context@, key@, missing@, r@),
        o matches Err(why) ==> tells_status(why@, r@),
{
    match made_of(context, key, missing, r) {
        Err(why) => Err(why),
        Ok(t) => {
            if t.as_str().is_empty() { Err(missing.to_owned()) } else { Ok(t) }
        },
    }
}

/// The id of a thing that was made, where one was answered.
pub open spec fn id_in(r: ReplyV) -> Option<Seq<char>> {
    match doc_of(r) {
        Err(_) => None,
        Ok(d) => text_of(d, "id"@),
    }
}

pub fn id_of(r: &Reply) -> (o: Option<String>)
    ensures
        opt(o) == id_in(r@),
{
    match doc(r) {
        Err(_) => None,
        Ok(d) => d.text_at("id"),
    }
}

/// The id of a thing that was made and then became ready.
pub open spec fn ready_in(rs: Seq<ReplyV>) -> Option<Seq<char>> {
    if rs.len() > 1 && lost_of(rs[1]) is None { id_in(rs[0]) } else { None }
}

pub fn ready_of(rs: &Vec<Reply>) -> (o: Option<String>)
    ensures
        opt(o) == ready_in(seen(rs@)),
{
    if rs.len() > 1 && lost(&rs[1]).is_none() { id_of(&rs[0]) } else { None }
}

/// The number of a change that was opened.
pub open spec fn numbered(context: Seq<char>, r: ReplyV) -> Result<Seq<char>, Seq<char>> {
    match doc_of(r) {
        Err(why) => Err(within(context, why)),
        Ok(d) => match doc_i64(member(d, "number"@)) {
            Some(n) => Ok(dec_int(n)),
            None => Err("the answer carried no number"@),
        },
    }
}

pub fn numbered_of(context: &str, r: &Reply) -> (o: Result<String, String>)
    ensures
        (match o { Ok(t) => Ok(t@), Err(e) => Err(e@) }) == numbered(context@, r@),
        o matches Err(why) ==> tells_status(why@, r@),
{
    match doc(r) {
        Err(why) => {
            proof {
                law_a_context_keeps_the_number(context@, why@, r@);
            }
            Err(inside(context, why.as_str()))
        },
        Ok(d) => match i64_of(d.get("number")) {
            Some(n) => Ok(decimal_int(n)),
            None => Err("the answer carried no number".to_owned()),
        },
    }
}

pub fn codes1(a: u16) -> (r: Vec<u16>)
    ensures
        r@ == seq![a],
{
    let r = vec![a];
    proof {
        assert(r@ =~= seq![a]);
    }
    r
}

pub fn codes2(a: u16, b: u16) -> (r: Vec<u16>)
    ensures
        r@ == seq![a, b],
{
    let r = vec![a, b];
    proof {
        assert(r@ =~= seq![a, b]);
    }
    r
}

pub fn codes3(a: u16, b: u16, c: u16) -> (r: Vec<u16>)
    ensures
        r@ == seq![a, b, c],
{
    let r = vec![a, b, c];
    proof {
        assert(r@ =~= seq![a, b, c]);
    }
    r
}

pub fn codes4(a: u16, b: u16, c: u16, d: u16) -> (r: Vec<u16>)
    ensures
        r@ == seq![a, b, c, d],
{
    let r = vec![a, b, c, d];
    proof {
        assert(r@ =~= seq![a, b, c, d]);
    }
    r
}

pub fn among(status: u16, allowed: &Vec<u16>) -> (r: bool)
    ensures
        r == allowed@.contains(status),
{
    let mut i: usize = 0;
    while i < allowed.len()
        invariant
            i <= allowed@.len(),
            forall|k: int| 0 <= k < i ==> allowed@[k] != status,
        decreases allowed.len() - i,
    {
        if allowed[i] == status {
            return true;
        }
        i = i + 1;
    }
    false
}

/// Why an answer's status is none of those in `allowed`: told by its number, between `before` and
/// `after`, and with the start of its text.
pub open spec fn unanswered(before: Seq<char>, allowed: Seq<u16>, after: Seq<char>, r: ReplyV) -> Option<Seq<char>> {
    match raw_of(r) {
        Err(why) => Some(why),
        Ok((status, text)) => if allowed.contains(status) {
            None
        } else {
            Some(before + dec(status as nat) + after + clipped(text, 200))
        },
    }
}

pub fn unanswered_by(before: &str, allowed: &Vec<u16>, after: &str, r: &Reply) -> (o: Option<String>)
    ensures
        opt(o) == unanswered(before@, allowed@, after@, r@),
        o matches Some(why) ==> tells_status(why@, r@),
{
    match raw(r) {
        Err(why) => Some(why),
        Ok((status, text)) => {
            if among(status, allowed) {
                None
            } else {
                let why = cat4(before, decimal(status as u64).as_str(), after, first_chars(text.as_str(), 200).as_str());
                proof {
                    let d = dec(status as nat);
                    assert(why@.subrange(before@.len() as int, before@.len() as int + d.len()) =~= d);
                    assert(stands_at(why@, d, before@.len() as int));
                }
                Some(why)
            }
        },
    }
}

/// The same, told without the text.
pub open spec fn unanswered_bare(before: Seq<char>, allowed: Seq<u16>, r: ReplyV) -> Option<Seq<char>> {
    match raw_of(r) {
        Err(why) => Some(why),
        Ok((status, _)) => if allowed.contains(status) { None } else { Some(before + dec(status as nat)) },
    }
}

pub fn unanswered_bare_by(before: &str, allowed: &Vec<u16>, r: &Reply) -> (o: Option<String>)
    ensures
        opt(o) == unanswered_bare(before@, allowed@, r@),
        o matches Some(why) ==> tells_status(why@, r@),
{
    match raw(r) {
        Err(why) => Some(why),
        Ok((status, _)) => {
            if among(status, allowed) {
                None
            } else {
                let why = cat2(before, decimal(status as u64).as_str());
                proof {
                    let d = dec(status as nat);
                    assert(why@.subrange(before@.len() as int, before@.len() as int + d.len()) =~= d);
                    assert(stands_at(why@, d, before@.len() as int));
                }
                Some(why)
            }
        },
    }
}

/// Why the thing asked for could not be had, without a context; any other reply is a success.
pub open spec fn lost_of(r: ReplyV) -> Option<Seq<char>> {
    match r {
        ReplyV::Lost(why) => Some(why),
        _ => None,
    }
}

pub fn lost(r: &Reply) -> (o: Option<String>)
    ensures
        opt(o) == lost_of(r@),
{
    match r {
        Reply::Lost(why) => Some(why.clone()),
        _ => None,
    }
}

/// The same, in a context.
pub open spec fn lost_in(context: Seq<char>, r: ReplyV) -> Option<Seq<char>> {
    match r {
        ReplyV::Lost(why) => Some(within(context, why)),
        _ => None,
    }
}

pub fn lost_within(context: &str, r: &Reply) -> (o: Option<String>)
    ensures
        opt(o) == lost_in(context@, r@),
{
    match r {
        Reply::Lost(why) => Some(inside(context, why.as_str())),
        _ => None,
    }
}

/// What a command did: its exit code, its output and what it complained of.
pub open spec fn ran_of(r: ReplyV) -> Result<(i64, Seq<char>, Seq<char>), Seq<char>> {
    match r {
        ReplyV::Ran { code, out, err } => Ok((code, out, err)),
        ReplyV::Lost(why) => Err(why),
        _ => Err(ODD@),
    }
}

pub fn ran(r: &Reply) -> (o: Result<(i64, String, String), String>)
    ensures
        (match o { Ok(p) => Ok((p.0, p.1@, p.2@)), Err(e) => Err(e@) }) == ran_of(r@),
{
    match r {
        Reply::Ran { code, out, err } => Ok((*code, out.clone(), err.clone())),
        Reply::Lost(why) => Err(why.clone()),
        _ => Err(ODD.to_owned()),
    }
}

/// What a local program printed, or a file holds.
pub open spec fn said_of(r: ReplyV) -> Result<Seq<char>, Seq<char>> {
    match r {
        ReplyV::Said(t) => Ok(t),
        ReplyV::Lost(why) => Err(why),
        _ => Err(ODD@),
    }
}

pub fn said(r: &Reply) -> (o: Result<String, String>)
    ensures
        (match o { Ok(t) => Ok(t@), Err(e) => Err(e@) }) == said_of(r@),
{
    match r {
        Reply::Said(t) => Ok(t.clone()),
        Reply::Lost(why) => Err(why.clone()),
        _ => Err(ODD.to_owned()),
    }
}

/// Why a local program, or a read or write of a file, failed.
pub open spec fn tool_error(r: ReplyV) -> Option<Seq<char>> {
    match said_of(r) {
        Ok(_) => None,
        Err(why) => Some(why),
    }
}

pub fn tool_failed(r: &Reply) -> (o: Option<String>)
    ensures
        opt(o) == tool_error(r@),
{
    match said(r) {
        Ok(_) => None,
        Err(why) => Some(why),
    }
}

/// The same, in a context.
pub open spec fn tool_error_in(context: Seq<char>, r: ReplyV) -> Option<Seq<char>> {
    match said_of(r) {
        Ok(_) => None,
        Err(why) => Some(within(context, why)),
    }
}

pub fn tool_failed_in(context: &str, r: &Reply) -> (o: Option<String>)
    ensures
        opt(o) == tool_error_in(context@, r@),
{
    match said(r) {
        Ok(_) => None,
        Err(why) => Some(inside(context, why.as_str())),
    }
}

/// The same, in a context where there is one.
pub open spec fn step_error(context: Seq<char>, r: ReplyV) -> Option<Seq<char>> {
    if context.len() == 0 { tool_error(r) } else { tool_error_in(context, r) }
}

fn step_failed(context: &str, r: &Reply) -> (o: Option<String>)
    ensures
        opt(o) == step_error(context@, r@),
{
    if context.is_empty() { tool_failed(r) } else { tool_failed_in(context, r) }
}

/// The views of a list of asks, each with the context its failure is told in.
pub open spec fn turns_view(v: Seq<(Ask, String)>) -> Seq<(AskV, Seq<char>)> {
    Seq::new(v.len(), |i: int| (v[i].0@, v[i].1@))
}

/// Local asks one after the other from `k` on, each in its context.
pub open spec fn in_turn(asks: Seq<(AskV, Seq<char>)>, rs: Seq<ReplyV>, k: nat) -> NextV
    decreases asks.len() - k,
{
    if k >= asks.len() {
        NextV::Pass
    } else {
        link(rs, k, asks[k as int].0, step_error(asks[k as int].1, rs[k as int]), in_turn(asks, rs, k + 1))
    }
}

/// What a list of local asks does next; the first `from` replies are not to them. Once it has passed,
/// every ask has had its reply.
pub fn take_turns(asks: Vec<(Ask, String)>, rs: &Vec<Reply>, from: usize) -> (n: Next)
    requires
        from <= rs@.len(),
    ensures
        n@ == in_turn(turns_view(asks@), seen(rs@).skip(from as int), 0),
        n@ is Pass ==> rs@.len() - from >= asks@.len(),
{
    let ghost all = turns_view(asks@);
    let ghost had = seen(rs@).skip(from as int);
    let mut k: usize = 0;
    while k < asks.len()
        invariant
            k <= asks@.len(),
            from <= rs@.len(),
            k <= rs@.len() - from,
            all == turns_view(asks@),
            had == seen(rs@).skip(from as int),
            in_turn(all, had, 0) == in_turn(all, had, k as nat),
        decreases asks.len() - k,
    {
        if rs.len() - from <= k {
            let mut list = asks;
            let (ask, _) = list.remove(k);
            return Next::Ask(ask);
        }
        if let Some(why) = step_failed(asks[k].1.as_str(), &rs[from + k]) {
            return Next::Fail(why);
        }
        k = k + 1;
    }
    Next::Pass
}

/// Calls one after the other from `k` on; the first that fails is told in its context.
pub open spec fn calls_in_turn(asks: Seq<(AskV, Seq<char>)>, rs: Seq<ReplyV>, k: nat) -> NextV
    decreases asks.len() - k,
{
    if k >= asks.len() {
        NextV::Pass
    } else {
        link(rs, k, asks[k as int].0, call_failed(asks[k as int].1, rs[k as int]), calls_in_turn(asks, rs, k + 1))
    }
}

/// What a list of calls does next; the first `from` replies are not to them. Once it has passed,
/// every call has had its reply.
pub fn take_calls(asks: Vec<(Ask, String)>, rs: &Vec<Reply>, from: usize) -> (n: Next)
    requires
        from <= rs@.len(),
    ensures
        n@ == calls_in_turn(turns_view(asks@), seen(rs@).skip(from as int), 0),
        n@ is Pass ==> rs@.len() - from >= asks@.len(),
{
    let ghost all = turns_view(asks@);
    let ghost had = seen(rs@).skip(from as int);
    let mut k: usize = 0;
    while k < asks.len()
        invariant
            k <= asks@.len(),
            from <= rs@.len(),
            k <= rs@.len() - from,
            all == turns_view(asks@),
            had == seen(rs@).skip(from as int),
            calls_in_turn(all, had, 0) == calls_in_turn(all, had, k as nat),
        decreases asks.len() - k,
    {
        if rs.len() - from <= k {
            let mut list = asks;
            let (ask, _) = list.remove(k);
            return Next::Ask(ask);
        }
        if let Some(why) = failed(asks[k].1.as_str(), &rs[from + k]) {
            return Next::Fail(why);
        }
        k = k + 1;
    }
    Next::Pass
}

/// The views of a list of asks.
pub open spec fn asks_view(v: Seq<Ask>) -> Seq<AskV> {
    Seq::new(v.len(), |i: int| v[i]@)
}

/// Asks one after the other, whatever each comes to.
pub open spec fn all_in_turn(asks: Seq<AskV>, rs: Seq<ReplyV>) -> NextV {
    if rs.len() < asks.len() { NextV::Ask(asks[rs.len() as int]) } else { NextV::Pass }
}

pub fn take_all(asks: Vec<Ask>, rs: &Vec<Reply>, from: usize) -> (n: Next)
    requires
        from <= rs@.len(),
    ensures
        n@ == all_in_turn(asks_view(asks@), seen(rs@).skip(from as int)),
{
    let k: usize = rs.len() - from;
    if k < asks.len() {
        let mut list = asks;
        Next::Ask(list.remove(k))
    } else {
        Next::Pass
    }
}

/// Why an answer is none of those in `allowed`: what was asked, the status and the start of the
/// text.
pub open spec fn not_answered(what: Seq<char>, allowed: Seq<u16>, r: ReplyV) -> Option<Seq<char>> {
    match raw_of(r) {
        Err(why) => Some(why),
        Ok((status, body)) => if allowed.contains(status) { None } else { Some(what + " answered "@ + told(status, body, 200)) },
    }
}

pub fn not_answered_by(what: &str, allowed: &Vec<u16>, r: &Reply) -> (o: Option<String>)
    ensures
        opt(o) == not_answered(what@, allowed@, r@),
        o matches Some(why) ==> tells_status(why@, r@),
{
    match raw(r) {
        Err(why) => Some(why),
        Ok((status, body)) => {
            if among(status, allowed) {
                None
            } else {
                let why = tell(status, body.as_str(), 200);
                proof {
                    assert(stands_at(why@, dec(status as nat), 0));
                    lemma_holds_after(what@ + " answered "@, why@, dec(status as nat));
                }
                Some(cat3(what, " answered ", why.as_str()))
            }
        },
    }
}

/// Why a command that ran in a pod did not do, in a context: it could not be run, or `what` exited
/// otherwise than zero.
pub open spec fn exited(what: Seq<char>, r: ReplyV) -> Result<Seq<char>, Seq<char>> {
    match ran_of(r) {
        Err(why) => Err(why),
        Ok((code, out, err)) => if code == 0 {
            Ok(out)
        } else {
            Err(what + " exited "@ + dec_int(code as int) + ": "@ + clipped(err, 200))
        },
    }
}

pub fn exited_of(what: &str, r: &Reply) -> (o: Result<String, String>)
    ensures
        (match o { Ok(t) => Ok(t@), Err(e) => Err(e@) }) == exited(what@, r@),
{
    match ran(r) {
        Err(why) => Err(why),
        Ok((code, out, err)) => {
            if code == 0 {
                Ok(out)
            } else {
                Err(cat5(what, " exited ", decimal_int(code).as_str(), ": ", first_chars(err.as_str(), 200).as_str()))
            }
        },
    }
}

} // verus!
