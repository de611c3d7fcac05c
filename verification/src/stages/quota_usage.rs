//! What a volume occupies is what its owner is charged for, and the only thing that makes that true is the
//! stamp of the node that holds it. So bytes are written, and the stamp is waited for.

use vstd::prelude::*;

use crate::json::{Doc, array_of, doc_u64, find_row, items, member, member2, obj1, row_named, txt, u64_of};
use crate::probes::{Tried, TriedV};
use crate::reply::{doc, doc_of, lost, lost_of};
use crate::run::{Run, RunV, admin, admin_at, api, api_at};
use crate::stages::ws::{WORKSPACE_DIR, tool_answer, tool_answered, tool_script, ws_tool_within};
use crate::text::{
    cat2, cat3, cat4, cat5, contains, dec, decimal, holds, law_a_number_reads_as_it_is_written, parse_up_to, same, trim, trimmed,
    unsigned_of,
};
use crate::turn::{Move, MoveV, Outcome, OutcomeV, found_in, look, outcomes, reports, reports_exactly, skip, step};
use crate::wait::{Wait, WaitV};
use crate::wire::{Ask, AskV, Log, LogV, Next, NextV, Reply, ReplyV, also, end, err_of, get, getting, inside, link, opt, within};

verus! {

pub const ID: &'static str = "vol.usage.stamped";

pub const CEILING_MS: u64 = 150_000;

pub const WRITE_MS: u64 = 45_000;

pub const WRITTEN_MB: u64 = 200;

/// What is written, in bytes: the least the stamp is then held to.
pub const WANT_BYTES: u64 = 209_715_200;

/// How many beats the stamp is given: a beat that came the instant before the write is a wasted one.
pub const BEATS: u64 = 2;

/// A number of seconds in milliseconds, as far as that is a number.
pub open spec fn ms_of(secs: u64) -> u64 {
    if secs > 18_446_744_073_709_551 { u64::MAX } else { (secs * 1_000) as u64 }
}

pub fn to_ms(secs: u64) -> (r: u64)
    ensures
        r == ms_of(secs),
{
    if secs > 18_446_744_073_709_551 { u64::MAX } else { secs * 1_000 }
}

/// The beats the stamp is given, in seconds.
pub open spec fn waited(beat_secs: u64) -> u64 {
    if beat_secs > 9_223_372_036_854_775_807 { u64::MAX } else { (beat_secs * BEATS) as u64 }
}

fn to_wait(beat_secs: u64) -> (r: u64)
    ensures
        r == waited(beat_secs),
{
    if beat_secs > 9_223_372_036_854_775_807 { u64::MAX } else { beat_secs * BEATS }
}

/// What is run to write the bytes: into the tree, which is the one part of the volume a tool's sandbox
/// has, and flushed, since only what is on disk is charged.
pub open spec fn write_text() -> Seq<char> {
    "dd if=/dev/urandom of="@ + WORKSPACE_DIR@ + "/slo-usage.bin bs=1M count="@ + dec(WRITTEN_MB as nat) + " conv=fsync"@
}

pub fn write_command() -> (r: String)
    ensures
        r@ == write_text(),
{
    cat5("dd if=/dev/urandom of=", WORKSPACE_DIR, "/slo-usage.bin bs=1M count=", decimal(WRITTEN_MB).as_str(), " conv=fsync")
}

/// What the listing says a volume occupies. A volume that no node has stamped is no zero.
pub open spec fn used_in(ws: Seq<char>, r: ReplyV) -> Result<Option<u64>, Seq<char>> {
    match doc_of(r) {
        Err(why) => Err(within("could not list the volumes"@, why)),
        Ok(d) => match items(Some(d)) {
            None => Err("the volume listing is not a list"@),
            Some(rows) => match row_named(rows, "name"@, ws) {
                None => Err("the run's own volume "@ + ws + " is not in the listing"@),
                Some(row) => match doc_u64(member(row, "usedBytes"@)) {
                    Some(n) => Ok(Some(n as u64)),
                    None => Ok(None),
                },
            },
        },
    }
}

pub fn used_bytes(ws: &str, r: &Reply) -> (o: Result<Option<u64>, String>)
    ensures
        (match o { Ok(n) => Ok(n), Err(e) => Err(e@) }) == used_in(ws@, r@),
{
    match doc(r) {
        Err(why) => Err(inside("could not list the volumes", why.as_str())),
        Ok(d) => match array_of(Some(&d)) {
            None => Err("the volume listing is not a list".to_owned()),
            Some(rows) => match find_row(rows, "name", ws) {
                None => Err(cat3("the run's own volume ", ws, " is not in the listing")),
                Some(row) => Ok(u64_of(row.get("usedBytes"))),
            },
        },
    }
}

/// What a volume reads, as a failure tells it.
pub open spec fn reads(used: Option<u64>) -> Seq<char> {
    match used {
        Some(n) => dec(n as nat) + " bytes"@,
        None => "no stamp at all"@,
    }
}

/// Whether a stamp has what was written, and has moved past what it was before: one that stood that
/// high already measures nothing.
pub open spec fn has_moved(before: Option<u64>, now: u64) -> bool {
    now >= WANT_BYTES && (before matches Some(n) ==> now > n)
}

/// One look at the stamp.
pub open spec fn usage_tried(ws: Seq<char>, before: Option<u64>, r: ReplyV) -> TriedV {
    match used_in(ws, r) {
        Err(why) => TriedV::Broken(why),
        Ok(Some(n)) => if has_moved(before, n) { TriedV::Yes } else { TriedV::NotYet(reads(Some(n))) },
        Ok(None) => TriedV::NotYet(reads(None)),
    }
}

pub fn try_usage(ws: &str, before: Option<u64>, r: &Reply) -> (t: Tried)
    ensures
        t@ == usage_tried(ws@, before, r@),
{
    match used_bytes(ws, r) {
        Err(why) => Tried::Broken(why),
        Ok(Some(n)) => {
            let moved = match before {
                Some(was) => n > was,
                None => true,
            };
            if n >= WANT_BYTES && moved { Tried::Yes } else { Tried::NotYet(cat2(decimal(n).as_str(), " bytes")) }
        },
        Ok(None) => Tried::NotYet("no stamp at all".to_owned()),
    }
}

/// Why the bytes were not written.
pub open spec fn unwritten(r: ReplyV) -> Option<Seq<char>> {
    match tool_answer(r) {
        Err(why) => Some(why),
        Ok((status, out)) => if status != 200 {
            Some("the tool server answered "@ + dec(status as nat) + ": "@ + trimmed(out))
        } else if !holds(out, "\"exit_code\":0"@) {
            Some("the tool server did not write the file: "@ + trimmed(out))
        } else {
            None
        },
    }
}

pub fn not_written(r: &Reply) -> (o: Option<String>)
    ensures
        opt(o) == unwritten(r@),
{
    match tool_answered(r) {
        Err(why) => Some(why),
        Ok((status, out)) => {
            if status != 200 {
                Some(cat4("the tool server answered ", decimal(status as u64).as_str(), ": ", trim(out.as_str()).as_str()))
            } else if !contains(out.as_str(), "\"exit_code\":0") {
                Some(cat2("the tool server did not write the file: ", trim(out.as_str()).as_str()))
            } else {
                None
            }
        },
    }
}

/// The region's own beat. A region that has none set, or of which nothing can be read, has the one that
/// every region has.
pub open spec fn beat_in(known: u64, r: ReplyV) -> u64 {
    match doc_of(r) {
        Err(_) => known,
        Ok(d) => match doc_u64(member2(d, "spec"@, "syncSecs"@)) {
            Some(n) => n as u64,
            None => known,
        },
    }
}

pub fn sync_secs(known: u64, r: &Reply) -> (n: u64)
    ensures
        n == beat_in(known, r@),
{
    match doc(r) {
        Err(_) => known,
        Ok(d) => match u64_of(d.get2("spec", "syncSecs")) {
            Some(n) => n,
            None => known,
        },
    }
}

/// The settings of the region, to be read or not.
pub open spec fn beat_next(c: RunV, rs: Seq<ReplyV>) -> NextV {
    also(rs, 0, getting(admin_at(c, "/admin/settings/clusters/"@ + c.region), c.admin_jwt), NextV::Pass)
}

fn beat_body(c: &Run, log: &Log) -> (n: Next)
    ensures
        n@ == beat_next(c@, log@.rs),
{
    if log.rs.len() <= 0 {
        return Next::Ask(get(admin(c, cat2("/admin/settings/clusters/", c.region.as_str()).as_str()), c.admin_jwt.as_str()));
    }
    Next::Pass
}

/// What the volume occupies is measured: bytes are written, and the stamp follows within two beats.
pub open spec fn stamp_next(c: RunV, ws: Seq<char>, beat_secs: u64, rs: Seq<ReplyV>) -> NextV {
    let before = used_in(ws, rs[0])->Ok_0;
    link(
        rs, 0, getting(api_at(c, "/v1/volumes"@), c.probe_jwt), err_of(used_in(ws, rs[0])),
        link(
            rs, 1,
            AskV::Exec {
                ws,
                script: tool_script("exec"@, Doc::Obj(seq![("cmd"@, Doc::Str(write_text()))])),
                bound_ms: WRITE_MS,
            },
            unwritten(rs[1]),
            link(
                rs, 2,
                AskV::Wait(WaitV::Usage {
                    url: api_at(c, "/v1/volumes"@),
                    token: c.probe_jwt,
                    ws,
                    before,
                    secs: waited(beat_secs),
                }),
                lost_of(rs[2]), NextV::Pass,
            ),
        ),
    )
}

fn stamp_body(c: &Run, ws: &str, beat_secs: u64, log: &Log) -> (n: Next)
    ensures
        n@ == stamp_next(c@, ws@, beat_secs, log@.rs),
{
    if log.rs.len() <= 0 {
        return Next::Ask(get(api(c, "/v1/volumes"), c.probe_jwt.as_str()));
    }
    let before = match used_bytes(ws, &log.rs[0]) {
        Err(why) => {
            return Next::Fail(why);
        },
        Ok(t) => t,
    };
    if log.rs.len() <= 1 {
        return Next::Ask(ws_tool_within(ws, "exec", &obj1("cmd", txt(write_command().as_str())), WRITE_MS));
    }
    if let Some(why) = not_written(&log.rs[1]) {
        return Next::Fail(why);
    }
    if log.rs.len() <= 2 {
        return Next::Ask(Ask::Wait(Wait::Usage {
            url: api(c, "/v1/volumes"),
            token: c.probe_jwt.clone(),
            ws: ws.to_owned(),
            before,
            secs: to_wait(beat_secs),
        }));
    }
    end(lost(&log.rs[2]))
}

pub enum Body {
    Beat,
    Stamp { ws: String, beat_secs: u64 },
}

pub enum BodyV {
    Beat,
    Stamp { ws: Seq<char>, beat_secs: u64 },
}

impl View for Body {
    type V = BodyV;

    open spec fn view(&self) -> BodyV {
        match self {
            Body::Beat => BodyV::Beat,
            Body::Stamp { ws, beat_secs } => BodyV::Stamp { ws: ws@, beat_secs: *beat_secs },
        }
    }
}

/// What a body does next.
pub open spec fn body_next(c: RunV, b: BodyV, log: LogV) -> NextV {
    match b {
        BodyV::Beat => beat_next(c, log.rs),
        BodyV::Stamp { ws, beat_secs } => stamp_next(c, ws, beat_secs, log.rs),
    }
}

/// What a body has learned: the beat, in seconds.
pub open spec fn body_found(c: RunV, b: BodyV, log: LogV) -> Option<Seq<char>> {
    match b {
        BodyV::Beat => if log.rs.len() > 0 { Some(dec(beat_in(c.sync_secs, log.rs[0]) as nat)) } else { None },
        _ => None,
    }
}

impl Body {
    pub fn next(&self, c: &Run, log: &Log) -> (n: Next)
        ensures
            n@ == body_next(c@, self@, log@),
    {
        match self {
            Body::Beat => beat_body(c, log),
            Body::Stamp { ws, beat_secs } => stamp_body(c, ws.as_str(), *beat_secs, log),
        }
    }

    pub fn found(&self, c: &Run, log: &Log) -> (r: Option<String>)
        ensures
            opt(r) == body_found(c@, self@, log@),
    {
        match self {
            Body::Beat => {
                if log.rs.len() > 0 { Some(decimal(sync_secs(c.sync_secs, &log.rs[0]))) } else { None }
            },
            _ => None,
        }
    }
}

/// The beat a look has found.
pub open spec fn beat_of(c: RunV, o: OutcomeV) -> u64 {
    match found_in(o) {
        Some(t) => match unsigned_of(t, u64::MAX as nat) {
            Some(n) => n as u64,
            None => c.sync_secs,
        },
        None => c.sync_secs,
    }
}

fn found_beat(c: &Run, o: &Outcome) -> (r: u64)
    ensures
        r == beat_of(c@, o@),
{
    match o.found() {
        Some(t) => match parse_up_to(t.as_str(), u64::MAX) {
            Some(n) => n,
            None => c.sync_secs,
        },
        None => c.sync_secs,
    }
}

pub open spec fn stamped_move(c: RunV, ws: Seq<char>, os: Seq<OutcomeV>) -> MoveV<BodyV> {
    if c.suite != "hourly"@ {
        MoveV::End
    } else if !c.has_kube {
        if os.len() == 0 { MoveV::Skip { id: ID@, why: "no kubeconfig"@ } } else { MoveV::End }
    } else if os.len() == 0 {
        MoveV::Look { body: BodyV::Beat }
    } else if os.len() == 1 {
        MoveV::Step { id: ID@, ceiling_ms: CEILING_MS, body: BodyV::Stamp { ws, beat_secs: beat_of(c, os[0]) } }
    } else {
        MoveV::End
    }
}

/// `vol.usage.stamped`, in the hourly suite only. The beat is read before the step, since it is no part
/// of what is measured.
pub fn stamped(c: &Run, ws: &str, os: &Vec<Outcome>) -> (m: Move<Body>)
    ensures
        m@ == stamped_move(c@, ws@, outcomes(os@)),
{
    if !same(c.suite.as_str(), "hourly") {
        return Move::End;
    }
    if !c.has_kube {
        return if os.len() == 0 { skip(ID, "no kubeconfig") } else { Move::End };
    }
    if os.len() == 0 {
        look(Body::Beat)
    } else if os.len() == 1 {
        step(ID, CEILING_MS, Body::Stamp { ws: ws.to_owned(), beat_secs: found_beat(c, &os[0]) })
    } else {
        Move::End
    }
}

/// The hourly suite reports the id exactly once, with a cluster or without; no other suite walks it.
pub proof fn law_only_the_hourly_suite_walks_it(c: RunV, ws: Seq<char>, os: Seq<OutcomeV>)
    ensures
        reports_exactly(
            |o: Seq<OutcomeV>| stamped_move(c, ws, o), os, if c.suite == "hourly"@ { seq![ID@] } else { Seq::<Seq<char>>::empty() }, 2,
        ),
        c.suite != "hourly"@ ==> stamped_move(c, ws, os) is End,
    decreases os.len(),
{
    reveal_with_fuel(reports, 3);
    if os.len() > 0 {
        law_only_the_hourly_suite_walks_it(c, ws, os.drop_last());
    }
}

/// A volume without a stamp never passes, and a stamp only passes once it has what was written and is
/// past what it was before.
pub proof fn law_an_unstamped_volume_is_not_a_zero(ws: Seq<char>, before: Option<u64>, r: ReplyV)
    ensures
        used_in(ws, r) == Ok::<Option<u64>, Seq<char>>(None) ==> !(usage_tried(ws, before, r) is Yes),
        usage_tried(ws, before, r) is Yes ==> (used_in(ws, r)->Ok_0->0) >= WANT_BYTES,
        usage_tried(ws, before, r) is Yes && before is Some ==> (used_in(ws, r)->Ok_0->0) > before->0,
{
}

/// The beat is told and read back as it is.
pub proof fn law_the_beat_is_read_back(c: RunV, n: u64)
    ensures
        beat_of(c, OutcomeV::Passed { found: Some(dec(n as nat)) }) == n,
{
    law_a_number_reads_as_it_is_written(n as nat, u64::MAX as nat);
}

} // verus!
