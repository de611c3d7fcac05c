//! What the platform leans on is taken away, and the work goes on: Redis, and the history.

use vstd::prelude::*;

use crate::json::{
    Doc, Json, arr1, arr2, array_of, doc_i64, docs, i64_of, int_doc, items, lemma_docs, member, obj1, obj2, obj3, text_of, txt,
};
use crate::reply::{
    call_error, call_failed, doc, doc_of, failed, is_success, lost_in, lost_within, raw, raw_of, said, said_of, success,
    tool_error, tool_error_in, tool_failed, tool_failed_in, undo_failed,
};
use crate::run::{Run, RunV, admin, admin_at, api, api_at, below, joined_path, name, named};
use crate::stages::git::{authed, authed_args, git, git_asks, http_remote, http_url, oid_in, oid_of, plain, plainly, work, work_tree};
use crate::stages::monthly::{
    CH_NETPOL, CLICKHOUSE_BODY_MS, FEED_FALLBACK_MS, MERGE_MS, NETPOL, NODE_LEVEL_DRILL, POLICY_NS, REDIS_BODY_MS, REDIS_DOWN_MS,
    step_cap,
};
use crate::text::{
    all_digits, cat2, cat3, cat4, cat5, cat7, chars_of, clipped, dec, dec_int, decimal, decimal_int, digits_value, first_chars,
    join, joined, lines, lines_of, list2, list3, list4, parts, read_digits, same, split, texts, trim, trimmed,
};
use crate::turn::{
    Move, MoveV, Outcome, OutcomeV, failure_or_empty, found_in, look, outcomes, passed, passed_with, reports, reports_exactly,
    skip, step,
};
use crate::wait::{Wait, WaitV};
use crate::want::{Want, WantV};
use crate::wire::{
    Ask, AskV, Cluster, Kind, Log, LogV, Next, NextV, Program, Reply, ReplyV, also, deleting, end, erase, err_of, get, getting,
    inside, link, opt, post, posting, undo_after, undoing, within,
};

verus! {

// ── addresses ───────────────────────────────────────────────────────────────

/// One part of an address: at most three digits, with no zero before another, and at most 255.
pub open spec fn is_octet(t: Seq<char>) -> bool {
    1 <= t.len() <= 3 && all_digits(t) && (t.len() == 1 || t[0] != '0') && digits_value(t) <= 255
}

/// An address of the fourth version, written with dots.
pub open spec fn is_ipv4(t: Seq<char>) -> bool {
    let p = parts(t, '.');
    p.len() == 4 && is_octet(p[0]) && is_octet(p[1]) && is_octet(p[2]) && is_octet(p[3])
}

fn octet(t: &str) -> (r: bool)
    ensures
        r == is_octet(t@),
{
    let v = chars_of(t);
    proof {
        assert(v@.skip(0) =~= v@);
    }
    if v.len() == 0 || v.len() > 3 || (v.len() > 1 && v[0] == '0') {
        return false;
    }
    read_digits(&v, 0, 255).is_some()
}

pub fn ipv4(t: &str) -> (r: bool)
    ensures
        r == is_ipv4(t@),
{
    let p = split(t, '.');
    proof {
        assert(texts(p@).len() == p@.len());
        assert(forall|k: int| 0 <= k < p@.len() ==> texts(p@)[k] == (#[trigger] p@[k])@);
    }
    p.len() == 4 && octet(p[0].as_str()) && octet(p[1].as_str()) && octet(p[2].as_str()) && octet(p[3].as_str())
}

/// The addresses among some lines. What stands between is a chain of names, and a policy made from a name
/// denies nothing.
pub open spec fn addresses(lines: Seq<Seq<char>>) -> Seq<Seq<char>>
    decreases lines.len(),
{
    if lines.len() == 0 {
        seq![]
    } else {
        let before = addresses(lines.drop_last());
        let t = trimmed(lines.last());
        if is_ipv4(t) { before.push(t) } else { before }
    }
}

fn addresses_in(all: &Vec<String>) -> (r: Vec<String>)
    ensures
        texts(r@) == addresses(texts(all@)),
{
    let ghost lines = texts(all@);
    let mut r: Vec<String> = Vec::new();
    let mut i: usize = 0;
    proof {
        assert(lines.take(0) =~= Seq::<Seq<char>>::empty());
        assert(texts(r@) =~= Seq::<Seq<char>>::empty());
    }
    while i < all.len()
        invariant
            i <= all@.len(),
            lines == texts(all@),
            texts(r@) == addresses(lines.take(i as int)),
        decreases all.len() - i,
    {
        let ghost before = r@;
        proof {
            assert(lines.take(i + 1).drop_last() =~= lines.take(i as int));
            assert(lines.take(i + 1).last() == all@[i as int]@);
        }
        let t = trim(all[i].as_str());
        if ipv4(t.as_str()) {
            r.push(t);
            proof {
                assert(texts(r@) =~= texts(before).push(trimmed(all@[i as int]@)));
            }
        }
        i = i + 1;
    }
    proof {
        assert(lines.take(lines.len() as int) =~= lines);
    }
    r
}

/// The addresses a host resolves to, or that there are none.
pub open spec fn resolved(host: Seq<char>, r: ReplyV) -> Result<Seq<Seq<char>>, Seq<char>> {
    match said_of(r) {
        Err(why) => Err(within("could not resolve "@ + host, why)),
        Ok(text) => {
            let ips = addresses(lines_of(text));
            if ips.len() == 0 { Err(host + " resolves to no IPv4 address"@) } else { Ok(ips) }
        },
    }
}

pub fn resolve(host: &str, r: &Reply) -> (o: Result<Vec<String>, String>)
    ensures
        (match o { Ok(v) => Ok(texts(v@)), Err(e) => Err(e@) }) == resolved(host@, r@),
{
    match said(r) {
        Err(why) => Err(inside(cat2("could not resolve ", host).as_str(), why.as_str())),
        Ok(text) => {
            let ips = addresses_in(&lines(text.as_str()));
            proof {
                assert(texts(ips@).len() == ips@.len());
            }
            if ips.len() == 0 { Err(cat2(host, " resolves to no IPv4 address")) } else { Ok(ips) }
        },
    }
}

/// Only addresses are ever denied.
pub proof fn law_only_addresses_are_denied(lines: Seq<Seq<char>>)
    ensures
        forall|i: int| 0 <= i < addresses(lines).len() ==> is_ipv4(#[trigger] addresses(lines)[i]),
    decreases lines.len(),
{
    if lines.len() > 0 {
        law_only_addresses_are_denied(lines.drop_last());
        let before = addresses(lines.drop_last());
        assert forall|i: int| 0 <= i < addresses(lines).len() implies is_ipv4(#[trigger] addresses(lines)[i]) by {
            if i < before.len() {
                assert(addresses(lines)[i] == before[i]);
            }
        }
    }
}

// ── the policies ────────────────────────────────────────────────────────────

/// The addresses of a policy, each alone.
pub open spec fn excepted(ips: Seq<Seq<char>>) -> Seq<Doc> {
    Seq::new(ips.len(), |i: int| Doc::Str(ips[i] + "/32"@))
}

fn except_doc(ips: &Vec<String>) -> (r: Json)
    ensures
        r@ == Doc::Arr(excepted(texts(ips@))),
{
    let mut v: Vec<Json> = Vec::new();
    let mut i: usize = 0;
    while i < ips.len()
        invariant
            i <= ips@.len(),
            v@.len() == i,
            forall|k: int| 0 <= k < i ==> (#[trigger] v@[k])@ == Doc::Str(ips@[k]@ + "/32"@),
        decreases ips.len() - i,
    {
        v.push(txt(cat2(ips[i].as_str(), "/32").as_str()));
        i = i + 1;
    }
    proof {
        lemma_docs(v@);
        assert(docs(v@) =~= excepted(texts(ips@)));
    }
    Json::Arr(v)
}

/// A policy of some apps: anywhere but to these addresses. There is no rule that denies, only an allowance
/// with exceptions; names are to be resolved as ever, or it would be another outage than the one meant.
pub open spec fn denying(apps: Doc, ips: Seq<Seq<char>>) -> Doc {
    Doc::Obj(seq![
        (
            "podSelector"@,
            Doc::Obj(seq![(
                "matchExpressions"@,
                Doc::Arr(seq![Doc::Obj(seq![("key"@, Doc::Str("app"@)), ("operator"@, Doc::Str("In"@)), ("values"@, apps)])]),
            )]),
        ),
        ("policyTypes"@, Doc::Arr(seq![Doc::Str("Egress"@)])),
        ("egress"@, Doc::Arr(seq![elsewhere(ips), name_lookups()])),
    ])
}

pub open spec fn elsewhere(ips: Seq<Seq<char>>) -> Doc {
    Doc::Obj(seq![(
        "to"@,
        Doc::Arr(seq![Doc::Obj(seq![(
            "ipBlock"@,
            Doc::Obj(seq![("cidr"@, Doc::Str("0.0.0.0/0"@)), ("except"@, Doc::Arr(excepted(ips)))]),
        )])]),
    )])
}

pub open spec fn port_doc(protocol: Seq<char>) -> Doc {
    Doc::Obj(seq![("protocol"@, Doc::Str(protocol)), ("port"@, Doc::Int(53))])
}

pub open spec fn name_lookups() -> Doc {
    Doc::Obj(seq![("ports"@, Doc::Arr(seq![port_doc("UDP"@), port_doc("TCP"@)]))])
}

fn deny(apps: Json, ips: &Vec<String>) -> (r: Json)
    ensures
        r@ == denying(apps@, texts(ips@)),
{
    let selector = obj1("matchExpressions", arr1(obj3("key", txt("app"), "operator", txt("In"), "values", apps)));
    let away = obj1("to", arr1(obj1("ipBlock", obj2("cidr", txt("0.0.0.0/0"), "except", except_doc(ips)))));
    let lookups = obj1(
        "ports",
        arr2(obj2("protocol", txt("UDP"), "port", int_doc(53)), obj2("protocol", txt("TCP"), "port", int_doc(53))),
    );
    obj3("podSelector", selector, "policyTypes", arr1(txt("Egress")), "egress", arr2(away, lookups))
}

/// Everywhere but Redis, for the tiers that nudge it and the one that reads the nudges.
pub open spec fn redis_apps() -> Doc {
    Doc::Arr(seq![Doc::Str("kloudlite"@), Doc::Str("kloudlite-worker"@), Doc::Str("kloudlite-admin"@)])
}

fn arr3(a: Json, b: Json, c: Json) -> (r: Json)
    ensures
        r@ == Doc::Arr(seq![a@, b@, c@]),
{
    let mut v: Vec<Json> = Vec::new();
    v.push(a);
    v.push(b);
    v.push(c);
    proof {
        lemma_docs(v@);
        assert(docs(v@) =~= seq![a@, b@, c@]);
    }
    Json::Arr(v)
}

pub fn deny_egress(ips: &Vec<String>) -> (r: Json)
    ensures
        r@ == denying(redis_apps(), texts(ips@)),
{
    deny(arr3(txt("kloudlite"), txt("kloudlite-worker"), txt("kloudlite-admin")), ips)
}

/// Everywhere but ClickHouse, for the processes that write and read the history.
pub open spec fn history_apps() -> Doc {
    Doc::Arr(seq![Doc::Str("kloudlite-admin"@), Doc::Str("kloudlite-api"@)])
}

pub fn deny_clickhouse(ips: &Vec<String>) -> (r: Json)
    ensures
        r@ == denying(history_apps(), texts(ips@)),
{
    deny(arr2(txt("kloudlite-admin"), txt("kloudlite-api")), ips)
}

/// A policy, in the cluster the probe itself runs in.
pub open spec fn policy_asks(name: Seq<char>, spec: Doc) -> AskV {
    AskV::Put { cluster: Cluster::Home, kind: Kind::NetworkPolicy, ns: POLICY_NS@, name, body: Doc::Obj(seq![("spec"@, spec)]) }
}

fn policy_ask(name: &str, spec: Json) -> (r: Ask)
    ensures
        r@ == policy_asks(name@, spec@),
{
    Ask::Put {
        cluster: Cluster::Home,
        kind: Kind::NetworkPolicy,
        ns: POLICY_NS.to_owned(),
        name: name.to_owned(),
        body: obj1("spec", spec),
    }
}

pub open spec fn unpolicy_asks(name: Seq<char>) -> AskV {
    AskV::Remove { cluster: Cluster::Home, kind: Kind::NetworkPolicy, ns: POLICY_NS@, name }
}

pub fn unpolicy(name: &str) -> (r: Ask)
    ensures
        r@ == unpolicy_asks(name@),
{
    Ask::Remove { cluster: Cluster::Home, kind: Kind::NetworkPolicy, ns: POLICY_NS.to_owned(), name: name.to_owned() }
}

// ── what goes on meanwhile ──────────────────────────────────────────────────

/// Why the history does not give way as it is to: 503 is what the web has a placeholder for, and to answer
/// is well, too.
pub open spec fn history_broken(before: Seq<char>, after: Seq<char>, r: ReplyV) -> Option<Seq<char>> {
    match raw_of(r) {
        Err(why) => Some(why),
        Ok((status, text)) => if status == 503 || is_success(status) {
            None
        } else {
            Some(before + dec(status as nat) + after + clipped(text, 160))
        },
    }
}

fn broken_history(before: &str, after: &str, r: &Reply) -> (o: Option<String>)
    ensures
        opt(o) == history_broken(before@, after@, r@),
{
    match raw(r) {
        Err(why) => Some(why),
        Ok((status, text)) => {
            if status == 503 || success(status) {
                None
            } else {
                Some(cat4(before, decimal(status as u64).as_str(), after, first_chars(text.as_str(), 160).as_str()))
            }
        },
    }
}

/// The rows of an activity feed.
pub open spec fn feed_rows(feed: Doc) -> Option<Seq<Doc>> {
    match items(member(feed, "events"@)) {
        Some(rows) => Some(rows),
        None => items(Some(feed)),
    }
}

pub open spec fn creates(row: Doc, owner: Seq<char>, name: Seq<char>) -> bool {
    text_of(row, "kind"@) == Some("repo_created"@) && text_of(row, "repo"@) == Some(name) && text_of(row, "href"@) == Some(
        "/"@ + owner + "/"@ + name,
    )
}

pub open spec fn some_creates(rows: Seq<Doc>, owner: Seq<char>, name: Seq<char>) -> bool {
    exists|i: int| 0 <= i < rows.len() && creates(#[trigger] rows[i], owner, name)
}

/// Whether a feed tells of a repo's creation: its row has the bare name, and the owner only in its link.
pub open spec fn created_in(feed: Doc, owner: Seq<char>, name: Seq<char>) -> bool {
    match feed_rows(feed) {
        Some(rows) => some_creates(rows, owner, name),
        None => false,
    }
}

fn creates_in(rows: &Vec<Json>, owner: &str, name: &str) -> (r: bool)
    ensures
        r == some_creates(docs(rows@), owner@, name@),
{
    proof {
        lemma_docs(rows@);
    }
    let href = cat4("/", owner, "/", name);
    let mut i: usize = 0;
    while i < rows.len()
        invariant
            i <= rows@.len(),
            href@ == "/"@ + owner@ + "/"@ + name@,
            docs(rows@).len() == rows@.len(),
            forall|k: int| 0 <= k < rows@.len() ==> #[trigger] docs(rows@)[k] == rows@[k]@,
            forall|k: int| 0 <= k < i ==> !creates(#[trigger] docs(rows@)[k], owner@, name@),
        decreases rows.len() - i,
    {
        proof {
            assert(docs(rows@)[i as int] == rows@[i as int]@);
        }
        let row = &rows[i];
        if row.is_at("kind", "repo_created") && row.is_at("repo", name) && row.is_at("href", href.as_str()) {
            return true;
        }
        i = i + 1;
    }
    false
}

pub fn created(feed: &Json, owner: &str, name: &str) -> (r: bool)
    ensures
        r == created_in(feed@, owner@, name@),
{
    match array_of(feed.get("events")) {
        Some(rows) => creates_in(rows, owner, name),
        None => match array_of(Some(feed)) {
            Some(rows) => creates_in(rows, owner, name),
            None => false,
        },
    }
}

/// The tip of the branch that was pushed.
pub open spec fn branch_tip(r: ReplyV) -> Result<Seq<char>, Seq<char>> {
    match doc_of(r) {
        Err(why) => Err(why),
        Ok(d) => match oid_in(d, "slo"@) {
            Some(oid) => Ok(oid),
            None => Err("the branch never appeared"@),
        },
    }
}

fn tip(r: &Reply) -> (o: Result<String, String>)
    ensures
        (match o { Ok(t) => Ok(t@), Err(e) => Err(e@) }) == branch_tip(r@),
{
    match doc(r) {
        Err(why) => Err(why),
        Ok(d) => match oid_of(&d, "slo") {
            Some(oid) => Ok(oid),
            None => Err("the branch never appeared".to_owned()),
        },
    }
}

/// The number of the change that was opened.
pub open spec fn pull_number(r: ReplyV) -> Result<Seq<char>, Seq<char>> {
    match doc_of(r) {
        Err(why) => Err(within("the pull request would not open"@, why)),
        Ok(d) => match doc_i64(member(d, "number"@)) {
            Some(n) => Ok(dec_int(n)),
            None => Err("no pull number"@),
        },
    }
}

fn number(r: &Reply) -> (o: Result<String, String>)
    ensures
        (match o { Ok(t) => Ok(t@), Err(e) => Err(e@) }) == pull_number(r@),
{
    match doc(r) {
        Err(why) => Err(inside("the pull request would not open", why.as_str())),
        Ok(d) => match i64_of(d.get("number")) {
            Some(n) => Ok(decimal_int(n)),
            None => Err("no pull number".to_owned()),
        },
    }
}

/// The work that goes on with the stream cut off: a repo is made, pushed to and shown in the feed,
/// and a change is opened and merged. The rest of the feed has nothing but the stream, and is not
/// asked.
pub open spec fn without_redis_next(c: RunV, name: Seq<char>, rs: Seq<ReplyV>) -> NextV {
    let head = branch_tip(rs[14])->Ok_0;
    let number = pull_number(rs[15])->Ok_0;
    also(
        rs, 1, AskV::Sleep { ms: REDIS_DOWN_MS },
        link(
            rs, 2,
            posting(
                api_at(c, "/v1/repos"@), c.probe_jwt,
                Doc::Obj(seq![
                    ("owner"@, Doc::Str(c.probe_user)),
                    ("name"@, Doc::Str(name)),
                    ("visibility"@, Doc::Str("private"@)),
                ]),
            ),
            call_failed("the repo would not create"@, rs[2]),
            link(
                rs, 3, AskV::Mkdir { path: work_tree(c, name) }, tool_error_in("could not make a working tree"@, rs[3]),
                link(
                    rs, 4,
                    git_asks(c, seq!["init"@, "-q"@, "--initial-branch=main"@], work_tree(c, name)), tool_error(rs[4]),
                    link(
                        rs, 5,
                        AskV::Write { path: joined_path(work_tree(c, name), "README.md"@), text: "# "@ + name + "\n"@ },
                        tool_error_in("could not write"@, rs[5]),
                        link(
                            rs, 6, git_asks(c, seq!["add"@, "-A"@], work_tree(c, name)), tool_error(rs[6]),
                            link(
                                rs, 7,
                                git_asks(c, seq!["commit"@, "-q"@, "-m"@, "seed"@], work_tree(c, name)), tool_error(rs[7]),
                                link(
                                    rs, 8,
                                    git_asks(
                                        c,
                                        authed_args(c, seq!["push"@, "-q"@, http_remote(c, c.probe_user, name), "main"@]),
                                        work_tree(c, name),
                                    ),
                                    tool_error_in("the push failed with Redis down"@, rs[8]),
                                    link(
                                        rs, 9,
                                        git_asks(c, seq!["checkout"@, "-q"@, "-b"@, "slo"@], work_tree(c, name)),
                                        tool_error(rs[9]),
                                        link(
                                            rs, 10,
                                            AskV::Write {
                                                path: joined_path(work_tree(c, name), "change.txt"@),
                                                text: c.run_id + "\n"@,
                                            },
                                            tool_error_in("could not write"@, rs[10]),
                                            link(
                                                rs, 11, git_asks(c, seq!["add"@, "-A"@], work_tree(c, name)),
                                                tool_error(rs[11]),
                                                link(
                                                    rs, 12,
                                                    git_asks(c, seq!["commit"@, "-q"@, "-m"@, "change"@], work_tree(c, name)),
                                                    tool_error(rs[12]),
                                                    link(
                                                        rs, 13,
                                                        git_asks(
                                                            c,
                                                            authed_args(
                                                                c,
                                                                seq!["push"@, "-q"@, http_remote(c, c.probe_user, name), "slo"@],
                                                            ),
                                                            work_tree(c, name),
                                                        ),
                                                        tool_error_in("the branch push failed"@, rs[13]),
                                                        link(
                                                            rs, 14,
                                                            getting(
                                                                api_at(c, "/api/"@ + c.probe_user + "/"@ + name + "/refs"@),
                                                                c.probe_jwt,
                                                            ),
                                                            err_of(branch_tip(rs[14])),
                                                            link(
                                                                rs, 15,
                                                                posting(
                                                                    api_at(
                                                                        c,
                                                                        "/v1/repos/"@ + c.probe_user + "/"@ + name + "/pulls"@,
                                                                    ),
                                                                    c.probe_jwt,
                                                                    Doc::Obj(seq![
                                                                        ("title"@, Doc::Str("slo redis drill"@)),
                                                                        ("base"@, Doc::Str("main"@)),
                                                                        ("head"@, Doc::Str("slo"@)),
                                                                    ]),
                                                                ),
                                                                err_of(pull_number(rs[15])),
                                                                link(
                                                                    rs, 16,
                                                                    posting(
                                                                        api_at(
                                                                            c,
                                                                            "/v1/repos/"@ + c.probe_user + "/"@ + name
                                                                                + "/pulls/"@ + number
                                                                                + "/merge?strategy=fast-forward"@,
                                                                        ),
                                                                        c.probe_jwt, Doc::Null,
                                                                    ),
                                                                    call_failed("the merge was refused"@, rs[16]),
                                                                    link(
                                                                        rs, 17,
                                                                        AskV::Wait(WaitV::Doc {
                                                                            url: api_at(
                                                                                c,
                                                                                "/api/"@ + c.probe_user + "/"@ + name + "/refs"@,
                                                                            ),
                                                                            token: c.probe_jwt,
                                                                            want: WantV::Branch { branch: "main"@, oid: head },
                                                                            cap_ms: MERGE_MS,
                                                                        }),
                                                                        lost_in(
                                                                            "the merge never landed with Redis down"@, rs[17],
                                                                        ),
                                                                        link(
                                                                            rs, 18,
                                                                            AskV::Wait(WaitV::Doc {
                                                                                url: api_at(
                                                                                    c, "/v1/activity?owner="@ + c.probe_user,
                                                                                ),
                                                                                token: c.probe_jwt,
                                                                                want: WantV::Created {
                                                                                    owner: c.probe_user,
                                                                                    name,
                                                                                },
                                                                                cap_ms: FEED_FALLBACK_MS,
                                                                            }),
                                                                            lost_in(
                                                                                "the activity feed never showed the repo"@,
                                                                                rs[18],
                                                                            ),
                                                                            link(
                                                                                rs, 19,
                                                                                getting(
                                                                                    admin_at(
                                                                                        c,
                                                                                        "/admin/history/audit_events?range=1d&step=1h"@,
                                                                                    ),
                                                                                    c.admin_jwt,
                                                                                ),
                                                                                history_broken(
                                                                                    "the admin process answered "@,
                                                                                    " with Redis down: "@, rs[19],
                                                                                ),
                                                                                NextV::Pass,
                                                                            ),
                                                                        ),
                                                                    ),
                                                                ),
                                                            ),
                                                        ),
                                                    ),
                                                ),
                                            ),
                                        ),
                                    ),
                                ),
                            ),
                        ),
                    ),
                ),
            ),
        ),
    )
}

fn without_redis_body(c: &Run, name: &str, log: &Log) -> (n: Next)
    ensures
        n@ == without_redis_next(c@, name@, log@.rs),
{
    if log.rs.len() <= 1 {
        return Next::Ask(Ask::Sleep { ms: REDIS_DOWN_MS });
    }
    if log.rs.len() <= 2 {
        return Next::Ask(post(
            api(c, "/v1/repos"), c.probe_jwt.as_str(),
            obj3("owner", txt(c.probe_user.as_str()), "name", txt(name), "visibility", txt("private")),
        ));
    }
    if let Some(why) = failed("the repo would not create", &log.rs[2]) {
        return Next::Fail(why);
    }
    if log.rs.len() <= 3 {
        return Next::Ask(Ask::Mkdir { path: work(c, name) });
    }
    if let Some(why) = tool_failed_in("could not make a working tree", &log.rs[3]) {
        return Next::Fail(why);
    }
    if log.rs.len() <= 4 {
        return Next::Ask(git(c, list3("init", "-q", "--initial-branch=main"), work(c, name)));
    }
    if let Some(why) = tool_failed(&log.rs[4]) {
        return Next::Fail(why);
    }
    if log.rs.len() <= 5 {
        return Next::Ask(Ask::Write { path: below(work(c, name).as_str(), "README.md"), text: cat3("# ", name, "\n") });
    }
    if let Some(why) = tool_failed_in("could not write", &log.rs[5]) {
        return Next::Fail(why);
    }
    if log.rs.len() <= 6 {
        return Next::Ask(git(c, list2("add", "-A"), work(c, name)));
    }
    if let Some(why) = tool_failed(&log.rs[6]) {
        return Next::Fail(why);
    }
    if log.rs.len() <= 7 {
        return Next::Ask(git(c, list4("commit", "-q", "-m", "seed"), work(c, name)));
    }
    if let Some(why) = tool_failed(&log.rs[7]) {
        return Next::Fail(why);
    }
    if log.rs.len() <= 8 {
        return Next::Ask(git(
            c,
            authed(c, list4("push", "-q", http_url(c, c.probe_user.as_str(), name).as_str(), "main")), work(c, name),
        ));
    }
    if let Some(why) = tool_failed_in("the push failed with Redis down", &log.rs[8]) {
        return Next::Fail(why);
    }
    if log.rs.len() <= 9 {
        return Next::Ask(git(c, list4("checkout", "-q", "-b", "slo"), work(c, name)));
    }
    if let Some(why) = tool_failed(&log.rs[9]) {
        return Next::Fail(why);
    }
    if log.rs.len() <= 10 {
        return Next::Ask(Ask::Write { path: below(work(c, name).as_str(), "change.txt"), text: cat2(c.run_id.as_str(), "\n") });
    }
    if let Some(why) = tool_failed_in("could not write", &log.rs[10]) {
        return Next::Fail(why);
    }
    if log.rs.len() <= 11 {
        return Next::Ask(git(c, list2("add", "-A"), work(c, name)));
    }
    if let Some(why) = tool_failed(&log.rs[11]) {
        return Next::Fail(why);
    }
    if log.rs.len() <= 12 {
        return Next::Ask(git(c, list4("commit", "-q", "-m", "change"), work(c, name)));
    }
    if let Some(why) = tool_failed(&log.rs[12]) {
        return Next::Fail(why);
    }
    if log.rs.len() <= 13 {
        return Next::Ask(git(
            c,
            authed(c, list4("push", "-q", http_url(c, c.probe_user.as_str(), name).as_str(), "slo")), work(c, name),
        ));
    }
    if let Some(why) = tool_failed_in("the branch push failed", &log.rs[13]) {
        return Next::Fail(why);
    }
    if log.rs.len() <= 14 {
        return Next::Ask(get(api(c, cat5("/api/", c.probe_user.as_str(), "/", name, "/refs").as_str()), c.probe_jwt.as_str()));
    }
    let head = match tip(&log.rs[14]) {
        Err(why) => {
            return Next::Fail(why);
        },
        Ok(t) => t,
    };
    if log.rs.len() <= 15 {
        return Next::Ask(post(
            api(c, cat5("/v1/repos/", c.probe_user.as_str(), "/", name, "/pulls").as_str()), c.probe_jwt.as_str(),
            obj3("title", txt("slo redis drill"), "base", txt("main"), "head", txt("slo")),
        ));
    }
    let number = match number(&log.rs[15]) {
        Err(why) => {
            return Next::Fail(why);
        },
        Ok(t) => t,
    };
    if log.rs.len() <= 16 {
        return Next::Ask(post(
            api(
                c,
                cat7(
                    "/v1/repos/", c.probe_user.as_str(), "/", name, "/pulls/", number.as_str(), "/merge?strategy=fast-forward",
                ).as_str(),
            ),
            c.probe_jwt.as_str(), Json::Null,
        ));
    }
    if let Some(why) = failed("the merge was refused", &log.rs[16]) {
        return Next::Fail(why);
    }
    if log.rs.len() <= 17 {
        return Next::Ask(Ask::Wait(Wait::Doc {
            url: api(c, cat5("/api/", c.probe_user.as_str(), "/", name, "/refs").as_str()),
            token: c.probe_jwt.clone(),
            want: Want::Branch { branch: "main".to_owned(), oid: head.clone() },
            cap_ms: MERGE_MS,
        }));
    }
    if let Some(why) = lost_within("the merge never landed with Redis down", &log.rs[17]) {
        return Next::Fail(why);
    }
    if log.rs.len() <= 18 {
        return Next::Ask(Ask::Wait(Wait::Doc {
            url: api(c, cat2("/v1/activity?owner=", c.probe_user.as_str()).as_str()),
            token: c.probe_jwt.clone(),
            want: Want::Created { owner: c.probe_user.clone(), name: name.to_owned() },
            cap_ms: FEED_FALLBACK_MS,
        }));
    }
    if let Some(why) = lost_within("the activity feed never showed the repo", &log.rs[18]) {
        return Next::Fail(why);
    }
    if log.rs.len() <= 19 {
        return Next::Ask(get(admin(c, "/admin/history/audit_events?range=1d&step=1h"), c.admin_jwt.as_str()));
    }
    end(broken_history("the admin process answered ", " with Redis down: ", &log.rs[19]))
}

/// Redis is cut off, long enough that whoever leans on it has noticed, and the work is done
/// meanwhile.
pub open spec fn redis_down_next(c: RunV, ips: Seq<char>, name: Seq<char>, log: LogV) -> NextV {
    link(
        log.rs, 0,
        policy_asks(NETPOL@, denying(redis_apps(), parts(ips, ','))),
        call_failed("could not write the policy "@ + NETPOL@, log.rs[0]),
        undoing(
            log, REDIS_BODY_MS, without_redis_next(c, name, log.rs), unpolicy_asks(NETPOL@),
            call_failed("the policy "@ + NETPOL@ + " was left IN FORCE"@, log.us[0]),
        ),
    )
}

fn redis_down_body(c: &Run, ips: &str, name: &str, log: &Log) -> (n: Next)
    ensures
        n@ == redis_down_next(c@, ips@, name@, log@),
{
    if log.rs.len() <= 0 {
        return Next::Ask(policy_ask(NETPOL, deny_egress(&split(ips, ','))));
    }
    if let Some(why) = failed(cat2("could not write the policy ", NETPOL).as_str(), &log.rs[0]) {
        return Next::Fail(why);
    }
    undo_after(
        log, REDIS_BODY_MS, without_redis_body(c, name, log), unpolicy(NETPOL),
        undo_failed(cat3("the policy ", NETPOL, " was left IN FORCE").as_str(), log),
    )
}

/// The work that goes on without a history, which is read and never the record.
pub open spec fn without_history_next(c: RunV, name: Seq<char>, rs: Seq<ReplyV>) -> NextV {
    also(
        rs, 1, AskV::Sleep { ms: 60_000 },
        link(
            rs, 2, getting(api_at(c, "/v1/quota"@), c.probe_jwt),
            call_failed("`/v1/quota` stopped answering with ClickHouse down"@, rs[2]),
            link(
                rs, 3,
                posting(
                    api_at(c, "/v1/repos"@), c.probe_jwt,
                    Doc::Obj(seq![
                        ("owner"@, Doc::Str(c.probe_user)),
                        ("name"@, Doc::Str(name)),
                        ("visibility"@, Doc::Str("private"@)),
                    ]),
                ),
                call_failed("a repo could not be created with ClickHouse down"@, rs[3]),
                also(
                    rs, 4,
                    deleting(api_at(c, "/v1/repos/"@ + c.probe_user + "/"@ + name), c.probe_jwt),
                    link(
                        rs, 5,
                        getting(admin_at(c, "/admin/history/audit_events?range=1d&step=1h"@), c.admin_jwt),
                        history_broken("`/admin/history/*` answered "@, " with ClickHouse down, not 503: "@, rs[5]),
                        NextV::Pass,
                    ),
                ),
            ),
        ),
    )
}

fn without_history_body(c: &Run, name: &str, log: &Log) -> (n: Next)
    ensures
        n@ == without_history_next(c@, name@, log@.rs),
{
    if log.rs.len() <= 1 {
        return Next::Ask(Ask::Sleep { ms: 60_000 });
    }
    if log.rs.len() <= 2 {
        return Next::Ask(get(api(c, "/v1/quota"), c.probe_jwt.as_str()));
    }
    if let Some(why) = failed("`/v1/quota` stopped answering with ClickHouse down", &log.rs[2]) {
        return Next::Fail(why);
    }
    if log.rs.len() <= 3 {
        return Next::Ask(post(
            api(c, "/v1/repos"), c.probe_jwt.as_str(),
            obj3("owner", txt(c.probe_user.as_str()), "name", txt(name), "visibility", txt("private")),
        ));
    }
    if let Some(why) = failed("a repo could not be created with ClickHouse down", &log.rs[3]) {
        return Next::Fail(why);
    }
    if log.rs.len() <= 4 {
        return Next::Ask(erase(api(c, cat4("/v1/repos/", c.probe_user.as_str(), "/", name).as_str()), c.probe_jwt.as_str()));
    }
    if log.rs.len() <= 5 {
        return Next::Ask(get(admin(c, "/admin/history/audit_events?range=1d&step=1h"), c.admin_jwt.as_str()));
    }
    end(broken_history("`/admin/history/*` answered ", " with ClickHouse down, not 503: ", &log.rs[5]))
}

pub open spec fn clickhouse_down_next(c: RunV, ips: Seq<char>, name: Seq<char>, log: LogV) -> NextV {
    link(
        log.rs, 0,
        policy_asks(CH_NETPOL@, denying(history_apps(), parts(ips, ','))),
        call_failed("could not write the policy "@ + CH_NETPOL@, log.rs[0]),
        undoing(
            log, CLICKHOUSE_BODY_MS, without_history_next(c, name, log.rs), unpolicy_asks(CH_NETPOL@),
            call_failed("the policy "@ + CH_NETPOL@ + " was left IN FORCE"@, log.us[0]),
        ),
    )
}

fn clickhouse_down_body(c: &Run, ips: &str, name: &str, log: &Log) -> (n: Next)
    ensures
        n@ == clickhouse_down_next(c@, ips@, name@, log@),
{
    if log.rs.len() <= 0 {
        return Next::Ask(policy_ask(CH_NETPOL, deny_clickhouse(&split(ips, ','))));
    }
    if let Some(why) = failed(cat2("could not write the policy ", CH_NETPOL).as_str(), &log.rs[0]) {
        return Next::Fail(why);
    }
    undo_after(
        log, CLICKHOUSE_BODY_MS, without_history_body(c, name, log), unpolicy(CH_NETPOL),
        undo_failed(cat3("the policy ", CH_NETPOL, " was left IN FORCE").as_str(), log),
    )
}

pub open spec fn enforced_next(rs: Seq<ReplyV>) -> NextV {
    link(rs, 0, AskV::Enforced, tool_error(rs[0]), NextV::Pass)
}

fn enforced_body(log: &Log) -> (n: Next)
    ensures
        n@ == enforced_next(log@.rs),
{
    if log.rs.len() <= 0 {
        return Next::Ask(Ask::Enforced);
    }
    end(tool_failed(&log.rs[0]))
}

pub open spec fn resolve_next(host: Seq<char>, rs: Seq<ReplyV>) -> NextV {
    link(rs, 0, plainly(Program::Dig, seq!["+short"@, host], 10_000), err_of(resolved(host, rs[0])), NextV::Pass)
}

fn resolve_body(host: &str, log: &Log) -> (n: Next)
    ensures
        n@ == resolve_next(host@, log@.rs),
{
    if log.rs.len() <= 0 {
        return Next::Ask(plain(Program::Dig, list2("+short", host), 10_000));
    }
    match resolve(host, &log.rs[0]) {
        Ok(_) => Next::Pass,
        Err(why) => Next::Fail(why),
    }
}

// ── the bodies ──────────────────────────────────────────────────────────────

pub enum Body {
    Enforced,
    Resolve { host: String },
    RedisDown { ips: String, name: String },
    ClickhouseDown { ips: String, name: String },
}

pub enum BodyV {
    Enforced,
    Resolve { host: Seq<char> },
    RedisDown { ips: Seq<char>, name: Seq<char> },
    ClickhouseDown { ips: Seq<char>, name: Seq<char> },
}

impl View for Body {
    type V = BodyV;

    open spec fn view(&self) -> BodyV {
        match self {
            Body::Enforced => BodyV::Enforced,
            Body::Resolve { host } => BodyV::Resolve { host: host@ },
            Body::RedisDown { ips, name } => BodyV::RedisDown { ips: ips@, name: name@ },
            Body::ClickhouseDown { ips, name } => BodyV::ClickhouseDown { ips: ips@, name: name@ },
        }
    }
}

/// What a body does next.
pub open spec fn body_next(c: RunV, b: BodyV, log: LogV) -> NextV {
    match b {
        BodyV::Enforced => enforced_next(log.rs),
        BodyV::Resolve { host } => resolve_next(host, log.rs),
        BodyV::RedisDown { ips, name } => redis_down_next(c, ips, name, log),
        BodyV::ClickhouseDown { ips, name } => clickhouse_down_next(c, ips, name, log),
    }
}

/// The stretch of a body that has a time of its own: how many replies it begins after, and how long it
/// is given.
pub open spec fn body_region(b: BodyV) -> Option<(usize, u64)> {
    match b {
        BodyV::RedisDown { .. } => Some((1usize, REDIS_BODY_MS)),
        BodyV::ClickhouseDown { .. } => Some((1usize, CLICKHOUSE_BODY_MS)),
        _ => None,
    }
}

/// What a body has learned: whether policies are enforced, or the addresses of a host.
pub open spec fn body_found(b: BodyV, log: LogV) -> Option<Seq<char>> {
    match b {
        BodyV::Enforced => if log.rs.len() > 0 {
            match said_of(log.rs[0]) {
                Ok(t) => Some(t),
                Err(_) => None,
            }
        } else {
            None
        },
        BodyV::Resolve { host } => if log.rs.len() > 0 {
            match resolved(host, log.rs[0]) {
                Ok(ips) => Some(joined(ips, ","@)),
                Err(_) => None,
            }
        } else {
            None
        },
        _ => None,
    }
}

impl Body {
    pub fn next(&self, c: &Run, log: &Log) -> (n: Next)
        ensures
            n@ == body_next(c@, self@, log@),
    {
        match self {
            Body::Enforced => enforced_body(log),
            Body::Resolve { host } => resolve_body(host.as_str(), log),
            Body::RedisDown { ips, name } => redis_down_body(c, ips.as_str(), name.as_str(), log),
            Body::ClickhouseDown { ips, name } => clickhouse_down_body(c, ips.as_str(), name.as_str(), log),
        }
    }

    pub fn region(&self) -> (r: Option<(usize, u64)>)
        ensures
            r == body_region(self@),
    {
        match self {
            Body::RedisDown { .. } => Some((1, REDIS_BODY_MS)),
            Body::ClickhouseDown { .. } => Some((1, CLICKHOUSE_BODY_MS)),
            _ => None,
        }
    }

    pub fn found(&self, log: &Log) -> (r: Option<String>)
        ensures
            opt(r) == body_found(self@, log@),
    {
        match self {
            Body::Enforced => {
                if log.rs.len() > 0 {
                    match said(&log.rs[0]) {
                        Ok(t) => Some(t),
                        Err(_) => None,
                    }
                } else {
                    None
                }
            },
            Body::Resolve { host } => {
                if log.rs.len() > 0 {
                    match resolve(host.as_str(), &log.rs[0]) {
                        Ok(ips) => Some(join(&ips, ",")),
                        Err(_) => None,
                    }
                } else {
                    None
                }
            },
            _ => None,
        }
    }
}

// ── the journeys ────────────────────────────────────────────────────────────

pub open spec fn redis_down_move(c: RunV, os: Seq<OutcomeV>) -> MoveV<BodyV> {
    let id = "drill.redis.down"@;
    let n = os.len();
    match (c.redis_host, c.no_home) {
        (None, _) => if n == 0 { MoveV::Skip { id, why: "no KLOUDLITE_SLO_REDIS_HOST to deny"@ } } else { MoveV::End },
        (Some(_), Some(why)) => if n == 0 { MoveV::Skip { id, why: "no in-cluster client: "@ + why } } else { MoveV::End },
        (Some(host), None) => if n == 0 {
            MoveV::Look { body: BodyV::Enforced }
        } else if found_in(os[0]) != Some("true"@) {
            if n == 1 {
                MoveV::Skip { id, why: if passed(os[0]) { c.unenforced } else { failure_or_empty(os[0]) } }
            } else {
                MoveV::End
            }
        } else if n == 1 {
            MoveV::Look { body: BodyV::Resolve { host } }
        } else if n == 2 {
            match passed_with(os[1]) {
                None => MoveV::Skip { id, why: failure_or_empty(os[1]) },
                Some(ips) => MoveV::Step {
                    id,
                    ceiling_ms: (REDIS_BODY_MS + 60_000) as u64,
                    body: BodyV::RedisDown { ips, name: named(c, "-redis"@) },
                },
            }
        } else {
            MoveV::End
        },
    }
}

/// `drill.redis.down`. Where policies are not enforced nothing would be cut off, and a pass would say nothing.
pub fn redis_down(c: &Run, os: &Vec<Outcome>) -> (m: Move<Body>)
    ensures
        m@ == redis_down_move(c@, outcomes(os@)),
{
    let id = "drill.redis.down";
    let n: usize = os.len();
    let host = match &c.redis_host {
        None => {
            return if n == 0 { skip(id, "no KLOUDLITE_SLO_REDIS_HOST to deny") } else { Move::End };
        },
        Some(host) => host,
    };
    if let Some(why) = &c.no_home {
        return if n == 0 { skip(id, cat2("no in-cluster client: ", why.as_str()).as_str()) } else { Move::End };
    }
    if n == 0 {
        return look(Body::Enforced);
    }
    let enforced = match os[0].found() {
        Some(t) => same(t.as_str(), "true"),
        None => false,
    };
    if !enforced {
        if n > 1 {
            return Move::End;
        }
        return if os[0].passed() { skip(id, c.unenforced.as_str()) } else { skip(id, os[0].failure_or_empty().as_str()) };
    }
    if n == 1 {
        look(Body::Resolve { host: host.clone() })
    } else if n == 2 {
        match os[1].passed_with() {
            None => skip(id, os[1].failure_or_empty().as_str()),
            Some(ips) => step(id, step_cap(REDIS_BODY_MS), Body::RedisDown { ips, name: name(c, "-redis") }),
        }
    } else {
        Move::End
    }
}

pub open spec fn clickhouse_down_move(c: RunV, os: Seq<OutcomeV>) -> MoveV<BodyV> {
    let id = "drill.clickhouse.down"@;
    let n = os.len();
    match (c.clickhouse_host, c.no_home) {
        (None, _) => if n == 0 { MoveV::Skip { id, why: "no KLOUDLITE_SLO_CLICKHOUSE_HOST to deny"@ } } else { MoveV::End },
        (Some(_), Some(why)) => if n == 0 { MoveV::Skip { id, why: "no in-cluster client: "@ + why } } else { MoveV::End },
        (Some(host), None) => if n == 0 {
            MoveV::Look { body: BodyV::Enforced }
        } else if found_in(os[0]) != Some("true"@) {
            if n == 1 {
                MoveV::Skip { id, why: if passed(os[0]) { c.unenforced } else { failure_or_empty(os[0]) } }
            } else {
                MoveV::End
            }
        } else if n == 1 {
            MoveV::Look { body: BodyV::Resolve { host } }
        } else if n == 2 {
            match passed_with(os[1]) {
                None => MoveV::Skip { id, why: failure_or_empty(os[1]) },
                Some(ips) => MoveV::Step {
                    id,
                    ceiling_ms: (CLICKHOUSE_BODY_MS + 60_000) as u64,
                    body: BodyV::ClickhouseDown { ips, name: named(c, "-chd"@) },
                },
            }
        } else {
            MoveV::End
        },
    }
}

/// `drill.clickhouse.down`. Where policies are not enforced nothing would be cut off, and a pass would say nothing.
pub fn clickhouse_down(c: &Run, os: &Vec<Outcome>) -> (m: Move<Body>)
    ensures
        m@ == clickhouse_down_move(c@, outcomes(os@)),
{
    let id = "drill.clickhouse.down";
    let n: usize = os.len();
    let host = match &c.clickhouse_host {
        None => {
            return if n == 0 { skip(id, "no KLOUDLITE_SLO_CLICKHOUSE_HOST to deny") } else { Move::End };
        },
        Some(host) => host,
    };
    if let Some(why) = &c.no_home {
        return if n == 0 { skip(id, cat2("no in-cluster client: ", why.as_str()).as_str()) } else { Move::End };
    }
    if n == 0 {
        return look(Body::Enforced);
    }
    let enforced = match os[0].found() {
        Some(t) => same(t.as_str(), "true"),
        None => false,
    };
    if !enforced {
        if n > 1 {
            return Move::End;
        }
        return if os[0].passed() { skip(id, c.unenforced.as_str()) } else { skip(id, os[0].failure_or_empty().as_str()) };
    }
    if n == 1 {
        look(Body::Resolve { host: host.clone() })
    } else if n == 2 {
        match os[1].passed_with() {
            None => skip(id, os[1].failure_or_empty().as_str()),
            Some(ips) => step(id, step_cap(CLICKHOUSE_BODY_MS), Body::ClickhouseDown { ips, name: name(c, "-chd") }),
        }
    } else {
        Move::End
    }
}

pub open spec fn interrupted_move(os: Seq<OutcomeV>) -> MoveV<BodyV> {
    if os.len() == 0 {
        MoveV::Skip { id: "ws.interrupted"@, why: NODE_LEVEL_DRILL@ }
    } else if os.len() == 1 {
        MoveV::Skip { id: "env.clone.interrupted"@, why: NODE_LEVEL_DRILL@ }
    } else {
        MoveV::End
    }
}

/// `ws.interrupted` and `env.clone.interrupted`: both are refusals that are only made while a node is
/// really down.
pub fn interrupted(os: &Vec<Outcome>) -> (m: Move<Body>)
    ensures
        m@ == interrupted_move(outcomes(os@)),
{
    if os.len() == 0 {
        skip("ws.interrupted", NODE_LEVEL_DRILL)
    } else if os.len() == 1 {
        skip("env.clone.interrupted", NODE_LEVEL_DRILL)
    } else {
        Move::End
    }
}

/// Whatever comes back, each id is reported exactly once.
pub proof fn law_every_id_is_reported_once(c: RunV, os: Seq<OutcomeV>)
    ensures
        reports_exactly(|o: Seq<OutcomeV>| redis_down_move(c, o), os, seq!["drill.redis.down"@], 3),
        reports_exactly(|o: Seq<OutcomeV>| clickhouse_down_move(c, o), os, seq!["drill.clickhouse.down"@], 3),
        reports_exactly(|o: Seq<OutcomeV>| interrupted_move(o), os, seq!["ws.interrupted"@, "env.clone.interrupted"@], 3),
    decreases os.len(),
{
    reveal_with_fuel(reports, 4);
    if os.len() > 3 {
        law_every_id_is_reported_once(c, os.drop_last());
    }
}

/// Once a policy is written, the body is not over before it was asked to be taken away.
pub proof fn law_a_policy_is_taken_away(c: RunV, ips: Seq<char>, name: Seq<char>, log: LogV)
    requires
        log.rs.len() >= 1,
        call_error(log.rs[0]) is None,
        log.us.len() == 0,
    ensures
        !(redis_down_next(c, ips, name, log) is Pass),
        !(redis_down_next(c, ips, name, log) is Fail),
        redis_down_next(c, ips, name, log) matches NextV::Undo(ask) ==> ask == unpolicy_asks(NETPOL@),
        !(clickhouse_down_next(c, ips, name, log) is Pass),
        !(clickhouse_down_next(c, ips, name, log) is Fail),
        clickhouse_down_next(c, ips, name, log) matches NextV::Undo(ask) ==> ask == unpolicy_asks(CH_NETPOL@),
{
}

/// A feed that only tells of another owner's repos, whatever their names, does not tell of this one's
/// creation.
pub proof fn law_only_this_repo_counts(feed: Doc, owner: Seq<char>, name: Seq<char>)
    requires
        feed_rows(feed) is Some,
        forall|i: int| 0 <= i < feed_rows(feed)->0.len() ==> text_of(#[trigger] (feed_rows(feed)->0)[i], "href"@) != Some(
            "/"@ + owner + "/"@ + name,
        ),
    ensures
        !created_in(feed, owner, name),
{
}

} // verus!
