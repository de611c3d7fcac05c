//! What else a person or an operator reads: the ceiling and the fences of a namespace, the pages of the
//! web, the verbs of the CLI, and the console.

use vstd::prelude::*;

use crate::cluster::{names_of, object_names};
use crate::json::{
    Doc, Json, array_of, doc_u64, int_doc, items, lemma_docs, lemma_fields, member, member2, obj1, obj2, obj3, obj4, opt_doc,
    rows_of, text_or, text_or_empty, txt, u64_of,
};
use crate::outside::{debug, debug_text, json_text, render, status_line, status_text};
use crate::quantity::{bytes, bytes_of, millis, millis_of};
use crate::reply::{
    ODD, call_error, call_failed, doc, doc_of, failed, id_in, id_of, is_success, made_full, made_full_of, object, object_of, raw,
    raw_of, success, tell, told, tool_error, tool_error_in, tool_failed, tool_failed_in,
};
use crate::run::{Run, RunV, State, StateV, admin, admin_at, api, api_at, below, joined_path, name, named, tmp, tmp_at};
use crate::stages::gaps::console::{missing, missing_from};
use crate::stages::gaps::identity::{handshake, handshake_of, listed_id, listed_id_of};
use crate::stages::git::{oid_in, oid_of};
use crate::text::{
    cat2, cat3, cat4, cat5, cat8, clipped, contains, dec, decimal, first_at, first_chars, holds, join, joined, lemma_first_at,
    lemma_parts_some, list1, list2, list4, no_slash, parts, same, split, texts, trim_slash,
};
use crate::turn::{Move, MoveV, Outcome, OutcomeV, failure_or_empty, one, one_move, outcomes, reports, reports_exactly, step};
use crate::wait::less;
use crate::wire::{
    Ask, AskV, Cluster, Kind, Log, LogV, Next, NextV, Payload, PayloadV, Program, Reply, ReplyV, Verb, also, call, calling,
    came_at, deleting, end, env2, erase, err_of, get, getting, inside, judge, link, opt, post, posting, undo_after, undoing,
    within,
};

verus! {

pub const READ_MS: u64 = 20_000;

pub const KUBE_MS: u64 = 30_000;

pub const PAGES_MS: u64 = 60_000;

pub const CLI_MS: u64 = 30_000;

/// Every page is given this long, whatever the step that walks them is given.
pub const PAGE_MS: u64 = 1_500;

/// The policies every owner's namespace has, by the name they have in the cluster.
pub const BINDING_POLICIES: [&'static str; 5] = [
    "default-deny", "allow-dns", "allow-same-namespace", "allow-internet-egress", "allow-gateway-ssh",
];

/// The pages that need nothing of a run: a stranger sees the sign-in, and a page that was dropped is
/// not there.
pub const STATIC_PAGES: [&'static str; 15] = [
    "/", "/new", "/new/team", "/settings", "/requests", "/superadmin", "/superadmin/requests", "/superadmin/owners",
    "/superadmin/clusters", "/superadmin/monitoring", "/superadmin/audit", "/superadmin/access", "/superadmin/configuration",
    "/superadmin/slo", "/superadmin/workloads",
];

/// The pages of a repo.
pub const REPO_PAGES: [&'static str; 6] = ["", "/tree/main", "/commits?ref=main", "/pulls", "/pulls/new", "/settings"];

/// What is said where there is no history: whether a series is on the list was never looked up.
pub const NO_HISTORY: &'static str = "the history layer answered 503, so the series allow-list was never consulted";

/// Why nothing was heard at all.
pub open spec fn unheard(r: ReplyV) -> Option<Seq<char>> {
    match raw_of(r) {
        Ok(_) => None,
        Err(why) => Some(why),
    }
}

pub fn not_heard(r: &Reply) -> (o: Option<String>)
    ensures
        opt(o) == unheard(r@),
{
    match raw(r) {
        Ok(_) => None,
        Err(why) => Some(why),
    }
}

// ── the namespace's own ceiling ─────────────────────────────────────────────

/// A number or none, as it is told.
pub open spec fn number_told(n: Option<u64>) -> Seq<char> {
    match n {
        Some(n) => "Some("@ + dec(n as nat) + ")"@,
        None => "None"@,
    }
}

fn number_words(n: Option<u64>) -> (r: String)
    ensures
        r@ == number_told(n),
{
    match n {
        Some(n) => cat3("Some(", decimal(n).as_str(), ")"),
        None => "None".to_owned(),
    }
}

/// The effective cpu and memory limits of an owner.
pub open spec fn limits_of(r: ReplyV) -> Result<(u64, u64), Seq<char>> {
    match doc_of(r) {
        Err(why) => Err(within("could not read the quota"@, why)),
        Ok(d) => match doc_u64(member2(d, "limit"@, "cpu"@)) {
            None => Err("the quota answer carries no cpu limit"@),
            Some(cpu) => match doc_u64(member2(d, "limit"@, "memoryGb"@)) {
                None => Err("the quota answer carries no memoryGb limit"@),
                Some(mem) => Ok((cpu as u64, mem as u64)),
            },
        },
    }
}

fn limits(r: &Reply) -> (o: Result<(u64, u64), String>)
    ensures
        (match o { Ok(p) => Ok(p), Err(e) => Err(e@) }) == limits_of(r@),
{
    match doc(r) {
        Err(why) => Err(inside("could not read the quota", why.as_str())),
        Ok(d) => match u64_of(d.get2("limit", "cpu")) {
            None => Err("the quota answer carries no cpu limit".to_owned()),
            Some(cpu) => match u64_of(d.get2("limit", "memoryGb")) {
                None => Err("the quota answer carries no memoryGb limit".to_owned()),
                Some(mem) => Ok((cpu, mem)),
            },
        },
    }
}

/// Why one bound of the namespace is not the owner's, or is not kept track of. `parsed` is what the
/// bound comes to: two spellings of one number are one bound.
pub open spec fn bound_off(
    hard: Doc, used: Option<Doc>, key: Seq<char>, parsed: Option<u64>, want: Option<u64>, unit: Seq<char>,
) -> Option<Seq<char>> {
    if parsed != want {
        Some(
            "`owner-quota` bounds "@ + key + " at "@ + debug_text(text_or_empty(hard, key)) + ", but the effective Quota says "@
                + number_told(want) + " (in "@ + unit + ")"@,
        )
    } else if used is None || member(used->0, key) is None {
        Some("Kubernetes reports no usage for "@ + key + ", so it is not enforcing it"@)
    } else {
        None
    }
}

fn bound_wrong(hard: &Json, used: Option<&Json>, key: &str, parsed: Option<u64>, want: Option<u64>, unit: &str) -> (o: Option<String>)
    ensures
        opt(o) == bound_off(hard@, opt_doc(used), key@, parsed, want, unit@),
{
    let same_number = match (parsed, want) {
        (Some(a), Some(b)) => a == b,
        (None, None) => true,
        _ => false,
    };
    if !same_number {
        return Some(cat8(
            "`owner-quota` bounds ", key, " at ", debug(text_or(hard, key).as_str()).as_str(), ", but the effective Quota says ",
            number_words(want).as_str(), " (in ", cat2(unit, ")").as_str(),
        ));
    }
    let counted = match used {
        Some(u) => u.get(key).is_some(),
        None => false,
    };
    if !counted {
        return Some(cat3("Kubernetes reports no usage for ", key, ", so it is not enforcing it"));
    }
    None
}

/// Why a namespace is not bounded as its owner is. A quota nothing tracks yet bounds nothing.
pub open spec fn unbounded(ns: Seq<char>, cpu: u64, mem: u64, r: ReplyV) -> Option<Seq<char>> {
    match raw_of(r) {
        Err(why) => Some("could not read "@ + ns + "/owner-quota: "@ + why),
        Ok((404, _)) => Some(ns + " carries no `owner-quota`: nothing bounds cpu or memory there"@),
        Ok(_) => match object_of(r) {
            Err(why) => Some("could not read "@ + ns + "/owner-quota: "@ + why),
            Ok(d) => match member2(d, "status"@, "hard"@) {
                None => Some("Kubernetes has not tracked `owner-quota` yet: it bounds nothing until it does"@),
                Some(hard) => {
                    let used = member2(d, "status"@, "used"@);
                    match bound_off(
                        hard, used, "limits.cpu"@, millis_of(text_or_empty(hard, "limits.cpu"@)), millis_of(dec(cpu as nat)),
                        "millicores"@,
                    ) {
                        Some(why) => Some(why),
                        None => bound_off(
                            hard, used, "limits.memory"@, bytes_of(text_or_empty(hard, "limits.memory"@)),
                            bytes_of(dec(mem as nat) + "Gi"@), "bytes"@,
                        ),
                    }
                },
            },
        },
    }
}

fn not_bounded(ns: &str, cpu: u64, mem: u64, r: &Reply) -> (o: Option<String>)
    ensures
        opt(o) == unbounded(ns@, cpu, mem, r@),
{
    match raw(r) {
        Err(why) => {
            return Some(cat4("could not read ", ns, "/owner-quota: ", why.as_str()));
        },
        Ok((status, _)) => {
            if status == 404 {
                return Some(cat2(ns, " carries no `owner-quota`: nothing bounds cpu or memory there"));
            }
        },
    }
    match object(r) {
        Err(why) => Some(cat4("could not read ", ns, "/owner-quota: ", why.as_str())),
        Ok(d) => match d.get2("status", "hard") {
            None => Some("Kubernetes has not tracked `owner-quota` yet: it bounds nothing until it does".to_owned()),
            Some(hard) => {
                let used = d.get2("status", "used");
                let have_cpu = millis(text_or(hard, "limits.cpu").as_str());
                let want_cpu = millis(decimal(cpu).as_str());
                match bound_wrong(hard, used, "limits.cpu", have_cpu, want_cpu, "millicores") {
                    Some(why) => Some(why),
                    None => {
                        let have_mem = bytes(text_or(hard, "limits.memory").as_str());
                        let want_mem = bytes(cat2(decimal(mem).as_str(), "Gi").as_str());
                        bound_wrong(hard, used, "limits.memory", have_mem, want_mem, "bytes")
                    },
                }
            },
        },
    }
}

/// The namespace's own quota is there, says what the owner's says, and is kept track of: it is what
/// stops an owner's pods, whatever the platform's books say.
pub open spec fn quota_namespace_next(c: RunV, rs: Seq<ReplyV>) -> NextV {
    let cpu = (limits_of(rs[0])->Ok_0).0;
    let mem = (limits_of(rs[0])->Ok_0).1;
    link(
        rs, 0, getting(api_at(c, "/v1/quota"@), c.probe_jwt), err_of(limits_of(rs[0])),
        link(
            rs, 1,
            AskV::Read { cluster: Cluster::Fleet, kind: Kind::ResourceQuota, ns: c.own_ns, name: "owner-quota"@ },
            unbounded(c.own_ns, cpu, mem, rs[1]), NextV::Pass,
        ),
    )
}

fn quota_namespace_body(c: &Run, log: &Log) -> (n: Next)
    ensures
        n@ == quota_namespace_next(c@, log@.rs),
{
    if log.rs.len() <= 0 {
        return Next::Ask(get(api(c, "/v1/quota"), c.probe_jwt.as_str()));
    }
    let (cpu, mem) = match limits(&log.rs[0]) {
        Err(why) => {
            return Next::Fail(why);
        },
        Ok(t) => t,
    };
    if log.rs.len() <= 1 {
        return Next::Ask(Ask::Read {
            cluster: Cluster::Fleet,
            kind: Kind::ResourceQuota,
            ns: c.own_ns.clone(),
            name: "owner-quota".to_owned(),
        });
    }
    end(not_bounded(c.own_ns.as_str(), cpu, mem, &log.rs[1]))
}

/// The policies of a namespace, as they are expected.
pub open spec fn binding_policies() -> Seq<Seq<char>> {
    Seq::new(5, |i: int| BINDING_POLICIES[i]@)
}

fn expected_policies() -> (r: Vec<String>)
    ensures
        texts(r@) == binding_policies(),
{
    let mut r: Vec<String> = Vec::new();
    let mut i: usize = 0;
    while i < 5
        invariant
            i <= 5,
            r@.len() == i,
            forall|k: int| 0 <= k < i ==> (#[trigger] r@[k])@ == BINDING_POLICIES[k]@,
        decreases 5 - i,
    {
        r.push(BINDING_POLICIES[i].to_owned());
        i = i + 1;
    }
    proof {
        assert(texts(r@) =~= binding_policies());
    }
    r
}

/// Why a namespace lacks one of its policies.
pub open spec fn unfenced(ns: Seq<char>, r: ReplyV) -> Option<Seq<char>> {
    match object_of(r) {
        Err(why) => Some("could not list the policies in "@ + ns + ": "@ + why),
        Ok(d) => {
            let missing = missing_from(binding_policies(), names_of(rows_of(Some(d))));
            if missing.len() == 0 { None } else { Some(ns + " is missing "@ + joined(missing, ", "@)) }
        },
    }
}

fn not_fenced(ns: &str, r: &Reply) -> (o: Option<String>)
    ensures
        opt(o) == unfenced(ns@, r@),
{
    match object(r) {
        Err(why) => Some(cat4("could not list the policies in ", ns, ": ", why.as_str())),
        Ok(d) => {
            let named = match array_of(Some(&d)) {
                Some(rows) => object_names(rows),
                None => {
                    let none: Vec<String> = Vec::new();
                    proof {
                        assert(texts(none@) =~= names_of(Seq::<Doc>::empty()));
                    }
                    none
                },
            };
            let gone = missing(&expected_policies(), &named);
            proof {
                assert(texts(gone@).len() == gone@.len());
            }
            if gone.len() == 0 { None } else { Some(cat3(ns, " is missing ", join(&gone, ", ").as_str())) }
        },
    }
}

/// Every policy of the owner's namespace is there: they are all that stands between one person's
/// workspace and the rest of the cluster.
pub open spec fn services_policies_next(c: RunV, rs: Seq<ReplyV>) -> NextV {
    link(
        rs, 0,
        AskV::List { cluster: Cluster::Fleet, kind: Kind::NetworkPolicy, ns: c.own_ns }, unfenced(c.own_ns, rs[0]),
        NextV::Pass,
    )
}

fn services_policies_body(c: &Run, log: &Log) -> (n: Next)
    ensures
        n@ == services_policies_next(c@, log@.rs),
{
    if log.rs.len() <= 0 {
        return Next::Ask(Ask::List { cluster: Cluster::Fleet, kind: Kind::NetworkPolicy, ns: c.own_ns.clone() });
    }
    end(not_fenced(c.own_ns.as_str(), &log.rs[0]))
}

// ── pages ───────────────────────────────────────────────────────────────────

/// The pages a run walks: the fixed ones, its user's, and its repo's where it has one.
pub open spec fn page_paths(user: Seq<char>, repo: Option<Seq<char>>) -> Seq<Seq<char>> {
    Seq::new(15, |i: int| STATIC_PAGES[i]@) + seq!["/"@ + user, "/"@ + user + "/registries"@] + (match repo {
        Some(repo) => Seq::new(6, |i: int| "/"@ + user + "/"@ + repo + REPO_PAGES[i]@),
        None => seq![],
    })
}

fn pages_of(user: &str, repo: &Option<String>) -> (r: Vec<String>)
    ensures
        texts(r@) == page_paths(user@, opt(*repo)),
{
    let mut r: Vec<String> = Vec::new();
    let mut i: usize = 0;
    while i < 15
        invariant
            i <= 15,
            r@.len() == i,
            forall|k: int| 0 <= k < i ==> (#[trigger] r@[k])@ == STATIC_PAGES[k]@,
        decreases 15 - i,
    {
        r.push(STATIC_PAGES[i].to_owned());
        i = i + 1;
    }
    r.push(cat2("/", user));
    r.push(cat3("/", user, "/registries"));
    let ghost fixed = r@;
    if let Some(repo) = repo {
        let mut j: usize = 0;
        while j < 6
            invariant
                j <= 6,
                fixed.len() == 17,
                r@.len() == 17 + j,
                forall|k: int| 0 <= k < 17 ==> #[trigger] r@[k] == fixed[k],
                forall|k: int| 17 <= k < 17 + j ==> (#[trigger] r@[k])@ == "/"@ + user@ + "/"@ + repo@ + REPO_PAGES[k - 17]@,
            decreases 6 - j,
        {
            r.push(cat5("/", user, "/", repo.as_str(), REPO_PAGES[j]));
            j = j + 1;
        }
    }
    proof {
        assert(texts(r@) =~= page_paths(user@, opt(*repo)));
    }
    r
}

/// The path a page is to be answered from: the one asked for, without its query.
pub open spec fn landing_of(path: Seq<char>) -> Seq<char> {
    parts(path, '?')[0]
}

fn landing(path: &str) -> (r: String)
    ensures
        r@ == landing_of(path@),
{
    let p = split(path, '?');
    proof {
        lemma_parts_some(path@, '?');
        assert(texts(p@)[0] == p@[0]@);
    }
    p[0].clone()
}

/// Why a page did not render: it could not be had, it is not there, or it was answered from another path
/// than the one asked for.
pub open spec fn unserved(path: Seq<char>, r: ReplyV) -> Option<Seq<char>> {
    match r {
        ReplyV::Page { status, path: landed, text } => if !is_success(status) {
            Some(within(path + " did not render"@, told(status, text, 200)))
        } else if landed != landing_of(path) {
            Some(within(path + " did not render"@, "it landed on "@ + landed))
        } else {
            None
        },
        ReplyV::Lost(why) => Some(within(path + " did not render"@, why)),
        _ => Some(within(path + " did not render"@, ODD@)),
    }
}

fn not_served(path: &str, r: &Reply) -> (o: Option<String>)
    ensures
        opt(o) == unserved(path@, r@),
{
    let context = cat2(path, " did not render");
    match r {
        Reply::Page { status, path: landed, text } => {
            if !success(*status) {
                Some(inside(context.as_str(), tell(*status, text.as_str(), 200).as_str()))
            } else if !same(landed.as_str(), landing(path).as_str()) {
                Some(inside(context.as_str(), cat2("it landed on ", landed.as_str()).as_str()))
            } else {
                None
            }
        },
        Reply::Lost(why) => Some(inside(context.as_str(), why.as_str())),
        _ => Some(inside(context.as_str(), ODD)),
    }
}

/// How long the `k`th reply took.
pub open spec fn took(log: LogV, k: int) -> u64 {
    less(came_at(log, k), if k > 0 { came_at(log, k - 1) } else { 0 })
}

fn time_of(log: &Log, k: usize) -> (r: u64)
    ensures
        r == took(log@, k as int),
{
    let before: u64 = if k > 0 { log.came(k - 1) } else { 0 };
    log.came(k).saturating_sub(before)
}

/// The pages that took longer than they are given, and how long.
pub open spec fn slow_pages(paths: Seq<Seq<char>>, log: LogV) -> Seq<Seq<char>>
    decreases paths.len(),
{
    if paths.len() == 0 {
        seq![]
    } else {
        let before = slow_pages(paths.drop_last(), log);
        let ms = took(log, paths.len() - 1);
        if ms > PAGE_MS { before.push(paths.last() + " in "@ + dec(ms as nat) + " ms"@) } else { before }
    }
}

fn slow(paths: &Vec<String>, log: &Log) -> (r: Vec<String>)
    ensures
        texts(r@) == slow_pages(texts(paths@), log@),
{
    let ghost all = texts(paths@);
    let mut r: Vec<String> = Vec::new();
    let mut i: usize = 0;
    proof {
        assert(all.take(0) =~= Seq::<Seq<char>>::empty());
        assert(texts(r@) =~= Seq::<Seq<char>>::empty());
    }
    while i < paths.len()
        invariant
            i <= paths@.len(),
            all == texts(paths@),
            texts(r@) == slow_pages(all.take(i as int), log@),
        decreases paths.len() - i,
    {
        let ghost before = r@;
        proof {
            assert(all.take(i + 1).drop_last() =~= all.take(i as int));
            assert(all.take(i + 1).last() == paths@[i as int]@);
        }
        let ms: u64 = time_of(log, i);
        if ms > PAGE_MS {
            let t = cat4(paths[i].as_str(), " in ", decimal(ms).as_str(), " ms");
            r.push(t);
            proof {
                assert(texts(r@) =~= texts(before).push(t@));
            }
        }
        i = i + 1;
    }
    proof {
        assert(all.take(all.len() as int) =~= all);
    }
    r
}

/// Every page in turn, and once all of them rendered, the ones that were slow: a page that is slow is
/// told by its name instead of being lost in a sum.
pub open spec fn pages_next(base: Seq<char>, paths: Seq<Seq<char>>, log: LogV, k: nat) -> NextV
    decreases paths.len() - k,
{
    if k >= paths.len() {
        let slow = slow_pages(paths, log);
        if slow.len() == 0 {
            NextV::Pass
        } else {
            NextV::Fail("slower than "@ + dec(PAGE_MS as nat) + " ms: "@ + joined(slow, ", "@))
        }
    } else {
        link(
            log.rs, k, AskV::Page { url: base + paths[k as int] }, unserved(paths[k as int], log.rs[k as int]),
            pages_next(base, paths, log, k + 1),
        )
    }
}

fn pages_body(c: &Run, repo: &Option<String>, log: &Log) -> (n: Next)
    ensures
        n@ == pages_next(no_slash(c@.web_url), page_paths(c@.probe_user, opt(*repo)), log@, 0),
{
    let base = trim_slash(c.web_url.as_str());
    let paths = pages_of(c.probe_user.as_str(), repo);
    let ghost all = texts(paths@);
    let mut k: usize = 0;
    while k < paths.len()
        invariant
            k <= paths@.len(),
            all == texts(paths@),
            all == page_paths(c@.probe_user, opt(*repo)),
            base@ == no_slash(c@.web_url),
            pages_next(base@, all, log@, 0) == pages_next(base@, all, log@, k as nat),
            k <= log@.rs.len(),
        decreases paths.len() - k,
    {
        if log.rs.len() <= k {
            return Next::Ask(Ask::Page { url: cat2(base.as_str(), paths[k].as_str()) });
        }
        if let Some(why) = not_served(paths[k].as_str(), &log.rs[k]) {
            return Next::Fail(why);
        }
        k = k + 1;
    }
    let late = slow(&paths, log);
    proof {
        assert(texts(late@).len() == late@.len());
    }
    if late.len() == 0 {
        Next::Pass
    } else {
        Next::Fail(cat4("slower than ", decimal(PAGE_MS).as_str(), " ms: ", join(&late, ", ").as_str()))
    }
}

/// What is asked for without a query is to be answered from just there, and no query is part of a path.
pub proof fn law_a_landing_has_no_query(path: Seq<char>)
    ensures
        !landing_of(path).contains('?'),
        !path.contains('?') ==> landing_of(path) == path,
{
    lemma_first_at(path, '?');
    let k = first_at(path, '?') as int;
    if k < path.len() {
        assert(path[k] == '?');
        let l = landing_of(path);
        assert(l =~= path.take(k));
        assert forall|i: int| 0 <= i < l.len() implies l[i] != '?' by {
            assert(l[i] == path[i]);
        }
    } else {
        assert(forall|i: int| 0 <= i < path.len() ==> path[i] != '?');
    }
}

/// Once the pages have passed, each of them was answered with success, from the path that was asked for.
pub proof fn law_every_page_landed_where_it_was_asked_for(base: Seq<char>, paths: Seq<Seq<char>>, log: LogV, k: nat)
    requires
        pages_next(base, paths, log, k) is Pass,
    ensures
        forall|i: int|
            k <= i < paths.len() ==> (#[trigger] log.rs[i] matches ReplyV::Page { status, path, .. } && is_success(status)
                && path == landing_of(paths[i])),
    decreases paths.len() - k,
{
    if k < paths.len() {
        law_every_page_landed_where_it_was_asked_for(base, paths, log, k + 1);
        assert(unserved(paths[k as int], log.rs[k as int]) is None);
    }
}

// ── reads ───────────────────────────────────────────────────────────────────

/// The commit a repo's `main` is at.
pub open spec fn main_of(r: ReplyV) -> Result<Seq<char>, Seq<char>> {
    match doc_of(r) {
        Err(why) => Err(within("could not read the refs"@, why)),
        Ok(d) => match oid_in(d, "main"@) {
            Some(oid) => Ok(oid),
            None => Err("the repo has no `main` to ask about"@),
        },
    }
}

fn main_tip(r: &Reply) -> (o: Result<String, String>)
    ensures
        (match o { Ok(t) => Ok(t@), Err(e) => Err(e@) }) == main_of(r@),
{
    match doc(r) {
        Err(why) => Err(inside("could not read the refs", why.as_str())),
        Ok(d) => match oid_of(&d, "main") {
            Some(oid) => Ok(oid),
            None => Err("the repo has no `main` to ask about".to_owned()),
        },
    }
}

/// A document that names nothing.
pub open spec fn is_blank(d: Doc) -> bool {
    match d {
        Doc::Null => true,
        Doc::Obj(fields) => fields.len() == 0,
        Doc::Arr(rows) => rows.len() == 0,
        _ => false,
    }
}

fn blank(d: &Json) -> (r: bool)
    ensures
        r == is_blank(d@),
{
    match d {
        Json::Null => true,
        Json::Obj(all) => {
            proof {
                lemma_fields(all@);
            }
            all.len() == 0
        },
        Json::Arr(rows) => {
            proof {
                lemma_docs(rows@);
            }
            rows.len() == 0
        },
        _ => false,
    }
}

/// Why the file listing's last changes are not to be had.
pub open spec fn unchanged(oid: Seq<char>, r: ReplyV) -> Option<Seq<char>> {
    match doc_of(r) {
        Err(why) => Some(within("lastmod would not answer"@, why)),
        Ok(d) => if is_blank(d) { Some("lastmod answered nothing for "@ + oid) } else { None },
    }
}

fn no_changes(oid: &str, r: &Reply) -> (o: Option<String>)
    ensures
        opt(o) == unchanged(oid@, r@),
{
    match doc(r) {
        Err(why) => Some(inside("lastmod would not answer", why.as_str())),
        Ok(d) => {
            if blank(&d) { Some(cat2("lastmod answered nothing for ", oid)) } else { None }
        },
    }
}

/// The last changes of a commit this run pushed.
pub open spec fn metadata_next(c: RunV, repo: Seq<char>, rs: Seq<ReplyV>) -> NextV {
    let oid = main_of(rs[0])->Ok_0;
    link(
        rs, 0,
        getting(api_at(c, "/api/"@ + c.probe_user + "/"@ + repo + "/refs"@), c.probe_jwt), err_of(main_of(rs[0])),
        link(
            rs, 1,
            getting(api_at(c, "/api/"@ + c.probe_user + "/"@ + repo + "/lastmod"@) + "/"@ + oid, c.probe_jwt),
            unchanged(oid, rs[1]), NextV::Pass,
        ),
    )
}

fn metadata_body(c: &Run, repo: &str, log: &Log) -> (n: Next)
    ensures
        n@ == metadata_next(c@, repo@, log@.rs),
{
    if log.rs.len() <= 0 {
        return Next::Ask(get(api(c, cat5("/api/", c.probe_user.as_str(), "/", repo, "/refs").as_str()), c.probe_jwt.as_str()));
    }
    let oid = match main_tip(&log.rs[0]) {
        Err(why) => {
            return Next::Fail(why);
        },
        Ok(t) => t,
    };
    if log.rs.len() <= 1 {
        return Next::Ask(get(
            cat3(api(c, cat5("/api/", c.probe_user.as_str(), "/", repo, "/lastmod").as_str()).as_str(), "/", oid.as_str()),
            c.probe_jwt.as_str(),
        ));
    }
    end(no_changes(oid.as_str(), &log.rs[1]))
}

/// Why a settings read does not tell where to clone from.
pub open spec fn hostless(r: ReplyV) -> Option<Seq<char>> {
    match doc_of(r) {
        Err(why) => Some(within("the api's own settings read"@, why)),
        Ok(d) => if member(d, "clone_host"@) is None && member(d, "cloneHost"@) is None {
            Some("the settings read carries no clone host"@)
        } else {
            None
        },
    }
}

fn no_host(r: &Reply) -> (o: Option<String>)
    ensures
        opt(o) == hostless(r@),
{
    match doc(r) {
        Err(why) => Some(inside("the api's own settings read", why.as_str())),
        Ok(d) => {
            if d.get("clone_host").is_none() && d.get("cloneHost").is_none() {
                Some("the settings read carries no clone host".to_owned())
            } else {
                None
            }
        },
    }
}

/// The id a passkey was given, or the one it was asked for under.
pub open spec fn passkey_id(name: Seq<char>, r: ReplyV) -> Seq<char> {
    match id_in(r) {
        Some(id) => id,
        None => name,
    }
}

fn passkey(name: &str, r: &Reply) -> (t: String)
    ensures
        t@ == passkey_id(name@, r@),
{
    match id_of(r) {
        Some(id) => id,
        None => name.to_owned(),
    }
}

/// Why a mark that only a peer may make was not refused to a session.
pub open spec fn unrefused_mark(r: ReplyV) -> Option<Seq<char>> {
    match raw_of(r) {
        Err(why) => Some(why),
        Ok((status, text)) => if status == 401 || status == 403 {
            None
        } else {
            Some(
                "the `used` mark answered "@ + dec(status as nat) + " to a session, and it is peer-only: "@ + clipped(text, 160),
            )
        },
    }
}

fn mark_taken(r: &Reply) -> (o: Option<String>)
    ensures
        opt(o) == unrefused_mark(r@),
{
    match raw(r) {
        Err(why) => Some(why),
        Ok((status, text)) => {
            if status == 401 || status == 403 {
                None
            } else {
                Some(cat4(
                    "the `used` mark answered ", decimal(status as u64).as_str(), " to a session, and it is peer-only: ",
                    first_chars(text.as_str(), 160).as_str(),
                ))
            }
        },
    }
}

/// Why the retired create did not answer: a request that is already pending is an answer.
pub open spec fn legacy_refused(r: ReplyV) -> Option<Seq<char>> {
    match raw_of(r) {
        Err(why) => Some(why),
        Ok((status, text)) => if is_success(status) || status == 409 {
            None
        } else {
            Some("the legacy quota-request create answered "@ + status_line(status) + ": "@ + clipped(text, 200))
        },
    }
}

fn no_legacy(r: &Reply) -> (o: Option<String>)
    ensures
        opt(o) == legacy_refused(r@),
{
    match raw(r) {
        Err(why) => Some(why),
        Ok((status, text)) => {
            if success(status) || status == 409 {
                None
            } else {
                Some(cat4(
                    "the legacy quota-request create answered ", status_text(status).as_str(), ": ",
                    first_chars(text.as_str(), 200).as_str(),
                ))
            }
        },
    }
}

/// The reads a session makes: the settings anybody may read, the mark of a passkey that only a peer
/// may make, and the create that was retired. The passkey is taken away whatever became of the mark.
pub open spec fn session_reads_next(c: RunV, name: Seq<char>, rs: Seq<ReplyV>) -> NextV {
    let id = passkey_id(name, rs[1]);
    link(
        rs, 0, getting(api_at(c, "/v1/settings/central"@), ""@), hostless(rs[0]),
        link(
            rs, 1,
            posting(
                api_at(c, "/v1/passkeys"@), c.probe_jwt,
                Doc::Obj(seq![("id"@, Doc::Str(name)), ("publicKey"@, Doc::Str(name)), ("name"@, Doc::Str(name))]),
            ),
            call_failed("could not register a passkey to mark used"@, rs[1]),
            also(
                rs, 2,
                posting(api_at(c, "/v1/passkeys/"@ + id + "/used"@), c.probe_jwt, Doc::Obj(seq![("counter"@, Doc::Int(1))])),
                also(
                    rs, 3, deleting(api_at(c, "/v1/passkeys/"@ + id), c.probe_jwt),
                    judge(
                        unheard(rs[2]),
                        judge(
                            unrefused_mark(rs[2]),
                            link(
                                rs, 4,
                                posting(
                                    api_at(c, "/v1/quota-requests"@), c.probe_jwt,
                                    Doc::Obj(seq![
                                        ("reason"@, Doc::Str("slo probe legacy create"@)),
                                        ("requested"@, Doc::Obj(seq![("diskGb"@, Doc::Int(1))])),
                                    ]),
                                ),
                                legacy_refused(rs[4]), NextV::Pass,
                            ),
                        ),
                    ),
                ),
            ),
        ),
    )
}

fn session_reads_body(c: &Run, name: &str, log: &Log) -> (n: Next)
    ensures
        n@ == session_reads_next(c@, name@, log@.rs),
{
    if log.rs.len() <= 0 {
        return Next::Ask(get(api(c, "/v1/settings/central"), ""));
    }
    if let Some(why) = no_host(&log.rs[0]) {
        return Next::Fail(why);
    }
    if log.rs.len() <= 1 {
        return Next::Ask(post(
            api(c, "/v1/passkeys"), c.probe_jwt.as_str(),
            obj3("id", txt(name), "publicKey", txt(name), "name", txt(name)),
        ));
    }
    if let Some(why) = failed("could not register a passkey to mark used", &log.rs[1]) {
        return Next::Fail(why);
    }
    let id = passkey(name, &log.rs[1]);
    if log.rs.len() <= 2 {
        return Next::Ask(post(
            api(c, cat3("/v1/passkeys/", id.as_str(), "/used").as_str()), c.probe_jwt.as_str(), obj1("counter", int_doc(1)),
        ));
    }
    if log.rs.len() <= 3 {
        return Next::Ask(erase(api(c, cat2("/v1/passkeys/", id.as_str()).as_str()), c.probe_jwt.as_str()));
    }
    if let Some(why) = not_heard(&log.rs[2]) {
        return Next::Fail(why);
    }
    if let Some(why) = mark_taken(&log.rs[2]) {
        return Next::Fail(why);
    }
    if log.rs.len() <= 4 {
        return Next::Ask(post(
            api(c, "/v1/quota-requests"), c.probe_jwt.as_str(),
            obj2("reason", txt("slo probe legacy create"), "requested", obj1("diskGb", int_doc(1))),
        ));
    }
    end(no_legacy(&log.rs[4]))
}

// ── the CLI ─────────────────────────────────────────────────────────────────

/// Why a login could not be taken back: one that is gone already is as it should be, since logging out
/// revokes it.
pub open spec fn unrevoked(r: ReplyV) -> Option<Seq<char>> {
    match raw_of(r) {
        Err(why) => Some(why),
        Ok((status, text)) => if status == 404 || is_success(status) {
            None
        } else {
            Some("the CLI token was left LIVE: "@ + dec(status as nat) + ": "@ + clipped(text, 160))
        },
    }
}

fn left_live_undo(log: &Log) -> (o: Option<String>)
    ensures
        log@.us.len() > 0 ==> opt(o) == unrevoked(log@.us[0]),
{
    if log.us.len() == 0 {
        return None;
    }
    match raw(&log.us[0]) {
        Err(why) => Some(why),
        Ok((status, text)) => {
            if status == 404 || success(status) {
                None
            } else {
                Some(cat4(
                    "the CLI token was left LIVE: ", decimal(status as u64).as_str(), ": ", first_chars(text.as_str(), 160).as_str(),
                ))
            }
        },
    }
}

/// Why listing a team nobody is in did not answer: to be refused is an answer.
pub open spec fn team_unanswered(r: ReplyV) -> Option<Seq<char>> {
    match tool_error(r) {
        None => None,
        Some(why) => if holds(why, "no such team"@) || holds(why, "not a member"@) {
            None
        } else {
            Some(within("`kl-connect ws list --team no-such-team` failed"@, why))
        },
    }
}

fn no_team_answer(r: &Reply) -> (o: Option<String>)
    ensures
        opt(o) == team_unanswered(r@),
{
    match tool_failed(r) {
        None => None,
        Some(why) => {
            if contains(why.as_str(), "no such team") || contains(why.as_str(), "not a member") {
                None
            } else {
                Some(inside("`kl-connect ws list --team no-such-team` failed", why.as_str()))
            }
        },
    }
}

/// The login as the CLI itself would have stored it, and the verbs; the last one forgets the login
/// the others read.
pub open spec fn commands_next(c: RunV, token: Seq<char>, rs: Seq<ReplyV>) -> NextV {
    link(
        rs, 4,
        AskV::Mkdir { path: joined_path(tmp_at(c, "klhome-cmd"@), ".config/kl-connect"@) },
        tool_error_in("could not make "@ + joined_path(tmp_at(c, "klhome-cmd"@), ".config/kl-connect"@), rs[4]),
        link(
            rs, 5,
            AskV::Write {
                path: joined_path(joined_path(tmp_at(c, "klhome-cmd"@), ".config/kl-connect"@), "config.json"@),
                text: json_text(Doc::Obj(seq![
                    ("api"@, Doc::Str(c.api_url)),
                    ("token"@, Doc::Str(token)),
                    ("expires_at"@, Doc::Str("2099-01-01T00:00:00Z"@)),
                    ("username"@, Doc::Str(c.probe_user)),
                ])),
            },
            tool_error_in("could not stage the CLI login"@, rs[5]),
            link(
                rs, 6,
                AskV::Tool {
                    program: Program::Kl,
                    argv: seq!["ws"@, "list"@],
                    env: seq![
                        ("HOME"@, tmp_at(c, "klhome-cmd"@)),
                        ("KL_CONFIG_DIR"@, joined_path(tmp_at(c, "klhome-cmd"@), ".config/kl-connect"@)),
                    ],
                    dir: ""@,
                    bound_ms: CLI_MS,
                },
                tool_error_in("`kl-connect ws list` failed"@, rs[6]),
                link(
                    rs, 7,
                    AskV::Tool {
                        program: Program::Kl,
                        argv: seq!["ws"@, "list"@, "--team"@, "no-such-team"@],
                        env: seq![
                            ("HOME"@, tmp_at(c, "klhome-cmd"@)),
                            ("KL_CONFIG_DIR"@, joined_path(tmp_at(c, "klhome-cmd"@), ".config/kl-connect"@)),
                        ],
                        dir: ""@,
                        bound_ms: CLI_MS,
                    },
                    team_unanswered(rs[7]),
                    link(
                        rs, 8,
                        AskV::Tool {
                            program: Program::Kl,
                            argv: seq!["logout"@],
                            env: seq![
                                ("HOME"@, tmp_at(c, "klhome-cmd"@)),
                                ("KL_CONFIG_DIR"@, joined_path(tmp_at(c, "klhome-cmd"@), ".config/kl-connect"@)),
                            ],
                            dir: ""@,
                            bound_ms: CLI_MS,
                        },
                        tool_error_in("`kl-connect logout` failed"@, rs[8]), NextV::Pass,
                    ),
                ),
            ),
        ),
    )
}

fn commands_body(c: &Run, token: &str, log: &Log) -> (n: Next)
    ensures
        n@ == commands_next(c@, token@, log@.rs),
{
    if log.rs.len() <= 4 {
        return Next::Ask(Ask::Mkdir { path: below(tmp(c, "klhome-cmd").as_str(), ".config/kl-connect") });
    }
    if let Some(why) = tool_failed_in(
        cat2("could not make ", below(tmp(c, "klhome-cmd").as_str(), ".config/kl-connect").as_str()).as_str(),
        &log.rs[4],
    ) {
        return Next::Fail(why);
    }
    if log.rs.len() <= 5 {
        return Next::Ask(Ask::Write {
            path: below(below(tmp(c, "klhome-cmd").as_str(), ".config/kl-connect").as_str(), "config.json"),
            text: render(&obj4(
                "api", txt(c.api_url.as_str()), "token", txt(token), "expires_at", txt("2099-01-01T00:00:00Z"), "username",
                txt(c.probe_user.as_str()),
            )),
        });
    }
    if let Some(why) = tool_failed_in("could not stage the CLI login", &log.rs[5]) {
        return Next::Fail(why);
    }
    if log.rs.len() <= 6 {
        return Next::Ask(Ask::Tool {
            program: Program::Kl,
            argv: list2("ws", "list"),
            env: env2(
                "HOME", tmp(c, "klhome-cmd").as_str(), "KL_CONFIG_DIR",
                below(tmp(c, "klhome-cmd").as_str(), ".config/kl-connect").as_str(),
            ),
            dir: "".to_owned(),
            bound_ms: CLI_MS,
        });
    }
    if let Some(why) = tool_failed_in("`kl-connect ws list` failed", &log.rs[6]) {
        return Next::Fail(why);
    }
    if log.rs.len() <= 7 {
        return Next::Ask(Ask::Tool {
            program: Program::Kl,
            argv: list4("ws", "list", "--team", "no-such-team"),
            env: env2(
                "HOME", tmp(c, "klhome-cmd").as_str(), "KL_CONFIG_DIR",
                below(tmp(c, "klhome-cmd").as_str(), ".config/kl-connect").as_str(),
            ),
            dir: "".to_owned(),
            bound_ms: CLI_MS,
        });
    }
    if let Some(why) = no_team_answer(&log.rs[7]) {
        return Next::Fail(why);
    }
    if log.rs.len() <= 8 {
        return Next::Ask(Ask::Tool {
            program: Program::Kl,
            argv: list1("logout"),
            env: env2(
                "HOME", tmp(c, "klhome-cmd").as_str(), "KL_CONFIG_DIR",
                below(tmp(c, "klhome-cmd").as_str(), ".config/kl-connect").as_str(),
            ),
            dir: "".to_owned(),
            bound_ms: CLI_MS,
        });
    }
    end(tool_failed_in("`kl-connect logout` failed", &log.rs[8]))
}

/// A login of its own, which is revoked whatever became of the verbs.
pub open spec fn kl_commands_next(c: RunV, device: Seq<char>, log: LogV) -> NextV {
    let code = (handshake(log.rs[0])->Ok_0).0;
    let poll = (handshake(log.rs[0])->Ok_0).1;
    let token = made_full("the token collection failed"@, "token"@, "the approved login handed back no token"@, log.rs[2])->Ok_0;
    let id = listed_id(device, log.rs[3])->Ok_0;
    link(
        log.rs, 0,
        posting(api_at(c, "/v1/cli/code"@), ""@, Doc::Obj(seq![("device"@, Doc::Str(device))])), err_of(handshake(log.rs[0])),
        link(
            log.rs, 1,
            posting(api_at(c, "/v1/cli/approve"@), c.probe_jwt, Doc::Obj(seq![("code"@, Doc::Str(code))])),
            call_failed("the approval was refused"@, log.rs[1]),
            link(
                log.rs, 2, getting(api_at(c, "/v1/cli/token?poll="@ + poll), ""@),
                err_of(made_full(
                    "the token collection failed"@, "token"@, "the approved login handed back no token"@, log.rs[2],
                )),
                link(
                    log.rs, 3, getting(api_at(c, "/v1/cli/tokens"@), c.probe_jwt), err_of(listed_id(device, log.rs[3])),
                    undoing(
                        log, (CLI_MS - 10_000) as u64, commands_next(c, token, log.rs),
                        deleting(api_at(c, "/v1/cli/tokens/"@ + id), c.probe_jwt), unrevoked(log.us[0]),
                    ),
                ),
            ),
        ),
    )
}

fn kl_commands_body(c: &Run, device: &str, log: &Log) -> (n: Next)
    ensures
        n@ == kl_commands_next(c@, device@, log@),
{
    if log.rs.len() <= 0 {
        return Next::Ask(post(api(c, "/v1/cli/code"), "", obj1("device", txt(device))));
    }
    let (code, poll) = match handshake_of(&log.rs[0]) {
        Err(why) => {
            return Next::Fail(why);
        },
        Ok(t) => t,
    };
    if log.rs.len() <= 1 {
        return Next::Ask(post(api(c, "/v1/cli/approve"), c.probe_jwt.as_str(), obj1("code", txt(code.as_str()))));
    }
    if let Some(why) = failed("the approval was refused", &log.rs[1]) {
        return Next::Fail(why);
    }
    if log.rs.len() <= 2 {
        return Next::Ask(get(api(c, cat2("/v1/cli/token?poll=", poll.as_str()).as_str()), ""));
    }
    let token = match made_full_of("the token collection failed", "token", "the approved login handed back no token", &log.rs[2]) {
        Err(why) => {
            return Next::Fail(why);
        },
        Ok(t) => t,
    };
    if log.rs.len() <= 3 {
        return Next::Ask(get(api(c, "/v1/cli/tokens"), c.probe_jwt.as_str()));
    }
    let id = match listed_id_of(device, &log.rs[3]) {
        Err(why) => {
            return Next::Fail(why);
        },
        Ok(t) => t,
    };
    undo_after(
        log, (CLI_MS - 10_000), commands_body(c, token.as_str(), log),
        erase(api(c, cat2("/v1/cli/tokens/", id.as_str()).as_str()), c.probe_jwt.as_str()), left_live_undo(log),
    )
}

// ── the console ─────────────────────────────────────────────────────────────

/// Why the nodes were not listed: a list, or a document that holds one.
pub open spec fn nodes_unlisted(r: ReplyV) -> Option<Seq<char>> {
    match doc_of(r) {
        Err(why) => Some(within("`/admin/nodes`"@, why)),
        Ok(d) => if items(member(d, "nodes"@)) is None && items(Some(d)) is None {
            Some("`/admin/nodes` did not answer a list"@)
        } else {
            None
        },
    }
}

fn no_nodes(r: &Reply) -> (o: Option<String>)
    ensures
        opt(o) == nodes_unlisted(r@),
{
    match doc(r) {
        Err(why) => Some(inside("`/admin/nodes`", why.as_str())),
        Ok(d) => {
            if array_of(d.get("nodes")).is_none() && array_of(Some(&d)).is_none() {
                Some("`/admin/nodes` did not answer a list".to_owned())
            } else {
                None
            }
        },
    }
}

/// Why the settings schema lacks a scope: each is a tab of the console, and one without fields is a
/// blank tab.
pub open spec fn scopes_missing(r: ReplyV) -> Option<Seq<char>> {
    match doc_of(r) {
        Err(why) => Some(within("`/admin/settings/schema`"@, why)),
        Ok(d) => if rows_of(member(d, "central"@)).len() == 0 {
            Some("the settings schema names no central field"@)
        } else if rows_of(member(d, "cluster"@)).len() == 0 {
            Some("the settings schema names no cluster field"@)
        } else {
            None
        },
    }
}

fn has_rows(d: &Json, key: &str) -> (r: bool)
    ensures
        r == (rows_of(member(d@, key@)).len() > 0),
{
    match array_of(d.get(key)) {
        Some(rows) => {
            proof {
                lemma_docs(rows@);
            }
            rows.len() > 0
        },
        None => false,
    }
}

fn no_scope(r: &Reply) -> (o: Option<String>)
    ensures
        opt(o) == scopes_missing(r@),
{
    match doc(r) {
        Err(why) => Some(inside("`/admin/settings/schema`", why.as_str())),
        Ok(d) => {
            if !has_rows(&d, "central") {
                Some("the settings schema names no central field".to_owned())
            } else if !has_rows(&d, "cluster") {
                Some("the settings schema names no cluster field".to_owned())
            } else {
                None
            }
        },
    }
}

/// Why a series that is on no list was not simply missing: its name would go into a query.
pub open spec fn series_known(r: ReplyV) -> Option<Seq<char>> {
    match raw_of(r) {
        Err(why) => Some(why),
        Ok((status, text)) => if status == 404 {
            None
        } else if status == 503 {
            Some(NO_HISTORY@)
        } else {
            Some("an unknown history series answered "@ + dec(status as nat) + ", not 404: "@ + clipped(text, 200))
        },
    }
}

fn known_series(r: &Reply) -> (o: Option<String>)
    ensures
        opt(o) == series_known(r@),
{
    match raw(r) {
        Err(why) => Some(why),
        Ok((status, text)) => {
            if status == 404 {
                None
            } else if status == 503 {
                Some(NO_HISTORY.to_owned())
            } else {
                Some(cat4(
                    "an unknown history series answered ", decimal(status as u64).as_str(), ", not 404: ",
                    first_chars(text.as_str(), 200).as_str(),
                ))
            }
        },
    }
}

/// The reads of the console, a status write that changes nothing, and a series that is on no list.
pub open spec fn reads_next(c: RunV, rs: Seq<ReplyV>) -> NextV {
    link(
        rs, 0, getting(admin_at(c, "/admin/nodes"@), c.admin_jwt), nodes_unlisted(rs[0]),
        link(
            rs, 1,
            getting(admin_at(c, "/admin/settings/schema"@), c.admin_jwt), scopes_missing(rs[1]),
            link(
                rs, 2,
                calling(
                    Verb::Put, admin_at(c, "/admin/clusters/"@ + c.region + "/status"@), c.admin_jwt,
                    PayloadV::Doc(Doc::Obj(seq![
                        ("status"@, Doc::Str("active"@)),
                        ("note"@, Doc::Str("slo probe status read"@)),
                    ])),
                ),
                call_failed("the cluster status write was refused"@, rs[2]),
                link(
                    rs, 3,
                    getting(admin_at(c, "/admin/history/no-such-series?range=1d&step=1h"@), c.admin_jwt), series_known(rs[3]),
                    NextV::Pass,
                ),
            ),
        ),
    )
}

fn reads_body(c: &Run, log: &Log) -> (n: Next)
    ensures
        n@ == reads_next(c@, log@.rs),
{
    if log.rs.len() <= 0 {
        return Next::Ask(get(admin(c, "/admin/nodes"), c.admin_jwt.as_str()));
    }
    if let Some(why) = no_nodes(&log.rs[0]) {
        return Next::Fail(why);
    }
    if log.rs.len() <= 1 {
        return Next::Ask(get(admin(c, "/admin/settings/schema"), c.admin_jwt.as_str()));
    }
    if let Some(why) = no_scope(&log.rs[1]) {
        return Next::Fail(why);
    }
    if log.rs.len() <= 2 {
        return Next::Ask(call(
            Verb::Put,
            admin(c, cat3("/admin/clusters/", c.region.as_str(), "/status").as_str()), c.admin_jwt.as_str(),
            Payload::Doc(obj2("status", txt("active"), "note", txt("slo probe status read"))),
        ));
    }
    if let Some(why) = failed("the cluster status write was refused", &log.rs[2]) {
        return Next::Fail(why);
    }
    if log.rs.len() <= 3 {
        return Next::Ask(get(admin(c, "/admin/history/no-such-series?range=1d&step=1h"), c.admin_jwt.as_str()));
    }
    end(known_series(&log.rs[3]))
}

// ── the bodies ──────────────────────────────────────────────────────────────

pub enum Body {
    QuotaNamespace,
    ServicesPolicies,
    Pages { own: Option<String> },
    Metadata { repo: String },
    SessionReads { name: String },
    KlCommands { device: String },
    Reads,
}

pub enum BodyV {
    QuotaNamespace,
    ServicesPolicies,
    Pages { own: Option<Seq<char>> },
    Metadata { repo: Seq<char> },
    SessionReads { name: Seq<char> },
    KlCommands { device: Seq<char> },
    Reads,
}

impl View for Body {
    type V = BodyV;

    open spec fn view(&self) -> BodyV {
        match self {
            Body::QuotaNamespace => BodyV::QuotaNamespace,
            Body::ServicesPolicies => BodyV::ServicesPolicies,
            Body::Pages { own } => BodyV::Pages { own: opt(*own) },
            Body::Metadata { repo } => BodyV::Metadata { repo: repo@ },
            Body::SessionReads { name } => BodyV::SessionReads { name: name@ },
            Body::KlCommands { device } => BodyV::KlCommands { device: device@ },
            Body::Reads => BodyV::Reads,
        }
    }
}

/// What a body does next.
pub open spec fn body_next(c: RunV, b: BodyV, log: LogV) -> NextV {
    match b {
        BodyV::QuotaNamespace => quota_namespace_next(c, log.rs),
        BodyV::ServicesPolicies => services_policies_next(c, log.rs),
        BodyV::Pages { own } => pages_next(no_slash(c.web_url), page_paths(c.probe_user, own), log, 0),
        BodyV::Metadata { repo } => metadata_next(c, repo, log.rs),
        BodyV::SessionReads { name } => session_reads_next(c, name, log.rs),
        BodyV::KlCommands { device } => kl_commands_next(c, device, log),
        BodyV::Reads => reads_next(c, log.rs),
    }
}

/// The stretch of a body that has a time of its own: how many replies it begins after, and how long it
/// is given.
pub open spec fn body_region(b: BodyV) -> Option<(usize, u64)> {
    match b {
        BodyV::KlCommands { .. } => Some((4usize, (CLI_MS - 10_000) as u64)),
        _ => None,
    }
}

impl Body {
    pub fn next(&self, c: &Run, log: &Log) -> (n: Next)
        ensures
            n@ == body_next(c@, self@, log@),
    {
        match self {
            Body::QuotaNamespace => quota_namespace_body(c, log),
            Body::ServicesPolicies => services_policies_body(c, log),
            Body::Pages { own } => pages_body(c, own, log),
            Body::Metadata { repo } => metadata_body(c, repo.as_str(), log),
            Body::SessionReads { name } => session_reads_body(c, name.as_str(), log),
            Body::KlCommands { device } => kl_commands_body(c, device.as_str(), log),
            Body::Reads => reads_body(c, log),
        }
    }

    pub fn region(&self) -> (r: Option<(usize, u64)>)
        ensures
            r == body_region(self@),
    {
        match self {
            Body::KlCommands { .. } => Some((4, (CLI_MS - 10_000))),
            _ => None,
        }
    }
}

// ── the journeys ────────────────────────────────────────────────────────────

pub open spec fn quota_namespace_move(c: RunV, os: Seq<OutcomeV>) -> MoveV<BodyV> {
    one_move("ws.quota.namespace"@, KUBE_MS, "no kubeconfig"@, if c.has_kube { Some(BodyV::QuotaNamespace) } else { None }, os)
}

/// `ws.quota.namespace`.
pub fn quota_namespace(c: &Run, os: &Vec<Outcome>) -> (m: Move<Body>)
    ensures
        m@ == quota_namespace_move(c@, outcomes(os@)),
{
    let body = if c.has_kube { Some(Body::QuotaNamespace) } else { None };
    one("ws.quota.namespace", KUBE_MS, "no kubeconfig", body, os)
}

pub open spec fn services_policies_move(c: RunV, os: Seq<OutcomeV>) -> MoveV<BodyV> {
    one_move("env.services.policies"@, KUBE_MS, "no kubeconfig"@, if c.has_kube { Some(BodyV::ServicesPolicies) } else { None }, os)
}

/// `env.services.policies`.
pub fn services_policies(c: &Run, os: &Vec<Outcome>) -> (m: Move<Body>)
    ensures
        m@ == services_policies_move(c@, outcomes(os@)),
{
    let body = if c.has_kube { Some(Body::ServicesPolicies) } else { None };
    one("env.services.policies", KUBE_MS, "no kubeconfig", body, os)
}

pub open spec fn pages_move(s: StateV, os: Seq<OutcomeV>) -> MoveV<BodyV> {
    one_move("web.pages"@, PAGES_MS, ""@, Some(BodyV::Pages { own: s.repo }), os)
}

/// `web.pages`: without a repo the pages that need none are walked.
pub fn pages(s: &State, os: &Vec<Outcome>) -> (m: Move<Body>)
    ensures
        m@ == pages_move(s@, outcomes(os@)),
{
    let own = match &s.repo {
        Some(t) => Some(t.clone()),
        None => None,
    };
    one("web.pages", PAGES_MS, "", Some(Body::Pages { own }), os)
}

pub open spec fn metadata_move(s: StateV, os: Seq<OutcomeV>) -> MoveV<BodyV> {
    one_move(
        "repo.metadata"@, READ_MS, "no repo"@,
        (match s.repo { Some(repo) => Some(BodyV::Metadata { repo }), None => None }), os,
    )
}

/// `repo.metadata`.
pub fn metadata(s: &State, os: &Vec<Outcome>) -> (m: Move<Body>)
    ensures
        m@ == metadata_move(s@, outcomes(os@)),
{
    let body = match &s.repo {
        Some(repo) => Some(Body::Metadata { repo: repo.clone() }),
        None => None,
    };
    one("repo.metadata", READ_MS, "no repo", body, os)
}

pub open spec fn session_reads_move(c: RunV, os: Seq<OutcomeV>) -> MoveV<BodyV> {
    one_move("id.session.reads"@, READ_MS, ""@, Some(BodyV::SessionReads { name: named(c, "-used"@) }), os)
}

/// `id.session.reads`.
pub fn session_reads(c: &Run, os: &Vec<Outcome>) -> (m: Move<Body>)
    ensures
        m@ == session_reads_move(c@, outcomes(os@)),
{
    one("id.session.reads", READ_MS, "", Some(Body::SessionReads { name: name(c, "-used") }), os)
}

pub open spec fn kl_commands_move(c: RunV, os: Seq<OutcomeV>) -> MoveV<BodyV> {
    one_move("kl.commands"@, CLI_MS, ""@, Some(BodyV::KlCommands { device: named(c, "-klc"@) }), os)
}

/// `kl.commands`.
pub fn kl_commands(c: &Run, os: &Vec<Outcome>) -> (m: Move<Body>)
    ensures
        m@ == kl_commands_move(c@, outcomes(os@)),
{
    one("kl.commands", CLI_MS, "", Some(Body::KlCommands { device: name(c, "-klc") }), os)
}

pub open spec fn reads_move(os: Seq<OutcomeV>) -> MoveV<BodyV> {
    let id = "admin.reads"@;
    if os.len() == 0 {
        MoveV::Step { id, ceiling_ms: READ_MS, body: BodyV::Reads }
    } else if os.len() == 1 && holds(failure_or_empty(os[0]), NO_HISTORY@) {
        MoveV::Demote { id, why: NO_HISTORY@ }
    } else {
        MoveV::End
    }
}

/// `admin.reads`. A deployment without a history is no broken list: what the step found is told, and
/// counts as neither a pass nor a failure.
pub fn reads(os: &Vec<Outcome>) -> (m: Move<Body>)
    ensures
        m@ == reads_move(outcomes(os@)),
{
    let id = "admin.reads";
    if os.len() == 0 {
        step(id, READ_MS, Body::Reads)
    } else if os.len() == 1 && contains(os[0].failure_or_empty().as_str(), NO_HISTORY) {
        Move::Demote { id, why: NO_HISTORY.to_owned() }
    } else {
        Move::End
    }
}

/// Whatever comes back, each id is reported exactly once.
pub proof fn law_every_id_is_reported_once(c: RunV, s: StateV, os: Seq<OutcomeV>)
    ensures
        reports_exactly(|o: Seq<OutcomeV>| quota_namespace_move(c, o), os, seq!["ws.quota.namespace"@], 2),
        reports_exactly(|o: Seq<OutcomeV>| services_policies_move(c, o), os, seq!["env.services.policies"@], 2),
        reports_exactly(|o: Seq<OutcomeV>| pages_move(s, o), os, seq!["web.pages"@], 2),
        reports_exactly(|o: Seq<OutcomeV>| metadata_move(s, o), os, seq!["repo.metadata"@], 2),
        reports_exactly(|o: Seq<OutcomeV>| session_reads_move(c, o), os, seq!["id.session.reads"@], 2),
        reports_exactly(|o: Seq<OutcomeV>| kl_commands_move(c, o), os, seq!["kl.commands"@], 2),
        reports_exactly(|o: Seq<OutcomeV>| reads_move(o), os, seq!["admin.reads"@], 2),
    decreases os.len(),
{
    reveal_with_fuel(reports, 3);
    if os.len() > 2 {
        law_every_id_is_reported_once(c, s, os.drop_last());
    }
}

/// Once a passkey was registered, whatever became of its mark, the passkey is taken away before anything
/// else.
pub proof fn law_the_passkey_is_taken_away(c: RunV, name: Seq<char>, rs: Seq<ReplyV>)
    requires
        rs.len() == 3,
        hostless(rs[0]) is None,
        call_error(rs[1]) is None,
    ensures
        session_reads_next(c, name, rs) == NextV::Ask(
            deleting(api_at(c, "/v1/passkeys/"@ + passkey_id(name, rs[1])), c.probe_jwt),
        ),
{
}

/// Once there is a login, the body is not over before its revocation was asked for.
pub proof fn law_the_login_is_revoked(c: RunV, device: Seq<char>, log: LogV)
    requires
        log.rs.len() >= 4,
        handshake(log.rs[0]) is Ok,
        call_error(log.rs[1]) is None,
        made_full("the token collection failed"@, "token"@, "the approved login handed back no token"@, log.rs[2]) is Ok,
        listed_id(device, log.rs[3]) is Ok,
        log.us.len() == 0,
    ensures
        !(kl_commands_next(c, device, log) is Pass),
        !(kl_commands_next(c, device, log) is Fail),
        log.cut ==> kl_commands_next(c, device, log) == NextV::Undo(
            deleting(api_at(c, "/v1/cli/tokens/"@ + listed_id(device, log.rs[3])->Ok_0), c.probe_jwt),
        ),
{
}

/// Of a series on no list only a 404 passes: a history that is not there is said to be that.
pub proof fn law_only_a_missing_series_passes(r: ReplyV)
    ensures
        series_known(r) is None <==> (raw_of(r) matches Ok(p) && p.0 == 404),
        (raw_of(r) matches Ok(p) && p.0 == 503) ==> series_known(r) == Some(NO_HISTORY@),
{
}

} // verus!
