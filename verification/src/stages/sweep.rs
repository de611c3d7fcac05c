//! What a run does before its journey and after it: it sweeps away what an earlier run left behind, and
//! then what it made itself.
//!
//! Every delete is made as far as it can be: what is refused is litter, which the next run takes.

use vstd::prelude::*;

use crate::json::{Doc, Json, array_of, docs, lemma_docs, obj1, rows_of, text_of, txt};
use crate::reply::{all_in_turn, asks_view, call_error, doc, doc_of, error, take_all};
use crate::run::{Run, RunV, State, StateV, admin, admin_at, api, api_at, law_names_carry_the_prefix, named, prefix, prefix_of};
use crate::stages::gaps::{path_seg, segment};
use crate::stages::monthly::outages::{unpolicy, unpolicy_asks};
use crate::stages::monthly::{CH_NETPOL, NETPOL};
use crate::text::{
    after_prefix, cat2, cat3, cat4, cat5, copy_texts, dec, decimal, digit_value, first_at, law_a_number_reads_as_it_is_written,
    lemma_dec, lemma_first_at, parse_signed, parts, same, signed_of, split, starts, starts_with, strip_prefix, texts,
};
use crate::turn::{Move, MoveV, Outcome, OutcomeV, look, outcomes, reported};
use crate::wire::{
    Ask, AskV, Log, LogV, Next, NextV, Reply, ReplyV, also, deleting, erase, get, get_within, getting, getting_within, opt,
    pairs, patch, patching, post, posting, seen,
};

verus! {

/// The suites a run can be of.
pub const SUITES: [&'static str; 4] = ["fast", "hourly", "weekly", "monthly"];

/// What is this old belongs to no run that is still going on. Without this, two runs at once would delete
/// each other's objects.
pub const STALE_SECS: i64 = 3_600;

/// What a listing is given.
pub const LIST_MS: u64 = 30_000;

// ── what a sweep claims ─────────────────────────────────────────────────────

pub open spec fn is_suite(t: Seq<char>) -> bool {
    t == SUITES[0]@ || t == SUITES[1]@ || t == SUITES[2]@ || t == SUITES[3]@
}

fn known_suite(t: &str) -> (r: bool)
    ensures
        r == is_suite(t@),
{
    same(t, SUITES[0]) || same(t, SUITES[1]) || same(t, SUITES[2]) || same(t, SUITES[3])
}

/// A name a run gave that began more than an hour ago. Both its suite and its time have to be read off
/// it: `run-` is a beginning that somebody else could choose.
pub open spec fn is_stale(name: Seq<char>, now: int) -> bool {
    match after_prefix(name, "run-"@) {
        None => false,
        Some(rest) => {
            let p = parts(rest, '-');
            p.len() >= 2 && is_suite(p[0]) && (match signed_of(p[1]) {
                Some(t) => now - t > STALE_SECS,
                None => false,
            })
        },
    }
}

pub fn stale(name: &str, now: i64) -> (r: bool)
    ensures
        r == is_stale(name@, now as int),
{
    let rest = match strip_prefix(name, "run-") {
        None => {
            return false;
        },
        Some(rest) => rest,
    };
    let p = split(rest.as_str(), '-');
    proof {
        assert(texts(p@).len() == p@.len());
        assert(forall|k: int| 0 <= k < p@.len() ==> texts(p@)[k] == (#[trigger] p@[k])@);
    }
    if p.len() < 2 || !known_suite(p[0].as_str()) {
        return false;
    }
    match parse_signed(p[1].as_str()) {
        Some(t) => (now as i128) - (t as i128) > STALE_SECS as i128,
        None => false,
    }
}

/// What a sweep claims: what an earlier run left, or what one run made.
pub enum Claim {
    Stale { now: i64 },
    Prefix { prefix: String },
}

pub enum ClaimV {
    Stale { now: i64 },
    Prefix { prefix: Seq<char> },
}

impl View for Claim {
    type V = ClaimV;

    open spec fn view(&self) -> ClaimV {
        match self {
            Claim::Stale { now } => ClaimV::Stale { now: *now },
            Claim::Prefix { prefix } => ClaimV::Prefix { prefix: prefix@ },
        }
    }
}

pub open spec fn claims(m: ClaimV, name: Seq<char>) -> bool {
    match m {
        ClaimV::Stale { now } => is_stale(name, now as int),
        ClaimV::Prefix { prefix } => starts(name, prefix),
    }
}

impl Claim {
    pub fn on(&self, name: &str) -> (r: bool)
        ensures
            r == claims(self@, name@),
    {
        match self {
            Claim::Stale { now } => stale(name, *now),
            Claim::Prefix { prefix } => starts_with(name, prefix.as_str()),
        }
    }
}

// ── what there is to sweep ──────────────────────────────────────────────────

/// How many kinds of objects a run makes. They are swept in order; the order matters at one point, which
/// is that a volume can only go after the workspaces and the environments that are on it.
pub const KINDS: usize = 9;

/// The kind that is denied instead of deleted: a request has no delete, and a denied one does not hold up
/// the next.
pub const REQUESTS: usize = 7;

/// The kind whose ids would not each be one segment of a path as they stand: a key's is its fingerprint,
/// and base64 has slashes in it.
pub const KEYS: usize = 5;

/// The kind that is no collection of its own, and whose delete is a post.
pub const IMAGES: usize = 8;

pub const LISTS: [&'static str; 8] = [
    "/v1/workspaces", "/v1/environments", "/v1/volumes", "/v1/repos", "/v1/tokens", "/v1/keys", "/v1/cli/tokens", "/v1/requests",
];

/// The field that has the name that was chosen, which is the only one a claim can be made on: a volume's
/// own name is an id, and so is a request's.
pub const NAME_FIELDS: [&'static str; 9] = ["name", "name", "display_name", "name", "name", "name", "name", "reason", "name"];

/// The field that a delete takes.
pub const ID_FIELDS: [&'static str; 9] = ["id", "id", "name", "name", "_id", "_id", "id", "id", "name"];

/// The objects of a kind, listed.
pub open spec fn listing(c: RunV, k: int) -> AskV {
    if k == IMAGES {
        getting(api_at(c, "/api/"@ + c.tenant + "/images"@), c.probe_jwt)
    } else {
        getting_within(api_at(c, LISTS[k]@ + "?owner="@ + c.tenant), c.probe_jwt, LIST_MS)
    }
}

fn list(c: &Run, k: usize) -> (r: Ask)
    requires
        k < KINDS,
    ensures
        r@ == listing(c@, k as int),
{
    if k == IMAGES {
        get(api(c, cat3("/api/", c.tenant.as_str(), "/images").as_str()), c.probe_jwt.as_str())
    } else {
        get_within(api(c, cat3(LISTS[k], "?owner=", c.tenant.as_str()).as_str()), c.probe_jwt.as_str(), LIST_MS)
    }
}

/// One object of a kind, taken away.
pub open spec fn taking(c: RunV, k: int, id: Seq<char>) -> AskV {
    if k == REQUESTS {
        posting(
            admin_at(c, "/admin/requests/"@ + id + "/deny"@), c.admin_jwt,
            Doc::Obj(seq![("note"@, Doc::Str("slo probe teardown"@))]),
        )
    } else if k == IMAGES {
        posting(api_at(c, "/api/"@ + c.tenant + "/"@ + id + "/imagedelete"@), c.probe_jwt, Doc::Null)
    } else if k == 3 {
        deleting(api_at(c, "/v1/repos/"@ + c.tenant + "/"@ + id), c.probe_jwt)
    } else if k == KEYS {
        deleting(api_at(c, "/v1/keys/"@ + segment(id)), c.probe_jwt)
    } else {
        deleting(api_at(c, LISTS[k]@ + "/"@ + id), c.probe_jwt)
    }
}

fn take(c: &Run, k: usize, id: &str) -> (r: Ask)
    requires
        k < KINDS,
    ensures
        r@ == taking(c@, k as int, id@),
{
    if k == REQUESTS {
        post(
            admin(c, cat3("/admin/requests/", id, "/deny").as_str()), c.admin_jwt.as_str(),
            obj1("note", txt("slo probe teardown")),
        )
    } else if k == IMAGES {
        post(api(c, cat5("/api/", c.tenant.as_str(), "/", id, "/imagedelete").as_str()), c.probe_jwt.as_str(), Json::Null)
    } else if k == 3 {
        erase(api(c, cat4("/v1/repos/", c.tenant.as_str(), "/", id).as_str()), c.probe_jwt.as_str())
    } else if k == KEYS {
        erase(api(c, cat2("/v1/keys/", path_seg(id).as_str()).as_str()), c.probe_jwt.as_str())
    } else {
        erase(api(c, cat3(LISTS[k], "/", id).as_str()), c.probe_jwt.as_str())
    }
}

/// The rows that are claimed, each by its name and what its delete takes. A row without both is nobody's.
pub open spec fn claimed(rows: Seq<Doc>, name_field: Seq<char>, id_field: Seq<char>, m: ClaimV) -> Seq<(Seq<char>, Seq<char>)>
    decreases rows.len(),
{
    if rows.len() == 0 {
        seq![]
    } else {
        let before = claimed(rows.drop_last(), name_field, id_field, m);
        match (text_of(rows.last(), name_field), text_of(rows.last(), id_field)) {
            (Some(name), Some(id)) => if claims(m, name) { before.push((name, id)) } else { before },
            _ => before,
        }
    }
}

/// What is claimed of a listing; one that cannot be read lists nothing.
pub open spec fn ours(k: int, m: ClaimV, r: ReplyV) -> Seq<(Seq<char>, Seq<char>)> {
    match doc_of(r) {
        Err(_) => seq![],
        Ok(d) => claimed(rows_of(Some(d)), NAME_FIELDS[k]@, ID_FIELDS[k]@, m),
    }
}

fn claimed_rows(rows: &Vec<Json>, name_field: &str, id_field: &str, m: &Claim) -> (r: Vec<(String, String)>)
    ensures
        pairs(r@) == claimed(docs(rows@), name_field@, id_field@, m@),
{
    let ghost all = docs(rows@);
    let mut r: Vec<(String, String)> = Vec::new();
    let mut i: usize = 0;
    proof {
        lemma_docs(rows@);
        assert(all.take(0) =~= Seq::<Doc>::empty());
        assert(pairs(r@) =~= Seq::<(Seq<char>, Seq<char>)>::empty());
    }
    while i < rows.len()
        invariant
            i <= rows@.len(),
            all == docs(rows@),
            all.len() == rows@.len(),
            forall|k: int| 0 <= k < rows@.len() ==> all[k] == (#[trigger] rows@[k])@,
            pairs(r@) == claimed(all.take(i as int), name_field@, id_field@, m@),
        decreases rows.len() - i,
    {
        proof {
            assert(all.take(i + 1).drop_last() =~= all.take(i as int));
            assert(all.take(i + 1).last() == rows@[i as int]@);
        }
        let ghost before = r@;
        if let Some(name) = rows[i].text_at(name_field) {
            if let Some(id) = rows[i].text_at(id_field) {
                if m.on(name.as_str()) {
                    r.push((name, id));
                    proof {
                        assert(pairs(r@) =~= pairs(before).push((name@, id@)));
                    }
                }
            }
        }
        i = i + 1;
    }
    proof {
        assert(all.take(all.len() as int) =~= all);
    }
    r
}

fn list_ours(k: usize, m: &Claim, r: &Reply) -> (v: Vec<(String, String)>)
    requires
        k < KINDS,
    ensures
        pairs(v@) == ours(k as int, m@, r@),
{
    let none: Vec<Json> = Vec::new();
    proof {
        lemma_docs(none@);
        assert(docs(none@) =~= Seq::<Doc>::empty());
    }
    match doc(r) {
        Err(_) => {
            let v: Vec<(String, String)> = Vec::new();
            proof {
                assert(pairs(v@) =~= Seq::<(Seq<char>, Seq<char>)>::empty());
            }
            v
        },
        Ok(d) => match array_of(Some(&d)) {
            Some(rows) => claimed_rows(rows, NAME_FIELDS[k], ID_FIELDS[k], m),
            None => claimed_rows(&none, NAME_FIELDS[k], ID_FIELDS[k], m),
        },
    }
}

/// What is claimed is in the listing, under a name that is claimed.
pub proof fn law_only_what_is_listed_is_claimed(rows: Seq<Doc>, name_field: Seq<char>, id_field: Seq<char>, m: ClaimV)
    ensures
        forall|i: int|
            0 <= i < claimed(rows, name_field, id_field, m).len() ==> {
                let (name, id) = #[trigger] claimed(rows, name_field, id_field, m)[i];
                claims(m, name) && lists(rows, name_field, id_field, name, id)
            },
    decreases rows.len(),
{
    if rows.len() > 0 {
        let rest = rows.drop_last();
        law_only_what_is_listed_is_claimed(rest, name_field, id_field, m);
        assert forall|i: int| 0 <= i < claimed(rows, name_field, id_field, m).len() implies ({
            let (name, id) = #[trigger] claimed(rows, name_field, id_field, m)[i];
            claims(m, name) && lists(rows, name_field, id_field, name, id)
        }) by {
            let (name, id) = claimed(rows, name_field, id_field, m)[i];
            if i < claimed(rest, name_field, id_field, m).len() {
                assert(claimed(rest, name_field, id_field, m)[i] == (name, id));
                let j = choose|j: int| 0 <= j < rest.len() && is_row(#[trigger] rest[j], name_field, id_field, name, id);
                assert(rows[j] == rest[j]);
            } else {
                assert(is_row(rows[rows.len() - 1], name_field, id_field, name, id));
            }
        }
    }
}

pub open spec fn is_row(row: Doc, name_field: Seq<char>, id_field: Seq<char>, name: Seq<char>, id: Seq<char>) -> bool {
    text_of(row, name_field) == Some(name) && text_of(row, id_field) == Some(id)
}

pub open spec fn lists(rows: Seq<Doc>, name_field: Seq<char>, id_field: Seq<char>, name: Seq<char>, id: Seq<char>) -> bool {
    exists|j: int| 0 <= j < rows.len() && is_row(#[trigger] rows[j], name_field, id_field, name, id)
}

/// Nothing that is listed under a claimed name is left out.
pub proof fn law_nothing_claimed_is_left_out(
    rows: Seq<Doc>, name_field: Seq<char>, id_field: Seq<char>, m: ClaimV, name: Seq<char>, id: Seq<char>,
)
    requires
        lists(rows, name_field, id_field, name, id),
        claims(m, name),
    ensures
        claimed(rows, name_field, id_field, m).contains((name, id)),
    decreases rows.len(),
{
    let all = claimed(rows, name_field, id_field, m);
    let j = choose|j: int| 0 <= j < rows.len() && is_row(#[trigger] rows[j], name_field, id_field, name, id);
    if j == rows.len() - 1 {
        assert(all.last() == (name, id));
        assert(all[all.len() - 1] == (name, id));
    } else {
        let rest = rows.drop_last();
        assert(rest[j] == rows[j]);
        law_nothing_claimed_is_left_out(rest, name_field, id_field, m, name, id);
        let before = claimed(rest, name_field, id_field, m);
        let i = choose|i: int| 0 <= i < before.len() && before[i] == (name, id);
        assert(all[i] == (name, id));
    }
}

// ── the sweep ───────────────────────────────────────────────────────────────

/// Every kind in turn, from `k` on: its listing, and then each claimed object of it.
pub open spec fn sweep_from(c: RunV, m: ClaimV, k: nat, rs: Seq<ReplyV>) -> NextV
    decreases KINDS - k,
{
    if k >= KINDS {
        NextV::Pass
    } else if rs.len() == 0 {
        NextV::Ask(listing(c, k as int))
    } else {
        let mine = ours(k as int, m, rs[0]);
        if rs.len() <= mine.len() {
            NextV::Ask(taking(c, k as int, mine[rs.len() - 1].1))
        } else {
            sweep_from(c, m, k + 1, rs.skip(mine.len() as int + 1))
        }
    }
}

/// How many answers say that what was asked was done.
pub open spec fn done(rs: Seq<ReplyV>) -> nat
    decreases rs.len(),
{
    if rs.len() == 0 {
        0
    } else {
        done(rs.drop_last()) + (if call_error(rs.last()) is None { 1nat } else { 0nat })
    }
}

/// How many objects went.
pub open spec fn swept_from(m: ClaimV, k: nat, rs: Seq<ReplyV>) -> nat
    decreases KINDS - k,
{
    if k >= KINDS || rs.len() == 0 {
        0
    } else {
        let mine = ours(k as int, m, rs[0]);
        if rs.len() <= mine.len() {
            done(rs.skip(1))
        } else {
            done(rs.subrange(1, mine.len() as int + 1)) + swept_from(m, k + 1, rs.skip(mine.len() as int + 1))
        }
    }
}

fn sweep_body(c: &Run, m: &Claim, log: &Log) -> (n: Next)
    ensures
        n@ == sweep_from(c@, m@, 0, log@.rs),
{
    let ghost all = log@.rs;
    let mut k: usize = 0;
    let mut from: usize = 0;
    proof {
        assert(all.skip(0) =~= all);
    }
    while k < KINDS
        invariant
            k <= KINDS,
            from <= log.rs@.len(),
            all == log@.rs,
            all.len() == log.rs@.len(),
            forall|i: int| 0 <= i < all.len() ==> #[trigger] all[i] == log.rs@[i]@,
            sweep_from(c@, m@, 0, all) == sweep_from(c@, m@, k as nat, all.skip(from as int)),
        decreases KINDS - k,
    {
        let n: usize = log.rs.len() - from;
        if n == 0 {
            return Next::Ask(list(c, k));
        }
        proof {
            assert(all.skip(from as int)[0] == all[from as int]);
        }
        let mine = list_ours(k, m, &log.rs[from]);
        if n <= mine.len() {
            return Next::Ask(take(c, k, mine[n - 1].1.as_str()));
        }
        proof {
            assert(all.skip(from as int).skip(mine@.len() as int + 1) =~= all.skip(from + mine@.len() + 1));
        }
        from = from + mine.len() + 1;
        k = k + 1;
    }
    Next::Pass
}

fn count_done(rs: &Vec<Reply>, from: usize, to: usize) -> (n: usize)
    requires
        from <= to <= rs@.len(),
    ensures
        n == done(seen(rs@).subrange(from as int, to as int)),
        n <= to - from,
{
    let ghost all = seen(rs@);
    let mut n: usize = 0;
    let mut i: usize = from;
    proof {
        assert(all.subrange(from as int, from as int) =~= Seq::<ReplyV>::empty());
    }
    while i < to
        invariant
            from <= i <= to <= rs@.len(),
            all == seen(rs@),
            all.len() == rs@.len(),
            n == done(all.subrange(from as int, i as int)),
            n <= i - from,
        decreases to - i,
    {
        proof {
            assert(all.subrange(from as int, i + 1).drop_last() =~= all.subrange(from as int, i as int));
            assert(all.subrange(from as int, i + 1).last() == rs@[i as int]@);
        }
        if error(&rs[i]).is_none() {
            n = n + 1;
        }
        i = i + 1;
    }
    n
}

/// How many objects a sweep has taken away.
pub fn swept(m: &Claim, log: &Log) -> (n: usize)
    ensures
        n == swept_from(m@, 0, log@.rs),
{
    let ghost all = log@.rs;
    let mut k: usize = 0;
    let mut from: usize = 0;
    let mut n: usize = 0;
    proof {
        assert(all.skip(0) =~= all);
    }
    while k < KINDS
        invariant
            k <= KINDS,
            from <= log.rs@.len(),
            n <= from,
            all == log@.rs,
            all == seen(log.rs@),
            all.len() == log.rs@.len(),
            forall|i: int| 0 <= i < all.len() ==> #[trigger] all[i] == log.rs@[i]@,
            swept_from(m@, 0, all) == n + swept_from(m@, k as nat, all.skip(from as int)),
        decreases KINDS - k,
    {
        let left: usize = log.rs.len() - from;
        if left == 0 {
            return n;
        }
        proof {
            assert(all.skip(from as int)[0] == all[from as int]);
        }
        let mine = list_ours(k, m, &log.rs[from]);
        if left <= mine.len() {
            proof {
                assert(all.skip(from as int).skip(1) =~= all.subrange(from + 1, all.len() as int));
            }
            return n + count_done(&log.rs, from + 1, log.rs.len());
        }
        proof {
            assert(all.skip(from as int).subrange(1, mine@.len() as int + 1) =~= all.subrange(
                from + 1, from + mine@.len() + 1,
            ));
            assert(all.skip(from as int).skip(mine@.len() as int + 1) =~= all.skip(from + mine@.len() + 1));
        }
        n = n + count_done(&log.rs, from + 1, from + mine.len() + 1);
        from = from + mine.len() + 1;
        k = k + 1;
    }
    n
}

/// What a sweep asks, if it is not a listing, takes away an object that one of the listings it was
/// answered has under a claimed name.
pub open spec fn takes_ours(c: RunV, m: ClaimV, rs: Seq<ReplyV>, ask: AskV) -> bool {
    exists|k: int, j: int, i: int|
        0 <= k < KINDS && 0 <= j < rs.len() && 0 <= i < ours(k, m, rs[j]).len() && ask == taking(
            c, k, (#[trigger] ours(k, m, rs[j])[i]).1,
        )
}

pub open spec fn is_listing(c: RunV, ask: AskV) -> bool {
    exists|k: int| 0 <= k < KINDS && ask == #[trigger] listing(c, k)
}

/// A sweep lists, and takes away what it claims of what was listed. It asks nothing else.
pub proof fn law_a_sweep_takes_only_what_it_claims(c: RunV, m: ClaimV, k: nat, rs: Seq<ReplyV>)
    ensures
        !(sweep_from(c, m, k, rs) is Fail),
        !(sweep_from(c, m, k, rs) is Undo),
        sweep_from(c, m, k, rs) matches NextV::Ask(ask) ==> is_listing(c, ask) || takes_ours(c, m, rs, ask),
    decreases KINDS - k,
{
    if k < KINDS {
        if rs.len() == 0 {
            assert(is_listing(c, listing(c, k as int)));
        } else {
            let mine = ours(k as int, m, rs[0]);
            if rs.len() <= mine.len() {
                let i = rs.len() - 1;
                assert(ours(k as int, m, rs[0])[i] == mine[i]);
                assert(takes_ours(c, m, rs, taking(c, k as int, mine[i].1)));
            } else {
                let rest = rs.skip(mine.len() as int + 1);
                law_a_sweep_takes_only_what_it_claims(c, m, k + 1, rest);
                if let NextV::Ask(ask) = sweep_from(c, m, k + 1, rest) {
                    if takes_ours(c, m, rest, ask) {
                        let (kk, j, i) = choose|kk: int, j: int, i: int|
                            0 <= kk < KINDS && 0 <= j < rest.len() && 0 <= i < ours(kk, m, rest[j]).len() && ask == taking(
                                c, kk, (#[trigger] ours(kk, m, rest[j])[i]).1,
                            );
                        let at = j + mine.len() as int + 1;
                        assert(rs[at] == rest[j]);
                        assert(ours(kk, m, rs[at])[i] == ours(kk, m, rest[j])[i]);
                        assert(takes_ours(c, m, rs, ask));
                    }
                }
            }
        }
    }
}

/// Which kind a sweep has come to.
pub open spec fn reached(m: ClaimV, k: nat, rs: Seq<ReplyV>) -> nat
    decreases KINDS - k,
{
    if k >= KINDS || rs.len() <= ours(k as int, m, rs[0]).len() || rs.len() == 0 {
        k
    } else {
        reached(m, k + 1, rs.skip(ours(k as int, m, rs[0]).len() as int + 1))
    }
}

/// A volume is only come to once every claimed workspace and every claimed environment has had its
/// answer.
pub proof fn law_what_is_on_a_volume_goes_first(c: RunV, m: ClaimV, rs: Seq<ReplyV>)
    requires
        reached(m, 0, rs) >= 2,
    ensures
        rs.len() >= ours(0, m, rs[0]).len() + 1,
        rs.len() >= ours(0, m, rs[0]).len() + 1 + ours(1, m, rs[ours(0, m, rs[0]).len() as int + 1]).len() + 1,
{
    reveal_with_fuel(reached, 2);
    let n = ours(0, m, rs[0]).len() as int + 1;
    if rs.len() >= n && rs.len() > 0 {
        let rest = rs.skip(n);
        if rest.len() > 0 {
            assert(rest[0] == rs[n]);
        }
    }
}

// ── hiding, the volume and the drills ───────────────────────────────────────

/// Every image of the run's, made private.
pub open spec fn hide_images(c: RunV, rs: Seq<ReplyV>) -> NextV {
    if rs.len() == 0 {
        NextV::Ask(listing(c, IMAGES as int))
    } else {
        let mine = ours(IMAGES as int, ClaimV::Prefix { prefix: prefix_of(c) }, rs[0]);
        if rs.len() <= mine.len() {
            NextV::Ask(
                posting(
                    api_at(c, "/api/"@ + c.tenant + "/"@ + mine[rs.len() - 1].1 + "/imagevisibility?visibility=private"@),
                    c.probe_jwt, Doc::Null,
                ),
            )
        } else {
            NextV::Pass
        }
    }
}

/// What the run may have made public, made private again. A public object whose delete is refused would
/// stay public.
pub open spec fn hide_next(c: RunV, repo: Option<Seq<char>>, rs: Seq<ReplyV>) -> NextV {
    match repo {
        None => hide_images(c, rs),
        Some(repo) => also(
            rs, 0,
            patching(
                api_at(c, "/v1/repos/"@ + c.tenant + "/"@ + repo), c.probe_jwt,
                Doc::Obj(seq![("visibility"@, Doc::Str("private"@))]),
            ),
            hide_images(c, rs.skip(1)),
        ),
    }
}

fn hide_body(c: &Run, repo: &Option<String>, log: &Log) -> (n: Next)
    ensures
        n@ == hide_next(c@, opt(*repo), log@.rs),
{
    let mut from: usize = 0;
    if let Some(repo) = repo {
        if log.rs.len() == 0 {
            return Next::Ask(patch(
                api(c, cat4("/v1/repos/", c.tenant.as_str(), "/", repo.as_str()).as_str()), c.probe_jwt.as_str(),
                obj1("visibility", txt("private")),
            ));
        }
        from = 1;
    }
    let ghost all = log@.rs;
    proof {
        assert(all.skip(0) =~= all);
    }
    let left: usize = log.rs.len() - from;
    if left == 0 {
        return Next::Ask(list(c, IMAGES));
    }
    proof {
        assert(all.skip(from as int)[0] == log.rs@[from as int]@);
    }
    let mine = list_ours(IMAGES, &Claim::Prefix { prefix: prefix(c) }, &log.rs[from]);
    if left <= mine.len() {
        return Next::Ask(post(
            api(c, cat5("/api/", c.tenant.as_str(), "/", mine[left - 1].1.as_str(), "/imagevisibility?visibility=private").as_str()),
            c.probe_jwt.as_str(), Json::Null,
        ));
    }
    Next::Pass
}

/// The environment's own volume, by its name: its snapshot first, since the last one of a volume that
/// nothing is on takes the volume with it.
pub open spec fn volume_asks(c: RunV, volume: Seq<char>, snapshot: Option<Seq<char>>) -> Seq<AskV> {
    let whole = deleting(api_at(c, "/v1/volumes/"@ + volume), c.probe_jwt);
    match snapshot {
        Some(s) => seq![deleting(api_at(c, "/v1/volumes/"@ + volume + "/snapshots/"@ + s), c.probe_jwt), whole],
        None => seq![whole],
    }
}

fn volume_body(c: &Run, volume: &str, snapshot: &Option<String>, log: &Log) -> (n: Next)
    ensures
        n@ == all_in_turn(volume_asks(c@, volume@, opt(*snapshot)), log@.rs),
{
    let whole = erase(api(c, cat2("/v1/volumes/", volume).as_str()), c.probe_jwt.as_str());
    let mut asks: Vec<Ask> = Vec::new();
    if let Some(s) = snapshot {
        asks.push(erase(api(c, cat4("/v1/volumes/", volume, "/snapshots/", s.as_str()).as_str()), c.probe_jwt.as_str()));
    }
    asks.push(whole);
    proof {
        assert(asks_view(asks@) =~= volume_asks(c@, volume@, opt(*snapshot)));
        assert(log@.rs.skip(0) =~= log@.rs);
    }
    take_all(asks, &log.rs, 0)
}

/// What the run remembers by its id: the credential it minted, the login it collected for the CLI, and
/// the volumes that no prefix finds.
pub open spec fn named_asks(c: RunV, token: Option<Seq<char>>, cli_token: Option<Seq<char>>, volumes: Seq<Seq<char>>) -> Seq<AskV> {
    login_asks(c, token, cli_token) + Seq::new(
        volumes.len(), |i: int| deleting(api_at(c, "/v1/volumes/"@ + volumes[i]), c.probe_jwt),
    )
}

pub open spec fn login_asks(c: RunV, token: Option<Seq<char>>, cli_token: Option<Seq<char>>) -> Seq<AskV> {
    (match token {
        Some(id) => seq![deleting(api_at(c, "/v1/tokens/"@ + id), c.probe_jwt)],
        None => seq![],
    }) + (match cli_token {
        Some(id) => seq![deleting(api_at(c, "/v1/cli/tokens/"@ + id), c.probe_jwt)],
        None => seq![],
    })
}

fn named_body(c: &Run, token: &Option<String>, cli_token: &Option<String>, volumes: &Vec<String>, log: &Log) -> (n: Next)
    ensures
        n@ == all_in_turn(named_asks(c@, opt(*token), opt(*cli_token), texts(volumes@)), log@.rs),
{
    let ghost all = named_asks(c@, opt(*token), opt(*cli_token), texts(volumes@));
    let ghost first = login_asks(c@, opt(*token), opt(*cli_token)).len() as int;
    let mut asks: Vec<Ask> = Vec::new();
    if let Some(id) = token {
        asks.push(erase(api(c, cat2("/v1/tokens/", id.as_str()).as_str()), c.probe_jwt.as_str()));
    }
    if let Some(id) = cli_token {
        asks.push(erase(api(c, cat2("/v1/cli/tokens/", id.as_str()).as_str()), c.probe_jwt.as_str()));
    }
    let mut i: usize = 0;
    while i < volumes.len()
        invariant
            i <= volumes@.len(),
            all == named_asks(c@, opt(*token), opt(*cli_token), texts(volumes@)),
            first == login_asks(c@, opt(*token), opt(*cli_token)).len(),
            asks@.len() == first + i,
            forall|k: int| 0 <= k < first + i ==> (#[trigger] asks@[k])@ == all[k],
        decreases volumes.len() - i,
    {
        asks.push(erase(api(c, cat2("/v1/volumes/", volumes[i].as_str()).as_str()), c.probe_jwt.as_str()));
        i = i + 1;
    }
    proof {
        assert(asks_view(asks@) =~= all);
        assert(log@.rs.skip(0) =~= log@.rs);
    }
    take_all(asks, &log.rs, 0)
}

/// What a drill of an earlier run may have left: its nodes, and its policies. It is put back on every run,
/// since the run that left it is not the one that is there to do so.
pub open spec fn undo_asks(c: RunV) -> Seq<AskV> {
    (if c.has_kube { seq![AskV::PutBack] } else { seq![] }) + (if c.no_home is None {
        seq![unpolicy_asks(NETPOL@), unpolicy_asks(CH_NETPOL@)]
    } else {
        seq![]
    })
}

fn undo_body(c: &Run, log: &Log) -> (n: Next)
    ensures
        n@ == all_in_turn(undo_asks(c@), log@.rs),
{
    let mut asks: Vec<Ask> = Vec::new();
    if c.has_kube {
        asks.push(Ask::PutBack);
    }
    if c.no_home.is_none() {
        asks.push(unpolicy(NETPOL));
        asks.push(unpolicy(CH_NETPOL));
    }
    proof {
        assert(asks_view(asks@) =~= undo_asks(c@));
        assert(log@.rs.skip(0) =~= log@.rs);
    }
    take_all(asks, &log.rs, 0)
}

// ── the bodies ──────────────────────────────────────────────────────────────

pub enum Body {
    Tree,
    Sweep { claim: Claim },
    UndoDrills,
    Hide { repo: Option<String> },
    Volume { volume: String, snapshot: Option<String> },
    Named { token: Option<String>, cli_token: Option<String>, volumes: Vec<String> },
}

pub enum BodyV {
    Tree,
    Sweep { claim: ClaimV },
    UndoDrills,
    Hide { repo: Option<Seq<char>> },
    Volume { volume: Seq<char>, snapshot: Option<Seq<char>> },
    Named { token: Option<Seq<char>>, cli_token: Option<Seq<char>>, volumes: Seq<Seq<char>> },
}

impl View for Body {
    type V = BodyV;

    open spec fn view(&self) -> BodyV {
        match self {
            Body::Tree => BodyV::Tree,
            Body::Sweep { claim } => BodyV::Sweep { claim: claim@ },
            Body::UndoDrills => BodyV::UndoDrills,
            Body::Hide { repo } => BodyV::Hide { repo: opt(*repo) },
            Body::Volume { volume, snapshot } => BodyV::Volume { volume: volume@, snapshot: opt(*snapshot) },
            Body::Named { token, cli_token, volumes } => BodyV::Named {
                token: opt(*token),
                cli_token: opt(*cli_token),
                volumes: texts(volumes@),
            },
        }
    }
}

/// What a body does next.
pub open spec fn body_next(c: RunV, b: BodyV, log: LogV) -> NextV {
    match b {
        BodyV::Tree => all_in_turn(seq![AskV::Mkdir { path: c.tmp }], log.rs),
        BodyV::Sweep { claim } => sweep_from(c, claim, 0, log.rs),
        BodyV::UndoDrills => all_in_turn(undo_asks(c), log.rs),
        BodyV::Hide { repo } => hide_next(c, repo, log.rs),
        BodyV::Volume { volume, snapshot } => all_in_turn(volume_asks(c, volume, snapshot), log.rs),
        BodyV::Named { token, cli_token, volumes } => all_in_turn(named_asks(c, token, cli_token, volumes), log.rs),
    }
}

/// What a body has learned: how many objects went.
pub open spec fn body_found(b: BodyV, log: LogV) -> Option<Seq<char>> {
    match b {
        BodyV::Sweep { claim } => Some(dec(swept_from(claim, 0, log.rs))),
        BodyV::Volume { .. } | BodyV::Named { .. } => Some(dec(done(log.rs))),
        _ => None,
    }
}

impl Body {
    pub fn next(&self, c: &Run, log: &Log) -> (n: Next)
        ensures
            n@ == body_next(c@, self@, log@),
    {
        match self {
            Body::Tree => {
                if log.rs.len() == 0 { Next::Ask(Ask::Mkdir { path: c.tmp.clone() }) } else { Next::Pass }
            },
            Body::Sweep { claim } => sweep_body(c, claim, log),
            Body::UndoDrills => undo_body(c, log),
            Body::Hide { repo } => hide_body(c, repo, log),
            Body::Volume { volume, snapshot } => volume_body(c, volume.as_str(), snapshot, log),
            Body::Named { token, cli_token, volumes } => named_body(c, token, cli_token, volumes, log),
        }
    }

    pub fn found(&self, log: &Log) -> (r: Option<String>)
        ensures
            opt(r) == body_found(self@, log@),
    {
        match self {
            Body::Sweep { claim } => Some(decimal(swept(claim, log) as u64)),
            Body::Volume { .. } | Body::Named { .. } => {
                proof {
                    assert(log@.rs.subrange(0, log@.rs.len() as int) =~= log@.rs);
                }
                Some(decimal(count_done(&log.rs, 0, log.rs.len()) as u64))
            },
            _ => None,
        }
    }
}

// ── before the journey, and after it ────────────────────────────────────────

pub open spec fn boot_move(now: i64, os: Seq<OutcomeV>) -> MoveV<BodyV> {
    if os.len() == 0 {
        MoveV::Look { body: BodyV::Tree }
    } else if os.len() == 1 {
        MoveV::Look { body: BodyV::Sweep { claim: ClaimV::Stale { now } } }
    } else {
        MoveV::End
    }
}

/// The working tree is made, and what an earlier run left behind is swept: a run that was killed is made
/// up for by the next. `now` is in seconds of Unix time.
pub fn boot(now: i64, os: &Vec<Outcome>) -> (m: Move<Body>)
    ensures
        m@ == boot_move(now, outcomes(os@)),
{
    if os.len() == 0 {
        look(Body::Tree)
    } else if os.len() == 1 {
        look(Body::Sweep { claim: Claim::Stale { now } })
    } else {
        Move::End
    }
}

pub open spec fn teardown_move(c: RunV, s: StateV, os: Seq<OutcomeV>) -> MoveV<BodyV> {
    if os.len() == 0 {
        MoveV::Look { body: BodyV::UndoDrills }
    } else if os.len() == 1 {
        MoveV::Look { body: BodyV::Hide { repo: s.repo } }
    } else if os.len() == 2 {
        MoveV::Look { body: BodyV::Sweep { claim: ClaimV::Prefix { prefix: prefix_of(c) } } }
    } else if os.len() == 3 && s.env_volume is Some {
        MoveV::Look { body: BodyV::Volume { volume: s.env_volume->0, snapshot: s.env_snapshot } }
    } else if os.len() == (if s.env_volume is Some { 4nat } else { 3nat }) {
        MoveV::Look { body: BodyV::Named { token: s.token, cli_token: s.cli_token, volumes: s.extra_volumes } }
    } else {
        MoveV::End
    }
}

/// What the run made goes, whatever became of the run: the drills are undone, what it published is hidden,
/// everything under its prefix is swept, and what is remembered by its id goes last.
pub fn teardown(c: &Run, s: &State, os: &Vec<Outcome>) -> (m: Move<Body>)
    ensures
        m@ == teardown_move(c@, s@, outcomes(os@)),
{
    if os.len() == 0 {
        return look(Body::UndoDrills);
    }
    if os.len() == 1 {
        return look(Body::Hide { repo: s.repo.clone() });
    }
    if os.len() == 2 {
        return look(Body::Sweep { claim: Claim::Prefix { prefix: prefix(c) } });
    }
    if os.len() == 3 {
        if let Some(volume) = &s.env_volume {
            return look(Body::Volume { volume: volume.clone(), snapshot: s.env_snapshot.clone() });
        }
    }
    let last: usize = if s.env_volume.is_some() { 4 } else { 3 };
    if os.len() == last {
        return look(Body::Named {
            token: s.token.clone(),
            cli_token: s.cli_token.clone(),
            volumes: copy_texts(&s.extra_volumes),
        });
    }
    Move::End
}

/// What the run remembers by its id is asked away after the sweep, whether the sweep found it or not:
/// each volume that no prefix finds, the credential, and the login.
pub proof fn law_what_is_remembered_goes_by_its_id(c: RunV, s: StateV, os: Seq<OutcomeV>, log: LogV)
    requires
        os.len() == (if s.env_volume is Some { 4nat } else { 3nat }),
    ensures
        teardown_move(c, s, os) matches MoveV::Look { body } && {
            let asks = named_asks(c, s.token, s.cli_token, s.extra_volumes);
            &&& log.rs.len() < asks.len() ==> body_next(c, body, log) == NextV::Ask(asks[log.rs.len() as int])
            &&& log.rs.len() >= asks.len() ==> body_next(c, body, log) is Pass
            &&& s.token is Some ==> asks.contains(deleting(api_at(c, "/v1/tokens/"@ + s.token->0), c.probe_jwt))
            &&& s.cli_token is Some ==> asks.contains(deleting(api_at(c, "/v1/cli/tokens/"@ + s.cli_token->0), c.probe_jwt))
            &&& forall|v: Seq<char>|
                s.extra_volumes.contains(v) ==> asks.contains(deleting(api_at(c, #[trigger] ("/v1/volumes/"@ + v)), c.probe_jwt))
        },
{
    let asks = named_asks(c, s.token, s.cli_token, s.extra_volumes);
    let logins = login_asks(c, s.token, s.cli_token);
    if s.token is Some {
        assert(asks[0] == deleting(api_at(c, "/v1/tokens/"@ + s.token->0), c.probe_jwt));
    }
    if s.cli_token is Some {
        assert(asks[logins.len() - 1] == deleting(api_at(c, "/v1/cli/tokens/"@ + s.cli_token->0), c.probe_jwt));
    }
    assert forall|v: Seq<char>| s.extra_volumes.contains(v) implies asks.contains(
        deleting(api_at(c, #[trigger] ("/v1/volumes/"@ + v)), c.probe_jwt),
    ) by {
        let i = s.extra_volumes.index_of(v);
        assert(asks[logins.len() + i] == deleting(api_at(c, "/v1/volumes/"@ + v), c.probe_jwt));
    }
}

/// Where there is a client for it, a teardown takes both policies of the drills out of force, whichever
/// run they are of: what it asks is what the drills themselves ask when they end.
pub proof fn law_no_policy_outlives_a_teardown(c: RunV)
    requires
        c.no_home is None,
    ensures
        undo_asks(c).contains(unpolicy_asks(NETPOL@)),
        undo_asks(c).contains(unpolicy_asks(CH_NETPOL@)),
{
    let asks = undo_asks(c);
    assert(asks[asks.len() - 2] == unpolicy_asks(NETPOL@));
    assert(asks[asks.len() - 1] == unpolicy_asks(CH_NETPOL@));
}

/// Neither reports anything: a leak is no failure of the fleet's.
pub proof fn law_sweeping_reports_nothing(c: RunV, s: StateV, now: i64, os: Seq<OutcomeV>)
    ensures
        reported(boot_move(now, os)) is None,
        reported(teardown_move(c, s, os)) is None,
{
}

/// Everything that is named after the run is claimed when the run is torn down.
pub proof fn law_a_run_claims_what_it_made(c: RunV, tail: Seq<char>)
    ensures
        claims(ClaimV::Prefix { prefix: prefix_of(c) }, named(c, tail)),
{
    law_names_carry_the_prefix(c, tail);
}

/// What is not named as a run names it is not stale, however old it is.
pub proof fn law_only_a_runs_own_object_is_stale(name: Seq<char>, now: int)
    ensures
        is_stale(name, now) ==> starts(name, "run-"@),
        is_stale(name, now) ==> is_suite(parts(name.skip("run-"@.len() as int), '-')[0]),
{
}

/// A run's own object is stale from the second after its hour on, and not before.
pub proof fn law_an_object_is_stale_after_an_hour(suite: Seq<char>, began: nat, tail: Seq<char>, now: int)
    requires
        is_suite(suite),
        began <= i64::MAX,
        tail.len() == 0 || tail[0] == '-',
    ensures
        is_stale("run-"@ + suite + "-"@ + dec(began) + tail, now) <==> now - began > STALE_SECS,
{
    reveal_strlit("run-");
    reveal_strlit("-");
    reveal_strlit("fast");
    reveal_strlit("hourly");
    reveal_strlit("weekly");
    reveal_strlit("monthly");
    let name = "run-"@ + suite + "-"@ + dec(began) + tail;
    let rest = suite + seq!['-'] + dec(began) + tail;
    assert(name =~= "run-"@ + rest);
    assert(name.subrange(0, 4) =~= "run-"@);
    assert(name.skip(4) =~= rest);
    lemma_dec(began);
    law_a_number_reads_as_it_is_written(began, 0x7fff_ffff_ffff_ffff);
    assert(digit_value(dec(began)[0]) is Some);
    // The suite is the first part.
    assert(!suite.contains('-'));
    lemma_first_at(rest, '-');
    let k = first_at(rest, '-') as int;
    assert(rest[suite.len() as int] == '-');
    assert(k == suite.len()) by {
        if k < suite.len() {
            assert(rest[k] == suite[k]);
            assert(suite.contains('-'));
        }
    }
    assert(rest.take(k) =~= suite);
    let more = dec(began) + tail;
    assert(rest.skip(k + 1) =~= more);
    // The time is the second.
    lemma_first_at(more, '-');
    let j = first_at(more, '-') as int;
    assert(forall|i: int| 0 <= i < dec(began).len() ==> more[i] == dec(began)[i]);
    assert forall|i: int| 0 <= i < dec(began).len() implies more[i] != '-' by {
        assert(digit_value(dec(began)[i]) is Some);
    }
    assert(j >= dec(began).len());
    assert(tail.len() > 0 ==> more[dec(began).len() as int] == '-');
    assert(j == dec(began).len());
    reveal_with_fuel(parts, 3);
    assert(more.take(j) =~= dec(began));
    assert(parts(more, '-')[0] == dec(began));
    assert(parts(rest, '-') =~= seq![suite] + parts(more, '-'));
}

} // verus!
