//! The backups, read and not claimed: how old the newest tarball is, whether every daily slot is there,
//! and whether the accounts are set to keep what they hold.

use vstd::prelude::*;

use vstd::utf8::{decode_utf8, encode_utf8, encode_utf8_decode_utf8};

use crate::json::{Doc, Json, array_of, bool_of, doc_bool, doc_i64, docs, i64_of, lemma_docs, member, member2, rows_of, text_of};
use crate::outside::{json_of, parse, status_line, status_text};
use crate::reply::{doc, doc_of, is_success, object, object_of, raw, raw_of, said, said_of, success};
use crate::run::{AzureV, Run, RunV};
use crate::stages::gaps::console::{missing, missing_from};
use crate::stages::monthly::{BACKUP_CONTAINER, MAX_TARBALL_AGE_MINS, READ_MS, SLOT_SUFFIX};
use crate::text::{
    cat2, cat3, cat5, cat7, dec_int, decimal_int, ends, ends_with, first_at, first_texts, halves, join, joined, lemma_first_at,
    parts, starts, starts_with, texts,
};
use crate::turn::{Move, MoveV, Outcome, OutcomeV, one, one_move, outcomes, reports, reports_exactly};
use crate::wire::{
    Ask, AskV, Log, LogV, Next, NextV, Payload, PayloadV, Reply, ReplyV, Verb, end, err_of, get, getting, inside, link, opt,
    pairs, within,
};

verus! {

// ── the blobs ───────────────────────────────────────────────────────────────

/// A blob of the backup container.
pub struct Blob {
    pub name: String,
    /// In milliseconds of Unix time.
    pub modified: i64,
}

pub struct BlobV {
    pub name: Seq<char>,
    pub modified: int,
}

impl View for Blob {
    type V = BlobV;

    open spec fn view(&self) -> BlobV {
        BlobV { name: self.name@, modified: self.modified as int }
    }
}

pub open spec fn blobs_view(v: Seq<Blob>) -> Seq<BlobV> {
    Seq::new(v.len(), |i: int| v[i]@)
}

/// The blobs of a listing: a row without a name or a time is none.
pub open spec fn blob_rows(rows: Seq<Doc>) -> Seq<BlobV>
    decreases rows.len(),
{
    if rows.len() == 0 {
        seq![]
    } else {
        let before = blob_rows(rows.drop_last());
        match (text_of(rows.last(), "name"@), doc_i64(member(rows.last(), "modified"@))) {
            (Some(name), Some(modified)) => before.push(BlobV { name, modified }),
            _ => before,
        }
    }
}

fn read_blobs(rows: &Vec<Json>) -> (r: Vec<Blob>)
    ensures
        blobs_view(r@) == blob_rows(docs(rows@)),
{
    let mut r: Vec<Blob> = Vec::new();
    let mut i: usize = 0;
    let ghost all = docs(rows@);
    proof {
        lemma_docs(rows@);
        assert(all.take(0) =~= Seq::<Doc>::empty());
        assert(blobs_view(r@) =~= Seq::<BlobV>::empty());
    }
    while i < rows.len()
        invariant
            i <= rows@.len(),
            all == docs(rows@),
            all.len() == rows@.len(),
            forall|k: int| 0 <= k < rows@.len() ==> all[k] == (#[trigger] rows@[k])@,
            blobs_view(r@) == blob_rows(all.take(i as int)),
        decreases rows.len() - i,
    {
        let ghost before = r@;
        proof {
            assert(all.take(i + 1).drop_last() =~= all.take(i as int));
            assert(all.take(i + 1).last() == rows@[i as int]@);
        }
        match (rows[i].text_at("name"), i64_of(rows[i].get("modified"))) {
            (Some(name), Some(modified)) => {
                r.push(Blob { name, modified });
                proof {
                    assert(blobs_view(r@) =~= blobs_view(before).push(BlobV { name: name@, modified: modified as int }));
                }
            },
            _ => {},
        }
        i = i + 1;
    }
    proof {
        assert(all.take(all.len() as int) =~= all);
    }
    r
}

/// `b` put into a list that has the newest first, behind those that are no older.
pub open spec fn put_blob(list: Seq<BlobV>, b: BlobV) -> Seq<BlobV>
    decreases list.len(),
{
    if list.len() == 0 {
        seq![b]
    } else if list.last().modified >= b.modified {
        list.push(b)
    } else {
        put_blob(list.drop_last(), b).push(list.last())
    }
}

/// The blobs, the newest first; those of one time stay in the order they were listed in.
pub open spec fn newest_first(v: Seq<BlobV>) -> Seq<BlobV>
    decreases v.len(),
{
    if v.len() == 0 { seq![] } else { put_blob(newest_first(v.drop_last()), v.last()) }
}

fn put(list: &mut Vec<Blob>, b: Blob)
    ensures
        blobs_view(final(list)@) == put_blob(blobs_view(old(list)@), b@),
    decreases old(list)@.len(),
{
    let ghost before = list@;
    match list.pop() {
        None => {
            list.push(b);
            proof {
                assert(blobs_view(list@) =~= seq![b@]);
            }
        },
        Some(last) => {
            proof {
                assert(blobs_view(list@) =~= blobs_view(before).drop_last());
                assert(blobs_view(before).last() == last@);
            }
            if last.modified >= b.modified {
                list.push(last);
                list.push(b);
                proof {
                    assert(blobs_view(list@) =~= blobs_view(before).push(b@));
                }
            } else {
                put(list, b);
                let ghost mid = list@;
                list.push(last);
                proof {
                    assert(blobs_view(list@) =~= blobs_view(mid).push(last@));
                }
            }
        },
    }
}

fn ordered(v: Vec<Blob>) -> (r: Vec<Blob>)
    ensures
        blobs_view(r@) == newest_first(blobs_view(v@)),
{
    let ghost all = blobs_view(v@);
    let mut r: Vec<Blob> = Vec::new();
    let mut i: usize = 0;
    proof {
        assert(all.take(0) =~= Seq::<BlobV>::empty());
        assert(blobs_view(r@) =~= Seq::<BlobV>::empty());
    }
    while i < v.len()
        invariant
            i <= v@.len(),
            all == blobs_view(v@),
            blobs_view(r@) == newest_first(all.take(i as int)),
        decreases v.len() - i,
    {
        proof {
            assert(all.take(i + 1).drop_last() =~= all.take(i as int));
            assert(all.take(i + 1).last() == v@[i as int]@);
        }
        put(&mut r, Blob { name: v[i].name.clone(), modified: v[i].modified });
        i = i + 1;
    }
    proof {
        assert(all.take(all.len() as int) =~= all);
    }
    r
}

proof fn lemma_put_blob(list: Seq<BlobV>, b: BlobV)
    requires
        forall|i: int, j: int| 0 <= i < j < list.len() ==> list[i].modified >= list[j].modified,
    ensures
        put_blob(list, b).to_multiset() =~= list.to_multiset().insert(b),
        forall|i: int, j: int| 0 <= i < j < put_blob(list, b).len() ==> put_blob(list, b)[i].modified >= put_blob(list, b)[j].modified,
        put_blob(list, b).len() == list.len() + 1,
        forall|x: BlobV| #[trigger] put_blob(list, b).contains(x) ==> x == b || list.contains(x),
    decreases list.len(),
{
    broadcast use vstd::seq_lib::group_to_multiset_ensures;

    if list.len() == 0 {
        assert(seq![b] =~= Seq::<BlobV>::empty().push(b));
        assert(list =~= Seq::<BlobV>::empty());
    } else if list.last().modified >= b.modified {
        let all = put_blob(list, b);
        assert forall|x: BlobV| #[trigger] all.contains(x) implies x == b || list.contains(x) by {
            let k = choose|k: int| 0 <= k < all.len() && all[k] == x;
            if k < list.len() {
                assert(list[k] == x);
            }
        }
    } else {
        let head = put_blob(list.drop_last(), b);
        lemma_put_blob(list.drop_last(), b);
        assert(list =~= list.drop_last().push(list.last()));
        let all = put_blob(list, b);
        assert(all == head.push(list.last()));
        assert forall|i: int, j: int| 0 <= i < j < all.len() implies all[i].modified >= all[j].modified by {
            if j == head.len() {
                assert(head.contains(head[i]));
                if head[i] != b {
                    let k = choose|k: int| 0 <= k < list.drop_last().len() && list.drop_last()[k] == head[i];
                    assert(list[k] == head[i]);
                }
            }
        }
        assert forall|x: BlobV| #[trigger] all.contains(x) implies x == b || list.contains(x) by {
            let k = choose|k: int| 0 <= k < all.len() && all[k] == x;
            if k < head.len() {
                assert(head.contains(x));
                if x != b {
                    let m = choose|m: int| 0 <= m < list.drop_last().len() && list.drop_last()[m] == x;
                    assert(list[m] == x);
                }
            } else {
                assert(list[list.len() - 1] == x);
            }
        }
    }
}

/// Every blob that was listed is there once, and none stands before a newer one.
pub proof fn law_the_newest_blob_comes_first(v: Seq<BlobV>)
    ensures
        newest_first(v).to_multiset() =~= v.to_multiset(),
        forall|i: int, j: int| 0 <= i < j < newest_first(v).len() ==> newest_first(v)[i].modified >= newest_first(v)[j].modified,
    decreases v.len(),
{
    broadcast use vstd::seq_lib::group_to_multiset_ensures;

    if v.len() > 0 {
        law_the_newest_blob_comes_first(v.drop_last());
        lemma_put_blob(newest_first(v.drop_last()), v.last());
        assert(v =~= v.drop_last().push(v.last()));
    }
}

/// The blobs that were listed, the newest first.
pub open spec fn slots_in(r: ReplyV) -> Result<Seq<BlobV>, Seq<char>> {
    match object_of(r) {
        Err(why) => Err(why),
        Ok(d) => Ok(newest_first(blob_rows(rows_of(Some(d))))),
    }
}

pub fn slots(r: &Reply) -> (o: Result<Vec<Blob>, String>)
    ensures
        (match o { Ok(v) => Ok(blobs_view(v@)), Err(e) => Err(e@) }) == slots_in(r@),
{
    match object(r) {
        Err(why) => Err(why),
        Ok(d) => match array_of(Some(&d)) {
            Some(rows) => Ok(ordered(read_blobs(rows))),
            None => {
                let none: Vec<Blob> = Vec::new();
                proof {
                    assert(blobs_view(none@) =~= Seq::<BlobV>::empty());
                }
                Ok(none)
            },
        },
    }
}

// ── how old the newest is ───────────────────────────────────────────────────

pub open spec fn is_hourly(b: BlobV) -> bool {
    starts(b.name, "hourly-"@) && ends(b.name, SLOT_SUFFIX@)
}

/// When the newest hourly slot was written. Any other blob is written by the same run, and a daily one
/// would keep the age low all week.
pub open spec fn newest_hourly(v: Seq<BlobV>) -> Option<int>
    decreases v.len(),
{
    if v.len() == 0 {
        None
    } else {
        let before = newest_hourly(v.drop_last());
        if !is_hourly(v.last()) {
            before
        } else {
            match before {
                Some(t) if t >= v.last().modified => Some(t),
                _ => Some(v.last().modified),
            }
        }
    }
}

fn newest(v: &Vec<Blob>) -> (r: Option<i64>)
    ensures
        (match r { Some(t) => Some(t as int), None => None }) == newest_hourly(blobs_view(v@)),
{
    let ghost all = blobs_view(v@);
    let mut r: Option<i64> = None;
    let mut i: usize = 0;
    proof {
        assert(all.take(0) =~= Seq::<BlobV>::empty());
    }
    while i < v.len()
        invariant
            i <= v@.len(),
            all == blobs_view(v@),
            (match r { Some(t) => Some(t as int), None => None }) == newest_hourly(all.take(i as int)),
        decreases v.len() - i,
    {
        proof {
            assert(all.take(i + 1).drop_last() =~= all.take(i as int));
            assert(all.take(i + 1).last() == v@[i as int]@);
        }
        let name = v[i].name.as_str();
        if starts_with(name, "hourly-") && ends_with(name, SLOT_SUFFIX) {
            let t: i64 = v[i].modified;
            r = match r {
                Some(was) => {
                    if was >= t { Some(was) } else { Some(t) }
                },
                None => Some(t),
            };
        }
        i = i + 1;
    }
    proof {
        assert(all.take(all.len() as int) =~= all);
    }
    r
}

/// The names that begin with a prefix, and end in the slots' suffix or not.
pub open spec fn names_with(v: Seq<BlobV>, prefix: Seq<char>, plain: bool) -> Seq<Seq<char>>
    decreases v.len(),
{
    if v.len() == 0 {
        seq![]
    } else {
        let before = names_with(v.drop_last(), prefix, plain);
        let name = v.last().name;
        if starts(name, prefix) && !(plain && ends(name, SLOT_SUFFIX@)) { before.push(name) } else { before }
    }
}

/// The names with a prefix; where `plain`, only those that are not encrypted.
fn with_prefix(v: &Vec<Blob>, prefix: &str, plain: bool) -> (r: Vec<String>)
    ensures
        texts(r@) == names_with(blobs_view(v@), prefix@, plain),
{
    let ghost all = blobs_view(v@);
    let mut r: Vec<String> = Vec::new();
    let mut i: usize = 0;
    proof {
        assert(all.take(0) =~= Seq::<BlobV>::empty());
        assert(texts(r@) =~= Seq::<Seq<char>>::empty());
    }
    while i < v.len()
        invariant
            i <= v@.len(),
            all == blobs_view(v@),
            texts(r@) == names_with(all.take(i as int), prefix@, plain),
        decreases v.len() - i,
    {
        let ghost before = r@;
        proof {
            assert(all.take(i + 1).drop_last() =~= all.take(i as int));
            assert(all.take(i + 1).last() == v@[i as int]@);
        }
        let name = v[i].name.as_str();
        if starts_with(name, prefix) && !(plain && ends_with(name, SLOT_SUFFIX)) {
            r.push(v[i].name.clone());
            proof {
                assert(texts(r@) =~= texts(before).push(v@[i as int].name@));
            }
        }
        i = i + 1;
    }
    proof {
        assert(all.take(all.len() as int) =~= all);
    }
    r
}

/// The whole minutes in a span of milliseconds, towards zero.
pub open spec fn minutes_in(ms: int) -> int {
    if ms >= 0 { ms / 60_000 } else { -((-ms) / 60_000) }
}

fn minutes(ms: i128) -> (r: i64)
    requires
        -0x1_0000_0000_0000_0000 <= ms <= 0x1_0000_0000_0000_0000,
    ensures
        r == minutes_in(ms as int),
{
    if ms >= 0 { (ms / 60_000) as i64 } else { -(((0 - ms) / 60_000) as i64) }
}

/// Why the newest backup is too old, or is none. What is there is told, too: a tarball that is not
/// encrypted is another thing than no backup at all.
pub open spec fn too_old(now_ms: i64, v: Seq<BlobV>) -> Option<Seq<char>> {
    match newest_hourly(v) {
        None => {
            let plain = names_with(v, "hourly-"@, false);
            if plain.len() == 0 {
                Some("the backup container holds no hourly tarball at all"@)
            } else {
                Some(
                    "the newest hourly blob is "@ + joined(firsts(plain, 3), ", "@) + ", not "@ + SLOT_SUFFIX@
                        + " — the encrypted backup unit is not the one installed on the node"@,
                )
            }
        },
        Some(t) => {
            let mins = minutes_in(now_ms - t);
            if mins >= MAX_TARBALL_AGE_MINS { Some("the newest backup is "@ + dec_int(mins) + " minutes old"@) } else { None }
        },
    }
}

/// The first texts of a list.
pub open spec fn firsts(v: Seq<Seq<char>>, n: nat) -> Seq<Seq<char>> {
    if v.len() <= n { v } else { v.take(n as int) }
}

pub fn is_too_old(now_ms: i64, v: &Vec<Blob>) -> (o: Option<String>)
    ensures
        opt(o) == too_old(now_ms, blobs_view(v@)),
{
    match newest(v) {
        None => {
            let plain = with_prefix(v, "hourly-", false);
            proof {
                assert(texts(plain@).len() == plain@.len());
            }
            if plain.len() == 0 {
                return Some("the backup container holds no hourly tarball at all".to_owned());
            }
            let some = if plain.len() <= 3 {
                plain
            } else {
                let three = first_texts(&plain, 3);
                proof {
                    assert(texts(three@) =~= texts(plain@).take(3));
                }
                three
            };
            Some(cat5(
                "the newest hourly blob is ", join(&some, ", ").as_str(), ", not ", SLOT_SUFFIX,
                " — the encrypted backup unit is not the one installed on the node",
            ))
        },
        Some(t) => {
            let mins: i64 = minutes(now_ms as i128 - t as i128);
            if mins >= MAX_TARBALL_AGE_MINS {
                Some(cat3("the newest backup is ", decimal_int(mins).as_str(), " minutes old"))
            } else {
                None
            }
        },
    }
}

// ── the daily slots ─────────────────────────────────────────────────────────

pub const DAY_MS: i64 = 86_400_000;

pub const WEEKDAYS: [&'static str; 7] = ["Sun", "Mon", "Tue", "Wed", "Thu", "Fri", "Sat"];

/// The day a time is on, counted from the first of January 1970.
pub open spec fn day_of(ms: int) -> int {
    ms / (DAY_MS as int)
}

fn day(ms: i64) -> (r: i64)
    ensures
        r == day_of(ms as int),
{
    if ms >= 0 {
        ms / DAY_MS
    } else {
        let up: i128 = (0 - (ms as i128) + 86_399_999) / 86_400_000;
        proof {
            let m = ms as int;
            vstd::arithmetic::div_mod::lemma_fundamental_div_mod(-m + 86_399_999, 86_400_000);
            vstd::arithmetic::div_mod::lemma_fundamental_div_mod_converse(
                m, 86_400_000, -(up as int), m + 86_400_000 * (up as int),
            );
        }
        (0 - up) as i64
    }
}

/// The name of a day's weekday: the first of January 1970 was a Thursday.
pub open spec fn weekday_of(day: int) -> Seq<char> {
    WEEKDAYS[(day + 4) % 7]@
}

pub open spec fn slot_of(day: int) -> Seq<char> {
    "daily-"@ + weekday_of(day) + SLOT_SUFFIX@
}

fn slot(day: i64) -> (r: String)
    requires
        -0x0fff_ffff_ffff_ffff <= day <= 0x0fff_ffff_ffff_ffff,
    ensures
        r@ == slot_of(day as int),
{
    // A multiple of seven above every day there is.
    let far: i64 = 0x1fff_ffff_ffff_fff8 - (0x1fff_ffff_ffff_fff8 % 7);
    let k: usize = ((day + far + 4) % 7) as usize;
    proof {
        assert(far % 7 == 0);
        assert((day + far + 4) % 7 == (day + 4) % 7) by {
            vstd::arithmetic::div_mod::lemma_mod_adds(day + 4, far as int, 7);
            vstd::arithmetic::div_mod::lemma_add_mod_noop(day + 4, far as int, 7);
        }
    }
    cat3("daily-", WEEKDAYS[k], SLOT_SUFFIX)
}

/// The slots that are to be there on the days from `back` days ago on.
pub open spec fn due_from(today: int, since: Option<int>, back: nat) -> Seq<Seq<char>>
    decreases 7 - back,
{
    if back >= 7 {
        seq![]
    } else {
        let rest = due_from(today, since, back + 1);
        if since is None || today - back >= since->0 { seq![slot_of(today - back)] + rest } else { rest }
    }
}

/// The slots that are to be there now: those of the last seven days, less the days before the first
/// encrypted blob. Where there is none, every one is due.
pub open spec fn due(now_ms: int, since_ms: Option<int>) -> Seq<Seq<char>> {
    due_from(day_of(now_ms), (match since_ms { Some(t) => Some(day_of(t)), None => None }), 0)
}

pub fn slots_due(now_ms: i64, since_ms: Option<i64>) -> (r: Vec<String>)
    ensures
        texts(r@) == due(now_ms as int, (match since_ms { Some(t) => Some(t as int), None => None })),
{
    let today: i64 = day(now_ms);
    let since: Option<i64> = match since_ms {
        Some(t) => Some(day(t)),
        None => None,
    };
    let ghost s: Option<int> = match since { Some(t) => Some(t as int), None => None };
    proof {
        vstd::arithmetic::div_mod::lemma_fundamental_div_mod(now_ms as int, 86_400_000);
    }
    let mut r: Vec<String> = Vec::new();
    let mut back: i64 = 0;
    proof {
        assert(texts(r@) =~= Seq::<Seq<char>>::empty());
        assert(due_from(today as int, s, 0) =~= texts(r@) + due_from(today as int, s, 0));
    }
    while back < 7
        invariant
            0 <= back <= 7,
            -200_000_000_000 <= today <= 200_000_000_000,
            s == (match since { Some(t) => Some(t as int), None => None }),
            due_from(today as int, s, 0) == texts(r@) + due_from(today as int, s, back as nat),
        decreases 7 - back,
    {
        let ghost before = r@;
        let on: i64 = today - back;
        let is_due = match since {
            Some(t) => on >= t,
            None => true,
        };
        if is_due {
            r.push(slot(on));
            proof {
                assert(texts(r@) =~= texts(before).push(slot_of(on as int)));
                assert(texts(before) + (seq![slot_of(on as int)] + due_from(today as int, s, (back + 1) as nat)) =~= texts(r@)
                    + due_from(today as int, s, (back + 1) as nat));
            }
        }
        back = back + 1;
    }
    proof {
        assert(texts(r@) + Seq::<Seq<char>>::empty() =~= texts(r@));
    }
    r
}

/// When the first encrypted blob was written.
pub open spec fn first_encrypted(v: Seq<BlobV>) -> Option<int>
    decreases v.len(),
{
    if v.len() == 0 {
        None
    } else {
        let before = first_encrypted(v.drop_last());
        if !ends(v.last().name, SLOT_SUFFIX@) {
            before
        } else {
            match before {
                Some(t) if t <= v.last().modified => Some(t),
                _ => Some(v.last().modified),
            }
        }
    }
}

fn since(v: &Vec<Blob>) -> (r: Option<i64>)
    ensures
        (match r { Some(t) => Some(t as int), None => None }) == first_encrypted(blobs_view(v@)),
{
    let ghost all = blobs_view(v@);
    let mut r: Option<i64> = None;
    let mut i: usize = 0;
    proof {
        assert(all.take(0) =~= Seq::<BlobV>::empty());
    }
    while i < v.len()
        invariant
            i <= v@.len(),
            all == blobs_view(v@),
            (match r { Some(t) => Some(t as int), None => None }) == first_encrypted(all.take(i as int)),
        decreases v.len() - i,
    {
        proof {
            assert(all.take(i + 1).drop_last() =~= all.take(i as int));
            assert(all.take(i + 1).last() == v@[i as int]@);
        }
        if ends_with(v[i].name.as_str(), SLOT_SUFFIX) {
            let t: i64 = v[i].modified;
            r = match r {
                Some(was) => {
                    if was <= t { Some(was) } else { Some(t) }
                },
                None => Some(t),
            };
        }
        i = i + 1;
    }
    proof {
        assert(all.take(all.len() as int) =~= all);
    }
    r
}

/// Why a slot that is due is missing. That the container holds plain ones instead is told, too.
pub open spec fn slots_missing(now_ms: i64, v: Seq<BlobV>) -> Option<Seq<char>> {
    let gone = missing_from(due(now_ms as int, first_encrypted(v)), names_with(v, ""@, false));
    let plain = names_with(v, "daily-"@, true);
    if gone.len() == 0 {
        None
    } else if plain.len() == 0 {
        Some("no backup in slot "@ + joined(gone, ", "@))
    } else {
        Some(
            "no backup in slot "@ + joined(gone, ", "@) + " — the container holds unencrypted slots instead ("@ + joined(plain, ", "@)
                + "), so the encrypted unit is not the one installed"@,
        )
    }
}

pub fn missing_slots(now_ms: i64, v: &Vec<Blob>) -> (o: Option<String>)
    ensures
        opt(o) == slots_missing(now_ms, blobs_view(v@)),
{
    let gone = missing(&slots_due(now_ms, since(v)), &with_prefix(v, "", false));
    let plain = with_prefix(v, "daily-", true);
    proof {
        assert(texts(gone@).len() == gone@.len());
        assert(texts(plain@).len() == plain@.len());
    }
    if gone.len() == 0 {
        None
    } else if plain.len() == 0 {
        Some(cat2("no backup in slot ", join(&gone, ", ").as_str()))
    } else {
        Some(cat5(
            "no backup in slot ", join(&gone, ", ").as_str(), " — the container holds unencrypted slots instead (",
            join(&plain, ", ").as_str(), "), so the encrypted unit is not the one installed",
        ))
    }
}

proof fn lemma_due_len(today: int, since: Option<int>, back: nat)
    requires
        back <= 7,
        since is None,
    ensures
        due_from(today, since, back).len() == 7 - back,
    decreases 7 - back,
{
    if back < 7 {
        lemma_due_len(today, since, back + 1);
    }
}

/// Without an encrypted blob all seven slots are due, today's among them.
pub proof fn law_all_seven_are_due_without_a_blob(now_ms: int)
    ensures
        due(now_ms, None).len() == 7,
        due(now_ms, None)[0] == slot_of(day_of(now_ms)),
{
    lemma_due_len(day_of(now_ms), None, 0);
}

proof fn lemma_due_since(today: int, since: int, back: nat, t: Seq<char>)
    requires
        due_from(today, Some(since), back).contains(t),
    ensures
        exists|b: nat| back <= b < 7 && today - b >= since && t == #[trigger] slot_of(today - b),
    decreases 7 - back,
{
    if back < 7 {
        let rest = due_from(today, Some(since), back + 1);
        if rest.contains(t) {
            lemma_due_since(today, since, back + 1, t);
            let b = choose|b: nat| back + 1 <= b < 7 && today - b >= since && t == #[trigger] slot_of(today - b);
            assert(t == slot_of(today - b));
        } else {
            let v = due_from(today, Some(since), back);
            let k = choose|k: int| 0 <= k < v.len() && v[k] == t;
            if today - back >= since {
                if k > 0 {
                    assert(rest[k - 1] == t);
                }
                assert(t == slot_of(today - back));
            } else {
                assert(rest[k] == t);
            }
        }
    }
}

/// No slot from before the first encrypted blob is due, and none is older than a week.
pub proof fn law_no_slot_is_due_before_its_time(now_ms: int, since_ms: int, t: Seq<char>)
    requires
        due(now_ms, Some(since_ms)).contains(t),
    ensures
        exists|b: nat| b < 7 && day_of(now_ms) - b >= day_of(since_ms) && t == #[trigger] slot_of(day_of(now_ms) - b),
{
    lemma_due_since(day_of(now_ms), day_of(since_ms), 0, t);
    let b = choose|b: nat| 0 <= b < 7 && day_of(now_ms) - b >= day_of(since_ms) && t == #[trigger] slot_of(day_of(now_ms) - b);
    assert(t == slot_of(day_of(now_ms) - b));
}

/// Why the blobs could not be listed, or what is wrong with them.
pub open spec fn age_bad(now_ms: i64, r: ReplyV) -> Option<Seq<char>> {
    match slots_in(r) {
        Err(why) => Some(why),
        Ok(v) => too_old(now_ms, v),
    }
}

fn bad_age(now_ms: i64, r: &Reply) -> (o: Option<String>)
    ensures
        opt(o) == age_bad(now_ms, r@),
{
    match slots(r) {
        Err(why) => Some(why),
        Ok(v) => is_too_old(now_ms, &v),
    }
}

pub open spec fn slots_bad(now_ms: i64, r: ReplyV) -> Option<Seq<char>> {
    match slots_in(r) {
        Err(why) => Some(why),
        Ok(v) => slots_missing(now_ms, v),
    }
}

fn bad_slots(now_ms: i64, r: &Reply) -> (o: Option<String>)
    ensures
        opt(o) == slots_bad(now_ms, r@),
{
    match slots(r) {
        Err(why) => Some(why),
        Ok(v) => missing_slots(now_ms, &v),
    }
}

pub open spec fn tarball_age_next(now_ms: i64, rs: Seq<ReplyV>) -> NextV {
    link(rs, 0, AskV::Blobs { container: BACKUP_CONTAINER@ }, age_bad(now_ms, rs[0]), NextV::Pass)
}

fn tarball_age_body(now_ms: i64, log: &Log) -> (n: Next)
    ensures
        n@ == tarball_age_next(now_ms, log@.rs),
{
    if log.rs.len() <= 0 {
        return Next::Ask(Ask::Blobs { container: BACKUP_CONTAINER.to_owned() });
    }
    end(bad_age(now_ms, &log.rs[0]))
}

pub open spec fn daily_slots_next(now_ms: i64, rs: Seq<ReplyV>) -> NextV {
    link(rs, 0, AskV::Blobs { container: BACKUP_CONTAINER@ }, slots_bad(now_ms, rs[0]), NextV::Pass)
}

fn daily_slots_body(now_ms: i64, log: &Log) -> (n: Next)
    ensures
        n@ == daily_slots_next(now_ms, log@.rs),
{
    if log.rs.len() <= 0 {
        return Next::Ask(Ask::Blobs { container: BACKUP_CONTAINER.to_owned() });
    }
    end(bad_slots(now_ms, &log.rs[0]))
}

// ── the accounts ────────────────────────────────────────────────────────────

pub open spec fn unreserved(b: u8) -> bool {
    (65 <= b && b <= 90) || (97 <= b && b <= 122) || (48 <= b && b <= 57) || b == 45 || b == 95 || b == 46 || b == 126
}

/// A digit of upper-case hex.
pub open spec fn hex_digit(n: u8) -> char {
    if n < 10 { (n + 48) as char } else { (n + 55) as char }
}

fn hex_of(n: u8) -> (r: char)
    requires
        n < 16,
    ensures
        r == hex_digit(n),
{
    if n < 10 { (n + 48) as char } else { (n + 55) as char }
}

/// One byte of a form.
pub open spec fn form_byte(b: u8) -> Seq<char> {
    if unreserved(b) { seq![b as char] } else { seq!['%', hex_digit((b / 16) as u8), hex_digit((b % 16) as u8)] }
}

pub open spec fn form_bytes(bytes: Seq<u8>) -> Seq<char>
    decreases bytes.len(),
{
    if bytes.len() == 0 { seq![] } else { form_bytes(bytes.drop_last()) + form_byte(bytes.last()) }
}

fn form_text(s: &str) -> (r: String)
    ensures
        r@ == form_bytes(encode_utf8(s@)),
{
    let v = s.as_bytes_vec();
    let ghost all = encode_utf8(s@);
    let mut r = String::new();
    let mut i: usize = 0;
    proof {
        assert(all.take(0) =~= Seq::<u8>::empty());
    }
    while i < v.len()
        invariant
            v@ == all,
            i <= v@.len(),
            r@ == form_bytes(all.take(i as int)),
        decreases v.len() - i,
    {
        let ghost before = r@;
        proof {
            assert(all.take(i + 1).drop_last() =~= all.take(i as int));
            assert(all.take(i + 1).last() == v@[i as int]);
        }
        let b: u8 = v[i];
        let plain = (65 <= b && b <= 90) || (97 <= b && b <= 122) || (48 <= b && b <= 57) || b == 45 || b == 95 || b == 46 || b == 126;
        if plain {
            r.push(b as char);
            proof {
                assert(r@ =~= before + form_byte(b));
            }
        } else {
            r.push('%');
            r.push(hex_of(b / 16));
            r.push(hex_of(b % 16));
            proof {
                assert(r@ =~= before + form_byte(b));
            }
        }
        i = i + 1;
    }
    proof {
        assert(all.take(all.len() as int) =~= all);
    }
    r
}

/// One pair of a form.
pub open spec fn form_pair(p: (Seq<char>, Seq<char>)) -> Seq<char> {
    form_bytes(encode_utf8(p.0)) + "="@ + form_bytes(encode_utf8(p.1))
}

/// A form: `a=b&c=d`, each name and each value with whatever would split it escaped.
pub open spec fn form_of(pairs: Seq<(Seq<char>, Seq<char>)>) -> Seq<char>
    decreases pairs.len(),
{
    if pairs.len() == 0 {
        seq![]
    } else {
        let last = form_pair(pairs.last());
        if pairs.len() == 1 { last } else { form_of(pairs.drop_last()) + "&"@ + last }
    }
}

pub fn form(fields: &Vec<(String, String)>) -> (r: String)
    ensures
        r@ == form_of(pairs(fields@)),
{
    let ghost all = pairs(fields@);
    let mut r = String::new();
    let mut i: usize = 0;
    proof {
        assert(all.take(0) =~= Seq::<(Seq<char>, Seq<char>)>::empty());
    }
    while i < fields.len()
        invariant
            i <= fields@.len(),
            all == pairs(fields@),
            r@ == form_of(all.take(i as int)),
        decreases fields.len() - i,
    {
        proof {
            assert(all.take(i + 1).drop_last() =~= all.take(i as int));
            assert(all.take(i + 1).last() == (fields@[i as int].0@, fields@[i as int].1@));
        }
        let one = cat3(form_text(fields[i].0.as_str()).as_str(), "=", form_text(fields[i].1.as_str()).as_str());
        r = if i == 0 { one } else { cat3(r.as_str(), "&", one.as_str()) };
        i = i + 1;
    }
    proof {
        assert(all.take(all.len() as int) =~= all);
    }
    r
}

/// Nothing of a value can split a form, whatever it holds.
pub proof fn law_a_value_never_splits_a_form(bytes: Seq<u8>)
    ensures
        forall|i: int| 0 <= i < form_bytes(bytes).len() ==> #[trigger] form_bytes(bytes)[i] != '&' && form_bytes(bytes)[i] != '=' && form_bytes(
            bytes,
        )[i] != '+',
    decreases bytes.len(),
{
    if bytes.len() > 0 {
        law_a_value_never_splits_a_form(bytes.drop_last());
        let head = form_bytes(bytes.drop_last());
        let tail = form_byte(bytes.last());
        let all = form_bytes(bytes);
        assert forall|i: int| 0 <= i < all.len() implies #[trigger] all[i] != '&' && all[i] != '=' && all[i] != '+' by {
            if i < head.len() {
                assert(all[i] == head[i]);
            } else {
                assert(all[i] == tail[i - head.len()]);
            }
        }
    }
}

/// The value of a digit of upper-case hex.
pub open spec fn hex_value(c: char) -> int {
    if '0' <= c <= '9' { c as int - 48 } else { c as int - 55 }
}

/// What a part of a form stands for: an escape for the byte it writes, anything else for itself.
pub open spec fn unformed(s: Seq<char>) -> Seq<u8>
    decreases s.len(),
{
    if s.len() == 0 {
        seq![]
    } else if s[0] == '%' && s.len() >= 3 {
        seq![(hex_value(s[1]) * 16 + hex_value(s[2])) as u8] + unformed(s.skip(3))
    } else {
        seq![s[0] as u8] + unformed(s.skip(1))
    }
}

/// What a form holds: its parts are between the ampersands, and a part's name is before its first `=`.
pub open spec fn form_read(s: Seq<char>) -> Seq<(Seq<char>, Seq<char>)> {
    Seq::new(
        parts(s, '&').len(),
        |i: int| match halves(parts(s, '&')[i], '=') {
            Some((k, v)) => (decode_utf8(unformed(k)), decode_utf8(unformed(v))),
            None => (seq![], seq![]),
        },
    )
}

proof fn lemma_form_front(bytes: Seq<u8>)
    requires
        bytes.len() > 0,
    ensures
        form_bytes(bytes) == form_byte(bytes[0]) + form_bytes(bytes.drop_first()),
    decreases bytes.len(),
{
    if bytes.len() == 1 {
        assert(bytes.drop_last() =~= Seq::<u8>::empty());
        assert(bytes.drop_first() =~= Seq::<u8>::empty());
        assert(form_bytes(bytes.drop_last()) == Seq::<char>::empty());
        assert(form_bytes(bytes.drop_first()) == Seq::<char>::empty());
        assert(form_bytes(bytes) =~= form_byte(bytes[0]) + form_bytes(bytes.drop_first()));
    } else {
        lemma_form_front(bytes.drop_last());
        assert(bytes.drop_last().drop_first() =~= bytes.drop_first().drop_last());
        assert(bytes.drop_last()[0] == bytes[0]);
        assert(bytes.drop_first().last() == bytes.last());
        let mid = form_bytes(bytes.drop_first().drop_last());
        assert((form_byte(bytes[0]) + mid) + form_byte(bytes.last()) =~= form_byte(bytes[0]) + (mid + form_byte(bytes.last())));
    }
}

/// What is escaped reads as what it was.
pub proof fn law_an_escape_is_read_back(bytes: Seq<u8>)
    ensures
        unformed(form_bytes(bytes)) == bytes,
    decreases bytes.len(),
{
    if bytes.len() == 0 {
        assert(form_bytes(bytes) =~= Seq::<char>::empty());
        assert(unformed(form_bytes(bytes)) =~= bytes);
    } else {
        let b = bytes[0];
        let rest = form_bytes(bytes.drop_first());
        let s = form_bytes(bytes);
        lemma_form_front(bytes);
        law_an_escape_is_read_back(bytes.drop_first());
        if unreserved(b) {
            assert(s[0] == b as char);
            assert(s.skip(1) =~= rest);
            assert(s[0] != '%');
            assert((b as char) as u8 == b);
            assert(unformed(s) =~= seq![b] + unformed(rest));
        } else {
            let high = (b / 16) as u8;
            let low = (b % 16) as u8;
            assert(s[0] == '%' && s[1] == hex_digit(high) && s[2] == hex_digit(low));
            assert(s.skip(3) =~= rest);
            assert(hex_value(hex_digit(high)) == high);
            assert(hex_value(hex_digit(low)) == low);
            assert(hex_value(s[1]) * 16 + hex_value(s[2]) == b);
            assert(unformed(s) =~= seq![b] + unformed(rest));
        }
        assert(seq![b] + bytes.drop_first() =~= bytes);
    }
}

proof fn lemma_first_is(s: Seq<char>, c: char, k: int)
    requires
        0 <= k <= s.len(),
        forall|i: int| 0 <= i < k ==> s[i] != c,
        k < s.len() ==> s[k] == c,
    ensures
        first_at(s, c) == k,
{
    lemma_first_at(s, c);
    if first_at(s, c) < k {
        assert(s[first_at(s, c) as int] != c);
    }
}

proof fn lemma_parts_behind(a: Seq<char>, s: Seq<char>, c: char)
    requires
        forall|i: int| 0 <= i < s.len() ==> s[i] != c,
    ensures
        parts(a + seq![c] + s, c) == parts(a, c).push(s),
    decreases a.len(),
{
    let all = a + seq![c] + s;
    let k = first_at(a, c) as int;
    lemma_first_at(a, c);
    assert forall|i: int| 0 <= i < k implies all[i] != c by {
        assert(all[i] == a[i]);
    }
    if k >= a.len() {
        assert(all[k] == c);
        lemma_first_is(all, c, k);
        lemma_first_is(s, c, s.len() as int);
        assert(all.take(k) =~= a);
        assert(all.skip(k + 1) =~= s);
        assert(parts(s, c) == seq![s]);
        assert(parts(a, c) == seq![a]);
        assert(parts(all, c) == seq![a] + parts(s, c));
        assert(parts(all, c) =~= parts(a, c).push(s));
    } else {
        assert(all[k] == a[k]);
        lemma_first_is(all, c, k);
        lemma_parts_behind(a.skip(k + 1), s, c);
        assert(all.take(k) =~= a.take(k));
        assert(all.skip(k + 1) =~= a.skip(k + 1) + seq![c] + s);
        assert(parts(all, c) =~= parts(a, c).push(s));
    }
}

proof fn lemma_form_pair(p: (Seq<char>, Seq<char>))
    ensures
        forall|i: int| 0 <= i < form_pair(p).len() ==> #[trigger] form_pair(p)[i] != '&',
        halves(form_pair(p), '=') == Some((form_bytes(encode_utf8(p.0)), form_bytes(encode_utf8(p.1)))),
        form_pair(p).len() > 0,
{
    reveal_strlit("=");
    let k = form_bytes(encode_utf8(p.0));
    let v = form_bytes(encode_utf8(p.1));
    let s = form_pair(p);
    law_a_value_never_splits_a_form(encode_utf8(p.0));
    law_a_value_never_splits_a_form(encode_utf8(p.1));
    assert forall|i: int| 0 <= i < s.len() implies #[trigger] s[i] != '&' by {
        if i < k.len() {
            assert(s[i] == k[i]);
        } else if i > k.len() {
            assert(s[i] == v[i - k.len() - 1]);
        }
    }
    assert forall|i: int| 0 <= i < k.len() implies s[i] != '=' by {
        assert(s[i] == k[i]);
    }
    assert(s[k.len() as int] == '=');
    lemma_first_is(s, '=', k.len() as int);
    assert(s.take(k.len() as int) =~= k);
    assert(s.skip(k.len() as int + 1) =~= v);
}

proof fn lemma_form_parts(p: Seq<(Seq<char>, Seq<char>)>)
    requires
        p.len() > 0,
    ensures
        parts(form_of(p), '&') == Seq::new(p.len(), |i: int| form_pair(p[i])),
    decreases p.len(),
{
    reveal_strlit("&");
    let last = form_pair(p.last());
    lemma_form_pair(p.last());
    if p.len() == 1 {
        lemma_first_is(last, '&', last.len() as int);
        assert(parts(form_of(p), '&') =~= Seq::new(p.len(), |i: int| form_pair(p[i])));
    } else {
        lemma_form_parts(p.drop_last());
        assert("&"@ =~= seq!['&']);
        lemma_parts_behind(form_of(p.drop_last()), last, '&');
        assert(parts(form_of(p), '&') =~= Seq::new(p.len(), |i: int| form_pair(p[i])));
    }
}

/// A form reads back as the pairs it was made of, whatever they hold.
pub proof fn law_a_form_reads_back(p: Seq<(Seq<char>, Seq<char>)>)
    requires
        p.len() > 0,
    ensures
        form_read(form_of(p)) == p,
{
    lemma_form_parts(p);
    assert forall|i: int| 0 <= i < p.len() implies #[trigger] form_read(form_of(p))[i] == p[i] by {
        lemma_form_pair(p[i]);
        law_an_escape_is_read_back(encode_utf8(p[i].0));
        law_an_escape_is_read_back(encode_utf8(p[i].1));
        encode_utf8_decode_utf8(p[i].0);
        encode_utf8_decode_utf8(p[i].1);
    }
    assert(form_read(form_of(p)) =~= p);
}

/// Two lists of pairs with one form are one.
pub proof fn law_a_form_is_one_lists(p: Seq<(Seq<char>, Seq<char>)>, q: Seq<(Seq<char>, Seq<char>)>)
    requires
        form_of(p) == form_of(q),
    ensures
        p == q,
{
    if p.len() > 0 && q.len() > 0 {
        law_a_form_reads_back(p);
        law_a_form_reads_back(q);
    } else if p.len() > 0 {
        lemma_form_pair(p.last());
        assert(form_of(p).len() > 0);
    } else if q.len() > 0 {
        lemma_form_pair(q.last());
        assert(form_of(q).len() > 0);
    } else {
        assert(p =~= q);
    }
}

/// What a form is written in: letters, digits, `-`, `_`, `.` and `~`, the escape's mark and the form's
/// own two.
pub open spec fn form_char(c: char) -> bool {
    (exists|b: u8| #[trigger] unreserved(b) && c == b as char) || c == '%' || c == '=' || c == '&'
}

proof fn lemma_escaped(bytes: Seq<u8>)
    ensures
        forall|i: int| 0 <= i < form_bytes(bytes).len() ==> form_char(#[trigger] form_bytes(bytes)[i]),
    decreases bytes.len(),
{
    if bytes.len() > 0 {
        lemma_escaped(bytes.drop_last());
        let head = form_bytes(bytes.drop_last());
        let b = bytes.last();
        let tail = form_byte(b);
        let all = form_bytes(bytes);
        let high = (b / 16) as u8;
        let low = (b % 16) as u8;
        assert(unreserved(if high < 10 { (high + 48) as u8 } else { (high + 55) as u8 }));
        assert(unreserved(if low < 10 { (low + 48) as u8 } else { (low + 55) as u8 }));
        assert forall|i: int| 0 <= i < tail.len() implies form_char(#[trigger] tail[i]) by {}
        assert forall|i: int| 0 <= i < all.len() implies form_char(#[trigger] all[i]) by {
            if i < head.len() {
                assert(all[i] == head[i]);
            } else {
                assert(all[i] == tail[i - head.len()]);
            }
        }
    }
}

/// Nothing but those characters is ever in a form.
pub proof fn law_a_form_is_plain(p: Seq<(Seq<char>, Seq<char>)>)
    ensures
        forall|i: int| 0 <= i < form_of(p).len() ==> form_char(#[trigger] form_of(p)[i]),
    decreases p.len(),
{
    if p.len() > 0 {
        reveal_strlit("=");
        reveal_strlit("&");
        law_a_form_is_plain(p.drop_last());
        let k = form_bytes(encode_utf8(p.last().0));
        let v = form_bytes(encode_utf8(p.last().1));
        lemma_escaped(encode_utf8(p.last().0));
        lemma_escaped(encode_utf8(p.last().1));
        let last = form_pair(p.last());
        assert forall|i: int| 0 <= i < last.len() implies form_char(#[trigger] last[i]) by {
            if i < k.len() {
                assert(last[i] == k[i]);
            } else if i > k.len() {
                assert(last[i] == v[i - k.len() - 1]);
            }
        }
        let head = form_of(p.drop_last());
        let all = form_of(p);
        if p.len() > 1 {
            assert forall|i: int| 0 <= i < all.len() implies form_char(#[trigger] all[i]) by {
                if i < head.len() {
                    assert(all[i] == head[i]);
                } else if i > head.len() {
                    assert(all[i] == last[i - head.len() - 1]);
                }
            }
        }
    }
}

/// The grant the probe asks for, with the credential it was given.
pub open spec fn grant(client: Seq<char>, secret: Seq<char>) -> Seq<(Seq<char>, Seq<char>)> {
    seq![
        ("grant_type"@, "client_credentials"@),
        ("client_id"@, client),
        ("client_secret"@, secret),
        ("scope"@, "https://management.azure.com/.default"@),
    ]
}

fn grant_pairs(client: &str, secret: &str) -> (r: Vec<(String, String)>)
    ensures
        pairs(r@) == grant(client@, secret@),
{
    let mut r: Vec<(String, String)> = Vec::new();
    r.push(("grant_type".to_owned(), "client_credentials".to_owned()));
    r.push(("client_id".to_owned(), client.to_owned()));
    r.push(("client_secret".to_owned(), secret.to_owned()));
    r.push(("scope".to_owned(), "https://management.azure.com/.default".to_owned()));
    proof {
        assert(pairs(r@) =~= grant(client@, secret@));
    }
    r
}

pub open spec fn token_asks(tenant: Seq<char>, client: Seq<char>, secret: Seq<char>) -> AskV {
    AskV::Call {
        verb: Verb::Post,
        url: "https://login.microsoftonline.com/"@ + tenant + "/oauth2/v2.0/token"@,
        auth: ""@,
        accept: ""@,
        load: PayloadV::Form(form_of(grant(client, secret))),
        bound_ms: 0,
    }
}

fn token_ask(tenant: &str, client: &str, secret: &str) -> (r: Ask)
    ensures
        r@ == token_asks(tenant@, client@, secret@),
{
    Ask::Call {
        verb: Verb::Post,
        url: cat3("https://login.microsoftonline.com/", tenant, "/oauth2/v2.0/token"),
        auth: "".to_owned(),
        accept: "".to_owned(),
        load: Payload::Form(form(&grant_pairs(client, secret))),
        bound_ms: 0,
    }
}

/// A variable of the environment, or that it is not set.
pub open spec fn variable(name: Seq<char>, r: ReplyV) -> Result<Seq<char>, Seq<char>> {
    match said_of(r) {
        Ok(t) => Ok(t),
        Err(why) => Err(within(name + " is not set"@, why)),
    }
}

fn variable_of(name: &str, r: &Reply) -> (o: Result<String, String>)
    ensures
        (match o { Ok(t) => Ok(t@), Err(e) => Err(e@) }) == variable(name@, r@),
{
    match said(r) {
        Ok(t) => Ok(t),
        Err(why) => Err(inside(cat2(name, " is not set").as_str(), why.as_str())),
    }
}

/// The token that was granted. Nothing of the answer is told where there is none: a token endpoint
/// sends the request back, and the request holds a secret.
pub open spec fn granted(r: ReplyV) -> Result<Seq<char>, Seq<char>> {
    match raw_of(r) {
        Err(why) => Err("could not reach Entra: "@ + why),
        Ok((status, text)) => if !is_success(status) {
            Err("Entra answered "@ + status_line(status) + " to the token request"@)
        } else {
            match json_of(text) {
                None => Err("Entra answered no access token"@),
                Some(d) => match text_of(d, "access_token"@) {
                    Some(t) => Ok(t),
                    None => Err("Entra answered no access token"@),
                },
            }
        },
    }
}

fn granted_of(r: &Reply) -> (o: Result<String, String>)
    ensures
        (match o { Ok(t) => Ok(t@), Err(e) => Err(e@) }) == granted(r@),
{
    match raw(r) {
        Err(why) => Err(cat2("could not reach Entra: ", why.as_str())),
        Ok((status, text)) => {
            if !success(status) {
                return Err(cat3("Entra answered ", status_text(status).as_str(), " to the token request"));
            }
            match parse(text.as_str()) {
                None => Err("Entra answered no access token".to_owned()),
                Some(d) => match d.text_at("access_token") {
                    Some(t) => Ok(t),
                    None => Err("Entra answered no access token".to_owned()),
                },
            }
        },
    }
}

/// A refused grant tells its status and nothing of what was sent or answered.
pub proof fn law_a_refused_grant_tells_no_secret(status: u16, text: Seq<char>, other: Seq<char>)
    requires
        !is_success(status),
    ensures
        granted(ReplyV::Answer { status, text }) == granted(ReplyV::Answer { status, text: other }),
{
}

/// Why versioning is off: a switch that is not there and one that is off are one answer.
pub open spec fn unversioned(account: Seq<char>, r: ReplyV) -> Option<Seq<char>> {
    match doc_of(r) {
        Err(why) => Some(why),
        Ok(d) => if doc_bool(member2(d, "properties"@, "isVersioningEnabled"@)) == Some(true) {
            None
        } else {
            Some("blob versioning is OFF on "@ + account)
        },
    }
}

fn not_versioned(account: &str, r: &Reply) -> (o: Option<String>)
    ensures
        opt(o) == unversioned(account@, r@),
{
    match doc(r) {
        Err(why) => Some(why),
        Ok(d) => {
            let on = match bool_of(d.get2("properties", "isVersioningEnabled")) {
                Some(b) => b,
                None => false,
            };
            if on { None } else { Some(cat2("blob versioning is OFF on ", account)) }
        },
    }
}

/// The kind of backup policy an account has.
pub open spec fn policy_in(d: Doc) -> Option<Seq<char>> {
    match member2(d, "properties"@, "backupPolicy"@) {
        Some(p) => text_of(p, "type"@),
        None => None,
    }
}

/// Why an account has no backup policy.
pub open spec fn unbacked(account: Seq<char>, r: ReplyV) -> Option<Seq<char>> {
    match doc_of(r) {
        Err(why) => Some(why),
        Ok(d) => match policy_in(d) {
            Some(t) if t.len() > 0 => None,
            _ => Some(account + " has no backup policy"@),
        },
    }
}

fn not_backed(account: &str, r: &Reply) -> (o: Option<String>)
    ensures
        opt(o) == unbacked(account@, r@),
{
    match doc(r) {
        Err(why) => Some(why),
        Ok(d) => {
            let kind = match d.get2("properties", "backupPolicy") {
                Some(p) => p.text_at("type"),
                None => None,
            };
            match kind {
                Some(t) => {
                    if t.as_str().is_empty() { Some(cat2(account, " has no backup policy")) } else { None }
                },
                None => Some(cat2(account, " has no backup policy")),
            }
        },
    }
}

/// One read of the management API, with a token of its own.
pub open spec fn versioning_next(path: Seq<char>, account: Seq<char>, rs: Seq<ReplyV>) -> NextV {
    let tenant = variable("AZURE_TENANT_ID"@, rs[0])->Ok_0;
    let client = variable("AZURE_CLIENT_ID"@, rs[1])->Ok_0;
    let secret = variable("AZURE_CLIENT_SECRET"@, rs[2])->Ok_0;
    let token = granted(rs[3])->Ok_0;
    link(
        rs, 0, AskV::Variable { name: "AZURE_TENANT_ID"@ }, err_of(variable("AZURE_TENANT_ID"@, rs[0])),
        link(
            rs, 1, AskV::Variable { name: "AZURE_CLIENT_ID"@ }, err_of(variable("AZURE_CLIENT_ID"@, rs[1])),
            link(
                rs, 2, AskV::Variable { name: "AZURE_CLIENT_SECRET"@ }, err_of(variable("AZURE_CLIENT_SECRET"@, rs[2])),
                link(
                    rs, 3, token_asks(tenant, client, secret), err_of(granted(rs[3])),
                    link(
                        rs, 4, getting("https://management.azure.com"@ + path, token), unversioned(account, rs[4]), NextV::Pass,
                    ),
                ),
            ),
        ),
    )
}

fn versioning_body(path: &str, account: &str, log: &Log) -> (n: Next)
    ensures
        n@ == versioning_next(path@, account@, log@.rs),
{
    if log.rs.len() <= 0 {
        return Next::Ask(Ask::Variable { name: "AZURE_TENANT_ID".to_owned() });
    }
    let tenant = match variable_of("AZURE_TENANT_ID", &log.rs[0]) {
        Err(why) => {
            return Next::Fail(why);
        },
        Ok(t) => t,
    };
    if log.rs.len() <= 1 {
        return Next::Ask(Ask::Variable { name: "AZURE_CLIENT_ID".to_owned() });
    }
    let client = match variable_of("AZURE_CLIENT_ID", &log.rs[1]) {
        Err(why) => {
            return Next::Fail(why);
        },
        Ok(t) => t,
    };
    if log.rs.len() <= 2 {
        return Next::Ask(Ask::Variable { name: "AZURE_CLIENT_SECRET".to_owned() });
    }
    let secret = match variable_of("AZURE_CLIENT_SECRET", &log.rs[2]) {
        Err(why) => {
            return Next::Fail(why);
        },
        Ok(t) => t,
    };
    if log.rs.len() <= 3 {
        return Next::Ask(token_ask(tenant.as_str(), client.as_str(), secret.as_str()));
    }
    let token = match granted_of(&log.rs[3]) {
        Err(why) => {
            return Next::Fail(why);
        },
        Ok(t) => t,
    };
    if log.rs.len() <= 4 {
        return Next::Ask(get(cat2("https://management.azure.com", path), token.as_str()));
    }
    end(not_versioned(account, &log.rs[4]))
}

pub open spec fn cosmos_next(path: Seq<char>, account: Seq<char>, rs: Seq<ReplyV>) -> NextV {
    let tenant = variable("AZURE_TENANT_ID"@, rs[0])->Ok_0;
    let client = variable("AZURE_CLIENT_ID"@, rs[1])->Ok_0;
    let secret = variable("AZURE_CLIENT_SECRET"@, rs[2])->Ok_0;
    let token = granted(rs[3])->Ok_0;
    link(
        rs, 0, AskV::Variable { name: "AZURE_TENANT_ID"@ }, err_of(variable("AZURE_TENANT_ID"@, rs[0])),
        link(
            rs, 1, AskV::Variable { name: "AZURE_CLIENT_ID"@ }, err_of(variable("AZURE_CLIENT_ID"@, rs[1])),
            link(
                rs, 2, AskV::Variable { name: "AZURE_CLIENT_SECRET"@ }, err_of(variable("AZURE_CLIENT_SECRET"@, rs[2])),
                link(
                    rs, 3, token_asks(tenant, client, secret), err_of(granted(rs[3])),
                    link(rs, 4, getting("https://management.azure.com"@ + path, token), unbacked(account, rs[4]), NextV::Pass),
                ),
            ),
        ),
    )
}

fn cosmos_body(path: &str, account: &str, log: &Log) -> (n: Next)
    ensures
        n@ == cosmos_next(path@, account@, log@.rs),
{
    if log.rs.len() <= 0 {
        return Next::Ask(Ask::Variable { name: "AZURE_TENANT_ID".to_owned() });
    }
    let tenant = match variable_of("AZURE_TENANT_ID", &log.rs[0]) {
        Err(why) => {
            return Next::Fail(why);
        },
        Ok(t) => t,
    };
    if log.rs.len() <= 1 {
        return Next::Ask(Ask::Variable { name: "AZURE_CLIENT_ID".to_owned() });
    }
    let client = match variable_of("AZURE_CLIENT_ID", &log.rs[1]) {
        Err(why) => {
            return Next::Fail(why);
        },
        Ok(t) => t,
    };
    if log.rs.len() <= 2 {
        return Next::Ask(Ask::Variable { name: "AZURE_CLIENT_SECRET".to_owned() });
    }
    let secret = match variable_of("AZURE_CLIENT_SECRET", &log.rs[2]) {
        Err(why) => {
            return Next::Fail(why);
        },
        Ok(t) => t,
    };
    if log.rs.len() <= 3 {
        return Next::Ask(token_ask(tenant.as_str(), client.as_str(), secret.as_str()));
    }
    let token = match granted_of(&log.rs[3]) {
        Err(why) => {
            return Next::Fail(why);
        },
        Ok(t) => t,
    };
    if log.rs.len() <= 4 {
        return Next::Ask(get(cat2("https://management.azure.com", path), token.as_str()));
    }
    end(not_backed(account, &log.rs[4]))
}

// ── the bodies ──────────────────────────────────────────────────────────────

pub enum Body {
    TarballAge { now_ms: i64 },
    DailySlots { now_ms: i64 },
    Versioning { path: String, account: String },
    Cosmos { path: String, account: String },
}

pub enum BodyV {
    TarballAge { now_ms: i64 },
    DailySlots { now_ms: i64 },
    Versioning { path: Seq<char>, account: Seq<char> },
    Cosmos { path: Seq<char>, account: Seq<char> },
}

impl View for Body {
    type V = BodyV;

    open spec fn view(&self) -> BodyV {
        match self {
            Body::TarballAge { now_ms } => BodyV::TarballAge { now_ms: *now_ms },
            Body::DailySlots { now_ms } => BodyV::DailySlots { now_ms: *now_ms },
            Body::Versioning { path, account } => BodyV::Versioning { path: path@, account: account@ },
            Body::Cosmos { path, account } => BodyV::Cosmos { path: path@, account: account@ },
        }
    }
}

/// What a body does next.
pub open spec fn body_next(c: RunV, b: BodyV, log: LogV) -> NextV {
    match b {
        BodyV::TarballAge { now_ms } => tarball_age_next(now_ms, log.rs),
        BodyV::DailySlots { now_ms } => daily_slots_next(now_ms, log.rs),
        BodyV::Versioning { path, account } => versioning_next(path, account, log.rs),
        BodyV::Cosmos { path, account } => cosmos_next(path, account, log.rs),
    }
}

impl Body {
    pub fn next(&self, c: &Run, log: &Log) -> (n: Next)
        ensures
            n@ == body_next(c@, self@, log@),
    {
        match self {
            Body::TarballAge { now_ms } => tarball_age_body(*now_ms, log),
            Body::DailySlots { now_ms } => daily_slots_body(*now_ms, log),
            Body::Versioning { path, account } => versioning_body(path.as_str(), account.as_str(), log),
            Body::Cosmos { path, account } => cosmos_body(path.as_str(), account.as_str(), log),
        }
    }
}

// ── the journeys ────────────────────────────────────────────────────────────

pub open spec fn tarball_age_move(c: RunV, now_ms: i64, os: Seq<OutcomeV>) -> MoveV<BodyV> {
    one_move("bak.tarball.age"@, READ_MS, "no Azure credential configured"@, if c.azure is Some { Some(BodyV::TarballAge { now_ms }) } else { None }, os)
}

/// `bak.tarball.age`.
pub fn tarball_age(c: &Run, now_ms: i64, os: &Vec<Outcome>) -> (m: Move<Body>)
    ensures
        m@ == tarball_age_move(c@, now_ms, outcomes(os@)),
{
    let body = if c.azure.is_some() { Some(Body::TarballAge { now_ms }) } else { None };
    one("bak.tarball.age", READ_MS, "no Azure credential configured", body, os)
}

pub open spec fn daily_slots_move(c: RunV, now_ms: i64, os: Seq<OutcomeV>) -> MoveV<BodyV> {
    one_move("bak.daily.slots"@, READ_MS, "no Azure credential configured"@, if c.azure is Some { Some(BodyV::DailySlots { now_ms }) } else { None }, os)
}

/// `bak.daily.slots`.
pub fn daily_slots(c: &Run, now_ms: i64, os: &Vec<Outcome>) -> (m: Move<Body>)
    ensures
        m@ == daily_slots_move(c@, now_ms, outcomes(os@)),
{
    let body = if c.azure.is_some() { Some(Body::DailySlots { now_ms }) } else { None };
    one("bak.daily.slots", READ_MS, "no Azure credential configured", body, os)
}

pub open spec fn versioning_path(az: AzureV) -> Seq<char> {
    "/subscriptions/"@ + az.subscription + "/resourceGroups/"@ + az.resource_group + "/providers/Microsoft.Storage/storageAccounts/"@ + az.storage_account
        + "/blobServices/default?api-version=2023-01-01"@
}

pub open spec fn versioning_move(c: RunV, os: Seq<OutcomeV>) -> MoveV<BodyV> {
    one_move(
        "bak.versioning"@, READ_MS, "no Azure subscription configured"@,
        (match c.azure {
            Some(az) => Some(BodyV::Versioning { path: versioning_path(az), account: az.storage_account }),
            None => None,
        }),
        os,
    )
}

/// `bak.versioning`.
pub fn versioning(c: &Run, os: &Vec<Outcome>) -> (m: Move<Body>)
    ensures
        m@ == versioning_move(c@, outcomes(os@)),
{
    let body = match &c.azure {
        Some(az) => {
            let path = cat7(
                "/subscriptions/", az.subscription.as_str(), "/resourceGroups/", az.resource_group.as_str(), "/providers/Microsoft.Storage/storageAccounts/",
                az.storage_account.as_str(), "/blobServices/default?api-version=2023-01-01",
            );
            Some(Body::Versioning { path, account: az.storage_account.clone() })
        },
        None => None,
    };
    one("bak.versioning", READ_MS, "no Azure subscription configured", body, os)
}

pub open spec fn cosmos_path(az: AzureV) -> Seq<char> {
    "/subscriptions/"@ + az.subscription + "/resourceGroups/"@ + az.resource_group + "/providers/Microsoft.DocumentDB/databaseAccounts/"@ + az.cosmos_account
        + "?api-version=2024-05-15"@
}

pub open spec fn cosmos_move(c: RunV, os: Seq<OutcomeV>) -> MoveV<BodyV> {
    one_move(
        "bak.cosmos"@, READ_MS, "no Azure subscription configured"@,
        (match c.azure {
            Some(az) => Some(BodyV::Cosmos { path: cosmos_path(az), account: az.cosmos_account }),
            None => None,
        }),
        os,
    )
}

/// `bak.cosmos`.
pub fn cosmos(c: &Run, os: &Vec<Outcome>) -> (m: Move<Body>)
    ensures
        m@ == cosmos_move(c@, outcomes(os@)),
{
    let body = match &c.azure {
        Some(az) => {
            let path = cat7(
                "/subscriptions/", az.subscription.as_str(), "/resourceGroups/", az.resource_group.as_str(), "/providers/Microsoft.DocumentDB/databaseAccounts/",
                az.cosmos_account.as_str(), "?api-version=2024-05-15",
            );
            Some(Body::Cosmos { path, account: az.cosmos_account.clone() })
        },
        None => None,
    };
    one("bak.cosmos", READ_MS, "no Azure subscription configured", body, os)
}

/// Whatever comes back, each id is reported exactly once.
pub proof fn law_every_id_is_reported_once(c: RunV, now_ms: i64, os: Seq<OutcomeV>)
    ensures
        reports_exactly(|o: Seq<OutcomeV>| tarball_age_move(c, now_ms, o), os, seq!["bak.tarball.age"@], 1),
        reports_exactly(|o: Seq<OutcomeV>| daily_slots_move(c, now_ms, o), os, seq!["bak.daily.slots"@], 1),
        reports_exactly(|o: Seq<OutcomeV>| versioning_move(c, o), os, seq!["bak.versioning"@], 1),
        reports_exactly(|o: Seq<OutcomeV>| cosmos_move(c, o), os, seq!["bak.cosmos"@], 1),
    decreases os.len(),
{
    reveal_with_fuel(reports, 2);
    if os.len() > 1 {
        law_every_id_is_reported_once(c, now_ms, os.drop_last());
    }
}

/// A backup counts as recent for less than two hours, to the minute.
pub proof fn law_a_missed_hour_is_told(now_ms: i64, v: Seq<BlobV>)
    requires
        newest_hourly(v) is Some,
    ensures
        too_old(now_ms, v) is Some <==> now_ms - newest_hourly(v)->0 >= MAX_TARBALL_AGE_MINS * 60_000,
{
    let ms = now_ms - newest_hourly(v)->0;
    if ms >= 0 {
        vstd::arithmetic::div_mod::lemma_fundamental_div_mod(ms, 60_000);
    }
}

} // verus!
