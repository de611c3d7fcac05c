//! Of the drills: the backups, the outages, and a member that was removed.

use vstd::prelude::*;

use crate::json::{Doc, doc_bool, doc_i64, doc_str, member, member2, rows_of, text_of};
use crate::laws::repos::told_number;
use crate::laws::workspaces::{made_one, one_made};
use crate::laws::{answered, came, doc_in, waits_until, went_well};
use crate::outside::instant_of;
use crate::run::{RunV, admin_at, api_at};
use crate::stages::git::{authed_args, git_asks, http_remote, oid_in, work_tree};
use crate::stages::monthly::backups;
use crate::stages::monthly::backups::{BlobV, blob_rows, day_of, due_from, first_encrypted, is_hourly, names_with, newest_first, newest_hourly, weekday_of};
use crate::stages::monthly::outages;
use crate::stages::monthly::removed;
use crate::stages::monthly::removed::PrepV;
use crate::text::{ends, holds, joined, lines_of, parts, starts, trimmed};
use crate::turn::{MoveV, OutcomeV, found_in, passed, passed_with};
use crate::wait::WaitV;
use crate::want::{WantV, says};
use crate::wire::{AskV, Cluster, Kind, LogV, NextV, PayloadV, Program, ReplyV, Verb, deleting, getting, posting};

verus! {

// ── the backups ─────────────────────────────────────────────────────────────

/// A row of the listing: a blob of this name, written at this time.
pub open spec fn is_blob(row: Doc, name: Seq<char>, modified: int) -> bool {
    text_of(row, "name"@) == Some(name) && doc_i64(member(row, "modified"@)) == Some(modified)
}

/// The listing has a blob of this name, written at this time.
pub open spec fn has_blob(r: ReplyV, name: Seq<char>, modified: int) -> bool {
    went_well(r) && exists|i: int| 0 <= i < rows_of(Some(doc_in(r))).len() && is_blob(#[trigger] rows_of(Some(doc_in(r)))[i], name, modified)
}

proof fn lemma_blob_rows(rows: Seq<Doc>, b: BlobV)
    ensures
        blob_rows(rows).contains(b) <==> exists|i: int| 0 <= i < rows.len() && is_blob(#[trigger] rows[i], b.name, b.modified),
    decreases rows.len(),
{
    if rows.len() > 0 {
        let before = rows.drop_last();
        lemma_blob_rows(before, b);
        let v = blob_rows(before);
        let all = blob_rows(rows);
        let last = rows.last();
        assert(rows[rows.len() - 1] == last);
        if all.contains(b) {
            let j = choose|j: int| 0 <= j < all.len() && all[j] == b;
            if j < v.len() {
                assert(v[j] == b);
                let i = choose|i: int| 0 <= i < before.len() && is_blob(#[trigger] before[i], b.name, b.modified);
                assert(rows[i] == before[i]);
            }
        }
        if exists|i: int| 0 <= i < rows.len() && is_blob(#[trigger] rows[i], b.name, b.modified) {
            let i = choose|i: int| 0 <= i < rows.len() && is_blob(#[trigger] rows[i], b.name, b.modified);
            if i < before.len() {
                assert(before[i] == rows[i]);
                let j = choose|j: int| 0 <= j < v.len() && v[j] == b;
                assert(all[j] == b);
            } else {
                assert(all[all.len() - 1] == b);
            }
        }
    } else {
        assert(!blob_rows(rows).contains(b));
    }
}

proof fn lemma_same_blobs(r: ReplyV, b: BlobV)
    requires
        went_well(r),
    ensures
        newest_first(blob_rows(rows_of(Some(doc_in(r))))).contains(b) <==> has_blob(r, b.name, b.modified),
{
    let v = blob_rows(rows_of(Some(doc_in(r))));
    lemma_blob_rows(rows_of(Some(doc_in(r))), b);
    backups::law_the_newest_blob_comes_first(v);
    vstd::seq_lib::to_multiset_contains(v, b);
    vstd::seq_lib::to_multiset_contains(newest_first(v), b);
}

proof fn lemma_newest_hourly(v: Seq<BlobV>)
    ensures
        newest_hourly(v) is None <==> forall|i: int| 0 <= i < v.len() ==> !is_hourly(#[trigger] v[i]),
        newest_hourly(v) matches Some(t) ==> (exists|i: int| 0 <= i < v.len() && is_hourly(#[trigger] v[i]) && v[i].modified == t) && (forall|i: int|
            0 <= i < v.len() && is_hourly(#[trigger] v[i]) ==> v[i].modified <= t),
    decreases v.len(),
{
    if v.len() > 0 {
        let before = v.drop_last();
        lemma_newest_hourly(before);
        assert(v[v.len() - 1] == v.last());
        assert forall|i: int| 0 <= i < before.len() implies #[trigger] v[i] == before[i] by {}
        if newest_hourly(before) is Some {
            let t = newest_hourly(before)->0;
            let i = choose|i: int| 0 <= i < before.len() && is_hourly(#[trigger] before[i]) && before[i].modified == t;
            assert(is_hourly(v[i]) && v[i].modified == t);
        }
        if is_hourly(v.last()) {
            assert(is_hourly(v[v.len() - 1]));
        }
        assert forall|i: int| 0 <= i < v.len() && is_hourly(#[trigger] v[i]) implies newest_hourly(v) is Some && v[i].modified <= newest_hourly(v)->0 by {
            if i < before.len() {
                assert(is_hourly(before[i]));
            }
        }
        if newest_hourly(v) is None {
            assert forall|i: int| 0 <= i < v.len() implies !is_hourly(#[trigger] v[i]) by {
                if i < before.len() {
                    assert(!is_hourly(before[i]));
                }
            }
        }
    }
}

/// A backup is recent exactly where the container has an encrypted hourly slot that was written within the last two hours.
pub proof fn law_a_backup_is_of_the_last_two_hours(c: RunV, now_ms: i64, log: LogV)
    ensures
        ({
            let n = backups::body_next(c, backups::BodyV::TarballAge { now_ms }, log);
            let rs = log.rs;
            &&& rs.len() == 0 ==> n == NextV::Ask(AskV::Blobs { container: "k3s-backup"@ })
            &&& n is Pass <==> rs.len() > 0 && exists|name: Seq<char>, t: int| #[trigger]
                has_blob(rs[0], name, t) && starts(name, "hourly-"@) && ends(name, ".tgz.enc"@) && now_ms - t < 7_200_000
        }),
{
    let rs = log.rs;
    let n = backups::body_next(c, backups::BodyV::TarballAge { now_ms }, log);
    if rs.len() > 0 && went_well(rs[0]) {
        let v = newest_first(blob_rows(rows_of(Some(doc_in(rs[0])))));
        lemma_newest_hourly(v);
        if newest_hourly(v) is Some {
            backups::law_a_missed_hour_is_told(now_ms, v);
            let t = newest_hourly(v)->0;
            let i = choose|i: int| 0 <= i < v.len() && is_hourly(#[trigger] v[i]) && v[i].modified == t;
            lemma_same_blobs(rs[0], v[i]);
            assert(v.contains(v[i]));
            assert(has_blob(rs[0], v[i].name, t));
        }
        if exists|name: Seq<char>, t: int| #[trigger]
            has_blob(rs[0], name, t) && starts(name, "hourly-"@) && ends(name, ".tgz.enc"@) && now_ms - t < 7_200_000 {
            let (name, t) = choose|name: Seq<char>, t: int| #[trigger]
                has_blob(rs[0], name, t) && starts(name, "hourly-"@) && ends(name, ".tgz.enc"@) && now_ms - t < 7_200_000;
            let b = BlobV { name, modified: t };
            lemma_same_blobs(rs[0], b);
            let i = choose|i: int| 0 <= i < v.len() && v[i] == b;
            assert(is_hourly(v[i]));
        }
    }
}

proof fn lemma_first_encrypted(v: Seq<BlobV>)
    ensures
        first_encrypted(v) is None <==> forall|i: int| 0 <= i < v.len() ==> !ends((#[trigger] v[i]).name, ".tgz.enc"@),
        first_encrypted(v) matches Some(t) ==> (exists|i: int| 0 <= i < v.len() && ends((#[trigger] v[i]).name, ".tgz.enc"@) && v[i].modified == t) && (
        forall|i: int| 0 <= i < v.len() && ends((#[trigger] v[i]).name, ".tgz.enc"@) ==> v[i].modified >= t),
    decreases v.len(),
{
    if v.len() > 0 {
        let before = v.drop_last();
        lemma_first_encrypted(before);
        assert(v[v.len() - 1] == v.last());
        assert forall|i: int| 0 <= i < before.len() implies #[trigger] v[i] == before[i] by {}
        if first_encrypted(before) is Some {
            let t = first_encrypted(before)->0;
            let i = choose|i: int| 0 <= i < before.len() && ends((#[trigger] before[i]).name, ".tgz.enc"@) && before[i].modified == t;
            assert(ends(v[i].name, ".tgz.enc"@) && v[i].modified == t);
        }
        assert forall|i: int| 0 <= i < v.len() && ends((#[trigger] v[i]).name, ".tgz.enc"@) implies first_encrypted(v) is Some && v[i].modified
            >= first_encrypted(v)->0 by {
            if i < before.len() {
                assert(ends(before[i].name, ".tgz.enc"@));
            }
        }
        if first_encrypted(v) is None {
            assert forall|i: int| 0 <= i < v.len() implies !ends((#[trigger] v[i]).name, ".tgz.enc"@) by {
                if i < before.len() {
                    assert(!ends(before[i].name, ".tgz.enc"@));
                }
            }
        }
    }
}

proof fn lemma_all_names(v: Seq<BlobV>, t: Seq<char>)
    ensures
        names_with(v, ""@, false).contains(t) <==> exists|i: int| 0 <= i < v.len() && (#[trigger] v[i]).name == t,
    decreases v.len(),
{
    reveal_strlit("");
    if v.len() > 0 {
        let before = v.drop_last();
        lemma_all_names(before, t);
        let name = v.last().name;
        assert(name.subrange(0, 0) =~= ""@);
        assert(starts(name, ""@));
        let m = names_with(before, ""@, false);
        let all = names_with(v, ""@, false);
        assert(all == m.push(name));
        assert(v[v.len() - 1] == v.last());
        if all.contains(t) {
            let j = choose|j: int| 0 <= j < all.len() && all[j] == t;
            if j < m.len() {
                assert(m[j] == t);
                let i = choose|i: int| 0 <= i < before.len() && (#[trigger] before[i]).name == t;
                assert(v[i] == before[i]);
            }
        }
        if exists|i: int| 0 <= i < v.len() && (#[trigger] v[i]).name == t {
            let i = choose|i: int| 0 <= i < v.len() && (#[trigger] v[i]).name == t;
            if i < before.len() {
                assert(before[i] == v[i]);
                let j = choose|j: int| 0 <= j < m.len() && m[j] == t;
                assert(all[j] == t);
            } else {
                assert(all[all.len() - 1] == t);
            }
        }
    } else {
        assert(!names_with(v, ""@, false).contains(t));
    }
}

proof fn lemma_due(today: int, since: Option<int>, back: nat, t: Seq<char>)
    ensures
        due_from(today, since, back).contains(t) <==> exists|b: int|
            back <= b < 7 && (since is None || today - b >= since->0) && t == #[trigger] daily_slot(today - b),
    decreases 7 - back,
{
    if back < 7 {
        lemma_due(today, since, back + 1, t);
        let rest = due_from(today, since, back + 1);
        let all = due_from(today, since, back);
        let here = since is None || today - back >= since->0;
        assert(daily_slot(today - back) == backups::slot_of(today - back));
        if all.contains(t) {
            let j = choose|j: int| 0 <= j < all.len() && all[j] == t;
            if here {
                if j == 0 {
                    assert(t == daily_slot(today - back));
                } else {
                    assert(rest[j - 1] == t);
                }
            }
        }
        if rest.contains(t) {
            let j = choose|j: int| 0 <= j < rest.len() && rest[j] == t;
            if here {
                assert(all[j + 1] == t);
            } else {
                assert(all[j] == t);
            }
        }
        if here && t == daily_slot(today - back) {
            assert(all[0] == t);
        }
        if exists|b: int| back <= b < 7 && (since is None || today - b >= since->0) && t == #[trigger] daily_slot(today - b) {
            let b = choose|b: int| back <= b < 7 && (since is None || today - b >= since->0) && t == #[trigger] daily_slot(today - b);
            if b > back {
                assert(t == daily_slot(today - b));
            }
        }
    } else {
        assert(!due_from(today, since, back).contains(t));
    }
}

/// The slot of a day.
pub open spec fn daily_slot(day: int) -> Seq<char> {
    "daily-"@ + weekday_of(day) + ".tgz.enc"@
}

/// The weekdays go round: the first of January 1970 was a Thursday, and every week is alike.
pub proof fn law_the_weekdays_go_round(k: int)
    ensures
        weekday_of(7 * k) == "Thu"@,
        weekday_of(7 * k + 1) == "Fri"@,
        weekday_of(7 * k + 2) == "Sat"@,
        weekday_of(7 * k + 3) == "Sun"@,
        weekday_of(7 * k + 4) == "Mon"@,
        weekday_of(7 * k + 5) == "Tue"@,
        weekday_of(7 * k + 6) == "Wed"@,
        forall|ms: int| 0 <= ms < 86_400_000 ==> #[trigger] day_of(k * 86_400_000 + ms) == k,
{
    assert((7 * k + 4) % 7 == 4 && (7 * k + 1 + 4) % 7 == 5 && (7 * k + 2 + 4) % 7 == 6 && (7 * k + 3 + 4) % 7 == 0);
    assert((7 * k + 4 + 4) % 7 == 1 && (7 * k + 5 + 4) % 7 == 2 && (7 * k + 6 + 4) % 7 == 3);
    assert forall|ms: int| 0 <= ms < 86_400_000 implies #[trigger] day_of(k * 86_400_000 + ms) == k by {
        assert((k * 86_400_000 + ms) / 86_400_000 == k);
    }
}

/// The slots are there exactly where the container has, for each of the last seven days, the slot of that day, but for the
/// days before its first encrypted blob.
pub proof fn law_every_day_of_the_week_has_its_slot(c: RunV, now_ms: i64, log: LogV)
    ensures
        ({
            let n = backups::body_next(c, backups::BodyV::DailySlots { now_ms }, log);
            let rs = log.rs;
            &&& rs.len() == 0 ==> n == NextV::Ask(AskV::Blobs { container: "k3s-backup"@ })
            &&& n is Pass <==> rs.len() > 0 && went_well(rs[0]) && forall|b: int|
                0 <= b < 7 && is_due(rs[0], day_of(now_ms as int) - b) ==> in_container(rs[0], #[trigger] daily_slot(day_of(now_ms as int) - b))
        }),
{
    let rs = log.rs;
    let today = day_of(now_ms as int);
    if rs.len() > 0 && went_well(rs[0]) {
        let r = rs[0];
        let v = newest_first(blob_rows(rows_of(Some(doc_in(r)))));
        lemma_first_encrypted(v);
        let since = match first_encrypted(v) { Some(t) => Some(day_of(t)), None => None };
        let want = backups::due(now_ms as int, first_encrypted(v));
        let names = names_with(v, ""@, false);
        crate::laws::console::law_the_missing_are_known_and_not_named(want, names, seq![]);
        assert forall|day: int| #[trigger] is_due(r, day) <==> (since is None || day >= since->0) by {
            if first_encrypted(v) is Some {
                let t = first_encrypted(v)->0;
                let i = choose|i: int| 0 <= i < v.len() && ends((#[trigger] v[i]).name, ".tgz.enc"@) && v[i].modified == t;
                lemma_same_blobs(r, v[i]);
                assert(v.contains(v[i]));
                assert(has_blob(r, v[i].name, t));
                if is_due(r, day) {
                    if exists|name: Seq<char>, m: int| #[trigger] has_blob(r, name, m) && ends(name, ".tgz.enc"@) && day_of(m) <= day {
                        let (name, m) = choose|name: Seq<char>, m: int| #[trigger] has_blob(r, name, m) && ends(name, ".tgz.enc"@) && day_of(m) <= day;
                        let b = BlobV { name, modified: m };
                        lemma_same_blobs(r, b);
                        let j = choose|j: int| 0 <= j < v.len() && v[j] == b;
                        assert(ends(v[j].name, ".tgz.enc"@));
                        assert(m >= t);
                        assert(m / 86_400_000 >= t / 86_400_000);
                    }
                }
            } else {
                assert forall|name: Seq<char>, m: int| #[trigger] has_blob(r, name, m) implies !ends(name, ".tgz.enc"@) by {
                    let b = BlobV { name, modified: m };
                    lemma_same_blobs(r, b);
                    let j = choose|j: int| 0 <= j < v.len() && v[j] == b;
                    assert(!ends(v[j].name, ".tgz.enc"@));
                }
            }
        }
        assert forall|t: Seq<char>| #[trigger] in_container(r, t) <==> names.contains(t) by {
            lemma_all_names(v, t);
            if in_container(r, t) {
                let m = choose|m: int| #[trigger] has_blob(r, t, m);
                let b = BlobV { name: t, modified: m };
                lemma_same_blobs(r, b);
                let j = choose|j: int| 0 <= j < v.len() && v[j] == b;
                assert(v[j].name == t);
            }
            if names.contains(t) {
                let i = choose|i: int| 0 <= i < v.len() && (#[trigger] v[i]).name == t;
                lemma_same_blobs(r, v[i]);
                assert(v.contains(v[i]));
                assert(has_blob(r, t, v[i].modified));
            }
        }
        if forall|i: int| 0 <= i < want.len() ==> names.contains(#[trigger] want[i]) {
            assert forall|b: int| 0 <= b < 7 && is_due(r, today - b) implies in_container(r, #[trigger] daily_slot(today - b)) by {
                lemma_due(today, since, 0, daily_slot(today - b));
                let j = choose|j: int| 0 <= j < want.len() && want[j] == daily_slot(today - b);
                assert(names.contains(want[j]));
            }
        }
        if forall|b: int| 0 <= b < 7 && is_due(r, today - b) ==> in_container(r, #[trigger] daily_slot(today - b)) {
            assert forall|i: int| 0 <= i < want.len() implies names.contains(#[trigger] want[i]) by {
                lemma_due(today, since, 0, want[i]);
                assert(want.contains(want[i]));
                let b = choose|b: int| 0 <= b < 7 && (since is None || today - b >= since->0) && want[i] == #[trigger] daily_slot(today - b);
                assert(in_container(r, daily_slot(today - b)));
            }
        }
    }
}

/// A day's slot is due unless the container's first encrypted blob is of a later day.
pub open spec fn is_due(r: ReplyV, day: int) -> bool {
    (forall|name: Seq<char>, m: int| #[trigger] has_blob(r, name, m) ==> !ends(name, ".tgz.enc"@)) || exists|name: Seq<char>, m: int| #[trigger]
        has_blob(r, name, m) && ends(name, ".tgz.enc"@) && day_of(m) <= day
}

/// The container has a blob of this name.
pub open spec fn in_container(r: ReplyV, name: Seq<char>) -> bool {
    exists|m: int| #[trigger] has_blob(r, name, m)
}

/// A variable that is set, all three of them, and a token that was granted with them.
pub open spec fn entered(rs: Seq<ReplyV>) -> bool {
    rs.len() > 3 && rs[0] is Said && rs[1] is Said && rs[2] is Said && went_well(rs[3]) && text_of(doc_in(rs[3]), "access_token"@) is Some
}

/// Versioning is on, and an account is backed up, exactly where the account's own record says so, read with a token that was
/// granted for the run's own credential.
pub proof fn law_an_account_says_that_it_is_kept(c: RunV, path: Seq<char>, account: Seq<char>, log: LogV)
    ensures
        ({
            let n = backups::body_next(c, backups::BodyV::Versioning { path, account }, log);
            let rs = log.rs;
            &&& n is Pass <==> rs.len() > 4 && entered(rs) && went_well(rs[4]) && doc_bool(
                member2(doc_in(rs[4]), "properties"@, "isVersioningEnabled"@),
            ) == Some(true)
            &&& asks_in_order(n, path, rs)
        }),
        ({
            let n = backups::body_next(c, backups::BodyV::Cosmos { path, account }, log);
            let rs = log.rs;
            &&& n is Pass <==> rs.len() > 4 && entered(rs) && went_well(rs[4]) && (member2(doc_in(rs[4]), "properties"@, "backupPolicy"@) matches Some(
                p,
            ) && (text_of(p, "type"@) matches Some(t) && t.len() > 0))
            &&& asks_in_order(n, path, rs)
        }),
{
}

/// The tenant, the client and the secret are read, a token is asked for with them, and the record with the token.
pub open spec fn asks_in_order(n: NextV, path: Seq<char>, rs: Seq<ReplyV>) -> bool {
    &&& rs.len() == 0 ==> n == NextV::Ask(AskV::Variable { name: "AZURE_TENANT_ID"@ })
    &&& rs.len() == 1 && n is Ask ==> n == NextV::Ask(AskV::Variable { name: "AZURE_CLIENT_ID"@ })
    &&& rs.len() == 2 && n is Ask ==> n == NextV::Ask(AskV::Variable { name: "AZURE_CLIENT_SECRET"@ })
    &&& rs.len() == 3 && n is Ask ==> (n matches NextV::Ask(AskV::Call { verb, url, load, .. }) && verb == Verb::Post && url
        == "https://login.microsoftonline.com/"@ + rs[0]->Said_0 + "/oauth2/v2.0/token"@ && load == PayloadV::Form(
        backups::form_of(seq![
            ("grant_type"@, "client_credentials"@),
            ("client_id"@, rs[1]->Said_0),
            ("client_secret"@, rs[2]->Said_0),
            ("scope"@, "https://management.azure.com/.default"@),
        ]),
    ))
    &&& rs.len() == 4 && n is Ask ==> n == NextV::Ask(
        getting("https://management.azure.com"@ + path, text_of(doc_in(rs[3]), "access_token"@)->0),
    )
}

// ── the outages ─────────────────────────────────────────────────────────────

/// What some apps are denied: they may go anywhere but to these addresses, and look names up.
pub open spec fn cut_off(apps: Seq<Doc>, ips: Seq<Seq<char>>) -> Doc {
    Doc::Obj(seq![
        (
            "podSelector"@,
            Doc::Obj(seq![(
                "matchExpressions"@,
                Doc::Arr(seq![Doc::Obj(seq![("key"@, Doc::Str("app"@)), ("operator"@, Doc::Str("In"@)), ("values"@, Doc::Arr(apps))])]),
            )]),
        ),
        ("policyTypes"@, Doc::Arr(seq![Doc::Str("Egress"@)])),
        (
            "egress"@,
            Doc::Arr(seq![
                Doc::Obj(seq![(
                    "to"@,
                    Doc::Arr(seq![Doc::Obj(seq![(
                        "ipBlock"@,
                        Doc::Obj(seq![
                            ("cidr"@, Doc::Str("0.0.0.0/0"@)),
                            ("except"@, Doc::Arr(Seq::new(ips.len(), |i: int| Doc::Str(ips[i] + "/32"@)))),
                        ]),
                    )])]),
                )]),
                Doc::Obj(seq![(
                    "ports"@,
                    Doc::Arr(seq![
                        Doc::Obj(seq![("protocol"@, Doc::Str("UDP"@)), ("port"@, Doc::Int(53))]),
                        Doc::Obj(seq![("protocol"@, Doc::Str("TCP"@)), ("port"@, Doc::Int(53))]),
                    ]),
                )]),
            ]),
        ),
    ])
}

/// With the stream cut off the work goes on exactly where a repo was made and pushed to, a change of it was opened and merged,
/// the base came to the change's own commit, the feed told of the repo, and the history answered or gave way; and the policy is
/// taken away again.
pub proof fn law_work_goes_on_without_the_stream(c: RunV, ips: Seq<char>, name: Seq<char>, log: LogV)
    ensures
        ({
            let n = outages::body_next(c, outages::BodyV::RedisDown { ips, name }, log);
            let rs = log.rs;
            let dir = work_tree(c, name);
            let remote = http_remote(c, c.probe_user, name);
            &&& n is Pass <==> {
                &&& rs.len() > 19 && !log.cut && log.us.len() > 0
                &&& went_well(rs[0]) && went_well(rs[2])
                &&& rs[3] is Said && rs[4] is Said && rs[5] is Said && rs[6] is Said && rs[7] is Said && rs[8] is Said && rs[9] is Said && rs[10] is Said
                &&& rs[11] is Said && rs[12] is Said && rs[13] is Said
                &&& went_well(rs[14]) && oid_in(doc_in(rs[14]), "slo"@) is Some && told_number(rs[15]) is Some && went_well(rs[16]) && came(rs[17])
                &&& came(rs[18]) && (went_well(rs[19]) || answered(rs[19], 503))
                &&& went_well(log.us[0])
            }
            &&& rs.len() == 1 && n is Ask ==> n == NextV::Ask(AskV::Sleep { ms: 300_000 })
            &&& rs.len() == 8 && n is Ask ==> n == NextV::Ask(git_asks(c, authed_args(c, seq!["push"@, "-q"@, remote, "main"@]), dir))
            &&& rs.len() == 13 && n is Ask ==> n == NextV::Ask(git_asks(c, authed_args(c, seq!["push"@, "-q"@, remote, "slo"@]), dir))
            &&& rs.len() == 17 && n is Ask ==> waits_until(
                n, api_at(c, "/api/"@ + c.probe_user + "/"@ + name + "/refs"@), c.probe_jwt, 120_000,
                |d: Doc| oid_in(d, "main"@) == oid_in(doc_in(rs[14]), "slo"@),
            )
            &&& rs.len() == 18 && n is Ask ==> waits_until(
                n, api_at(c, "/v1/activity?owner="@ + c.probe_user), c.probe_jwt, 150_000,
                |d: Doc| says(WantV::Created { owner: c.probe_user, name }, d),
            )
            &&& n matches NextV::Undo(u) ==> u == (AskV::Remove {
                cluster: Cluster::Home, kind: Kind::NetworkPolicy, ns: "kloudlite"@, name: "slo-drill-redis"@,
            })
        }),
        log.rs.len() == 0 ==> outages::body_next(c, outages::BodyV::RedisDown { ips, name }, log) == NextV::Ask(
            AskV::Put {
                cluster: Cluster::Home, kind: Kind::NetworkPolicy, ns: "kloudlite"@, name: "slo-drill-redis"@,
                body: Doc::Obj(seq![(
                    "spec"@,
                    cut_off(seq![Doc::Str("kloudlite"@), Doc::Str("kloudlite-worker"@), Doc::Str("kloudlite-admin"@)], parts(ips, ',')),
                )]),
            },
        ),
{
}

/// Without a history the work goes on exactly where the quota was still read, a repo was still made, and the history answered or
/// gave way; and the policy is taken away again.
pub proof fn law_work_goes_on_without_a_history(c: RunV, ips: Seq<char>, name: Seq<char>, log: LogV)
    ensures
        ({
            let n = outages::body_next(c, outages::BodyV::ClickhouseDown { ips, name }, log);
            let rs = log.rs;
            &&& n is Pass <==> {
                &&& rs.len() > 5 && !log.cut && log.us.len() > 0
                &&& went_well(rs[0]) && went_well(rs[2]) && went_well(rs[3]) && (went_well(rs[5]) || answered(rs[5], 503))
                &&& went_well(log.us[0])
            }
            &&& rs.len() == 2 && n is Ask ==> n == NextV::Ask(getting(api_at(c, "/v1/quota"@), c.probe_jwt))
            &&& rs.len() == 4 && n is Ask ==> n == NextV::Ask(deleting(api_at(c, "/v1/repos/"@ + c.probe_user + "/"@ + name), c.probe_jwt))
            &&& rs.len() == 5 && n is Ask ==> n == NextV::Ask(
                getting(admin_at(c, "/admin/history/audit_events?range=1d&step=1h"@), c.admin_jwt),
            )
            &&& n matches NextV::Undo(u) ==> u == (AskV::Remove {
                cluster: Cluster::Home, kind: Kind::NetworkPolicy, ns: "kloudlite"@, name: "slo-drill-clickhouse"@,
            })
        }),
        log.rs.len() == 0 ==> outages::body_next(c, outages::BodyV::ClickhouseDown { ips, name }, log) == NextV::Ask(
            AskV::Put {
                cluster: Cluster::Home, kind: Kind::NetworkPolicy, ns: "kloudlite"@, name: "slo-drill-clickhouse"@,
                body: Doc::Obj(seq![("spec"@, cut_off(seq![Doc::Str("kloudlite-admin"@), Doc::Str("kloudlite-api"@)], parts(ips, ',')))]),
            },
        ),
{
}

/// A host is resolved exactly where one of the lines that were printed is an address, and what is found is the addresses; that
/// policies are enforced is what was said of it.
pub proof fn law_a_host_is_resolved_to_addresses(c: RunV, host: Seq<char>, log: LogV)
    ensures
        ({
            let n = outages::body_next(c, outages::BodyV::Resolve { host }, log);
            let rs = log.rs;
            &&& n is Pass <==> rs.len() > 0 && (rs[0] matches ReplyV::Said(t) && exists|i: int|
                0 <= i < lines_of(t).len() && outages::is_ipv4(trimmed(#[trigger] lines_of(t)[i])))
            &&& n is Pass ==> outages::body_found(outages::BodyV::Resolve { host }, log) == Some(
                joined(outages::addresses(lines_of(rs[0]->Said_0)), ","@),
            )
            &&& rs.len() == 0 ==> (n matches NextV::Ask(AskV::Tool { program, argv, .. }) && program == Program::Dig && argv == seq!["+short"@, host])
        }),
        ({
            let n = outages::body_next(c, outages::BodyV::Enforced, log);
            &&& n is Pass <==> log.rs.len() > 0 && log.rs[0] is Said
            &&& log.rs.len() == 0 ==> n == NextV::Ask(AskV::Enforced)
            &&& log.rs.len() > 0 ==> (log.rs[0] matches ReplyV::Said(t) ==> outages::body_found(outages::BodyV::Enforced, log) == Some(t))
        }),
{
    if log.rs.len() > 0 && log.rs[0] is Said {
        lemma_addresses(lines_of(log.rs[0]->Said_0));
    }
}

proof fn lemma_addresses(lines: Seq<Seq<char>>)
    ensures
        outages::addresses(lines).len() > 0 <==> exists|i: int| 0 <= i < lines.len() && outages::is_ipv4(trimmed(#[trigger] lines[i])),
    decreases lines.len(),
{
    if lines.len() > 0 {
        let before = lines.drop_last();
        lemma_addresses(before);
        assert(lines[lines.len() - 1] == lines.last());
        if exists|i: int| 0 <= i < before.len() && outages::is_ipv4(trimmed(#[trigger] before[i])) {
            let i = choose|i: int| 0 <= i < before.len() && outages::is_ipv4(trimmed(#[trigger] before[i]));
            assert(lines[i] == before[i]);
        }
        if exists|i: int| 0 <= i < lines.len() && outages::is_ipv4(trimmed(#[trigger] lines[i])) {
            let i = choose|i: int| 0 <= i < lines.len() && outages::is_ipv4(trimmed(#[trigger] lines[i]));
            if i < before.len() {
                assert(before[i] == lines[i]);
            }
        }
    }
}

/// The lines that are addresses are kept, in order, and no others.
pub proof fn law_a_line_that_is_an_address_is_kept(lines: Seq<Seq<char>>, last: Seq<char>)
    ensures
        outages::addresses(lines.push(last)) == if outages::is_ipv4(trimmed(last)) { outages::addresses(lines).push(trimmed(last)) } else {
            outages::addresses(lines)
        },
        outages::addresses(Seq::<Seq<char>>::empty()).len() == 0,
{
    assert(lines.push(last).drop_last() =~= lines);
}

/// An outage is drilled only where policies are enforced, and on the addresses that its own host resolved to.
pub proof fn law_an_outage_is_of_its_own_host(c: RunV, os: Seq<OutcomeV>)
    ensures
        outages::redis_down_move(c, os) matches MoveV::Step { id, body, .. } ==> id == "drill.redis.down"@ && found_in(os[0]) == Some("true"@) && c.no_home is None && (
        body matches outages::BodyV::RedisDown { ips, name } && passed_with(os[1]) == Some(ips) && name == "run-"@ + c.run_id + "-redis"@),
        outages::clickhouse_down_move(c, os) matches MoveV::Step { id, body, .. } ==> id == "drill.clickhouse.down"@ && found_in(os[0]) == Some("true"@)
            && c.no_home is None && (body matches outages::BodyV::ClickhouseDown { ips, name } && passed_with(os[1]) == Some(ips) && name == "run-"@
            + c.run_id + "-chd"@),
        outages::redis_down_move(c, os) matches MoveV::Look { body } ==> body == outages::BodyV::Enforced || (body matches outages::BodyV::Resolve { host }
            && c.redis_host == Some(host)),
        outages::clickhouse_down_move(c, os) matches MoveV::Look { body } ==> body == outages::BodyV::Enforced || (body
            matches outages::BodyV::Resolve { host } && c.clickhouse_host == Some(host)),
{
}

/// Each backup is asked for of the account that is configured, and of the time it is.
pub proof fn law_a_backup_is_of_the_account_that_is_configured(c: RunV, now_ms: i64, os: Seq<OutcomeV>)
    ensures
        backups::tarball_age_move(c, now_ms, os) matches MoveV::Step { id, body, .. } ==> id == "bak.tarball.age"@ && c.azure is Some && body == (
        backups::BodyV::TarballAge { now_ms }),
        backups::daily_slots_move(c, now_ms, os) matches MoveV::Step { id, body, .. } ==> id == "bak.daily.slots"@ && c.azure is Some && body == (
        backups::BodyV::DailySlots { now_ms }),
        backups::versioning_move(c, os) matches MoveV::Step { id, body, .. } ==> id == "bak.versioning"@ && c.azure is Some && body == (
        backups::BodyV::Versioning {
            path: "/subscriptions/"@ + c.azure->0.subscription + "/resourceGroups/"@ + c.azure->0.resource_group
                + "/providers/Microsoft.Storage/storageAccounts/"@ + c.azure->0.storage_account + "/blobServices/default?api-version=2023-01-01"@,
            account: c.azure->0.storage_account,
        }),
        backups::cosmos_move(c, os) matches MoveV::Step { id, body, .. } ==> id == "bak.cosmos"@ && c.azure is Some && body == (backups::BodyV::Cosmos {
            path: "/subscriptions/"@ + c.azure->0.subscription + "/resourceGroups/"@ + c.azure->0.resource_group
                + "/providers/Microsoft.DocumentDB/databaseAccounts/"@ + c.azure->0.cosmos_account + "?api-version=2024-05-15"@,
            account: c.azure->0.cosmos_account,
        }),
{
}

// ── a removed member ────────────────────────────────────────────────────────

/// An object is there.
pub open spec fn is_there(r: ReplyV) -> bool {
    went_well(r)
}

/// The volume a workspace is on: the one its object names, or the one of its own name.
pub open spec fn volume_named(ws: Seq<char>, r: ReplyV) -> Seq<char> {
    match doc_str(member2(doc_in(r), "status"@, "volumeRef"@)) {
        Some(v) => if went_well(r) && v.len() > 0 { v } else { ws },
        None => ws,
    }
}

/// A removal is prepared exactly where the team was made, the member joined, their bench was made and became ready, and their
/// workspace was made, became ready, and was pushed, with the push ready on its own volume.
pub proof fn law_a_removal_is_prepared_step_by_step(c: RunV, team: Seq<char>, log: LogV)
    ensures
        ({
            let n = removed::body_next(c, removed::BodyV::Prepare { team }, log);
            let rs = log.rs;
            let token = text_of(doc_in(rs[1]), "token"@);
            let ws = one_made(rs[5]);
            &&& n is Pass <==> {
                &&& rs.len() > 9 && went_well(rs[0]) && went_well(rs[1]) && token is Some && token->0.len() > 0
                &&& went_well(rs[2]) && went_well(rs[3]) && came(rs[4]) && made_one(rs[5]) && came(rs[6]) && made_one(rs[8]) && came(rs[9])
            }
            &&& rs.len() == 2 && n is Ask ==> n == NextV::Ask(posting(api_at(c, "/v1/invites/"@ + token->0 + "/accept"@), c.other_jwt, Doc::Null))
            &&& rs.len() == 4 && n is Ask ==> waits_until(
                n, api_at(c, "/v1/bench?team="@ + team), c.other_jwt, 300_000, |d: Doc| member(d, "phase"@) == Some(Doc::Str("ready"@)),
            )
            &&& rs.len() == 6 && n is Ask ==> waits_until(
                n, api_at(c, "/v1/workspaces/"@ + ws), c.other_jwt, 300_000, |d: Doc| member(d, "state"@) == Some(Doc::Str("ready"@)),
            )
            &&& rs.len() == 9 && n is Ask ==> waits_until(
                n, api_at(c, "/v1/volumes/"@ + volume_named(ws, rs[7]) + "/history"@), c.other_jwt, 300_000,
                |d: Doc| says(WantV::RowReady { id: one_made(rs[8]) }, d),
            )
            &&& removed::prep_in(rs) matches Some(p) ==> p.ws == ws && p.snap == one_made(rs[8]) && p.volume == volume_named(ws, rs[7])
        }),
{
}

/// A member is removed exactly where the removal was taken, the mark came onto their bench, and the deletion was asked for;
/// deletes are off only where it was answered so.
pub proof fn law_a_removal_is_marked_and_asked_for(c: RunV, team: Seq<char>, bench: Seq<char>, log: LogV)
    ensures
        ({
            let n = removed::body_next(c, removed::BodyV::Remove { team, bench }, log);
            let rs = log.rs;
            let found = removed::body_found(removed::BodyV::Remove { team, bench }, log);
            &&& n is Pass <==> rs.len() > 2 && went_well(rs[0]) && came(rs[1]) && went_well(rs[2])
            &&& rs.len() == 0 ==> n == NextV::Ask(deleting(api_at(c, "/v1/teams/"@ + team + "/members/"@ + c.other_email), c.probe_jwt))
            &&& rs.len() == 1 && n is Ask ==> n == NextV::Ask(AskV::Wait(WaitV::Marked { bench, key: c.removed_at, cap_ms: 600_000 }))
            &&& rs.len() == 2 && n is Ask ==> n == NextV::Ask(
                posting(
                    api_at(c, "/v1/teams/"@ + team + "/members/"@ + c.other_user + "/delete-now"@), c.admin_jwt,
                    Doc::Obj(seq![("person"@, Doc::Str(c.other_user)), ("team"@, Doc::Str(team))]),
                ),
            )
            &&& n is Pass ==> (found == Some("off"@) <==> doc_bool(member(doc_in(rs[2]), "deletes_enabled"@)) == Some(false))
            &&& n is Pass ==> found == Some("off"@) || found == Some("on"@)
        }),
{
    reveal_strlit("on");
    reveal_strlit("off");
    assert("on"@.len() != "off"@.len());
}

/// An object carries a mark of the api's own that is a time, and one that has come.
pub open spec fn is_due_by(r: ReplyV, key: Seq<char>, now_secs: i64, now_nanos: u32) -> bool {
    is_there(r) && (doc_str(member2(doc_in(r), "systemAnnotations"@, key)) matches Some(at) && (instant_of(at) matches Some((secs, nanos)) && (secs < now_secs || (
    secs == now_secs && nanos <= now_nanos))))
}

/// With deletes off a removal is right exactly where the bench and the workspace are both still there and both due, and both
/// steps of it are in the audit.
pub proof fn law_with_deletes_off_all_is_there_and_due(
    c: RunV, team: Seq<char>, bench: Seq<char>, ws: Seq<char>, now_secs: i64, now_nanos: u32, log: LogV,
)
    ensures
        ({
            let n = removed::body_next(c, removed::BodyV::MarkedDue { team, bench, ws, now_secs, now_nanos }, log);
            let rs = log.rs;
            &&& n is Pass <==> {
                &&& rs.len() > 3 && is_due_by(rs[0], c.delete_after, now_secs, now_nanos) && is_due_by(rs[1], c.delete_after, now_secs, now_nanos)
                &&& came(rs[2]) && came(rs[3])
            }
            &&& rs.len() == 0 ==> n == NextV::Ask(AskV::Read { cluster: Cluster::Fleet, kind: Kind::Bench, ns: ""@, name: bench })
            &&& rs.len() == 1 && n is Ask ==> n == NextV::Ask(AskV::Read { cluster: Cluster::Fleet, kind: Kind::Workspace, ns: ""@, name: ws })
            &&& rs.len() == 2 && n is Ask ==> waits_until(
                n, admin_at(c, "/admin/audit?action="@ + "member.removed.judged"@ + "&target="@ + team + "%2F"@ + c.other_user), c.admin_jwt, 30_000,
                |d: Doc| says(WantV::Rows, d),
            )
            &&& rs.len() == 3 && n is Ask ==> waits_until(
                n, admin_at(c, "/admin/audit?action="@ + "member.removed.delete_now"@ + "&target="@ + team + "%2F"@ + c.other_user), c.admin_jwt,
                30_000, |d: Doc| says(WantV::Rows, d),
            )
        }),
{
}

/// With deletes on a removal is right exactly where what was theirs went and what they pushed stayed, both steps of it are in
/// the audit, and the person, asked back in, finds no bench.
pub proof fn law_with_deletes_on_the_person_starts_anew(
    c: RunV, team: Seq<char>, bench: Seq<char>, ws: Seq<char>, volume: Seq<char>, snap: Seq<char>, log: LogV,
)
    ensures
        ({
            let n = removed::body_next(c, removed::BodyV::Collected { team, bench, ws, volume, snap }, log);
            let rs = log.rs;
            let token = text_of(doc_in(rs[3]), "token"@);
            &&& n is Pass <==> {
                &&& rs.len() > 5 && came(rs[0]) && came(rs[1]) && came(rs[2]) && went_well(rs[3]) && token is Some && token->0.len() > 0 && went_well(
                    rs[4],
                )
                &&& answered(rs[5], 404) && (rs[5] matches ReplyV::Answer { text, .. } && holds(text, "no bench"@))
            }
            &&& rs.len() == 0 ==> n == NextV::Ask(
                AskV::Wait(WaitV::Cleaned { bench, ws, volume, snap, owner: c.other_user, team, cap_ms: 660_000 }),
            )
            &&& rs.len() == 4 && n is Ask ==> n == NextV::Ask(posting(api_at(c, "/v1/invites/"@ + token->0 + "/accept"@), c.other_jwt, Doc::Null))
            &&& rs.len() == 5 && n is Ask ==> n == NextV::Ask(getting(api_at(c, "/v1/bench?team="@ + team), c.other_jwt))
        }),
{
}

/// What was made for a removal is taken away as the member who made it, the workspace before the snapshot it stands on; and the
/// team with its members.
pub proof fn law_a_removals_own_objects_go(c: RunV, team: Seq<char>, ws: Seq<char>, volume: Seq<char>, snap: Seq<char>, why: Seq<char>, log: LogV)
    ensures
        ({
            let n = removed::body_next(c, removed::BodyV::TeardownPrep { ws, volume, snap }, log);
            &&& log.rs.len() == 0 ==> n == NextV::Ask(deleting(api_at(c, "/v1/workspaces/"@ + ws), c.other_jwt))
            &&& log.rs.len() == 1 ==> n == NextV::Ask(
                AskV::Wait(WaitV::Away { url: api_at(c, "/v1/workspaces/"@ + ws), token: c.other_jwt, cap_ms: 60_000 }),
            )
            &&& log.rs.len() == 2 ==> n == NextV::Ask(deleting(api_at(c, "/v1/volumes/"@ + volume + "/snapshots/"@ + snap), c.other_jwt))
            &&& log.rs.len() > 2 ==> n is Pass
        }),
        ({
            let n = removed::body_next(c, removed::BodyV::TeardownTeam { team }, log);
            &&& n is Pass <==> log.rs.len() > 2 && went_well(log.rs[1])
            &&& log.rs.len() == 0 ==> n == NextV::Ask(deleting(api_at(c, "/v1/teams/"@ + team + "/members/"@ + c.other_email), c.probe_jwt))
            &&& log.rs.len() == 1 ==> n == NextV::Ask(deleting(api_at(c, "/v1/teams/"@ + team), c.probe_jwt))
            &&& log.rs.len() == 2 && n is Ask ==> n == NextV::Ask(AskV::DropMembers { team })
        }),
        removed::body_next(c, removed::BodyV::Doomed { why }, log) == NextV::Fail(why),
{
}

/// A removal is judged by whether deletes are on, and on what was prepared for it.
pub proof fn law_a_removal_is_judged_by_whether_deletes_are_on(
    c: RunV, bench: Seq<char>, now_secs: i64, now_nanos: u32, prep: Option<PrepV>, os: Seq<OutcomeV>,
)
    ensures
        ({
            let team = "run-"@ + c.run_id + "-rmv"@;
            removed::member_removed_move(c, bench, now_secs, now_nanos, prep, os) matches MoveV::Step { id, body, .. } ==> {
                &&& id == "team.member.removed.cleanup"@ && c.has_kube
                &&& body is Collected ==> prep is Some && passed_with(os[1]) == Some("on"@) && body == (removed::BodyV::Collected {
                    team, bench, ws: prep->0.ws, volume: prep->0.volume, snap: prep->0.snap,
                })
                &&& body is MarkedDue ==> prep is Some && passed(os[1]) && passed_with(os[1]) != Some("on"@) && body == (removed::BodyV::MarkedDue {
                    team, bench, ws: prep->0.ws, now_secs, now_nanos,
                })
                &&& body is Collected || body is MarkedDue || body is Doomed
                &&& body is Doomed ==> prep is None || passed_with(os[1]) is None
            }
        }),
{
}

} // verus!
